//! Telling apart the sets of data files that the game can run on.

use vstd::prelude::*;

verus! {

/// The file that only the data of Cave Story+ holds.
pub const NICALIS_BMP: &'static str = "/base/Nicalis.bmp";

/// A file of the data of CSE2E.
pub const MRMAP_BIN: &'static str = "/mrmap.bin";

/// Another file of the data of CSE2E.
pub const FONT: &'static str = "/Font/font";

/// A file of the data of NXEngine-evo.
pub const STAGE_DAT: &'static str = "/stage.dat";

/// Another file of the data of NXEngine-evo.
pub const SPRITES_SIF: &'static str = "/sprites.sif";

/// Which of the telling files a resource directory holds.
#[derive(Debug, Clone, Copy, PartialEq, Eq, Structural)]
pub struct DataProbe {
    /// Whether `NICALIS_BMP` is there.
    pub nicalis_bmp: bool,
    /// Whether `MRMAP_BIN` is there.
    pub mrmap_bin: bool,
    /// Whether `FONT` is there.
    pub font: bool,
    /// Whether `STAGE_DAT` is there.
    pub stage_dat: bool,
    /// Whether `SPRITES_SIF` is there.
    pub sprites_sif: bool,
}

/// A set of data files.
#[derive(Debug, Clone, Copy, PartialEq, Eq, Structural)]
pub enum DataFiles {
    CaveStoryPlus,
    Cse2e,
    NxEngineEvo,
    /// None of the sets that have a telling file.
    Plain,
}

impl DataFiles {
    /// The set that a probe points to. Cave Story+ goes before CSE2E, and
    /// CSE2E before NXEngine-evo, where files of several are there.
    pub open spec fn of(probe: DataProbe) -> DataFiles {
        if probe.nicalis_bmp {
            DataFiles::CaveStoryPlus
        } else if probe.mrmap_bin || probe.font {
            DataFiles::Cse2e
        } else if probe.stage_dat || probe.sprites_sif {
            DataFiles::NxEngineEvo
        } else {
            DataFiles::Plain
        }
    }

    /// Tells the set of data files from what a probe found.
    pub fn detect(probe: &DataProbe) -> (files: DataFiles)
        ensures
            files == DataFiles::of(*probe),
    {
        if probe.nicalis_bmp {
            DataFiles::CaveStoryPlus
        } else if probe.mrmap_bin || probe.font {
            DataFiles::Cse2e
        } else if probe.stage_dat || probe.sprites_sif {
            DataFiles::NxEngineEvo
        } else {
            DataFiles::Plain
        }
    }

    /// The directory that the files of this set are looked up under: `/base/`
    /// for Cave Story+, the root for every other.
    pub fn base_path(&self) -> (path: &'static str)
        ensures
            path@ == if *self == DataFiles::CaveStoryPlus {
                "/base/"@
            } else {
                "/"@
            },
    {
        match self {
            DataFiles::CaveStoryPlus => "/base/",
            _ => "/",
        }
    }
}

} // verus!
