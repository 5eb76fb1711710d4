//! The tile grid of a stage, its attribute table, and the records that place
//! entities on it, each decoded from its binary stream.
//!
//! Both streams open alike: a tag of three bytes, a version byte, and four
//! bytes of sizes. All numbers are little-endian.

use crate::error::GameError;
use crate::le::{i16_le, read_i16, read_u16, read_u32, u16_le, u32_le};
use vstd::prelude::*;
use vstd::slice::{slice_subrange, slice_to_vec};

verus! {

/// The tag that opens a tile-grid stream: the ASCII letters `PXM`.
pub const PXM_MAGIC: [u8; 3] = [0x50, 0x58, 0x4D];

/// The tag that opens an entity stream: the ASCII letters `PXE`.
pub const PXE_MAGIC: [u8; 3] = [0x50, 0x58, 0x45];

/// The versions of the tile-grid layout that are understood.
pub const SUPPORTED_PXM_VERSIONS: [u8; 1] = [0x10];

/// The versions of the entity layout that are understood.
pub const SUPPORTED_PXE_VERSIONS: [u8; 2] = [0, 0x10];

/// The version byte of the entity layout without a layer byte.
pub const VERSION_LEGACY: u8 = 0;

/// The version byte of the entity layout with a layer byte, and of the one
/// tile-grid layout.
pub const VERSION_CURRENT: u8 = 0x10;

/// Bytes before the payload of either stream.
pub const HEADER_LEN: usize = 8;

/// Entries in an attribute table: one for each value of a tile byte.
pub const ATTRIB_LEN: usize = 256;

/// The identifier of the first record of an entity stream. The values below
/// it belong to entities that no stream holds.
pub const BASE_ID: u64 = 170;

/// What the first four bytes of a stream say, given the tag it should open
/// with: the version byte, or why there is none.
pub open spec fn spec_header(data: Seq<u8>, magic: Seq<u8>) -> Result<u8, GameError> {
    if data.len() < 3 {
        Err(GameError::TruncatedData)
    } else if data.subrange(0, 3) != magic {
        Err(GameError::InvalidMagic)
    } else if data.len() < 4 {
        Err(GameError::TruncatedData)
    } else {
        Ok(data[3])
    }
}

/// Reads tag and version byte off the front of `data`.
fn read_header(data: &[u8], magic: [u8; 3]) -> (res: Result<u8, GameError>)
    ensures
        res == spec_header(data@, magic@),
{
    if data.len() < 3 {
        return Err(GameError::TruncatedData);
    }
    if data[0] != magic[0] || data[1] != magic[1] || data[2] != magic[2] {
        assert(data@.subrange(0, 3) != magic@) by {
            let head = data@.subrange(0, 3);
            assert(head[0] != magic@[0] || head[1] != magic@[1] || head[2] != magic@[2]);
        }
        return Err(GameError::InvalidMagic);
    }
    assert(data@.subrange(0, 3) =~= magic@);
    if data.len() < 4 {
        return Err(GameError::TruncatedData);
    }
    Ok(data[3])
}

/// Whether `version` is among `supported`.
pub(crate) fn is_supported(version: u8, supported: &[u8]) -> (found: bool)
    ensures
        found == supported@.contains(version),
{
    let mut i: usize = 0;
    while i < supported.len()
        invariant
            i <= supported@.len(),
            forall|k: int| 0 <= k < i ==> supported@[k] != version,
        decreases supported@.len() - i,
    {
        if supported[i] == version {
            return true;
        }
        i += 1;
    }
    false
}

/// The 16-bit value at `at`, least significant byte first.
fn u16_at(data: &[u8], at: usize) -> (v: u16)
    requires
        at + 2 <= data@.len(),
    ensures
        v as int == u16_le(data@, at as int),
{
    let len: usize = data.len();
    read_u16(slice_subrange(data, at, at + 2))
}

/// The signed 16-bit value at `at`, least significant byte first.
fn i16_at(data: &[u8], at: usize) -> (v: i16)
    requires
        at + 2 <= data@.len(),
    ensures
        v as int == i16_le(data@, at as int),
{
    let len: usize = data.len();
    read_i16(slice_subrange(data, at, at + 2))
}

/// The 32-bit value at `at`, least significant byte first.
fn u32_at(data: &[u8], at: usize) -> (v: u32)
    requires
        at + 4 <= data@.len(),
    ensures
        v as int == u32_le(data@, at as int),
{
    let len: usize = data.len();
    read_u32(slice_subrange(data, at, at + 4))
}

/// A rectangular grid of tile bytes with the table that gives each tile
/// value its attribute.
#[derive(Debug)]
pub struct TileMap {
    /// Tiles per row.
    pub width: usize,
    /// Number of rows.
    pub height: usize,
    /// The tiles, row by row from the top left.
    pub tiles: Vec<u8>,
    /// The attribute of each tile value.
    pub attrib: [u8; 256],
}

/// A tile map as mathematics sees it.
pub struct TileMapView {
    /// Tiles per row.
    pub width: nat,
    /// Number of rows.
    pub height: nat,
    /// The tiles, row by row from the top left.
    pub tiles: Seq<u8>,
    /// The attribute of each tile value.
    pub attrib: Seq<u8>,
}

impl TileMapView {
    /// The grid holds one tile per cell and the table one entry per tile
    /// value.
    pub open spec fn wf(self) -> bool {
        &&& self.tiles.len() == self.width * self.height
        &&& self.attrib.len() == 256
    }

    /// The tile that a position resolves to: the one at the linear index
    /// `width * y + x` where the tiles reach that far, the empty tile where
    /// they do not.
    pub open spec fn tile_at(self, x: int, y: int) -> u8 {
        let index = self.width * y + x;
        if 0 <= index < self.tiles.len() {
            self.tiles[index]
        } else {
            0u8
        }
    }

    /// The attribute of the tile that a position resolves to.
    pub open spec fn attribute_at(self, x: int, y: int) -> u8 {
        self.attrib[self.tile_at(x, y) as int]
    }
}

impl View for TileMap {
    type V = TileMapView;

    open spec fn view(&self) -> TileMapView {
        TileMapView {
            width: self.width as nat,
            height: self.height as nat,
            tiles: self.tiles@,
            attrib: self.attrib@,
        }
    }
}

/// The attribute table that a stream of attribute bytes fills: its bytes in
/// order as far as they go, zero from there on, and nothing past the table's
/// end.
pub open spec fn attrib_table(attrib_data: Seq<u8>) -> Seq<u8> {
    Seq::new(
        256,
        |i: int|
            if i < attrib_data.len() {
                attrib_data[i]
            } else {
                0u8
            },
    )
}

/// Whether a tile-grid stream may carry this version byte.
pub open spec fn pxm_version_supported(version: u8) -> bool {
    SUPPORTED_PXM_VERSIONS@.contains(version)
}

/// What a tile-grid stream and an attribute stream decode to.
///
/// The grid stream is tag, version, width and height as 16-bit numbers, then
/// `width * height` tile bytes; anything after them is not looked at. The
/// attribute stream cannot make the decode fail.
pub open spec fn decode_map(map_data: Seq<u8>, attrib_data: Seq<u8>) -> Result<
    TileMapView,
    GameError,
> {
    match spec_header(map_data, PXM_MAGIC@) {
        Err(e) => Err(e),
        Ok(version) => {
            if !pxm_version_supported(version) {
                Err(GameError::UnsupportedVersion(version))
            } else if map_data.len() < 8 {
                Err(GameError::TruncatedData)
            } else {
                let width = u16_le(map_data, 4);
                let height = u16_le(map_data, 6);
                if map_data.len() < 8 + width * height {
                    Err(GameError::TruncatedData)
                } else {
                    Ok(
                        TileMapView {
                            width: width as nat,
                            height: height as nat,
                            tiles: map_data.subrange(8, 8 + width * height),
                            attrib: attrib_table(attrib_data),
                        },
                    )
                }
            }
        },
    }
}

/// The outcome of a tile-map decode with the map replaced by its view.
pub open spec fn map_outcome(res: Result<TileMap, GameError>) -> Result<TileMapView, GameError> {
    match res {
        Ok(map) => Ok(map@),
        Err(e) => Err(e),
    }
}

/// Fills an attribute table from the front of `attrib_data`.
fn load_attrib(attrib_data: &[u8]) -> (attrib: [u8; 256])
    ensures
        attrib@ == attrib_table(attrib_data@),
{
    let mut attrib: [u8; 256] = [0u8; 256];
    let n: usize = if attrib_data.len() < ATTRIB_LEN {
        attrib_data.len()
    } else {
        ATTRIB_LEN
    };
    let mut i: usize = 0;
    while i < n
        invariant
            i <= n <= 256,
            n <= attrib_data@.len(),
            n == attrib_data@.len() || n == 256,
            forall|k: int| 0 <= k < i ==> attrib@[k] == attrib_data@[k],
            forall|k: int| i <= k < 256 ==> attrib@[k] == 0u8,
        decreases n - i,
    {
        attrib[i] = attrib_data[i];
        i += 1;
    }
    attrib
}

impl TileMap {
    /// The grid holds exactly one tile per cell.
    pub open spec fn wf(&self) -> bool {
        self@.wf()
    }

    /// Decodes a tile map from its grid stream and its attribute stream.
    ///
    /// The grid stream must be whole: a wrong tag, a version that is not
    /// supported, or an end before the last tile is an error. The attribute
    /// stream may stop early; the entries it does not reach stay zero.
    pub fn load_from(map_data: &[u8], attrib_data: &[u8]) -> (res: Result<TileMap, GameError>)
        ensures
            map_outcome(res) == decode_map(map_data@, attrib_data@),
            res matches Ok(map) ==> map.wf(),
    {
        let version: u8 = match read_header(map_data, PXM_MAGIC) {
            Ok(v) => v,
            Err(e) => {
                return Err(e);
            },
        };
        if !is_supported(version, SUPPORTED_PXM_VERSIONS.as_slice()) {
            return Err(GameError::UnsupportedVersion(version));
        }
        if map_data.len() < HEADER_LEN {
            return Err(GameError::TruncatedData);
        }
        let width: u16 = u16_at(map_data, 4);
        let height: u16 = u16_at(map_data, 6);
        assert(width * height <= 0xFFFF * 0xFFFF) by (nonlinear_arith)
            requires
                width <= 0xFFFF,
                height <= 0xFFFF,
        ;
        let cells: u64 = (width as u64) * (height as u64);
        if ((map_data.len() - HEADER_LEN) as u64) < cells {
            return Err(GameError::TruncatedData);
        }
        let tiles: Vec<u8> = slice_to_vec(
            slice_subrange(map_data, HEADER_LEN, HEADER_LEN + cells as usize),
        );
        let attrib: [u8; 256] = load_attrib(attrib_data);
        Ok(TileMap { width: width as usize, height: height as usize, tiles, attrib })
    }

    /// How many entries of the attribute table a stream of attribute bytes
    /// leaves unfilled. Where this is not zero the stream was short, which a
    /// caller may want to report: the decode itself goes through.
    pub fn missing_attributes(attrib_data: &[u8]) -> (missing: usize)
        ensures
            missing == if attrib_data@.len() < 256 {
                256 - attrib_data@.len()
            } else {
                0
            },
    {
        if attrib_data.len() < ATTRIB_LEN {
            ATTRIB_LEN - attrib_data.len()
        } else {
            0
        }
    }

    /// The attribute of the tile at column `x` of row `y`.
    ///
    /// A position whose linear index lies past the tiles counts as the empty
    /// tile, so every position has an attribute.
    pub fn get_attribute(&self, x: usize, y: usize) -> (attr: u8)
        ensures
            attr == self@.attribute_at(x as int, y as int),
    {
        let len: usize = self.tiles.len();
        let tile: u8 = match self.width.checked_mul(y) {
            Some(row_start) => match row_start.checked_add(x) {
                Some(index) => if index < len {
                    self.tiles[index]
                } else {
                    0
                },
                None => 0,
            },
            None => 0,
        };
        self.attrib[tile as usize]
    }
}

/// Where and how one entity is placed.
#[derive(Debug, Clone, Copy, PartialEq, Eq, Structural)]
pub struct NPCData {
    /// `BASE_ID` plus the record's place in its stream. Wide enough for every
    /// count a stream can state, so identifiers never wrap.
    pub id: u64,
    /// Where the entity stands, in the units of the stream.
    pub x: i16,
    pub y: i16,
    /// The flag that tells whether the entity is there.
    pub flag_num: u16,
    /// The event that the entity starts.
    pub event_num: u16,
    /// What kind of entity this is.
    pub npc_type: u16,
    /// Bits that change how the entity appears and behaves.
    pub flags: u16,
    /// Zero where the stream's version carries no layer byte.
    pub layer: u8,
}

/// Whether an entity stream may carry this version byte.
pub open spec fn pxe_version_supported(version: u8) -> bool {
    SUPPORTED_PXE_VERSIONS@.contains(version)
}

/// Bytes that one record takes in a stream of the given version: six 16-bit
/// fields, and the layer byte where the version has one.
pub open spec fn record_len(version: u8) -> int {
    if version == VERSION_CURRENT {
        13
    } else {
        12
    }
}

/// The record whose first byte is `data[at]`, as the `index`-th of its stream.
pub open spec fn record_from(data: Seq<u8>, at: int, version: u8, index: int) -> NPCData {
    NPCData {
        id: (BASE_ID + index) as u64,
        x: i16_le(data, at) as i16,
        y: i16_le(data, at + 2) as i16,
        flag_num: u16_le(data, at + 4) as u16,
        event_num: u16_le(data, at + 6) as u16,
        npc_type: u16_le(data, at + 8) as u16,
        flags: u16_le(data, at + 10) as u16,
        layer: if version == VERSION_CURRENT {
            data[at + 12]
        } else {
            0u8
        },
    }
}

/// The `index`-th record of an entity stream of the given version.
pub open spec fn record_at(data: Seq<u8>, version: u8, index: int) -> NPCData {
    record_from(data, 8 + index * record_len(version), version, index)
}

/// What an entity stream decodes to.
///
/// The stream is tag, version, a 32-bit record count, then that many records
/// back to back; anything after them is not looked at.
pub open spec fn decode_entities(data: Seq<u8>) -> Result<Seq<NPCData>, GameError> {
    match spec_header(data, PXE_MAGIC@) {
        Err(e) => Err(e),
        Ok(version) => {
            if !pxe_version_supported(version) {
                Err(GameError::UnsupportedVersion(version))
            } else if data.len() < 8 {
                Err(GameError::TruncatedData)
            } else {
                let count = u32_le(data, 4);
                if data.len() < 8 + count * record_len(version) {
                    Err(GameError::TruncatedData)
                } else {
                    Ok(Seq::new(count as nat, |i: int| record_at(data, version, i)))
                }
            }
        },
    }
}

/// The outcome of an entity decode with the vector replaced by its view.
pub open spec fn entities_outcome(res: Result<Vec<NPCData>, GameError>) -> Result<
    Seq<NPCData>,
    GameError,
> {
    match res {
        Ok(npcs) => Ok(npcs@),
        Err(e) => Err(e),
    }
}

/// Reads the record that starts at `at`.
fn read_record(data: &[u8], at: usize, version: u8, index: usize) -> (npc: NPCData)
    requires
        at + record_len(version) <= data@.len(),
        BASE_ID + index <= u64::MAX,
    ensures
        npc == record_from(data@, at as int, version, index as int),
{
    let len: usize = data.len();
    let x: i16 = i16_at(data, at);
    let y: i16 = i16_at(data, at + 2);
    let flag_num: u16 = u16_at(data, at + 4);
    let event_num: u16 = u16_at(data, at + 6);
    let npc_type: u16 = u16_at(data, at + 8);
    let flags: u16 = u16_at(data, at + 10);
    let layer: u8 = if version == VERSION_CURRENT {
        data[at + 12]
    } else {
        0
    };
    NPCData { id: BASE_ID + index as u64, x, y, flag_num, event_num, npc_type, flags, layer }
}

impl NPCData {
    /// Decodes the records of an entity stream, in the order the stream holds
    /// them.
    ///
    /// A wrong tag, a version that is not supported, or an end before the
    /// last byte of the last record is an error, and then no record is
    /// returned.
    pub fn load_from(data: &[u8]) -> (res: Result<Vec<NPCData>, GameError>)
        ensures
            entities_outcome(res) == decode_entities(data@),
    {
        let version: u8 = match read_header(data, PXE_MAGIC) {
            Ok(v) => v,
            Err(e) => {
                return Err(e);
            },
        };
        if !is_supported(version, SUPPORTED_PXE_VERSIONS.as_slice()) {
            return Err(GameError::UnsupportedVersion(version));
        }
        if data.len() < HEADER_LEN {
            return Err(GameError::TruncatedData);
        }
        let stated: u32 = u32_at(data, 4);
        let record: usize = if version == VERSION_CURRENT {
            13
        } else {
            12
        };
        if ((data.len() - HEADER_LEN) as u64) < (stated as u64) * (record as u64) {
            return Err(GameError::TruncatedData);
        }
        let count: usize = stated as usize;
        let mut npcs: Vec<NPCData> = Vec::with_capacity(count);
        let mut i: usize = 0;
        let mut at: usize = HEADER_LEN;
        while i < count
            invariant
                i <= count,
                record == record_len(version),
                at == 8 + i * record,
                8 + count * record <= data@.len(),
                npcs@.len() == i,
                forall|k: int| 0 <= k < i ==> npcs@[k] == record_at(data@, version, k),
            decreases count - i,
        {
            assert(at + record <= 8 + count * record) by (nonlinear_arith)
                requires
                    at == 8 + i * record,
                    i < count,
            ;
            let len: usize = data.len();
            let npc: NPCData = read_record(data, at, version, i);
            npcs.push(npc);
            i += 1;
            at += record;
            assert(at == 8 + i * record) by (nonlinear_arith)
                requires
                    at == 8 + (i - 1) * record + record,
            ;
        }
        assert(npcs@ =~= Seq::new(count as nat, |i: int| record_at(data@, version, i)));
        Ok(npcs)
    }
}

} // verus!
