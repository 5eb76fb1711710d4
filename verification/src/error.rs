//! The failure vocabulary shared by the decoders and their callers.

use std::sync::Arc;
use vstd::prelude::*;
use vstd::std_specs::convert::FromSpecImpl;

verus! {

/// `std::io::Error`, carried through as it came: nothing is known of what it
/// holds.
#[verifier::external_type_specification]
#[verifier::external_body]
pub struct ExIoError(std::io::Error);

/// Why a load gave no value.
#[derive(Debug)]
pub enum GameError {
    /// The leading tag bytes are not those of the expected format.
    InvalidMagic,
    /// The version byte is not one the format accepts; it is carried along.
    UnsupportedVersion(u8),
    /// The bytes end before a field that the format requires.
    TruncatedData,
    /// The source of the bytes failed; the cause is kept.
    IOError(Arc<std::io::Error>),
}

/// What the fallible operations of this crate return.
pub type GameResult<T = ()> = Result<T, GameError>;

impl Clone for GameError {
    fn clone(&self) -> (copy: GameError)
        ensures
            copy == *self,
    {
        match self {
            GameError::InvalidMagic => GameError::InvalidMagic,
            GameError::UnsupportedVersion(version) => GameError::UnsupportedVersion(*version),
            GameError::TruncatedData => GameError::TruncatedData,
            GameError::IOError(e) => GameError::IOError(e.clone()),
        }
    }
}

impl From<std::io::Error> for GameError {
    fn from(e: std::io::Error) -> (err: GameError) {
        GameError::IOError(Arc::new(e))
    }
}

impl FromSpecImpl<std::io::Error> for GameError {
    open spec fn obeys_from_spec() -> bool {
        true
    }

    open spec fn from_spec(e: std::io::Error) -> GameError {
        GameError::IOError(Arc::new(e))
    }
}

} // verus!
