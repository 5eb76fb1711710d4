//! Decoders for the world data of a tile-based stage, and the small pieces of
//! engine state that sit next to them.

pub mod context;
pub mod data;
pub mod encode;
pub mod error;
pub mod game;
pub mod laws;
pub mod le;
pub mod map;
pub mod renderer;
pub mod state;
