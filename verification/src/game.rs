//! The parts of the game that move with every frame.

pub mod frame;
