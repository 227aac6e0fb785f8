//! A falling-block puzzle engine: the shape table of the seven tetrominoes and a board
//! engine that validates placements, applies gravity and player intents, locks pieces
//! into the grid and spawns the next one.

pub mod engine;
pub mod shapes;
