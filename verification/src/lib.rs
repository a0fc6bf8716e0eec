//! Game-state engine for a falling-block puzzle game: the playfield, the
//! rotating pieces, and the geometric rules that decide whether a piece may
//! occupy, move into, or merge with the playfield.

pub mod board;
pub mod color;
pub mod coordinate;
pub mod gravity;
pub mod grid;
pub mod rotation;
pub mod tetrominoes;
