//! A verified library for inspecting chess positions given in
//! Forsyth–Edwards Notation (FEN).
//!
//! The library splits a FEN string into its six fields, checks each field
//! against its expected alphabet, translates placement characters into
//! display glyphs, builds the 8x8 board model, and lays the board out as a
//! text grid. Rendering to a window and all other I/O live outside the
//! library.

pub mod pieces;
pub mod split;
pub mod board;
pub mod validate;
pub mod grid;
pub mod render;
pub mod report;
