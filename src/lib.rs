//! Board geometry and pointer picking for a Xiangqi (Chinese chess) board.
//!
//! World coordinates are held as integers in tenths of a pixel, so that the
//! board scale factor of 0.60 and the river gap are represented exactly.

pub mod board;
pub mod geometry;
pub mod picking;
