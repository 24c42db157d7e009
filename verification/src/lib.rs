//! Core logic of a tile-based cave-mining puzzle game: decoders for the
//! game's binary asset formats (high-score table, palette, tile atlas,
//! level map), the catalog that maps raw tile indices to game objects and
//! back, and the per-tick level simulation.
//!
//! Everything here works on plain in-memory values; reading asset files
//! and rendering are left to the surrounding program.

pub mod decimal;
pub mod high_score_table;
pub mod level;
pub mod objects;
pub mod palette;
pub mod simulation;
pub mod tiles;
