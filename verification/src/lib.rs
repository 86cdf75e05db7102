//! Procedural map generation for a tile-based world.
//!
//! Every scalar the generator works with (noise outputs, wave amplitudes and
//! frequencies, biome thresholds) is a fixed-point integer counted in
//! millionths, see [`biomes::UNIT`]. Layered noise outputs are blended into
//! height, moisture and heat, each cell is classified into the nearest
//! admissible biome, and the classified grid is turned into placed tiles.

pub mod biomes;
pub mod game_world;
pub mod map_generation;
pub mod noise_field;
mod random;
pub mod tileset;
