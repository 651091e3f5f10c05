//! A procedurally generated island tile world.
//!
//! The crate grows an irregular land mass on a grid with a seeded random
//! walk, closes single-cell gaps, resolves edge and corner sprites from
//! neighbour occupancy, and stacks the resulting layers over an ocean
//! background into a queryable world: per-layer tile lookup, a collision
//! predicate, and viewport culling.

pub mod beach;
pub mod blob;
pub mod catalog;
pub mod classify;
pub mod gapfill;
pub mod geom;
pub mod grass;
pub mod laws;
pub mod layer;
pub mod grid;
pub mod ocean;
pub mod rng;
pub mod tileset;
pub mod world_map;

pub use tileset::TileIndex;
pub use world_map::WorldMap;
