//! Terrain lifecycle core for a tile-based world.
//!
//! The crate manages committed terrain tiles, ghost/preview overlays that
//! visualize pending terraforming edits, and the spatial index that keeps
//! tile state consistent while a queue of deferred commands mutates the
//! shared entity store in strict submission order.

pub mod actions;
pub mod assets;
pub mod commands;
pub mod geometry;
pub mod index;
pub mod laws;
pub mod templates;
pub mod world;
