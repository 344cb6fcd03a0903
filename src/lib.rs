//! Terrain grids sampled from elevation maps, bounded tweens for speeds, and
//! the planning of a tick of player controls.
pub mod controls;
pub mod helper;
pub mod mesh;
