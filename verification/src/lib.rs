//! Core simulation for a single-character 2D side-scroller: per-tick movement,
//! gravity, motion-state resolution and animation timing, run as a fixed
//! pipeline. The host engine supplies input snapshots, elapsed time and frame
//! counts, and renders whatever position and frame index the core produces.

pub mod laws;
pub mod state;
pub mod systems;
