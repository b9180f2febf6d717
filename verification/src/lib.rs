//! Bookkeeping for a small debris scene: which entities exist, which per-frame
//! rule acts on which of them, and what a key press removes and spawns.
//!
//! The numeric side of the scene (positions, velocities, random draws) belongs
//! to the host that owns the frame loop. This library decides, for every frame,
//! the entities each rule has to visit and the entities that leave or enter the
//! scene, and it proves that those decisions follow the rules stated here.

pub mod entity;
pub mod input;
pub mod registry;
pub mod scene;
pub mod laws;
