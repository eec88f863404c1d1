//! A walking sprite on a fixed-timestep loop: direction-indexed spritesheet
//! frames, keyboard-driven movement intent, the per-tick simulation step and
//! the frame pacer's sleep computation. Windowing, textures and timing are
//! left to the caller.
pub mod game;
pub mod geometry;
pub mod pacing;
pub mod player;
pub mod sprite;
