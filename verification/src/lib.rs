//! Core logic of a small top-down arcade shooter, modelled over exact
//! integer arithmetic so that every rule of the game can be verified.
//!
//! Positions are whole world units (pixels) held in `i64`; aim and travel
//! directions are unit vectors in a fixed-point encoding (scale
//! [`config::DIR_SCALE`]); time is counted in milliseconds.  The engine-side
//! work — rendering, input devices, the asset loader — stays outside the
//! library: a driver feeds plain values in and reads plain values back.

pub mod camera;
pub mod config;
pub mod gun;
pub mod math;
pub mod player;
pub mod resources;
pub mod state;
pub mod world;
