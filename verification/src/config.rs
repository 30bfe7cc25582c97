//! Build-time constants of the game: window and sprite-sheet geometry,
//! world extents, speeds, and the fixed-point scale used for directions.

use vstd::prelude::*;

verus! {

// Window size in pixels.
pub const WW: u32 = 1200;
pub const WH: u32 = 900;

// Sprite sheet: a regular grid of equally sized cells, addressed by a flat
// row-major index.
pub const SPRITE_SCALE_FACTOR: u32 = 3;
pub const TILE_W: u32 = 16;
pub const TILE_H: u32 = 16;
pub const SPRITE_SHEET_W: usize = 8;
pub const SPRITE_SHEET_H: usize = 8;

// World: decorations are scattered over [-WORLD_W, WORLD_W] x [-WORLD_H, WORLD_H].
pub const WORLD_DECORATION_COUNT: usize = 500;
pub const WORLD_W: i64 = 2500;
pub const WORLD_H: i64 = 3000;

// Gun: cadence of fire, bullet travel per frame, and the gun sprite's
// placement relative to the player (a radial offset along the aim direction
// plus a small constant pixel correction).
pub const BULLET_SPAWN_INTERVAL_MS: u64 = 100;
pub const BULLET_SPEED: u64 = 15;
pub const GUN_OFFSET: u64 = 20;
pub const GUN_SHIFT_X: i64 = -5;
pub const GUN_SHIFT_Y: i64 = -15;

// Player movement per frame, in pixels.
pub const PLAYER_SPEED: u64 = 2;

// Camera smoothing: each frame the camera covers one CAMERA_LERP_DEN'th of
// its distance to the player.
pub const CAMERA_LERP_DEN: u64 = 10;

// Directions are unit vectors in a fixed-point encoding: a vector (x, y)
// stands for (x / DIR_SCALE, y / DIR_SCALE).  DIR_DIAG is the component of a
// diagonal unit vector, the nearest integer to DIR_SCALE / sqrt(2).
pub const DIR_SCALE: i64 = 1000;
pub const DIR_DIAG: i64 = 707;

// Sprite-atlas cell assigned to each entity kind; decorations draw a cell
// from the small closed range below.
pub const PLAYER_SPRITE_INDEX: usize = 0;
pub const GUN_SPRITE_INDEX: usize = 17;
pub const BULLET_SPRITE_INDEX: usize = 16;
pub const DECORATION_SPRITE_MIN: usize = 24;
pub const DECORATION_SPRITE_MAX: usize = 25;

// Depth (z) assigned to each entity kind when drawn.
pub const Z_BACKGROUND: i64 = 0;
pub const Z_WORLD: i64 = 10;
pub const Z_GUN: i64 = 15;
pub const Z_BULLET: i64 = 10;

// Background color.
pub const BG_R: u8 = 197;
pub const BG_G: u8 = 204;
pub const BG_B: u8 = 184;

// All entity coordinates the systems work on are expected inside
// [-COORD_LIMIT, COORD_LIMIT] (2^60): far beyond any reachable game state,
// and small enough that every intermediate product fits its machine type.
pub const COORD_LIMIT: i64 = 0x1000_0000_0000_0000;

} // verus!
