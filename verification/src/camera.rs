//! Camera follow: each frame the camera covers a fixed fraction of its
//! distance to the player (exponential smoothing, applied once per frame
//! without time-delta correction).

use vstd::prelude::*;

use crate::config::{CAMERA_LERP_DEN, COORD_LIMIT};
use crate::math::{mul_div_trunc, tdiv, Vec2};

verus! {

/// The camera entity: a position in world pixels.  Exactly one exists once
/// `GameInit` runs.
#[derive(Clone, Copy, PartialEq, Eq, Structural, Debug)]
pub struct GameCamera {
    pub pos: Vec2,
}

/// On entering `GameInit`: the camera appears at the origin.
pub fn setup_camera() -> (c: GameCamera)
    ensures
        c.pos == (Vec2 { x: 0, y: 0 }),
{
    GameCamera { pos: Vec2::zero() }
}

/// The camera after one frame of smoothing: it moves toward `target` by one
/// `CAMERA_LERP_DEN`'th of the remaining distance per axis, truncated toward
/// zero.
pub open spec fn camera_followed(c: GameCamera, target: Vec2) -> GameCamera {
    GameCamera {
        pos: Vec2 {
            x: (c.pos.x + tdiv(target.x - c.pos.x, CAMERA_LERP_DEN as int)) as i64,
            y: (c.pos.y + tdiv(target.y - c.pos.y, CAMERA_LERP_DEN as int)) as i64,
        },
    }
}

/// Every frame while `InGame`: smooths the camera's position toward the
/// player's.  The caller skips the call when either entity does not yet
/// exist.
pub fn camera_follow_player(cam: &mut GameCamera, player_pos: Vec2)
    requires
        old(cam).pos.in_range(COORD_LIMIT as int),
        player_pos.in_range(COORD_LIMIT as int),
    ensures
        *final(cam) == camera_followed(*old(cam), player_pos),
{
    let dx: i64 = player_pos.x - cam.pos.x;
    let dy: i64 = player_pos.y - cam.pos.y;
    let sx = mul_div_trunc(dx, 1, CAMERA_LERP_DEN);
    let sy = mul_div_trunc(dy, 1, CAMERA_LERP_DEN);
    cam.pos.x = cam.pos.x + sx;
    cam.pos.y = cam.pos.y + sy;
}

} // verus!
