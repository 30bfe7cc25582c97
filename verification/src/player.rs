//! Player movement: four boolean directional inputs become an intent
//! vector, normalized under the normalize-or-zero policy, scaled by the
//! player speed and added to the player's position.  In the integer model a
//! non-finite intent cannot arise, so the policy has no degenerate branch.

use vstd::prelude::*;

use crate::config::{COORD_LIMIT, DIR_DIAG, DIR_SCALE, PLAYER_SPEED};
use crate::math::{iabs, mul_div_trunc, tdiv, Vec2};

verus! {

/// The player entity: a position in world pixels.  Exactly one exists once
/// `InGame` begins.
#[derive(Clone, Copy, PartialEq, Eq, Structural, Debug)]
pub struct Player {
    pub pos: Vec2,
}

/// Horizontal intent: right contributes +1, left -1; a held pair cancels.
pub open spec fn intent_x(left: bool, right: bool) -> int {
    (if right {
        1int
    } else {
        0int
    }) - (if left {
        1int
    } else {
        0int
    })
}

/// Vertical intent: up contributes +1, down -1; a held pair cancels.
pub open spec fn intent_y(up: bool, down: bool) -> int {
    (if up {
        1int
    } else {
        0int
    }) - (if down {
        1int
    } else {
        0int
    })
}

/// The movement direction in the fixed-point encoding (scale `DIR_SCALE`):
/// the zero intent stays zero, an axis intent becomes the axis unit vector,
/// a diagonal intent the diagonal unit vector.
pub open spec fn move_dir(left: bool, up: bool, down: bool, right: bool) -> (int, int) {
    let x = intent_x(left, right);
    let y = intent_y(up, down);
    if x == 0 && y == 0 {
        (0int, 0int)
    } else if x == 0 {
        (0int, y * DIR_SCALE)
    } else if y == 0 {
        (x * DIR_SCALE, 0int)
    } else {
        (x * DIR_DIAG, y * DIR_DIAG)
    }
}

/// The squared length of a direction vector.
pub open spec fn len_sq(v: (int, int)) -> int {
    v.0 * v.0 + v.1 * v.1
}

/// Whole pixels covered in one frame: the direction scaled by the player
/// speed, truncated toward zero.
pub open spec fn move_delta(left: bool, up: bool, down: bool, right: bool) -> (int, int) {
    let d = move_dir(left, up, down, right);
    (tdiv(d.0 * PLAYER_SPEED, DIR_SCALE as int), tdiv(d.1 * PLAYER_SPEED, DIR_SCALE as int))
}

/// The player after one frame of movement.
pub open spec fn player_moved(p: Player, left: bool, up: bool, down: bool, right: bool) -> Player {
    let d = move_delta(left, up, down, right);
    Player { pos: Vec2 { x: (p.pos.x + d.0) as i64, y: (p.pos.y + d.1) as i64 } }
}

/// Law: the movement direction is the zero vector exactly when no net
/// direction is held — a held opposite pair cancels its axis — and otherwise
/// it is a unit vector of the fixed-point encoding: its squared length is
/// `DIR_SCALE^2` on an axis and `2 * DIR_DIAG^2` on a diagonal, the nearest
/// the integer encoding comes to length one.
pub proof fn lemma_move_dir_unit(left: bool, up: bool, down: bool, right: bool)
    ensures
        move_dir(left, up, down, right) == (0int, 0int) <==> (left == right && up == down),
        left == right ==> move_dir(left, up, down, right).0 == 0,
        up == down ==> move_dir(left, up, down, right).1 == 0,
        move_dir(left, up, down, right) != (0int, 0int) ==> {
            ||| len_sq(move_dir(left, up, down, right)) == DIR_SCALE * DIR_SCALE
            ||| len_sq(move_dir(left, up, down, right)) == 2 * DIR_DIAG * DIR_DIAG
        },
{
    let x = intent_x(left, right);
    let y = intent_y(up, down);
    assert(-1 <= x <= 1 && -1 <= y <= 1);
    if !(x == 0 && y == 0) {
        if x == 0 {
            assert(y * DIR_SCALE * (y * DIR_SCALE) == DIR_SCALE * DIR_SCALE) by (nonlinear_arith)
                requires
                    y == 1 || y == -1,
            ;
        } else if y == 0 {
            assert(x * DIR_SCALE * (x * DIR_SCALE) == DIR_SCALE * DIR_SCALE) by (nonlinear_arith)
                requires
                    x == 1 || x == -1,
            ;
        } else {
            assert(x * DIR_DIAG * (x * DIR_DIAG) + y * DIR_DIAG * (y * DIR_DIAG) == 2 * DIR_DIAG
                * DIR_DIAG) by (nonlinear_arith)
                requires
                    (x == 1 || x == -1) && (y == 1 || y == -1),
            ;
        }
    }
}

/// Every frame while `InGame`: reads the four directional inputs (each true
/// if either of its two bound keys is held) and moves the player by the
/// speed-scaled unit intent vector.
pub fn handle_player_input(player: &mut Player, left: bool, up: bool, down: bool, right: bool)
    requires
        old(player).pos.in_range(COORD_LIMIT as int),
    ensures
        *final(player) == player_moved(*old(player), left, up, down, right),
        final(player).pos.x == old(player).pos.x + move_delta(left, up, down, right).0,
        final(player).pos.y == old(player).pos.y + move_delta(left, up, down, right).1,
        iabs(final(player).pos.x - old(player).pos.x) <= PLAYER_SPEED,
        iabs(final(player).pos.y - old(player).pos.y) <= PLAYER_SPEED,
{
    let mut dx: i64 = 0;
    let mut dy: i64 = 0;
    if left {
        dx = dx - 1;
    }
    if up {
        dy = dy + 1;
    }
    if down {
        dy = dy - 1;
    }
    if right {
        dx = dx + 1;
    }
    assert(dx == intent_x(left, right) && dy == intent_y(up, down));
    let sx: i64;
    let sy: i64;
    if dx == 0 && dy == 0 {
        sx = 0;
        sy = 0;
    } else if dx == 0 {
        sx = 0;
        sy = dy * DIR_SCALE;
    } else if dy == 0 {
        sx = dx * DIR_SCALE;
        sy = 0;
    } else {
        sx = dx * DIR_DIAG;
        sy = dy * DIR_DIAG;
    }
    assert((sx as int, sy as int) == move_dir(left, up, down, right));
    proof {
        assert(iabs(sx as int) * PLAYER_SPEED / (DIR_SCALE as int) <= PLAYER_SPEED)
            by (nonlinear_arith)
            requires
                iabs(sx as int) <= DIR_SCALE && DIR_SCALE == 1000 && PLAYER_SPEED == 2,
        ;
        assert(iabs(sy as int) * PLAYER_SPEED / (DIR_SCALE as int) <= PLAYER_SPEED)
            by (nonlinear_arith)
            requires
                iabs(sy as int) <= DIR_SCALE && DIR_SCALE == 1000 && PLAYER_SPEED == 2,
        ;
    }
    let mx = mul_div_trunc(sx, PLAYER_SPEED, DIR_SCALE as u64);
    let my = mul_div_trunc(sy, PLAYER_SPEED, DIR_SCALE as u64);
    player.pos.x = player.pos.x + mx;
    player.pos.y = player.pos.y + my;
}

} // verus!
