//! Gun aim and fire, and bullet travel.
//!
//! Aim: each frame the gun turns toward the cursor.  As an angle this is
//! `atan2(player.y - target.y, player.x - target.x) + pi` — the flipped
//! angle, pointing from the player toward the target; here the same
//! direction is held as a fixed-point unit vector, computed exactly with an
//! integer square root.  When the target coincides with the player the
//! angle degenerates to the flipped zero angle: the gun points along the
//! negative x axis.
//!
//! Fire: a cooldown accumulator advances by the frame time every tick,
//! whether or not the trigger is held; when the trigger is held and the
//! accumulator has reached the configured interval, it resets and one bullet
//! spawns, freezing the gun's current forward vector as the bullet's
//! direction for its whole lifetime.

use vstd::prelude::*;
use vstd::pervasive::VecAdditionalExecFns;

use crate::config::{
    BULLET_SPAWN_INTERVAL_MS, BULLET_SPEED, COORD_LIMIT, DIR_SCALE, GUN_OFFSET, GUN_SHIFT_X,
    GUN_SHIFT_Y,
};
use crate::math::{
    abs_i64, iabs, isqrt_u128, lemma_sqrt_floor_mono, lemma_sqrt_floor_square,
    lemma_tdiv_magnitude, mul_div_trunc, sqrt_floor, tdiv, Vec2,
};
use crate::resources::CursorPosition;

verus! {

/// The fire-cooldown accumulator, in milliseconds.  It saturates at
/// `u64::MAX` instead of overflowing — over 500 million years of play.
#[derive(Clone, Copy, PartialEq, Eq, Structural, Debug)]
pub struct GunTimer {
    pub elapsed_ms: u64,
}

/// `u64` addition that saturates at the maximum.
pub open spec fn sat_add_u64(a: u64, d: u64) -> u64 {
    if a + d <= u64::MAX {
        (a + d) as u64
    } else {
        u64::MAX
    }
}

impl GunTimer {
    /// Advances the accumulator by one frame's time.
    pub fn tick(&mut self, delta_ms: u64)
        ensures
            final(self).elapsed_ms == sat_add_u64(old(self).elapsed_ms, delta_ms),
    {
        self.elapsed_ms = match self.elapsed_ms.checked_add(delta_ms) {
            Some(v) => v,
            None => u64::MAX,
        };
    }

    /// Puts the accumulator back to zero-elapsed, as after a spawn.
    pub fn reset(&mut self)
        ensures
            final(self).elapsed_ms == 0,
    {
        self.elapsed_ms = 0;
    }
}

impl Default for GunTimer {
    /// A fresh timer has nothing accumulated.
    fn default() -> (r: Self)
        ensures
            r.elapsed_ms == 0,
    {
        GunTimer { elapsed_ms: 0 }
    }
}

/// The gun entity: position in world pixels, forward direction as a
/// fixed-point unit vector, and the fire-cooldown timer.  Exactly one exists
/// once `InGame` begins; position and direction are recomputed every frame
/// from the player and the cursor.
#[derive(Clone, Copy, PartialEq, Eq, Structural, Debug)]
pub struct Gun {
    pub pos: Vec2,
    pub dir: Vec2,
    pub timer: GunTimer,
}

/// A bullet entity: position in world pixels and the direction frozen at
/// spawn time, immutable for the entity's lifetime.
#[derive(Clone, Copy, PartialEq, Eq, Structural, Debug)]
pub struct Bullet {
    pub pos: Vec2,
    pub dir: Vec2,
}

/// The aim direction in the fixed-point encoding: the unit vector from
/// `player` toward `target`, scaled by `DIR_SCALE`, each component truncated
/// toward zero.  A coinciding target gives the flipped zero angle.
pub open spec fn aim_dir(player: Vec2, target: Vec2) -> (int, int) {
    let dx = target.x - player.x;
    let dy = target.y - player.y;
    if dx == 0 && dy == 0 {
        (-(DIR_SCALE as int), 0int)
    } else {
        let len = sqrt_floor((dx * dx + dy * dy) as nat);
        (tdiv(dx * DIR_SCALE, len as int), tdiv(dy * DIR_SCALE, len as int))
    }
}

/// The gun after one frame of aiming: its forward vector points from the
/// player toward the target (the cursor, or the player itself when no cursor
/// value exists), and it sits at the fixed radial offset from the player
/// along that vector, plus the constant pixel correction.  The timer is
/// untouched.
pub open spec fn gun_aimed(g: Gun, player_pos: Vec2, cursor: Option<Vec2>) -> Gun {
    let target = if cursor is Some {
        cursor->0
    } else {
        player_pos
    };
    let a = aim_dir(player_pos, target);
    Gun {
        pos: Vec2 {
            x: (player_pos.x + tdiv(a.0 * GUN_OFFSET, DIR_SCALE as int) + GUN_SHIFT_X) as i64,
            y: (player_pos.y + tdiv(a.1 * GUN_OFFSET, DIR_SCALE as int) + GUN_SHIFT_Y) as i64,
        },
        dir: Vec2 { x: a.0 as i64, y: a.1 as i64 },
        timer: g.timer,
    }
}

/// Every frame while `InGame`: recomputes the gun's forward vector and
/// position from the player's position and the shared cursor value.  The
/// caller skips the call while the gun does not exist.
pub fn update_gun_transform(gun: &mut Gun, player_pos: Vec2, cursor: &CursorPosition)
    requires
        player_pos.in_range(COORD_LIMIT as int),
        cursor.0 matches Some(c) ==> c.in_range(COORD_LIMIT as int),
    ensures
        *final(gun) == gun_aimed(*old(gun), player_pos, cursor.0),
        final(gun).dir.in_range(DIR_SCALE as int),
        final(gun).timer == old(gun).timer,
        iabs(final(gun).pos.x - player_pos.x) <= GUN_OFFSET + 5,
        iabs(final(gun).pos.y - player_pos.y) <= GUN_OFFSET + 15,
{
    let target: Vec2 = match cursor.0 {
        Some(c) => c,
        None => player_pos,
    };
    let dx: i64 = target.x - player_pos.x;
    let dy: i64 = target.y - player_pos.y;
    let ax: i64;
    let ay: i64;
    if dx == 0 && dy == 0 {
        ax = -DIR_SCALE;
        ay = 0;
    } else {
        let mx: u64 = abs_i64(dx);
        let my: u64 = abs_i64(dy);
        proof {
            assert((mx as int) * (mx as int) + (my as int) * (my as int)
                < 0x4000_0000_0000_0000_0000_0000_0000_0000) by (nonlinear_arith)
                requires
                    mx <= 0x2000_0000_0000_0000u64 && my <= 0x2000_0000_0000_0000u64,
            ;
            assert((mx as int) * (mx as int) == (dx as int) * (dx as int)) by (nonlinear_arith)
                requires
                    mx == iabs(dx as int),
            ;
            assert((my as int) * (my as int) == (dy as int) * (dy as int)) by (nonlinear_arith)
                requires
                    my == iabs(dy as int),
            ;
        }
        let sq: u128 = (mx as u128) * (mx as u128) + (my as u128) * (my as u128);
        let len: u128 = isqrt_u128(sq);
        proof {
            // the root fits a u64 and is positive
            assert(len < 0x8000_0000_0000_0000u128) by (nonlinear_arith)
                requires
                    (len as int) * (len as int) <= sq < 0x4000_0000_0000_0000_0000_0000_0000_0000,
            ;
            if mx >= 1 {
                assert(sq >= 1) by (nonlinear_arith)
                    requires
                        sq >= (mx as int) * (mx as int) && mx >= 1,
                ;
            } else {
                assert(my >= 1);
                assert(sq >= 1) by (nonlinear_arith)
                    requires
                        sq >= (my as int) * (my as int) && my >= 1,
                ;
            }
            assert(len >= 1) by (nonlinear_arith)
                requires
                    sq < ((len as int) + 1) * ((len as int) + 1) && sq >= 1 && len >= 0,
            ;
            // each component is no longer than the whole vector
            lemma_sqrt_floor_square(mx as nat);
            lemma_sqrt_floor_mono((mx as nat) * (mx as nat), sq as nat);
            lemma_sqrt_floor_square(my as nat);
            lemma_sqrt_floor_mono((my as nat) * (my as nat), sq as nat);
            assert(mx <= len && my <= len);
            // so the scaled quotient stays within DIR_SCALE
            assert(iabs(dx as int) * DIR_SCALE / (len as int) <= DIR_SCALE) by (nonlinear_arith)
                requires
                    1 <= len && iabs(dx as int) == mx && mx <= len,
            ;
            assert(iabs(dy as int) * DIR_SCALE / (len as int) <= DIR_SCALE) by (nonlinear_arith)
                requires
                    1 <= len && iabs(dy as int) == my && my <= len,
            ;
        }
        ax = mul_div_trunc(dx, DIR_SCALE as u64, len as u64);
        ay = mul_div_trunc(dy, DIR_SCALE as u64, len as u64);
        proof {
            assert(iabs(ax as int) <= iabs(dx as int) * DIR_SCALE / (len as int));
            assert(iabs(ay as int) <= iabs(dy as int) * DIR_SCALE / (len as int));
        }
    }
    gun.dir = Vec2 { x: ax, y: ay };
    let ox = mul_div_trunc(ax, GUN_OFFSET, DIR_SCALE as u64);
    let oy = mul_div_trunc(ay, GUN_OFFSET, DIR_SCALE as u64);
    proof {
        assert(iabs(ax as int) * GUN_OFFSET / (DIR_SCALE as int) <= GUN_OFFSET) by (nonlinear_arith)
            requires
                iabs(ax as int) <= DIR_SCALE && DIR_SCALE == 1000 && GUN_OFFSET == 20,
        ;
        assert(iabs(ay as int) * GUN_OFFSET / (DIR_SCALE as int) <= GUN_OFFSET) by (nonlinear_arith)
            requires
                iabs(ay as int) <= DIR_SCALE && DIR_SCALE == 1000 && GUN_OFFSET == 20,
        ;
    }
    gun.pos = Vec2 { x: player_pos.x + ox + GUN_SHIFT_X, y: player_pos.y + oy + GUN_SHIFT_Y };
}

/// Whether this frame's tick fires a bullet: the trigger is held and the
/// advanced accumulator has reached the interval.
pub open spec fn gun_fires(g: Gun, delta_ms: u64, fire: bool) -> bool {
    fire && sat_add_u64(g.timer.elapsed_ms, delta_ms) >= BULLET_SPAWN_INTERVAL_MS
}

/// The gun after one frame of the fire gate: the accumulator advances, and
/// resets only when a bullet actually spawns.
pub open spec fn gun_after_input(g: Gun, delta_ms: u64, fire: bool) -> Gun {
    Gun {
        pos: g.pos,
        dir: g.dir,
        timer: GunTimer {
            elapsed_ms: if gun_fires(g, delta_ms, fire) {
                0
            } else {
                sat_add_u64(g.timer.elapsed_ms, delta_ms)
            },
        },
    }
}

/// The bullets after one frame of the fire gate: unchanged, unless a bullet
/// spawns — at the gun's position, with the gun's forward vector frozen as
/// its direction.
pub open spec fn bullets_after_input(g: Gun, bs: Seq<Bullet>, delta_ms: u64, fire: bool) -> Seq<
    Bullet,
> {
    if gun_fires(g, delta_ms, fire) {
        bs.push(Bullet { pos: g.pos, dir: g.dir })
    } else {
        bs
    }
}

/// Every frame while `InGame`: advances the cooldown by the frame's time —
/// held trigger or not — and, when the trigger is held and the interval has
/// elapsed, resets the accumulator and spawns one bullet.  The caller skips
/// the call while the gun does not exist.
pub fn handle_gun_input(gun: &mut Gun, bullets: &mut Vec<Bullet>, delta_ms: u64, fire: bool)
    ensures
        *final(gun) == gun_after_input(*old(gun), delta_ms, fire),
        final(bullets)@ == bullets_after_input(*old(gun), old(bullets)@, delta_ms, fire),
        final(gun).pos == old(gun).pos && final(gun).dir == old(gun).dir,
{
    gun.timer.tick(delta_ms);
    if !fire {
        return;
    }
    if gun.timer.elapsed_ms >= BULLET_SPAWN_INTERVAL_MS {
        gun.timer.reset();
        bullets.push(Bullet { pos: gun.pos, dir: gun.dir });
    }
}

/// A bullet after one frame of travel: its frozen direction scaled by the
/// bullet speed, truncated to whole pixels, added to its position.
pub open spec fn bullet_advanced(b: Bullet) -> Bullet {
    Bullet {
        pos: Vec2 {
            x: (b.pos.x + tdiv(b.dir.x * BULLET_SPEED, DIR_SCALE as int)) as i64,
            y: (b.pos.y + tdiv(b.dir.y * BULLET_SPEED, DIR_SCALE as int)) as i64,
        },
        dir: b.dir,
    }
}

/// A bullet's state is well formed when its direction lies in the
/// fixed-point unit box.
pub open spec fn bullet_wf(b: Bullet) -> bool {
    b.dir.in_range(DIR_SCALE as int)
}

/// Every frame while `InGame`: every bullet advances along its stored
/// direction; no bullet is added, removed, or turned.
pub fn update_bullets(bullets: &mut Vec<Bullet>)
    requires
        forall|i: int|
            0 <= i < old(bullets)@.len() ==> (#[trigger] old(bullets)@[i]).pos.in_range(
                COORD_LIMIT as int,
            ) && bullet_wf(old(bullets)@[i]),
    ensures
        final(bullets)@.len() == old(bullets)@.len(),
        forall|i: int|
            0 <= i < old(bullets)@.len() ==> final(bullets)@[i] == bullet_advanced(
                #[trigger] old(bullets)@[i],
            ),
{
    let n: usize = bullets.len();
    let mut k: usize = 0;
    while k < n
        invariant
            n == old(bullets)@.len(),
            bullets@.len() == n,
            k <= n,
            forall|i: int|
                0 <= i < k ==> bullets@[i] == bullet_advanced(#[trigger] old(bullets)@[i]),
            forall|i: int| k <= i < n ==> bullets@[i] == old(bullets)@[i],
            forall|i: int|
                0 <= i < n ==> (#[trigger] old(bullets)@[i]).pos.in_range(COORD_LIMIT as int)
                    && bullet_wf(old(bullets)@[i]),
        decreases n - k,
    {
        let b: Bullet = bullets[k];
        proof {
            assert(iabs(b.dir.x as int) * BULLET_SPEED / (DIR_SCALE as int) <= BULLET_SPEED)
                by (nonlinear_arith)
                requires
                    iabs(b.dir.x as int) <= DIR_SCALE && DIR_SCALE == 1000 && BULLET_SPEED == 15,
            ;
            assert(iabs(b.dir.y as int) * BULLET_SPEED / (DIR_SCALE as int) <= BULLET_SPEED)
                by (nonlinear_arith)
                requires
                    iabs(b.dir.y as int) <= DIR_SCALE && DIR_SCALE == 1000 && BULLET_SPEED == 15,
            ;
        }
        let sx = mul_div_trunc(b.dir.x, BULLET_SPEED, DIR_SCALE as u64);
        let sy = mul_div_trunc(b.dir.y, BULLET_SPEED, DIR_SCALE as u64);
        bullets.set(k, Bullet { pos: Vec2 { x: b.pos.x + sx, y: b.pos.y + sy }, dir: b.dir });
        k = k + 1;
    }
}

/// A bullet after `n` frames of travel.
pub open spec fn bullet_advanced_n(b: Bullet, n: nat) -> Bullet
    decreases n,
{
    if n == 0 {
        b
    } else {
        bullet_advanced(bullet_advanced_n(b, (n - 1) as nat))
    }
}

/// Law: a bullet's direction is immutable after spawn, and its travel has no
/// drift: after `n` frames the position is exactly the spawn position plus
/// `n` times the per-frame step along the frozen direction.  The frame bound
/// only keeps every intermediate position within `i64`.
pub proof fn lemma_bullet_travel(b: Bullet, n: nat)
    requires
        bullet_wf(b),
        b.pos.in_range(COORD_LIMIT as int),
        n <= 0x4_0000_0000_0000,
    ensures
        bullet_advanced_n(b, n).dir == b.dir,
        bullet_advanced_n(b, n).pos.x == b.pos.x + n * tdiv(
            b.dir.x * BULLET_SPEED,
            DIR_SCALE as int,
        ),
        bullet_advanced_n(b, n).pos.y == b.pos.y + n * tdiv(
            b.dir.y * BULLET_SPEED,
            DIR_SCALE as int,
        ),
    decreases n,
{
    let sx = tdiv(b.dir.x * BULLET_SPEED, DIR_SCALE as int);
    let sy = tdiv(b.dir.y * BULLET_SPEED, DIR_SCALE as int);
    lemma_tdiv_magnitude(b.dir.x as int, BULLET_SPEED as int, DIR_SCALE as int);
    lemma_tdiv_magnitude(b.dir.y as int, BULLET_SPEED as int, DIR_SCALE as int);
    assert(iabs(b.dir.x as int) * BULLET_SPEED / (DIR_SCALE as int) <= BULLET_SPEED)
        by (nonlinear_arith)
        requires
            iabs(b.dir.x as int) <= DIR_SCALE && DIR_SCALE == 1000 && BULLET_SPEED == 15,
    ;
    assert(iabs(b.dir.y as int) * BULLET_SPEED / (DIR_SCALE as int) <= BULLET_SPEED)
        by (nonlinear_arith)
        requires
            iabs(b.dir.y as int) <= DIR_SCALE && DIR_SCALE == 1000 && BULLET_SPEED == 15,
    ;
    if n > 0 {
        let prev = bullet_advanced_n(b, (n - 1) as nat);
        lemma_bullet_travel(b, (n - 1) as nat);
        assert(iabs((n - 1) * sx) <= (n - 1) * 15) by (nonlinear_arith)
            requires
                n >= 1 && iabs(sx) <= 15,
        ;
        assert(iabs((n - 1) * sy) <= (n - 1) * 15) by (nonlinear_arith)
            requires
                n >= 1 && iabs(sy) <= 15,
        ;
        assert(n * sx == (n - 1) * sx + sx) by (nonlinear_arith);
        assert(n * sy == (n - 1) * sy + sy) by (nonlinear_arith);
    } else {
        assert(n * sx == 0) by (nonlinear_arith)
            requires
                n == 0,
        ;
        assert(n * sy == 0) by (nonlinear_arith)
            requires
                n == 0,
        ;
    }
}

/// One recorded frame at the fire gate: the frame's time and whether the
/// trigger was held.
#[derive(Clone, Copy, PartialEq, Eq, Structural, Debug)]
pub struct FireFrame {
    pub delta_ms: u64,
    pub fire: bool,
}

/// Whether a frame spawns a bullet, given the accumulator before it.
pub open spec fn frame_spawns(elapsed: u64, f: FireFrame) -> bool {
    f.fire && sat_add_u64(elapsed, f.delta_ms) >= BULLET_SPAWN_INTERVAL_MS
}

/// The accumulator after one recorded frame: it advances by the frame's
/// time — held trigger or not — and resets only on a spawn.
pub open spec fn cooldown_step(elapsed: u64, f: FireFrame) -> u64 {
    if frame_spawns(elapsed, f) {
        0
    } else {
        sat_add_u64(elapsed, f.delta_ms)
    }
}

/// The accumulator before frame `k` of a trace that starts at `e0`.
pub open spec fn elapsed_before(e0: u64, fs: Seq<FireFrame>, k: int) -> u64
    decreases k,
{
    if k <= 0 {
        e0
    } else {
        cooldown_step(elapsed_before(e0, fs, k - 1), fs[k - 1])
    }
}

/// Whether frame `k` of the trace spawns a bullet.
pub open spec fn spawns_at(e0: u64, fs: Seq<FireFrame>, k: int) -> bool {
    frame_spawns(elapsed_before(e0, fs, k), fs[k])
}

/// The frame time accumulated over frames `i..j` of the trace.
pub open spec fn sum_delta(fs: Seq<FireFrame>, i: int, j: int) -> int
    decreases j - i,
{
    if j <= i {
        0
    } else {
        sum_delta(fs, i, j - 1) + fs[j - 1].delta_ms
    }
}

/// The per-frame fire gate of `handle_gun_input` is exactly one step of the
/// recorded-trace model.
pub proof fn lemma_input_matches_cooldown(g: Gun, delta_ms: u64, fire: bool)
    ensures
        gun_fires(g, delta_ms, fire) == frame_spawns(
            g.timer.elapsed_ms,
            FireFrame { delta_ms, fire },
        ),
        gun_after_input(g, delta_ms, fire).timer.elapsed_ms == cooldown_step(
            g.timer.elapsed_ms,
            FireFrame { delta_ms, fire },
        ),
{
}

/// While no frame after `i` has spawned, the accumulator cannot exceed the
/// frame time gathered since the spawn at `i`.
proof fn lemma_elapsed_le_sum(e0: u64, fs: Seq<FireFrame>, i: int, k: int)
    requires
        0 <= i < k <= fs.len(),
        spawns_at(e0, fs, i),
        forall|m: int| i < m < k ==> !spawns_at(e0, fs, m),
    ensures
        elapsed_before(e0, fs, k) <= sum_delta(fs, i + 1, k),
    decreases k - i,
{
    if k == i + 1 {
        assert(elapsed_before(e0, fs, k) == 0);
    } else {
        lemma_elapsed_le_sum(e0, fs, i, k - 1);
        assert(!spawns_at(e0, fs, k - 1));
    }
}

/// Law (fire cadence): between two consecutive spawns the accumulated frame
/// time is at least the configured interval.  The accumulator advances
/// whether or not the trigger is held, so releasing and re-holding it never
/// shortens the wait.
pub proof fn lemma_fire_cooldown(e0: u64, fs: Seq<FireFrame>, i: int, j: int)
    requires
        0 <= i < j < fs.len(),
        spawns_at(e0, fs, i),
        spawns_at(e0, fs, j),
        forall|k: int| i < k < j ==> !spawns_at(e0, fs, k),
    ensures
        sum_delta(fs, i + 1, j + 1) >= BULLET_SPAWN_INTERVAL_MS,
{
    lemma_elapsed_le_sum(e0, fs, i, j);
    assert(sat_add_u64(elapsed_before(e0, fs, j), fs[j].delta_ms) >= BULLET_SPAWN_INTERVAL_MS);
    assert(sum_delta(fs, i + 1, j + 1) == sum_delta(fs, i + 1, j) + fs[j].delta_ms);
}

} // verus!
