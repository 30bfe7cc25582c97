use top_down_shooter::camera::{camera_follow_player, setup_camera, GameCamera};
use top_down_shooter::gun::{
    handle_gun_input, update_bullets, update_gun_transform, Bullet, Gun, GunTimer,
};
use top_down_shooter::math::Vec2;
use top_down_shooter::player::{handle_player_input, Player};
use top_down_shooter::resources::{update_cursor_position, CursorPosition};

fn v(x: i64, y: i64) -> Vec2 {
    Vec2 { x, y }
}

fn moved(left: bool, up: bool, down: bool, right: bool) -> Vec2 {
    let mut p = Player { pos: v(0, 0) };
    handle_player_input(&mut p, left, up, down, right);
    p.pos
}

#[test]
fn movement_axis_directions() {
    assert_eq!(moved(false, false, false, false), v(0, 0));
    assert_eq!(moved(true, false, false, false), v(-2, 0));
    assert_eq!(moved(false, true, false, false), v(0, 2));
    assert_eq!(moved(false, false, true, false), v(0, -2));
    assert_eq!(moved(false, false, false, true), v(2, 0));
}

#[test]
fn movement_diagonals_have_unit_speed() {
    // a diagonal unit vector has components 707/1000, so speed 2 truncates
    // to 1 whole pixel per axis
    assert_eq!(moved(false, true, false, true), v(1, 1));
    assert_eq!(moved(true, true, false, false), v(-1, 1));
    assert_eq!(moved(true, false, true, false), v(-1, -1));
    assert_eq!(moved(false, false, true, true), v(1, -1));
}

#[test]
fn movement_opposite_pairs_cancel() {
    assert_eq!(moved(true, false, false, true), v(0, 0));
    assert_eq!(moved(false, true, true, false), v(0, 0));
    assert_eq!(moved(true, true, true, true), v(0, 0));
    // one axis cancelled, the other still moves at full axis speed
    assert_eq!(moved(true, true, false, true), v(0, 2));
    assert_eq!(moved(false, true, true, true), v(2, 0));
}

fn aimed(player: Vec2, cursor: Option<Vec2>) -> Gun {
    let mut g = Gun { pos: v(0, 0), dir: v(1000, 0), timer: GunTimer { elapsed_ms: 7 } };
    update_gun_transform(&mut g, player, &CursorPosition(cursor));
    g
}

#[test]
fn aim_at_cursor_right_of_player() {
    // cursor one pixel to the right: the flipped atan2 angle is zero, the
    // forward vector the positive x axis; the gun sits at the radial offset
    // plus the constant correction
    let g = aimed(v(0, 0), Some(v(1, 0)));
    assert_eq!(g.dir, v(1000, 0));
    assert_eq!(g.pos, v(20 - 5, -15));
    assert_eq!(g.timer.elapsed_ms, 7);
}

#[test]
fn aim_on_a_3_4_5_triangle() {
    let g = aimed(v(0, 0), Some(v(3, 4)));
    assert_eq!(g.dir, v(600, 800));
    assert_eq!(g.pos, v(12 - 5, 16 - 15));
}

#[test]
fn aim_is_translation_invariant() {
    let a = aimed(v(0, 0), Some(v(3, 4)));
    let b = aimed(v(100, -200), Some(v(103, -196)));
    assert_eq!(a.dir, b.dir);
    assert_eq!(b.pos, v(100 + 7, -200 + 1));
}

#[test]
fn aim_without_cursor_falls_back_to_flipped_zero_angle() {
    // no cursor value: the target degenerates to the player and the gun
    // points along the negative x axis, as atan2(0, 0) + pi does
    let g = aimed(v(0, 0), None);
    assert_eq!(g.dir, v(-1000, 0));
    assert_eq!(g.pos, v(-20 - 5, -15));
    let same = aimed(v(5, 5), Some(v(5, 5)));
    assert_eq!(same.dir, v(-1000, 0));
}

#[test]
fn cursor_needs_window_and_camera() {
    let mut c = CursorPosition(Some(v(1, 1)));
    update_cursor_position(&mut c, false, true, Some(v(9, 9)));
    assert_eq!(c.0, None);
    update_cursor_position(&mut c, true, false, Some(v(9, 9)));
    assert_eq!(c.0, None);
    update_cursor_position(&mut c, true, true, Some(v(9, 9)));
    assert_eq!(c.0, Some(v(9, 9)));
    update_cursor_position(&mut c, true, true, None);
    assert_eq!(c.0, None);
}

#[test]
fn bullets_advance_along_frozen_direction_without_drift() {
    let mut bullets = vec![
        Bullet { pos: v(10, 20), dir: v(1000, 0) },
        Bullet { pos: v(0, 0), dir: v(707, 707) },
        Bullet { pos: v(0, 0), dir: v(0, -1000) },
    ];
    let frames = 4;
    for _ in 0..frames {
        update_bullets(&mut bullets);
    }
    // speed 15: an axis direction covers exactly 15 pixels a frame, a
    // diagonal component 707 * 15 / 1000 = 10
    assert_eq!(bullets[0].pos, v(10 + 4 * 15, 20));
    assert_eq!(bullets[0].dir, v(1000, 0));
    assert_eq!(bullets[1].pos, v(40, 40));
    assert_eq!(bullets[1].dir, v(707, 707));
    assert_eq!(bullets[2].pos, v(0, -4 * 15));
}

#[test]
fn fire_cadence_honors_the_interval() {
    let mut gun = Gun { pos: v(1, 2), dir: v(1000, 0), timer: GunTimer::default() };
    let mut bullets: Vec<Bullet> = Vec::new();
    let mut spawn_times: Vec<u64> = Vec::new();
    let mut now: u64 = 0;
    // hold fire at 50 ms a frame: a spawn lands on every second frame
    for _ in 0..10 {
        now += 50;
        let before = bullets.len();
        handle_gun_input(&mut gun, &mut bullets, 50, true);
        if bullets.len() > before {
            spawn_times.push(now);
        }
    }
    assert_eq!(bullets.len(), 5);
    for w in spawn_times.windows(2) {
        assert!(w[1] - w[0] >= 100);
    }
    // each bullet froze the gun's position and forward vector
    for b in &bullets {
        assert_eq!(b.pos, v(1, 2));
        assert_eq!(b.dir, v(1000, 0));
    }
}

#[test]
fn releasing_the_trigger_does_not_reset_the_accumulator() {
    let mut gun = Gun { pos: v(0, 0), dir: v(1000, 0), timer: GunTimer::default() };
    let mut bullets: Vec<Bullet> = Vec::new();
    // the accumulator advances while the trigger is up ...
    handle_gun_input(&mut gun, &mut bullets, 80, false);
    assert_eq!(bullets.len(), 0);
    assert_eq!(gun.timer.elapsed_ms, 80);
    // ... so pressing right after the interval has elapsed fires at once
    handle_gun_input(&mut gun, &mut bullets, 30, true);
    assert_eq!(bullets.len(), 1);
    assert_eq!(gun.timer.elapsed_ms, 0);
}

#[test]
fn gun_timer_saturates_instead_of_overflowing() {
    let mut t = GunTimer::default();
    t.tick(u64::MAX);
    t.tick(u64::MAX);
    assert_eq!(t.elapsed_ms, u64::MAX);
    t.reset();
    assert_eq!(t.elapsed_ms, 0);
}

#[test]
fn camera_covers_a_tenth_of_the_distance_each_frame() {
    let mut cam = setup_camera();
    assert_eq!(cam.pos, v(0, 0));
    camera_follow_player(&mut cam, v(100, 50));
    assert_eq!(cam.pos, v(10, 5));
    camera_follow_player(&mut cam, v(100, 50));
    assert_eq!(cam.pos, v(19, 9));
}

#[test]
fn camera_follows_in_the_negative_quadrant_too() {
    let mut cam = GameCamera { pos: v(0, 0) };
    camera_follow_player(&mut cam, v(-100, -50));
    assert_eq!(cam.pos, v(-10, -5));
    // truncation is toward zero, also for a negative remaining distance
    let mut near = GameCamera { pos: v(0, 0) };
    camera_follow_player(&mut near, v(-9, 9));
    assert_eq!(near.pos, v(0, 0));
}
