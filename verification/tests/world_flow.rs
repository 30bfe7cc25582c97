use top_down_shooter::config::{
    DECORATION_SPRITE_MAX, DECORATION_SPRITE_MIN, SPRITE_SHEET_H, SPRITE_SHEET_W, TILE_H, TILE_W,
    WORLD_DECORATION_COUNT, WORLD_H, WORLD_W,
};
use top_down_shooter::gun::{Gun, GunTimer};
use top_down_shooter::math::Vec2;
use top_down_shooter::player::Player;
use top_down_shooter::state::GameState;
use top_down_shooter::world::{FrameInput, GameWorld};

fn v(x: i64, y: i64) -> Vec2 {
    Vec2 { x, y }
}

fn idle_input() -> FrameInput {
    FrameInput {
        left: false,
        up: false,
        down: false,
        right: false,
        fire: false,
        delta_ms: 16,
        has_window: true,
        has_camera: true,
        pointer_world: None,
    }
}

#[test]
fn phases_advance_loading_gameinit_ingame() {
    let mut w = GameWorld::new();
    assert_eq!(w.state, GameState::Loading);
    assert!(w.atlas.image.is_none() && w.atlas.layout.is_none());
    w.load_assets(42);
    assert_eq!(w.state, GameState::GameInit);
    w.enter_game_init();
    assert_eq!(w.state, GameState::InGame);
}

#[test]
fn loading_slices_the_sheet_into_the_configured_grid() {
    let mut w = GameWorld::new();
    w.load_assets(42);
    assert_eq!(w.atlas.image, Some(42));
    let layout = w.atlas.layout.unwrap();
    assert_eq!(layout.tile_w, TILE_W);
    assert_eq!(layout.tile_h, TILE_H);
    assert_eq!(layout.columns, SPRITE_SHEET_W);
    assert_eq!(layout.rows, SPRITE_SHEET_H);
}

#[test]
fn game_init_spawns_one_of_each_and_all_decorations() {
    let mut w = GameWorld::new();
    w.load_assets(1);
    w.enter_game_init();
    assert_eq!(w.player, Some(Player { pos: v(0, 0) }));
    assert_eq!(
        w.gun,
        Some(Gun { pos: v(0, 0), dir: v(1000, 0), timer: GunTimer { elapsed_ms: 0 } })
    );
    assert!(w.camera.is_some());
    assert_eq!(w.camera.unwrap().pos, v(0, 0));
    assert!(w.bullets.is_empty());
    assert_eq!(w.decorations.len(), WORLD_DECORATION_COUNT);
    for d in &w.decorations {
        assert!(-WORLD_W <= d.pos.x && d.pos.x < WORLD_W);
        assert!(-WORLD_H <= d.pos.y && d.pos.y < WORLD_H);
        assert!(DECORATION_SPRITE_MIN <= d.sprite_index && d.sprite_index <= DECORATION_SPRITE_MAX);
    }
}

#[test]
fn decorations_are_scattered_not_constant() {
    // 500 uniform draws over a 5000 x 6000 rectangle collapse to one point
    // with vanishing probability; this would fail if the sampler handed a
    // bound back instead of drawing
    let mut w = GameWorld::new();
    w.load_assets(1);
    w.enter_game_init();
    let first = w.decorations[0].pos;
    assert!(w.decorations.iter().any(|d| d.pos != first));
}

#[test]
fn one_ingame_frame_moves_everything_in_order() {
    let mut w = GameWorld::new();
    w.load_assets(9);
    w.enter_game_init();
    let input = FrameInput {
        right: true,
        fire: true,
        delta_ms: 100,
        ..idle_input()
    };
    w.step_frame(input);
    // the player stepped right at full speed
    assert_eq!(w.player, Some(Player { pos: v(2, 0) }));
    // no cursor value: the gun fell back to the flipped zero angle, placed
    // relative to the player's position of this same frame
    let g = w.gun.unwrap();
    assert_eq!(g.dir, v(-1000, 0));
    assert_eq!(g.pos, v(2 - 20 - 5, -15));
    // fire held with a full interval accumulated: exactly one bullet,
    // spawned at the gun and already advanced one frame of travel
    assert_eq!(w.bullets.len(), 1);
    assert_eq!(w.bullets[0].dir, v(-1000, 0));
    assert_eq!(w.bullets[0].pos, v(2 - 20 - 5 - 15, -15));
    assert_eq!(g.timer.elapsed_ms, 0);
    // the camera covered a tenth of two pixels: nothing, after truncation
    assert_eq!(w.camera.unwrap().pos, v(0, 0));
    // the phase did not move
    assert_eq!(w.state, GameState::InGame);
}

#[test]
fn cursor_feeds_the_aim_on_the_next_frame() {
    let mut w = GameWorld::new();
    w.load_assets(9);
    w.enter_game_init();
    let input = FrameInput { pointer_world: Some(v(3, 4)), ..idle_input() };
    w.step_frame(input);
    assert_eq!(w.cursor.0, Some(v(3, 4)));
    let g = w.gun.unwrap();
    assert_eq!(g.dir, v(600, 800));
    assert_eq!(g.pos, v(7, 1));
    assert!(w.bullets.is_empty());
}

#[test]
fn frame_level_fire_cadence() {
    let mut w = GameWorld::new();
    w.load_assets(9);
    w.enter_game_init();
    let mut now: u64 = 0;
    let mut spawn_times: Vec<u64> = Vec::new();
    for _ in 0..12 {
        now += 60;
        let before = w.bullets.len();
        let input = FrameInput { fire: true, delta_ms: 60, ..idle_input() };
        w.step_frame(input);
        if w.bullets.len() > before {
            spawn_times.push(now);
        }
    }
    assert_eq!(w.bullets.len(), 6);
    for pair in spawn_times.windows(2) {
        assert!(pair[1] - pair[0] >= 100);
    }
}

#[test]
fn bullets_keep_direction_across_frames() {
    let mut w = GameWorld::new();
    w.load_assets(9);
    w.enter_game_init();
    // aim right, fire once
    let fire = FrameInput {
        fire: true,
        delta_ms: 100,
        pointer_world: Some(v(50, 0)),
        ..idle_input()
    };
    w.step_frame(fire);
    assert_eq!(w.bullets.len(), 1);
    let spawn_pos = v(15, -15);
    assert_eq!(w.bullets[0].pos, v(spawn_pos.x + 15, spawn_pos.y));
    // three idle frames: the bullet flies on along its frozen direction
    for _ in 0..3 {
        w.step_frame(idle_input());
    }
    assert_eq!(w.bullets.len(), 1);
    assert_eq!(w.bullets[0].dir, v(1000, 0));
    assert_eq!(w.bullets[0].pos, v(spawn_pos.x + 4 * 15, spawn_pos.y));
}
