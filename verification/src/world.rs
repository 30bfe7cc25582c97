//! The game world: an explicit context struct holding the phase, the shared
//! resources, and the entity store as a closed set of typed slots, plus the
//! spawner that fills it on entering `GameInit` and the dispatch of one
//! `InGame` frame.
//!
//! Player, gun and camera live in `Option` slots, so at most one of each can
//! ever exist; bullets and decorations live in growable tables.

use vstd::prelude::*;

use rand::Rng;

use crate::camera::{camera_follow_player, camera_followed, setup_camera, GameCamera};
use crate::config::{
    COORD_LIMIT, DECORATION_SPRITE_MAX, DECORATION_SPRITE_MIN, DIR_SCALE,
    WORLD_DECORATION_COUNT, WORLD_H, WORLD_W,
};
use crate::gun::{
    bullet_advanced, bullet_wf, bullets_after_input, cooldown_step, frame_spawns,
    gun_after_input, gun_aimed, handle_gun_input, update_bullets, update_gun_transform, Bullet,
    FireFrame, Gun, GunTimer,
};
use crate::math::Vec2;
use crate::player::{handle_player_input, player_moved, Player};
use crate::resources::{
    load_assets, update_cursor_position, CursorPosition, GlobalTextureAtlas,
};
use crate::state::{GameState, PhaseEvent};

verus! {

/// A static decoration entity: a fixed position and a sprite drawn from a
/// small set of decorative variants.  Never mutated or destroyed.
#[derive(Clone, Copy, PartialEq, Eq, Structural, Debug)]
pub struct Decoration {
    pub pos: Vec2,
    pub sprite_index: usize,
}

/// What the spawner promises of every decoration: a position inside the
/// world rectangle and a sprite index from the decorative variant range.
/// No relation between any two decorations is promised; overlap is allowed.
pub open spec fn decoration_ok(d: Decoration) -> bool {
    &&& -WORLD_W <= d.pos.x < WORLD_W
    &&& -WORLD_H <= d.pos.y < WORLD_H
    &&& DECORATION_SPRITE_MIN <= d.sprite_index <= DECORATION_SPRITE_MAX
}

/// Relies on `rand::Rng::gen_range`, through the thread-local generator of
/// `rand::thread_rng`, on a half-open `i64` range: the result is a sample
/// of that range — at least `lo`, below `hi` — and the call panics only on
/// an empty range, which the precondition rules out.  Nothing more is
/// stated: the draw depends on the generator's state.
#[verifier::external_body]
fn gen_range_i64(lo: i64, hi: i64) -> (r: i64)
    requires
        lo < hi,
    ensures
        lo <= r < hi,
{
    rand::thread_rng().gen_range(lo..hi)
}

/// One frame's raw input, handed over by the engine edge: the four
/// directional key states, the fire button, the frame time, and the
/// pointer's world position together with whether a window and a camera
/// exist to read it through.
#[derive(Clone, Copy, Debug)]
pub struct FrameInput {
    pub left: bool,
    pub up: bool,
    pub down: bool,
    pub right: bool,
    pub fire: bool,
    pub delta_ms: u64,
    pub has_window: bool,
    pub has_camera: bool,
    pub pointer_world: Option<Vec2>,
}

impl FrameInput {
    /// The pointer reading, when present, lies in the coordinate range the
    /// systems accept: a machine limit, far beyond any real window.
    pub open spec fn wf(self) -> bool {
        self.pointer_world matches Some(p) ==> p.in_range(COORD_LIMIT as int - 64)
    }
}

/// The whole game handed from frame to frame.
pub struct GameWorld {
    pub state: GameState,
    pub atlas: GlobalTextureAtlas,
    pub cursor: CursorPosition,
    pub player: Option<Player>,
    pub gun: Option<Gun>,
    pub camera: Option<GameCamera>,
    pub bullets: Vec<Bullet>,
    pub decorations: Vec<Decoration>,
}

impl GameWorld {
    /// The world invariant, tied to the phase: nothing exists while
    /// `Loading`; the atlas is in from `GameInit` on and never reset; once
    /// `InGame`, exactly one player, one gun and one camera exist and the
    /// full set of decorations is placed.  Gun and bullet directions always
    /// lie in the fixed-point unit box, and every decoration is as the
    /// spawner placed it.
    pub open spec fn wf(self) -> bool {
        &&& (self.state == GameState::Loading ==> self.atlas.image is None
            && self.atlas.layout is None && self.player is None && self.gun is None
            && self.camera is None && self.bullets@.len() == 0 && self.decorations@.len() == 0)
        &&& (self.state == GameState::GameInit ==> self.atlas.loaded())
        &&& (self.state == GameState::InGame ==> self.atlas.loaded() && self.player is Some
            && self.gun is Some && self.camera is Some && self.decorations@.len()
            == WORLD_DECORATION_COUNT)
        &&& (self.gun matches Some(g) ==> g.dir.in_range(DIR_SCALE as int))
        &&& (forall|i: int|
            0 <= i < self.bullets@.len() ==> bullet_wf(#[trigger] self.bullets@[i]))
        &&& (forall|i: int|
            0 <= i < self.decorations@.len() ==> decoration_ok(#[trigger] self.decorations@[i]))
    }

    /// Every tracked position lies far enough inside the coordinate range
    /// that one frame's growth cannot leave it: a machine limit, not a game
    /// rule.
    pub open spec fn in_play_range(self) -> bool {
        &&& (self.player matches Some(p) ==> p.pos.in_range(COORD_LIMIT as int - 64))
        &&& (self.camera matches Some(c) ==> c.pos.in_range(COORD_LIMIT as int - 64))
        &&& (forall|i: int|
            0 <= i < self.bullets@.len() ==> (#[trigger] self.bullets@[i]).pos.in_range(
                COORD_LIMIT as int - 64,
            ))
    }

    /// A fresh game: phase `Loading`, nothing loaded, no entities, no
    /// cursor value.
    pub fn new() -> (w: GameWorld)
        ensures
            w.wf(),
            w.in_play_range(),
            w.state == GameState::Loading,
            w.atlas.image is None && w.atlas.layout is None,
            w.cursor.0 is None,
            w.player is None && w.gun is None && w.camera is None,
            w.bullets@.len() == 0 && w.decorations@.len() == 0,
    {
        GameWorld {
            state: GameState::Loading,
            atlas: GlobalTextureAtlas::default(),
            cursor: CursorPosition(None),
            player: None,
            gun: None,
            camera: None,
            bullets: Vec::new(),
            decorations: Vec::new(),
        }
    }

    /// On entering `Loading`: takes in the sprite-sheet image and advances
    /// the phase to `GameInit`; everything else is untouched.
    pub fn load_assets(&mut self, image: u64)
        requires
            old(self).wf(),
            old(self).state == GameState::Loading,
        ensures
            final(self).wf(),
            final(self).state == old(self).state.spec_step(PhaseEvent::AssetsLoaded),
            final(self).state == GameState::GameInit,
            final(self).atlas.image == Some(image),
            final(self).atlas.loaded(),
            final(self).cursor == old(self).cursor,
            final(self).player == old(self).player,
            final(self).gun == old(self).gun,
            final(self).camera == old(self).camera,
            final(self).bullets@ == old(self).bullets@,
            final(self).decorations@ == old(self).decorations@,
    {
        load_assets(&mut self.atlas, &mut self.state, image);
    }

    /// On entering `GameInit`: the camera appears at the world origin.
    pub fn setup_camera(&mut self)
        requires
            old(self).wf(),
            old(self).state == GameState::GameInit,
        ensures
            final(self).wf(),
            final(self).camera == Some(GameCamera { pos: (Vec2 { x: 0, y: 0 }) }),
            final(self).state == old(self).state,
            final(self).atlas == old(self).atlas,
            final(self).cursor == old(self).cursor,
            final(self).player == old(self).player,
            final(self).gun == old(self).gun,
            final(self).bullets@ == old(self).bullets@,
            final(self).decorations@ == old(self).decorations@,
    {
        self.camera = Some(setup_camera());
    }

    /// On entering `GameInit`, once: scatters `WORLD_DECORATION_COUNT`
    /// decorations, each at a position drawn uniformly at random from the
    /// world rectangle with a sprite drawn from the decorative variants.
    pub fn spawn_world_decoration(&mut self)
        requires
            old(self).wf(),
            old(self).state == GameState::GameInit,
            old(self).decorations@.len() == 0,
        ensures
            final(self).wf(),
            final(self).decorations@.len() == WORLD_DECORATION_COUNT,
            forall|i: int|
                0 <= i < final(self).decorations@.len() ==> decoration_ok(
                    #[trigger] final(self).decorations@[i],
                ),
            final(self).state == old(self).state,
            final(self).atlas == old(self).atlas,
            final(self).cursor == old(self).cursor,
            final(self).player == old(self).player,
            final(self).gun == old(self).gun,
            final(self).camera == old(self).camera,
            final(self).bullets@ == old(self).bullets@,
    {
        let mut k: usize = 0;
        while k < WORLD_DECORATION_COUNT
            invariant
                k <= WORLD_DECORATION_COUNT,
                self.decorations@.len() == k,
                forall|i: int|
                    0 <= i < k ==> decoration_ok(#[trigger] self.decorations@[i]),
                self.state == old(self).state,
                self.atlas == old(self).atlas,
                self.cursor == old(self).cursor,
                self.player == old(self).player,
                self.gun == old(self).gun,
                self.camera == old(self).camera,
                self.bullets@ == old(self).bullets@,
                old(self).wf(),
                old(self).state == GameState::GameInit,
            decreases WORLD_DECORATION_COUNT - k,
        {
            let x = gen_range_i64(-WORLD_W, WORLD_W);
            let y = gen_range_i64(-WORLD_H, WORLD_H);
            let idx = gen_range_i64(
                DECORATION_SPRITE_MIN as i64,
                DECORATION_SPRITE_MAX as i64 + 1,
            );
            self.decorations.push(
                Decoration { pos: Vec2 { x, y }, sprite_index: idx as usize },
            );
            k = k + 1;
        }
    }

    /// On entering `GameInit`, once the decorations are in and the camera is
    /// up: creates the player at the world origin and the gun at the world
    /// origin — cooldown at zero-elapsed, forward vector at the default,
    /// pointing along the positive x axis — then advances the phase: the
    /// game is on.
    pub fn init_world(&mut self)
        requires
            old(self).wf(),
            old(self).state == GameState::GameInit,
            old(self).camera is Some,
            old(self).decorations@.len() == WORLD_DECORATION_COUNT,
        ensures
            final(self).wf(),
            final(self).state == old(self).state.spec_step(PhaseEvent::WorldSpawned),
            final(self).state == GameState::InGame,
            final(self).player == Some(Player { pos: (Vec2 { x: 0, y: 0 }) }),
            final(self).gun == Some(
                Gun {
                    pos: (Vec2 { x: 0, y: 0 }),
                    dir: (Vec2 { x: DIR_SCALE, y: 0 }),
                    timer: (GunTimer { elapsed_ms: 0 }),
                },
            ),
            final(self).atlas == old(self).atlas,
            final(self).cursor == old(self).cursor,
            final(self).camera == old(self).camera,
            final(self).bullets@ == old(self).bullets@,
            final(self).decorations@ == old(self).decorations@,
    {
        self.player = Some(Player { pos: Vec2::zero() });
        self.gun = Some(
            Gun { pos: Vec2::zero(), dir: Vec2 { x: DIR_SCALE, y: 0 }, timer: GunTimer::default() },
        );
        self.state = GameState::InGame;
    }

    /// The whole `GameInit` entry in one call: camera up, decorations
    /// scattered, player and gun created, phase advanced to `InGame`.
    pub fn enter_game_init(&mut self)
        requires
            old(self).wf(),
            old(self).state == GameState::GameInit,
            old(self).decorations@.len() == 0,
        ensures
            final(self).wf(),
            final(self).state == GameState::InGame,
            final(self).player == Some(Player { pos: (Vec2 { x: 0, y: 0 }) }),
            final(self).gun == Some(
                Gun {
                    pos: (Vec2 { x: 0, y: 0 }),
                    dir: (Vec2 { x: DIR_SCALE, y: 0 }),
                    timer: (GunTimer { elapsed_ms: 0 }),
                },
            ),
            final(self).camera == Some(GameCamera { pos: (Vec2 { x: 0, y: 0 }) }),
            final(self).decorations@.len() == WORLD_DECORATION_COUNT,
            forall|i: int|
                0 <= i < final(self).decorations@.len() ==> decoration_ok(
                    #[trigger] final(self).decorations@[i],
                ),
            final(self).atlas == old(self).atlas,
            final(self).cursor == old(self).cursor,
            final(self).bullets@ == old(self).bullets@,
            old(self).in_play_range() ==> final(self).in_play_range(),
    {
        self.setup_camera();
        self.spawn_world_decoration();
        self.init_world();
    }
}

/// The cursor value one frame computes from the raw input.
pub open spec fn cursor_after(input: FrameInput) -> Option<Vec2> {
    if input.has_window && input.has_camera {
        input.pointer_world
    } else {
        None
    }
}

/// The player after one frame's movement.
pub open spec fn player_after(w: GameWorld, input: FrameInput) -> Player {
    player_moved(w.player->0, input.left, input.up, input.down, input.right)
}

/// The gun as aimed this frame — toward the fresh cursor value, from the
/// freshly moved player — before the fire gate runs.
pub open spec fn gun_aimed_after(w: GameWorld, input: FrameInput) -> Gun {
    gun_aimed(w.gun->0, player_after(w, input).pos, cursor_after(input))
}

/// The gun at the end of the frame: aimed, then through the fire gate.
pub open spec fn gun_after(w: GameWorld, input: FrameInput) -> Gun {
    gun_after_input(gun_aimed_after(w, input), input.delta_ms, input.fire)
}

/// The bullets at the end of the frame: the fire gate's outcome — possibly
/// one bullet spawned at the aimed gun — each advanced one step of travel.
pub open spec fn bullets_after(w: GameWorld, input: FrameInput) -> Seq<Bullet> {
    bullets_after_input(
        gun_aimed_after(w, input),
        w.bullets@,
        input.delta_ms,
        input.fire,
    ).map_values(|b: Bullet| bullet_advanced(b))
}

/// The camera at the end of the frame: smoothed toward the moved player.
pub open spec fn camera_after(w: GameWorld, input: FrameInput) -> GameCamera {
    camera_followed(w.camera->0, player_after(w, input).pos)
}

/// Law: the frame step's fire gate is one step of the recorded cooldown
/// model — aiming leaves the accumulator alone, so a frame spawns a bullet
/// exactly when the model, started from the gun's accumulator, says so, and
/// the accumulator afterwards is the model's.
pub proof fn lemma_frame_matches_cooldown(w: GameWorld, input: FrameInput)
    requires
        w.gun is Some,
    ensures
        bullets_after(w, input).len() == w.bullets@.len() + (if frame_spawns(
            (w.gun->0).timer.elapsed_ms,
            FireFrame { delta_ms: input.delta_ms, fire: input.fire },
        ) {
            1int
        } else {
            0int
        }),
        gun_after(w, input).timer.elapsed_ms == cooldown_step(
            (w.gun->0).timer.elapsed_ms,
            FireFrame { delta_ms: input.delta_ms, fire: input.fire },
        ),
{
}

impl GameWorld {
    /// One whole `InGame` frame over the given raw input: cursor tracking,
    /// player movement, gun aim, the fire gate, bullet travel, camera
    /// follow — in that order.  The engine imposed no inter-system order
    /// beyond the phase gate; this library fixes this one and holds to it,
    /// so the gun observes the player's position of the same frame.
    pub fn step_frame(&mut self, input: FrameInput)
        requires
            old(self).wf(),
            old(self).state == GameState::InGame,
            old(self).in_play_range(),
            input.wf(),
        ensures
            final(self).wf(),
            final(self).state == old(self).state,
            final(self).atlas == old(self).atlas,
            final(self).decorations@ == old(self).decorations@,
            final(self).cursor.0 == cursor_after(input),
            final(self).player == Some(player_after(*old(self), input)),
            final(self).gun == Some(gun_after(*old(self), input)),
            final(self).camera == Some(camera_after(*old(self), input)),
            final(self).bullets@ == bullets_after(*old(self), input),
    {
        update_cursor_position(
            &mut self.cursor,
            input.has_window,
            input.has_camera,
            input.pointer_world,
        );
        let mut p: Player = self.player.unwrap();
        handle_player_input(&mut p, input.left, input.up, input.down, input.right);
        self.player = Some(p);
        let mut g: Gun = self.gun.unwrap();
        update_gun_transform(&mut g, p.pos, &self.cursor);
        let ghost aimed: Gun = g;
        let ghost before_fire: Seq<Bullet> = self.bullets@;
        handle_gun_input(&mut g, &mut self.bullets, input.delta_ms, input.fire);
        self.gun = Some(g);
        proof {
            assert(self.bullets@ == bullets_after_input(
                aimed,
                before_fire,
                input.delta_ms,
                input.fire,
            ));
        }
        update_bullets(&mut self.bullets);
        proof {
            let gate = bullets_after_input(aimed, before_fire, input.delta_ms, input.fire);
            assert(self.bullets@ =~= gate.map_values(|b: Bullet| bullet_advanced(b)));
        }
        let mut c: GameCamera = self.camera.unwrap();
        camera_follow_player(&mut c, p.pos);
        self.camera = Some(c);
    }
}

} // verus!
