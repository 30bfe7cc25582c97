//! Shared per-frame state that is not an entity: the sprite-sheet atlas
//! resource and the cursor's world position.

use vstd::prelude::*;

use crate::config::{
    BULLET_SPRITE_INDEX, DECORATION_SPRITE_MAX, DECORATION_SPRITE_MIN, GUN_SPRITE_INDEX,
    PLAYER_SPRITE_INDEX, SPRITE_SHEET_H, SPRITE_SHEET_W, TILE_H, TILE_W,
};
use crate::math::Vec2;
use crate::state::{GameState, PhaseEvent};

verus! {

/// The grid layout of the sprite sheet: one image sliced into `columns x
/// rows` cells of `tile_w x tile_h` pixels, addressed by a flat row-major
/// index.
#[derive(Clone, Copy, PartialEq, Eq, Structural, Debug)]
pub struct AtlasLayout {
    pub tile_w: u32,
    pub tile_h: u32,
    pub columns: usize,
    pub rows: usize,
}

impl AtlasLayout {
    /// How many cells the grid holds.
    pub open spec fn cell_count(self) -> int {
        self.columns * self.rows
    }

    /// `i` addresses a cell of the grid.
    pub open spec fn valid_index(self, i: int) -> bool {
        0 <= i < self.cell_count()
    }

    /// Slices an image into a regular grid of equally sized cells.
    pub fn from_grid(tile_w: u32, tile_h: u32, columns: usize, rows: usize) -> (r: AtlasLayout)
        ensures
            r == (AtlasLayout { tile_w, tile_h, columns, rows }),
    {
        AtlasLayout { tile_w, tile_h, columns, rows }
    }
}

/// The loaded sprite sheet: the image (an opaque handle issued by the asset
/// loader) and its grid layout.  Both stay `None` until loading completes
/// and are never reset afterward.
#[derive(Clone, Copy, PartialEq, Eq, Structural, Debug)]
pub struct GlobalTextureAtlas {
    pub layout: Option<AtlasLayout>,
    pub image: Option<u64>,
}

impl GlobalTextureAtlas {
    /// Both halves of the resource are in.
    pub open spec fn loaded(self) -> bool {
        self.layout is Some && self.image is Some
    }
}

impl Default for GlobalTextureAtlas {
    /// Before loading, the resource holds nothing.
    fn default() -> (r: Self)
        ensures
            r.layout is None && r.image is None,
    {
        GlobalTextureAtlas { layout: None, image: None }
    }
}

/// Law: the grid that `load_assets` slices covers every sprite cell the
/// game ever draws — the player's, the gun's, the bullet's, and the whole
/// decorative range — so each entity kind addresses a cell that exists.
pub proof fn lemma_atlas_covers_game_sprites(l: AtlasLayout)
    requires
        l == (AtlasLayout {
            tile_w: TILE_W,
            tile_h: TILE_H,
            columns: SPRITE_SHEET_W,
            rows: SPRITE_SHEET_H,
        }),
    ensures
        l.valid_index(PLAYER_SPRITE_INDEX as int),
        l.valid_index(GUN_SPRITE_INDEX as int),
        l.valid_index(BULLET_SPRITE_INDEX as int),
        forall|i: int| DECORATION_SPRITE_MIN <= i <= DECORATION_SPRITE_MAX ==> l.valid_index(i),
{
    assert(l.cell_count() == 64) by (nonlinear_arith)
        requires
            l.columns == 8 && l.rows == 8,
    ;
}

/// The pointer's position in world coordinates, or `None` when the pointer
/// is off-window or no camera or window exists yet.
#[derive(Clone, Copy, PartialEq, Eq, Structural, Debug)]
pub struct CursorPosition(pub Option<Vec2>);

/// On entering `Loading`: records the sprite-sheet image handed over by the
/// asset loader, slices it into the configured grid, and advances the phase
/// to `GameInit`.  A failure to load the image is fatal and never reaches
/// this point.
pub fn load_assets(atlas: &mut GlobalTextureAtlas, state: &mut GameState, image: u64)
    requires
        *old(state) == GameState::Loading,
    ensures
        final(atlas).image == Some(image),
        final(atlas).layout == Some(
            AtlasLayout { tile_w: TILE_W, tile_h: TILE_H, columns: SPRITE_SHEET_W, rows: SPRITE_SHEET_H },
        ),
        final(atlas).loaded(),
        *final(state) == old(state).spec_step(PhaseEvent::AssetsLoaded),
        *final(state) == GameState::GameInit,
{
    atlas.image = Some(image);
    atlas.layout = Some(AtlasLayout::from_grid(TILE_W, TILE_H, SPRITE_SHEET_W, SPRITE_SHEET_H));
    *state = GameState::GameInit;
}

/// Every frame: the shared cursor value becomes the pointer's world
/// position — handed over by the engine's viewport-to-world conversion — or
/// `None` when no window or no camera exists yet, or no pointer reading
/// came.
pub fn update_cursor_position(
    cursor: &mut CursorPosition,
    has_window: bool,
    has_camera: bool,
    pointer_world: Option<Vec2>,
)
    ensures
        final(cursor).0 == if has_window && has_camera {
            pointer_world
        } else {
            None::<Vec2>
        },
{
    if has_window && has_camera {
        cursor.0 = pointer_world;
    } else {
        cursor.0 = None;
    }
}

} // verus!
