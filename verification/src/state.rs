//! The game phase: a three-state sequencer gating when the other systems may
//! run.  The phase starts at `Loading`, advances to `GameInit` once the
//! sprite sheet is in, advances to `InGame` once the world has been spawned,
//! and then never moves again.

use vstd::prelude::*;

verus! {

/// The coarse startup phase of the game.
#[derive(Clone, Copy, PartialEq, Eq, Structural, Debug)]
pub enum GameState {
    Loading,
    GameInit,
    InGame,
}

/// The two events that can move the phase forward.
#[derive(Clone, Copy, PartialEq, Eq, Structural, Debug)]
pub enum PhaseEvent {
    AssetsLoaded,
    WorldSpawned,
}

impl GameState {
    /// How far the phase has advanced: `Loading` is 0, `GameInit` 1,
    /// `InGame` 2.
    pub open spec fn rank(self) -> int {
        match self {
            GameState::Loading => 0,
            GameState::GameInit => 1,
            GameState::InGame => 2,
        }
    }

    /// The transition relation: each event advances exactly the phase that
    /// waits for it and leaves every other phase unchanged.
    pub open spec fn spec_step(self, ev: PhaseEvent) -> GameState {
        match (self, ev) {
            (GameState::Loading, PhaseEvent::AssetsLoaded) => GameState::GameInit,
            (GameState::GameInit, PhaseEvent::WorldSpawned) => GameState::InGame,
            _ => self,
        }
    }
}

/// The phase after the first `k` events of a sequence.
pub open spec fn phase_at(s: GameState, evs: Seq<PhaseEvent>, k: int) -> GameState
    decreases k,
{
    if k <= 0 {
        s
    } else {
        phase_at(s, evs, k - 1).spec_step(evs[k - 1])
    }
}

/// Law: one step never moves the phase backward, and never skips a phase:
/// the rank grows by at most one.
pub proof fn lemma_phase_monotone(s: GameState, ev: PhaseEvent)
    ensures
        s.rank() <= s.spec_step(ev).rank() <= s.rank() + 1,
{
}

/// Law: the only strict transitions are `Loading -> GameInit` on
/// `AssetsLoaded` and `GameInit -> InGame` on `WorldSpawned`; `InGame` is
/// terminal.  Together with the rank bound this is the order
/// Loading, GameInit, InGame, each phase left at most once and never
/// re-entered.
pub proof fn lemma_phase_order(s: GameState, ev: PhaseEvent)
    ensures
        s.spec_step(ev) != s ==> {
            ||| (s == GameState::Loading && ev == PhaseEvent::AssetsLoaded && s.spec_step(ev)
                == GameState::GameInit)
            ||| (s == GameState::GameInit && ev == PhaseEvent::WorldSpawned && s.spec_step(ev)
                == GameState::InGame)
        },
        GameState::InGame.spec_step(ev) == GameState::InGame,
{
}

/// Law: along any event sequence the phase ranks never decrease with time:
/// the phase never reverts, so each of the three phases is visited at most
/// once and in order.
pub proof fn lemma_phase_never_reverts(s: GameState, evs: Seq<PhaseEvent>, k1: int, k2: int)
    requires
        0 <= k1 <= k2 <= evs.len(),
    ensures
        phase_at(s, evs, k1).rank() <= phase_at(s, evs, k2).rank(),
    decreases k2 - k1,
{
    if k1 < k2 {
        lemma_phase_never_reverts(s, evs, k1, k2 - 1);
        lemma_phase_monotone(phase_at(s, evs, k2 - 1), evs[k2 - 1]);
    }
}

} // verus!
