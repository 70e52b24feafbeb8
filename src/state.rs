//! The load phases of a level and the one-way transitions between them.

use vstd::prelude::*;

verus! {

/// The phase of the level bootstrap: the map is loaded first, then the
/// player is spawned, and gameplay runs from then on.
#[derive(Clone, Copy, Debug, PartialEq, Eq, Structural, Hash)]
pub enum GameState {
    LoadMap,
    LoadPlayer,
    Gameplay,
}

/// What a bootstrap step reports: the map has been populated, or the player
/// has been placed on its spawn cell.
#[derive(Clone, Copy, Debug, PartialEq, Eq, Structural)]
pub enum PhaseEvent {
    MapLoaded,
    PlayerSpawned,
}

impl GameState {
    /// Position of the phase in the bootstrap order.
    pub open spec fn rank(self) -> nat {
        match self {
            GameState::LoadMap => 0,
            GameState::LoadPlayer => 1,
            GameState::Gameplay => 2,
        }
    }

    /// The phase after `e`: `MapLoaded` moves `LoadMap` on, `PlayerSpawned`
    /// moves `LoadPlayer` on, and every other pairing leaves the phase as it is.
    pub open spec fn next(self, e: PhaseEvent) -> GameState {
        match (self, e) {
            (GameState::LoadMap, PhaseEvent::MapLoaded) => GameState::LoadPlayer,
            (GameState::LoadPlayer, PhaseEvent::PlayerSpawned) => GameState::Gameplay,
            _ => self,
        }
    }

    /// The phase after each event of `events` in turn.
    pub open spec fn run(self, events: Seq<PhaseEvent>) -> GameState
        decreases events.len(),
    {
        if events.len() == 0 {
            self
        } else {
            self.next(events[0]).run(events.drop_first())
        }
    }

    /// The phase a level starts in.
    pub fn initial() -> (r: GameState)
        ensures
            r == GameState::LoadMap,
    {
        GameState::LoadMap
    }

    /// The phase after `e`.
    pub fn advance(self, e: PhaseEvent) -> (r: GameState)
        ensures
            r == self.next(e),
            r.rank() >= self.rank(),
    {
        match (self, e) {
            (GameState::LoadMap, PhaseEvent::MapLoaded) => GameState::LoadPlayer,
            (GameState::LoadPlayer, PhaseEvent::PlayerSpawned) => GameState::Gameplay,
            _ => self,
        }
    }

    /// Whether gameplay systems may run.
    pub fn is_gameplay(&self) -> (r: bool)
        ensures
            r == (*self == GameState::Gameplay),
    {
        match self {
            GameState::Gameplay => true,
            _ => false,
        }
    }
}

impl Default for GameState {
    fn default() -> (r: GameState)
        ensures
            r == GameState::LoadMap,
    {
        GameState::LoadMap
    }
}

/// Phases only move forward: after any run of events the rank is at least
/// the starting rank, and a run that starts in `Gameplay` stays in `Gameplay`,
/// so `LoadMap` and `LoadPlayer` are never visited again.
pub proof fn lemma_phase_monotone(s: GameState, events: Seq<PhaseEvent>)
    ensures
        s.run(events).rank() >= s.rank(),
        s == GameState::Gameplay ==> s.run(events) == GameState::Gameplay,
    decreases events.len(),
{
    if events.len() > 0 {
        lemma_phase_monotone(s.next(events[0]), events.drop_first());
    }
}

} // verus!
