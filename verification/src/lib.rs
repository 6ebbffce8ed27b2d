//! Core logic of a 2D game's intro sequence and title menu: a warning splash
//! screen that fades out on a pair of timers, and a title screen whose menu
//! cursor is gated by persisted player progress and whose background effects
//! are driven by repeating timers and random jitter.
//!
//! Time is measured in whole microseconds so that every timer computation is
//! exact integer arithmetic.  Randomness enters only through a seedable
//! generator wrapped behind a narrow trusted interface; everything computed
//! from a draw is verified for every value the draw can take.

use vstd::prelude::*;

pub mod effects;
pub mod menu;
pub mod progress;
pub mod timer;
pub mod title;
pub mod warning;

verus! {

/// The top-level screens of the game.  The intro sequence starts on
/// `Frame17` (the warning splash) and moves to `Title`.
#[derive(Clone, Copy, Debug, Hash, PartialEq, Eq, Structural)]
pub enum GameState {
    Frame17,
    Title,
    WhatDay,
    Frame1,
    Died,
    Freddy,
    NextDay,
    Wait,
    GameOver,
    TheEnd,
    Ad,
    TheEnd2,
    Customize,
    TheEnd3,
    CreepyStart,
    CreepyEnd,
    EndOfDemo,
}

/// Which screens ignore the quit key.
pub open spec fn spec_escape_exits(state: GameState) -> bool {
    !(state is CreepyEnd || state is CreepyStart || state is Ad || state is WhatDay
        || state is Wait)
}

/// Whether pressing the quit key on `state` should end the program.
/// A handful of cutscene-like screens swallow the key.
pub fn escape_exits(state: &GameState) -> (r: bool)
    ensures
        r == spec_escape_exits(*state),
{
    match state {
        GameState::CreepyEnd => false,
        GameState::CreepyStart => false,
        GameState::Ad => false,
        GameState::WhatDay => false,
        GameState::Wait => false,
        _ => true,
    }
}

} // verus!
