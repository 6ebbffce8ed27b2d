//! The progress-gated title-menu state machine.
//!
//! Four entries sit on the screen in a fixed top-to-bottom order: New Game,
//! Continue, 6th Night, Custom Night.  The last two are locked until the
//! save record says the main game, and then the sixth night, have been
//! beaten.  A single cursor marks the selected entry; the Down key walks
//! toward the bottom of the list and wraps to the top, the Up key walks
//! toward the top and, from the top, wraps to the bottom-most unlocked
//! entry.  Hovering an entry with the pointer moves the cursor there only if
//! the entry is unlocked.

use crate::progress::Config;
use crate::GameState;
use vstd::prelude::*;

verus! {

/// A menu entry, named for the position of the selection arrow.  The
/// declaration order is the on-screen order, top to bottom.
#[derive(Clone, Copy, Debug, PartialEq, Eq, Structural)]
pub enum ArrowLocation {
    NewGame,
    Continue,
    SThNight,
    CustomNight,
}

/// The unlock predicate: which entries the current progress makes
/// selectable.  Starting a new game and continuing are always available;
/// the bonus nights unlock cumulatively.
pub open spec fn spec_unlocked(entry: ArrowLocation, cfg: Config) -> bool {
    match entry {
        ArrowLocation::NewGame => true,
        ArrowLocation::Continue => true,
        ArrowLocation::SThNight => cfg.spec_beatgame(),
        ArrowLocation::CustomNight => cfg.spec_beatgame() && cfg.spec_beat_six(),
    }
}

/// See `spec_unlocked`.
pub fn unlocked(entry: ArrowLocation, cfg: &Config) -> (r: bool)
    requires
        cfg.valid(),
    ensures
        r == spec_unlocked(entry, *cfg),
{
    match entry {
        ArrowLocation::NewGame => true,
        ArrowLocation::Continue => true,
        ArrowLocation::SThNight => cfg.beatgame(),
        ArrowLocation::CustomNight => cfg.beatgame() && cfg.beat_six(),
    }
}

/// Where the Up key sends the cursor.  Every entry steps to the one above
/// it; the top entry wraps to the bottom-most unlocked one, which is what
/// the per-progress table spells out.
pub open spec fn spec_key_up(cursor: ArrowLocation, cfg: Config) -> ArrowLocation {
    match cursor {
        ArrowLocation::NewGame => if cfg.spec_beatgame() && cfg.spec_beat_six() {
            ArrowLocation::CustomNight
        } else if cfg.spec_beatgame() {
            ArrowLocation::SThNight
        } else {
            ArrowLocation::Continue
        },
        ArrowLocation::Continue => ArrowLocation::NewGame,
        ArrowLocation::SThNight => ArrowLocation::Continue,
        ArrowLocation::CustomNight => ArrowLocation::SThNight,
    }
}

/// Where the Down key sends the cursor.  Every entry steps to the one below
/// it, skipping locked entries by wrapping to the top as soon as nothing
/// below is unlocked.
pub open spec fn spec_key_down(cursor: ArrowLocation, cfg: Config) -> ArrowLocation {
    match cursor {
        ArrowLocation::NewGame => ArrowLocation::Continue,
        ArrowLocation::Continue => if cfg.spec_beatgame() {
            ArrowLocation::SThNight
        } else {
            ArrowLocation::NewGame
        },
        ArrowLocation::SThNight => if cfg.spec_beatgame() && cfg.spec_beat_six() {
            ArrowLocation::CustomNight
        } else {
            ArrowLocation::NewGame
        },
        ArrowLocation::CustomNight => ArrowLocation::NewGame,
    }
}

/// Move the cursor one entry up the screen, wrapping from the top to the
/// bottom-most unlocked entry.  The result is always unlocked when the
/// starting entry is.
pub fn on_key_up(cursor: ArrowLocation, cfg: &Config) -> (r: ArrowLocation)
    requires
        cfg.valid(),
    ensures
        r == spec_key_up(cursor, *cfg),
        spec_unlocked(cursor, *cfg) ==> spec_unlocked(r, *cfg),
{
    match cursor {
        ArrowLocation::NewGame => {
            if cfg.beatgame() && cfg.beat_six() {
                ArrowLocation::CustomNight
            } else if cfg.beatgame() {
                ArrowLocation::SThNight
            } else {
                ArrowLocation::Continue
            }
        },
        ArrowLocation::Continue => ArrowLocation::NewGame,
        ArrowLocation::SThNight => ArrowLocation::Continue,
        ArrowLocation::CustomNight => ArrowLocation::SThNight,
    }
}

/// Move the cursor one entry down the screen, wrapping to the top as soon
/// as nothing below the cursor is unlocked.  The result is always unlocked
/// when the starting entry is.
pub fn on_key_down(cursor: ArrowLocation, cfg: &Config) -> (r: ArrowLocation)
    requires
        cfg.valid(),
    ensures
        r == spec_key_down(cursor, *cfg),
        spec_unlocked(cursor, *cfg) ==> spec_unlocked(r, *cfg),
{
    match cursor {
        ArrowLocation::NewGame => ArrowLocation::Continue,
        ArrowLocation::Continue => {
            if cfg.beatgame() {
                ArrowLocation::SThNight
            } else {
                ArrowLocation::NewGame
            }
        },
        ArrowLocation::SThNight => {
            if cfg.beatgame() && cfg.beat_six() {
                ArrowLocation::CustomNight
            } else {
                ArrowLocation::NewGame
            }
        },
        ArrowLocation::CustomNight => ArrowLocation::NewGame,
    }
}

/// Hovering an entry selects it only if it is unlocked; hovering a locked
/// entry changes nothing.
pub fn on_hover(cursor: ArrowLocation, target: ArrowLocation, cfg: &Config) -> (r: ArrowLocation)
    requires
        cfg.valid(),
    ensures
        r == (if spec_unlocked(target, *cfg) { target } else { cursor }),
{
    if unlocked(target, cfg) { target } else { cursor }
}

/// Clicking a menu entry is deliberately not wired to anything yet: no
/// screen transition is defined for it, so the result is always `None` and
/// callers should surface a diagnostic rather than invent a behaviour.
pub fn on_click(_cursor: ArrowLocation, _cfg: &Config) -> (r: Option<GameState>)
    ensures
        r is None,
{
    None
}

/// The cursor the title screen starts on: New Game for a fresh save, and
/// Continue once any night has been passed.
pub fn initial_cursor(cfg: &Config) -> (r: ArrowLocation)
    ensures
        r == (if cfg.spec_level() == 1 {
            ArrowLocation::NewGame
        } else {
            ArrowLocation::Continue
        }),
{
    if cfg.level() == 1 {
        ArrowLocation::NewGame
    } else {
        ArrowLocation::Continue
    }
}

/// The night-number sprite is shown exactly while Continue is selected: it
/// reads "continue from night N".
pub fn night_display_visible(cursor: ArrowLocation) -> (r: bool)
    ensures
        r == (cursor == ArrowLocation::Continue),
{
    matches!(cursor, ArrowLocation::Continue)
}

/// Each entry's selection indicator is shown exactly while the cursor is on
/// that entry.
pub fn indicator_visible(cursor: ArrowLocation, entry: ArrowLocation) -> (r: bool)
    ensures
        r == (cursor == entry),
{
    cursor == entry
}

/// The sprite-sheet frame of the night-number display, read once at screen
/// entry: the saved night maps directly to a frame index.
pub fn night_frame(cfg: &Config) -> (r: usize)
    ensures
        r == cfg.spec_level(),
{
    cfg.level() as usize
}

/// Navigation is closed over the unlocked entries and the two keys undo one
/// another: from any unlocked entry, Down then Up lands back on the same
/// entry, for every valid progress state.
pub proof fn lemma_down_then_up_round_trip(cursor: ArrowLocation, cfg: Config)
    requires
        cfg.valid(),
        spec_unlocked(cursor, cfg),
    ensures
        spec_key_up(spec_key_down(cursor, cfg), cfg) == cursor,
{
}

/// The mirror round trip: from any unlocked entry, Up then Down lands back
/// on the same entry, for every valid progress state.
pub proof fn lemma_up_then_down_round_trip(cursor: ArrowLocation, cfg: Config)
    requires
        cfg.valid(),
        spec_unlocked(cursor, cfg),
    ensures
        spec_key_down(spec_key_up(cursor, cfg), cfg) == cursor,
{
}

} // verus!
