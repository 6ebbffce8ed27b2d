//! The warning splash screen: a hold phase, a linear fade-out, and a single
//! transition to the title screen.
//!
//! Two one-shot timers run in sequence.  The hold timer must finish before
//! the fade timer starts ticking; while the fade runs, the splash's opacity
//! is the fraction of the fade still left, and when the fade finishes the
//! opacity is forced to zero and the transition is issued exactly once.  A
//! confirm press during the hold pauses the hold timer without resetting
//! it, keeping the splash up; a confirm press during the fade skips the
//! rest of it and transitions immediately.

use crate::timer::Timer;
use vstd::prelude::*;

verus! {

/// How long the splash is held before the fade, in microseconds.
pub const WARNING_HOLD_US: u32 = 2000000;

/// How long the fade to black lasts, in microseconds.
pub const WARNING_FADE_US: u32 = 1100000;

/// Where the splash is in its life.  Display begins immediately, so the
/// screen starts in `Holding`.
#[derive(Clone, Copy, Debug, PartialEq, Eq, Structural)]
pub enum WarningPhase {
    Holding,
    FadingOut,
    Done,
}

/// The whole state of the warning screen.
///
/// Functions on it require `wf()`; the constructor establishes it and every
/// method preserves it.
pub struct WarningScreen {
    /// One-shot timer for the hold phase.
    pub hold: Timer,
    /// One-shot timer for the fade phase; starts ticking only in `FadingOut`.
    pub fade: Timer,
    pub phase: WarningPhase,
    /// Whether the user cut the sequence short with a confirm press.
    pub skipped: bool,
}

impl WarningScreen {
    /// Shape of a reachable warning screen: two well-formed one-shot
    /// timers, an untouched fade while still holding, a finished hold once
    /// fading, and a hold that cannot be both in progress and finished.
    pub open spec fn wf(self) -> bool {
        &&& self.hold.wf()
        &&& self.fade.wf()
        &&& !self.hold.repeating
        &&& !self.fade.repeating
        &&& !self.fade.paused
        &&& self.phase is Holding ==> {
            &&& self.fade.elapsed_us == 0
            &&& self.fade.fired == 0
            &&& !self.hold.spec_finished()
        }
        &&& self.phase is FadingOut ==> self.hold.spec_finished()
    }

    /// The splash's opacity as an exact fraction: this value over the fade
    /// duration.  Full before the fade starts, the fraction of the fade
    /// remaining while it runs, and forced to zero once done.
    pub open spec fn spec_opacity_num(self) -> int {
        match self.phase {
            WarningPhase::Holding => self.fade.duration_us as int,
            WarningPhase::FadingOut => self.fade.duration_us - self.fade.elapsed_us,
            WarningPhase::Done => 0,
        }
    }

    /// A fresh warning screen holding the splash.  The durations are
    /// content constants; `WARNING_HOLD_US` and `WARNING_FADE_US` are the
    /// shipped values.
    pub fn new(hold_us: u32, fade_us: u32) -> (w: WarningScreen)
        requires
            hold_us > 0,
            fade_us > 0,
        ensures
            w.wf(),
            w.phase is Holding,
            !w.skipped,
            w.hold.duration_us == hold_us,
            w.hold.elapsed_us == 0,
            !w.hold.paused,
            w.fade.duration_us == fade_us,
            w.fade.elapsed_us == 0,
    {
        WarningScreen {
            hold: Timer::from_micros(hold_us, false),
            fade: Timer::from_micros(fade_us, false),
            phase: WarningPhase::Holding,
            skipped: false,
        }
    }

    /// Advance the screen by one frame of `dt_us` microseconds.  Only the
    /// phase's own timer ticks; the hold finishing switches to the fade
    /// (which starts ticking the following frame), and the fade finishing
    /// reaches `Done`.  Returns whether this very call completed the
    /// sequence, so the transition to the title screen is issued exactly
    /// once.
    pub fn tick(&mut self, dt_us: u32) -> (entered_done: bool)
        requires
            old(self).wf(),
        ensures
            final(self).wf(),
            *final(self) == spec_after_tick(*old(self), dt_us),
            final(self).skipped == old(self).skipped,
            old(self).phase is Holding ==> {
                &&& final(self).hold == old(self).hold.spec_tick(dt_us)
                &&& final(self).fade == old(self).fade
                &&& final(self).phase == (if old(self).hold.spec_tick(dt_us).spec_finished() {
                    WarningPhase::FadingOut
                } else {
                    WarningPhase::Holding
                })
                &&& !entered_done
            },
            old(self).phase is FadingOut ==> {
                &&& final(self).fade == old(self).fade.spec_tick(dt_us)
                &&& final(self).hold == old(self).hold
                &&& final(self).phase == (if old(self).fade.spec_tick(dt_us).spec_finished() {
                    WarningPhase::Done
                } else {
                    WarningPhase::FadingOut
                })
                &&& entered_done == old(self).fade.spec_tick(dt_us).spec_finished()
            },
            old(self).phase is Done ==> *final(self) == *old(self) && !entered_done,
    {
        match self.phase {
            WarningPhase::Holding => {
                self.hold.tick(dt_us);
                if self.hold.finished() {
                    self.phase = WarningPhase::FadingOut;
                }
                false
            },
            WarningPhase::FadingOut => {
                self.fade.tick(dt_us);
                if self.fade.finished() {
                    self.phase = WarningPhase::Done;
                    true
                } else {
                    false
                }
            },
            WarningPhase::Done => false,
        }
    }

    /// React to a confirm press (the enter keys or a left click).  During
    /// the hold it pauses the hold timer, preserving its elapsed time, so
    /// the splash stays up; during the fade it skips straight to `Done`.
    /// Returns whether this call completed the sequence.
    pub fn on_confirm(&mut self) -> (entered_done: bool)
        requires
            old(self).wf(),
        ensures
            final(self).wf(),
            old(self).phase is Holding ==> {
                &&& final(self).phase is Holding
                &&& final(self).hold.paused
                &&& final(self).hold.elapsed_us == old(self).hold.elapsed_us
                &&& final(self).hold.duration_us == old(self).hold.duration_us
                &&& final(self).hold.repeating == old(self).hold.repeating
                &&& final(self).hold.fired == old(self).hold.fired
                &&& final(self).fade == old(self).fade
                &&& final(self).skipped
                &&& !entered_done
            },
            old(self).phase is FadingOut ==> {
                &&& final(self).phase is Done
                &&& final(self).hold == old(self).hold
                &&& final(self).fade == old(self).fade
                &&& final(self).skipped
                &&& entered_done
            },
            old(self).phase is Done ==> *final(self) == *old(self) && !entered_done,
    {
        match self.phase {
            WarningPhase::Holding => {
                self.hold.pause();
                self.skipped = true;
                false
            },
            WarningPhase::FadingOut => {
                self.phase = WarningPhase::Done;
                self.skipped = true;
                true
            },
            WarningPhase::Done => false,
        }
    }

    /// The numerator of the opacity fraction, over `fade_duration_us()`.
    /// Equal to the duration exactly until the fade has started; renderers
    /// use that as the cue to skip the per-tick alpha write.
    pub fn opacity_remaining_us(&self) -> (r: u32)
        requires
            self.wf(),
        ensures
            r == self.spec_opacity_num(),
    {
        match self.phase {
            WarningPhase::Holding => self.fade.duration_us(),
            WarningPhase::FadingOut => self.fade.remaining_us(),
            WarningPhase::Done => 0,
        }
    }

    /// The denominator of the opacity fraction.
    pub fn fade_duration_us(&self) -> (r: u32)
        ensures
            r == self.fade.duration_us,
    {
        self.fade.duration_us()
    }

    pub fn phase(&self) -> (r: WarningPhase)
        ensures
            r == self.phase,
    {
        self.phase
    }

    pub fn skipped(&self) -> (r: bool)
        ensures
            r == self.skipped,
    {
        self.skipped
    }

    pub fn hold_elapsed_us(&self) -> (r: u32)
        ensures
            r == self.hold.elapsed_us,
    {
        self.hold.elapsed_us()
    }

    pub fn hold_paused(&self) -> (r: bool)
        ensures
            r == self.hold.paused,
    {
        self.hold.is_paused()
    }
}

/// Opacity never goes back up: across any tick, from any reachable state,
/// the opacity fraction is non-increasing (the denominator is fixed, so the
/// numerator tells the whole story).
pub proof fn lemma_opacity_monotone(w: WarningScreen, dt_us: u32)
    requires
        w.wf(),
    ensures
        spec_after_tick(w, dt_us).spec_opacity_num() <= w.spec_opacity_num(),
{
}

/// The state one `tick` call leaves behind, as a mathematical function;
/// `tick`'s postcondition says exactly this.
pub open spec fn spec_after_tick(w: WarningScreen, dt_us: u32) -> WarningScreen {
    match w.phase {
        WarningPhase::Holding => WarningScreen {
            hold: w.hold.spec_tick(dt_us),
            phase: if w.hold.spec_tick(dt_us).spec_finished() {
                WarningPhase::FadingOut
            } else {
                WarningPhase::Holding
            },
            ..w
        },
        WarningPhase::FadingOut => WarningScreen {
            fade: w.fade.spec_tick(dt_us),
            phase: if w.fade.spec_tick(dt_us).spec_finished() {
                WarningPhase::Done
            } else {
                WarningPhase::FadingOut
            },
            ..w
        },
        WarningPhase::Done => w,
    }
}

} // verus!
