//! Interval timers measured in whole microseconds.
//!
//! A non-repeating timer accumulates elapsed time, caps it at its duration,
//! and counts as finished from the tick that first reaches the duration.  A
//! repeating timer wraps its elapsed time modulo the duration and reports how
//! many whole periods the latest tick completed.

use vstd::prelude::*;

verus! {

/// A timer advanced by integer microsecond steps.
///
/// Functions that operate on a timer require `wf()`; every constructor
/// establishes it and every method preserves it.
pub struct Timer {
    /// Length of one period, in microseconds.  Always positive.
    pub duration_us: u32,
    /// Time accumulated toward the end of the current period.
    pub elapsed_us: u32,
    /// Whether the timer wraps and fires once per period, rather than
    /// stopping at the first completion.
    pub repeating: bool,
    /// A paused timer ignores ticks.
    pub paused: bool,
    /// How many periods the most recent tick completed.  Zero for a
    /// non-repeating timer on every tick after the one that finished it.
    pub fired: u64,
}

impl Timer {
    /// Basic shape every timer keeps: a positive duration, elapsed time
    /// within one period, and at most one completion for a one-shot timer.
    pub open spec fn wf(self) -> bool {
        &&& self.duration_us > 0
        &&& if self.repeating {
            self.elapsed_us < self.duration_us
        } else {
            self.elapsed_us <= self.duration_us
        }
        &&& !self.repeating ==> self.fired <= 1
    }

    /// True on exactly the ticks that completed a period.
    pub open spec fn spec_just_finished(self) -> bool {
        self.fired > 0
    }

    /// A non-repeating timer stays finished once it reaches its duration; a
    /// repeating timer is finished only on a tick that completed a period.
    pub open spec fn spec_finished(self) -> bool {
        if self.repeating {
            self.spec_just_finished()
        } else {
            self.elapsed_us >= self.duration_us
        }
    }

    /// The result of one `tick` call: the whole semantics of the timer as a
    /// mathematical function of the old state and the step.
    pub open spec fn spec_tick(self, dt_us: u32) -> Timer {
        if self.paused {
            Timer { fired: 0, ..self }
        } else if self.repeating {
            Timer {
                elapsed_us: (((self.elapsed_us + dt_us) as int % self.duration_us as int) as u32),
                fired: (((self.elapsed_us + dt_us) as int / self.duration_us as int) as u64),
                ..self
            }
        } else {
            Timer {
                elapsed_us: if self.elapsed_us + dt_us >= self.duration_us {
                    self.duration_us
                } else {
                    (self.elapsed_us + dt_us) as u32
                },
                fired: if self.elapsed_us < self.duration_us
                    && self.elapsed_us + dt_us >= self.duration_us {
                    1u64
                } else {
                    0u64
                },
                ..self
            }
        }
    }

    /// A fresh timer: nothing elapsed, running, not yet finished.
    pub fn from_micros(duration_us: u32, repeating: bool) -> (t: Timer)
        requires
            duration_us > 0,
        ensures
            t.wf(),
            t.duration_us == duration_us,
            t.elapsed_us == 0,
            t.repeating == repeating,
            !t.paused,
            t.fired == 0,
    {
        Timer { duration_us, elapsed_us: 0, repeating, paused: false, fired: 0 }
    }

    /// Advance the timer by `dt_us` microseconds.  A paused timer only
    /// clears its completion count; a running one accumulates time, capping
    /// (one-shot) or wrapping (repeating) at the duration.
    pub fn tick(&mut self, dt_us: u32)
        requires
            old(self).wf(),
        ensures
            *final(self) == old(self).spec_tick(dt_us),
            final(self).wf(),
    {
        if self.paused {
            self.fired = 0;
            return;
        }
        let total: u64 = self.elapsed_us as u64 + dt_us as u64;
        let dur: u64 = self.duration_us as u64;
        if self.repeating {
            self.fired = total / dur;
            self.elapsed_us = (total % dur) as u32;
        } else {
            if total >= dur {
                self.fired = if self.elapsed_us < self.duration_us { 1 } else { 0 };
                self.elapsed_us = self.duration_us;
            } else {
                self.fired = 0;
                self.elapsed_us = total as u32;
            }
        }
    }

    /// Whether the most recent tick completed a period.
    pub fn just_finished(&self) -> (r: bool)
        ensures
            r == self.spec_just_finished(),
    {
        self.fired > 0
    }

    /// See `spec_finished`.
    pub fn finished(&self) -> (r: bool)
        ensures
            r == self.spec_finished(),
    {
        if self.repeating {
            self.fired > 0
        } else {
            self.elapsed_us >= self.duration_us
        }
    }

    /// How many periods the most recent tick completed.
    pub fn times_finished(&self) -> (r: u64)
        ensures
            r == self.fired,
    {
        self.fired
    }

    pub fn is_paused(&self) -> (r: bool)
        ensures
            r == self.paused,
    {
        self.paused
    }

    /// Stop accumulating time.  Elapsed time is preserved, not reset.
    pub fn pause(&mut self)
        ensures
            final(self).paused,
            final(self).duration_us == old(self).duration_us,
            final(self).elapsed_us == old(self).elapsed_us,
            final(self).repeating == old(self).repeating,
            final(self).fired == old(self).fired,
    {
        self.paused = true;
    }

    /// Resume accumulating time from the preserved elapsed value.
    pub fn unpause(&mut self)
        ensures
            !final(self).paused,
            final(self).duration_us == old(self).duration_us,
            final(self).elapsed_us == old(self).elapsed_us,
            final(self).repeating == old(self).repeating,
            final(self).fired == old(self).fired,
    {
        self.paused = false;
    }

    pub fn elapsed_us(&self) -> (r: u32)
        ensures
            r == self.elapsed_us,
    {
        self.elapsed_us
    }

    pub fn duration_us(&self) -> (r: u32)
        ensures
            r == self.duration_us,
    {
        self.duration_us
    }

    /// Time left in the current period.  The fraction
    /// `remaining_us / duration_us` is the timer's percent-left value.
    pub fn remaining_us(&self) -> (r: u32)
        requires
            self.wf(),
        ensures
            r == self.duration_us - self.elapsed_us,
    {
        self.duration_us - self.elapsed_us
    }
}

/// The total time a sequence of tick steps covers.
pub open spec fn spec_dt_sum(dts: Seq<u32>) -> int
    decreases dts.len(),
{
    if dts.len() == 0 {
        0
    } else {
        dts[0] + spec_dt_sum(dts.drop_first())
    }
}

/// The timer left behind by ticking through `dts` in order.
pub open spec fn spec_run(t: Timer, dts: Seq<u32>) -> Timer
    decreases dts.len(),
{
    if dts.len() == 0 {
        t
    } else {
        spec_run(t.spec_tick(dts[0]), dts.drop_first())
    }
}

/// How many period completions the timer reports in total while ticking
/// through `dts` in order.
pub open spec fn spec_fire_count(t: Timer, dts: Seq<u32>) -> int
    decreases dts.len(),
{
    if dts.len() == 0 {
        0
    } else {
        t.spec_tick(dts[0]).fired + spec_fire_count(t.spec_tick(dts[0]), dts.drop_first())
    }
}

proof fn lemma_dt_sum_nonneg(dts: Seq<u32>)
    ensures
        spec_dt_sum(dts) >= 0,
    decreases dts.len(),
{
    if dts.len() > 0 {
        lemma_dt_sum_nonneg(dts.drop_first());
    }
}

proof fn lemma_dt_sum_push(dts: Seq<u32>, x: u32)
    ensures
        spec_dt_sum(dts.push(x)) == spec_dt_sum(dts) + x,
    decreases dts.len(),
{
    if dts.len() == 0 {
        assert(dts.push(x).drop_first() =~= Seq::<u32>::empty());
        assert(spec_dt_sum(Seq::<u32>::empty()) == 0);
    } else {
        assert(dts.push(x).drop_first() =~= dts.drop_first().push(x));
        lemma_dt_sum_push(dts.drop_first(), x);
        assert(spec_dt_sum(dts) == dts[0] + spec_dt_sum(dts.drop_first()));
    }
}

proof fn lemma_run_push(t: Timer, dts: Seq<u32>, x: u32)
    ensures
        spec_run(t, dts.push(x)) == spec_run(t, dts).spec_tick(x),
    decreases dts.len(),
{
    if dts.len() == 0 {
        assert(dts.push(x).drop_first() =~= Seq::<u32>::empty());
        assert(spec_run(t.spec_tick(x), Seq::<u32>::empty()) == t.spec_tick(x));
    } else {
        assert(dts.push(x).drop_first() =~= dts.drop_first().push(x));
        lemma_run_push(t.spec_tick(dts[0]), dts.drop_first(), x);
        assert(spec_run(t, dts) == spec_run(t.spec_tick(dts[0]), dts.drop_first()));
    }
}

/// What a run does to a running one-shot timer: elapsed time accumulates
/// up to the duration, and the run reports one completion in total exactly
/// when the timer started short of its duration and the steps carried it
/// there.  In particular a fresh one-shot timer of duration `D` completes
/// on exactly one frame step of any run whose steps sum to `D` or beyond,
/// and on none of a shorter run.
pub proof fn lemma_one_shot_run(t: Timer, dts: Seq<u32>)
    requires
        t.wf(),
        !t.repeating,
        !t.paused,
    ensures
        spec_run(t, dts).wf(),
        !spec_run(t, dts).repeating,
        !spec_run(t, dts).paused,
        spec_run(t, dts).duration_us == t.duration_us,
        spec_run(t, dts).elapsed_us == (if t.elapsed_us + spec_dt_sum(dts) >= t.duration_us {
            t.duration_us as int
        } else {
            t.elapsed_us + spec_dt_sum(dts)
        }),
        spec_fire_count(t, dts) == (if t.elapsed_us < t.duration_us
            && t.elapsed_us + spec_dt_sum(dts) >= t.duration_us {
            1int
        } else {
            0int
        }),
    decreases dts.len(),
{
    if dts.len() > 0 {
        let t1 = t.spec_tick(dts[0]);
        assert(t1.wf());
        lemma_one_shot_run(t1, dts.drop_first());
        lemma_dt_sum_nonneg(dts.drop_first());
        assert(spec_dt_sum(dts) == dts[0] + spec_dt_sum(dts.drop_first()));
        assert(spec_run(t, dts) == spec_run(t1, dts.drop_first()));
        assert(spec_fire_count(t, dts) == t1.fired + spec_fire_count(t1, dts.drop_first()));
    }
}

/// Where in a run a fresh one-shot timer completes: after `k + 1` steps it
/// reports `just_finished` exactly when the `k + 1`-st step is the first
/// whose cumulative elapsed time reaches the duration.  Since the
/// cumulative sums only grow, at most one step of the run satisfies that.
pub proof fn lemma_one_shot_first_crossing(t: Timer, dts: Seq<u32>, k: int)
    requires
        t.wf(),
        !t.repeating,
        !t.paused,
        t.elapsed_us == 0,
        0 <= k < dts.len(),
    ensures
        spec_run(t, dts.take(k + 1)).spec_just_finished() <==> (spec_dt_sum(dts.take(k))
            < t.duration_us <= spec_dt_sum(dts.take(k + 1))),
{
    assert(dts.take(k + 1) =~= dts.take(k).push(dts[k]));
    lemma_run_push(t, dts.take(k), dts[k]);
    lemma_dt_sum_push(dts.take(k), dts[k]);
    lemma_one_shot_run(t, dts.take(k));
}

/// What a run does to a running repeating timer: the elapsed time is the
/// total time modulo the duration, and the completions reported across the
/// run total the number of whole periods covered.  In particular a fresh
/// repeating timer of duration `D` fires exactly `T / D` times (rounded
/// down) over steps summing to `T`, however the steps divide that time.
pub proof fn lemma_repeating_run(t: Timer, dts: Seq<u32>)
    requires
        t.wf(),
        t.repeating,
        !t.paused,
    ensures
        spec_run(t, dts).wf(),
        spec_run(t, dts).repeating,
        !spec_run(t, dts).paused,
        spec_run(t, dts).duration_us == t.duration_us,
        spec_run(t, dts).elapsed_us == (t.elapsed_us + spec_dt_sum(dts)) % (t.duration_us as int),
        spec_fire_count(t, dts) == (t.elapsed_us + spec_dt_sum(dts)) / (t.duration_us as int),
    decreases dts.len(),
{
    let d = t.duration_us as int;
    if dts.len() == 0 {
        vstd::arithmetic::div_mod::lemma_small_mod(t.elapsed_us as nat, t.duration_us as nat);
        vstd::arithmetic::div_mod::lemma_basic_div(t.elapsed_us as int, d);
    } else {
        let t1 = t.spec_tick(dts[0]);
        let first = t.elapsed_us + dts[0];
        let q = first / d;
        let r = first % d;
        let rest = spec_dt_sum(dts.drop_first());
        vstd::arithmetic::div_mod::lemma_fundamental_div_mod(first, d);
        lemma_repeating_run(t1, dts.drop_first());
        assert((d * q + (r + rest)) % d == (r + rest) % d) by {
            vstd::arithmetic::div_mod::lemma_mod_multiples_vanish(q, r + rest, d);
        }
        assert((r + rest) / d + q == (r + rest + q * d) / d) by {
            vstd::arithmetic::div_mod::lemma_hoist_over_denominator(
                r + rest,
                q,
                t.duration_us as nat,
            );
        }
        assert(q * d == d * q) by {
            vstd::arithmetic::mul::lemma_mul_is_commutative(q, d);
        }
    }
}

} // verus!
