//! Timer-driven cosmetic effects for the title screen: frame cycling,
//! opacity jitter and visibility jitter.
//!
//! Each effect pairs a repeating timer with an animated sprite; on every
//! tick that completes a period the effect fires once.  The random draws
//! come from a seedable generator behind a narrow trusted interface that
//! promises only the draw's range; everything computed from a draw is a
//! verified function of it, so it holds for every value the draw can take.

use crate::timer::Timer;
use vstd::prelude::*;

verus! {

/// Declares rand's StdRng so it can sit in a field; the value is opaque
/// here and only the two trusted functions below touch it.
#[verifier::external_type_specification]
#[verifier::external_body]
pub struct ExStdRng(rand::rngs::StdRng);

/// An explicitly owned, seedable pseudo-random generator, threaded through
/// the effect functions so that a run can be reproduced from its seed.
pub struct FrameRng {
    inner: rand::rngs::StdRng,
}

/// Relies on rand's StdRng::seed_from_u64 to build a generator from a seed.
#[verifier::external_body]
fn seed_std_rng(seed: u64) -> (r: FrameRng) {
    FrameRng { inner: <rand::rngs::StdRng as rand::SeedableRng>::seed_from_u64(seed) }
}

/// Relies on rand's Rng::gen_range over `lo..hi`: a draw uniform in the
/// half-open range, which panics only when the range is empty.
#[verifier::external_body]
fn draw_in_range(rng: &mut FrameRng, lo: u32, hi: u32) -> (r: u32)
    requires
        lo < hi,
    ensures
        lo <= r < hi,
{
    rand::Rng::gen_range(&mut rng.inner, lo..hi)
}

impl FrameRng {
    /// A generator reproducible from `seed`.
    pub fn from_seed(seed: u64) -> (r: FrameRng) {
        seed_std_rng(seed)
    }
}

/// A sprite-sheet animation's state, as the effects read and write it: the
/// sheet's frame count, the frame on show, the opacity in 1/255 steps (255
/// is opaque; the colour channels stay at full), and visibility.
pub struct AnimatedSprite {
    /// Number of frames in the backing sheet.  Always positive.
    pub frame_count: usize,
    /// Index of the frame on show.  Always below `frame_count`.
    pub index: usize,
    /// Alpha channel as a numerator over 255.
    pub alpha_255: u8,
    pub visible: bool,
}

impl AnimatedSprite {
    pub open spec fn wf(self) -> bool {
        &&& self.frame_count > 0
        &&& self.index < self.frame_count
    }

    /// A fresh sprite on its first frame, fully opaque and visible.
    pub fn new(frame_count: usize) -> (s: AnimatedSprite)
        requires
            frame_count > 0,
        ensures
            s.wf(),
            s.frame_count == frame_count,
            s.index == 0,
            s.alpha_255 == 255,
            s.visible,
    {
        AnimatedSprite { frame_count, index: 0, alpha_255: 255, visible: true }
    }
}

/// The frame that follows `index` when an animation cycles: one step
/// forward, wrapped to the sheet, then clamped by a second wrap to the
/// first eight frames regardless of the sheet's size.  The two reductions
/// agree whenever the sheet has at most eight frames, which holds for every
/// shipped sheet; both are applied on purpose all the same.
pub open spec fn spec_next_frame(index: int, frame_count: int) -> int
    recommends
        frame_count > 0,
{
    ((index + 1) % frame_count) % 8
}

/// Relation between an effect's state before and after one call of
/// `cycle_changer`: the timer advances one tick, and the frame steps
/// forward exactly on the ticks where the timer fires.
pub open spec fn cycled(t0: Timer, s0: AnimatedSprite, t1: Timer, s1: AnimatedSprite, dt_us: u32) -> bool {
    &&& t1 == t0.spec_tick(dt_us)
    &&& s1.frame_count == s0.frame_count
    &&& s1.alpha_255 == s0.alpha_255
    &&& s1.visible == s0.visible
    &&& s1.index == if t1.spec_just_finished() {
        spec_next_frame(s0.index as int, s0.frame_count as int)
    } else {
        s0.index as int
    }
}

/// Advance a frame-cycling effect by one frame step.  Drives both the
/// background static and the blip overlay.
pub fn cycle_changer(timer: &mut Timer, sprite: &mut AnimatedSprite, dt_us: u32)
    requires
        old(timer).wf(),
        old(sprite).wf(),
    ensures
        final(timer).wf(),
        final(sprite).wf(),
        cycled(*old(timer), *old(sprite), *final(timer), *final(sprite), dt_us),
{
    timer.tick(dt_us);
    if timer.just_finished() {
        sprite.index = ((sprite.index + 1) % sprite.frame_count) % 8;
    }
}

/// Relation between an effect's state before and after one opacity-jitter
/// call: the timer advances one tick, and on the ticks where it fires the
/// alpha becomes `255 - (offset + d)` for some draw `d` below `span`.
pub open spec fn opacity_jittered(
    t0: Timer,
    s0: AnimatedSprite,
    t1: Timer,
    s1: AnimatedSprite,
    dt_us: u32,
    offset: u8,
    span: u8,
) -> bool {
    &&& t1 == t0.spec_tick(dt_us)
    &&& s1.frame_count == s0.frame_count
    &&& s1.index == s0.index
    &&& s1.visible == s0.visible
    &&& if t1.spec_just_finished() {
        255 - offset - span < s1.alpha_255 <= 255 - offset
    } else {
        s1.alpha_255 == s0.alpha_255
    }
}

/// Advance an opacity-jitter effect by one frame step.  On a fired tick it
/// draws `d` uniform below `span` and sets the alpha numerator to
/// `255 - (offset + d)`; the colour channels stay at full.
pub fn opacity_changer(
    timer: &mut Timer,
    sprite: &mut AnimatedSprite,
    rng: &mut FrameRng,
    offset: u8,
    span: u8,
    dt_us: u32,
)
    requires
        old(timer).wf(),
        old(sprite).wf(),
        span > 0,
        offset + span <= 255,
    ensures
        final(timer).wf(),
        final(sprite).wf(),
        opacity_jittered(
            *old(timer),
            *old(sprite),
            *final(timer),
            *final(sprite),
            dt_us,
            offset,
            span,
        ),
{
    timer.tick(dt_us);
    if timer.just_finished() {
        let d = draw_in_range(rng, 0, span as u32);
        sprite.alpha_255 = 255 - (offset + d as u8);
    }
}

/// One frame step of the background static's opacity jitter: alpha byte
/// `50 + d` for a draw `d` below 99, i.e. a veil between 50/255 and
/// 148/255 deep.
pub fn static_op_changer(timer: &mut Timer, sprite: &mut AnimatedSprite, rng: &mut FrameRng, dt_us: u32)
    requires
        old(timer).wf(),
        old(sprite).wf(),
    ensures
        final(timer).wf(),
        final(sprite).wf(),
        opacity_jittered(*old(timer), *old(sprite), *final(timer), *final(sprite), dt_us, 50, 99),
{
    opacity_changer(timer, sprite, rng, 50, 99, dt_us)
}

/// One frame step of the character sprite's opacity jitter: alpha byte a
/// draw below 250, the widest of the three flickers.
pub fn freddy_op_changer(timer: &mut Timer, sprite: &mut AnimatedSprite, rng: &mut FrameRng, dt_us: u32)
    requires
        old(timer).wf(),
        old(sprite).wf(),
    ensures
        final(timer).wf(),
        final(sprite).wf(),
        opacity_jittered(*old(timer), *old(sprite), *final(timer), *final(sprite), dt_us, 0, 250),
{
    opacity_changer(timer, sprite, rng, 0, 250, dt_us)
}

/// One frame step of the blip overlay's opacity jitter: alpha byte
/// `100 + d` for a draw `d` below 100.
pub fn blip_op_changer(timer: &mut Timer, sprite: &mut AnimatedSprite, rng: &mut FrameRng, dt_us: u32)
    requires
        old(timer).wf(),
        old(sprite).wf(),
    ensures
        final(timer).wf(),
        final(sprite).wf(),
        opacity_jittered(*old(timer), *old(sprite), *final(timer), *final(sprite), dt_us, 100, 100),
{
    opacity_changer(timer, sprite, rng, 100, 100, dt_us)
}

/// The character frame chosen for a draw below 100: overwhelmingly the
/// mouth-closed pose, with three rare one-in-a-hundred flickers (mouth
/// open, turned, endoskeleton).
pub open spec fn spec_freddy_frame(d: int) -> int {
    if d <= 96 {
        0
    } else if d == 97 {
        1
    } else if d == 98 {
        2
    } else {
        3
    }
}

/// The verified mapping from a draw to the character frame; exact for
/// every value the draw can take.
pub fn freddy_frame_from_draw(d: u32) -> (r: usize)
    requires
        d < 100,
    ensures
        r == spec_freddy_frame(d as int),
        r < 4,
{
    if d <= 96 {
        0
    } else if d == 97 {
        1
    } else if d == 98 {
        2
    } else {
        3
    }
}

/// Relation for the character's pose flicker: on fired ticks the frame is
/// `spec_freddy_frame` of some draw below 100.
pub open spec fn freddy_framed(t0: Timer, s0: AnimatedSprite, t1: Timer, s1: AnimatedSprite, dt_us: u32) -> bool {
    &&& t1 == t0.spec_tick(dt_us)
    &&& s1.frame_count == s0.frame_count
    &&& s1.alpha_255 == s0.alpha_255
    &&& s1.visible == s0.visible
    &&& if t1.spec_just_finished() {
        exists|d: int| 0 <= d < 100 && s1.index == spec_freddy_frame(d)
    } else {
        s1.index == s0.index
    }
}

/// One frame step of the character's pose flicker.  The sheet must have at
/// least the four poses the draw can pick.
pub fn freddy_changer(timer: &mut Timer, sprite: &mut AnimatedSprite, rng: &mut FrameRng, dt_us: u32)
    requires
        old(timer).wf(),
        old(sprite).wf(),
        old(sprite).frame_count >= 4,
    ensures
        final(timer).wf(),
        final(sprite).wf(),
        freddy_framed(*old(timer), *old(sprite), *final(timer), *final(sprite), dt_us),
{
    timer.tick(dt_us);
    if timer.just_finished() {
        let d = draw_in_range(rng, 0, 100);
        let frame = freddy_frame_from_draw(d);
        assert(0 <= d < 100 && frame == spec_freddy_frame(d as int));
        sprite.index = frame;
    }
}

/// The visibility chosen for a draw below 3: shown on exactly one of the
/// three outcomes, a one-in-three duty cycle.
pub fn visibility_from_draw(d: u32) -> (r: bool)
    requires
        d < 3,
    ensures
        r == (d == 1),
{
    d == 1
}

/// Relation for the blip's visibility jitter: the timer advances one tick,
/// nothing but visibility changes, and visibility only changes on fired
/// ticks (to an outcome the draw decides).
pub open spec fn vis_jittered(t0: Timer, s0: AnimatedSprite, t1: Timer, s1: AnimatedSprite, dt_us: u32) -> bool {
    &&& t1 == t0.spec_tick(dt_us)
    &&& s1.frame_count == s0.frame_count
    &&& s1.index == s0.index
    &&& s1.alpha_255 == s0.alpha_255
    &&& !t1.spec_just_finished() ==> s1.visible == s0.visible
}

/// One frame step of the blip overlay's visibility jitter: on a fired tick
/// the overlay is shown exactly when the draw below 3 lands on 1.
pub fn blip_vis_changer(timer: &mut Timer, sprite: &mut AnimatedSprite, rng: &mut FrameRng, dt_us: u32)
    requires
        old(timer).wf(),
        old(sprite).wf(),
    ensures
        final(timer).wf(),
        final(sprite).wf(),
        vis_jittered(*old(timer), *old(sprite), *final(timer), *final(sprite), dt_us),
{
    timer.tick(dt_us);
    if timer.just_finished() {
        let d = draw_in_range(rng, 0, 3);
        sprite.visible = visibility_from_draw(d);
    }
}

} // verus!
