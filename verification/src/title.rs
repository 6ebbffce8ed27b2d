//! The title screen as one owning context: the menu cursor, the night
//! display, and the three timer-driven background effects, advanced by an
//! explicit per-frame update in a fixed order.
//!
//! Within a frame, every effect timer is advanced before anything reads its
//! completion, and the input-driven cursor transitions are applied before
//! the visibility refresh that reads the cursor, so an input and its visual
//! consequence land in the same frame.

use crate::effects::AnimatedSprite;
use crate::effects::FrameRng;
use crate::effects::blip_op_changer;
use crate::effects::blip_vis_changer;
use crate::effects::cycle_changer;
use crate::effects::freddy_changer;
use crate::effects::freddy_op_changer;
use crate::effects::spec_freddy_frame;
use crate::effects::spec_next_frame;
use crate::effects::static_op_changer;
use crate::menu::ArrowLocation;
use crate::menu::initial_cursor;
use crate::menu::night_display_visible;
use crate::menu::night_frame;
use crate::menu::on_hover;
use crate::menu::on_key_down;
use crate::menu::on_key_up;
use crate::menu::spec_key_down;
use crate::menu::spec_key_up;
use crate::menu::spec_unlocked;
use crate::progress::Config;
use crate::timer::Timer;
use vstd::prelude::*;

verus! {

/// Period of the background static's frame cycle, in microseconds
/// (0.0168350168 s in the shipped content, about 59.4 frames a second).
pub const STATIC_FRAME_PERIOD_US: u32 = 16835;

/// Period of the background static's opacity jitter (0.09 s).
pub const STATIC_OPACITY_PERIOD_US: u32 = 90000;

/// Period of the character's pose flicker (0.08 s).
pub const FREDDY_FRAME_PERIOD_US: u32 = 80000;

/// Period of the character's opacity jitter (0.3 s).
pub const FREDDY_OPACITY_PERIOD_US: u32 = 300000;

/// Period of the blip overlay's frame cycle (0.166666667 s).
pub const BLIP_FRAME_PERIOD_US: u32 = 166667;

/// Period of the blip overlay's opacity jitter (0.08 s).
pub const BLIP_OPACITY_PERIOD_US: u32 = 80000;

/// Period of the blip overlay's visibility jitter (0.3 s).
pub const BLIP_VIS_PERIOD_US: u32 = 300000;

/// Frames in the static sheet (a three-by-three grid).
pub const STATIC_FRAME_COUNT: usize = 9;

/// Frames in the character sheet (a two-by-two grid of poses).
pub const FREDDY_FRAME_COUNT: usize = 4;

/// Frames in the blip sheet (a three-by-three grid).
pub const BLIP_FRAME_COUNT: usize = 9;

/// Frames in the night-number sheet (one row of fourteen digits).
pub const NIGHT_FRAME_COUNT: usize = 14;

/// The edge inputs one frame of the title screen reacts to.  Within a
/// frame they are applied in a fixed order: pointer hover first, then the
/// Up key, then the Down key.
pub struct FrameInput {
    pub up_pressed: bool,
    pub down_pressed: bool,
    /// The entry the pointer came to rest over this frame, if any.
    pub hovered: Option<ArrowLocation>,
}

/// The cursor all of one frame's inputs leave behind: the hover applied
/// first (locked entries change nothing), then the Up key, then the Down
/// key.
pub open spec fn spec_frame_cursor(cursor: ArrowLocation, input: FrameInput, cfg: Config) -> ArrowLocation {
    let hovered = match input.hovered {
        Some(target) => if spec_unlocked(target, cfg) {
            target
        } else {
            cursor
        },
        None => cursor,
    };
    let upped = if input.up_pressed {
        spec_key_up(hovered, cfg)
    } else {
        hovered
    };
    if input.down_pressed {
        spec_key_down(upped, cfg)
    } else {
        upped
    }
}

/// One frame's input reduction is closed over the unlocked entries: a
/// cursor on an unlocked entry stays on an unlocked entry, whatever
/// combination of hover and key presses the frame carries, for every valid
/// progress state.
pub proof fn lemma_frame_cursor_closed(cursor: ArrowLocation, input: FrameInput, cfg: Config)
    requires
        cfg.valid(),
        spec_unlocked(cursor, cfg),
    ensures
        spec_unlocked(spec_frame_cursor(cursor, input, cfg), cfg),
{
}

/// Every resource the title screen owns.
pub struct TitleScreen {
    pub cursor: ArrowLocation,
    /// Frame of the night-number sprite, read from the save once at entry.
    pub night_frame: usize,
    /// Whether the night-number sprite is shown; always tracks the cursor.
    pub night_visible: bool,
    pub static_timer: Timer,
    pub static_op_timer: Timer,
    pub static_sprite: AnimatedSprite,
    pub freddy_timer: Timer,
    pub freddy_op_timer: Timer,
    pub freddy_sprite: AnimatedSprite,
    pub blip_timer: Timer,
    pub blip_op_timer: Timer,
    pub blip_vis_timer: Timer,
    pub blip_sprite: AnimatedSprite,
    pub rng: FrameRng,
}

impl TitleScreen {
    /// Shape of a reachable title screen.  The night display's visibility
    /// tracking the cursor is part of it: it holds on entry and after
    /// every frame.
    pub open spec fn wf(self) -> bool {
        &&& self.static_timer.wf()
        &&& self.static_op_timer.wf()
        &&& self.freddy_timer.wf()
        &&& self.freddy_op_timer.wf()
        &&& self.blip_timer.wf()
        &&& self.blip_op_timer.wf()
        &&& self.blip_vis_timer.wf()
        &&& self.static_sprite.wf()
        &&& self.freddy_sprite.wf()
        &&& self.blip_sprite.wf()
        &&& self.freddy_sprite.frame_count >= 4
        &&& self.night_visible == (self.cursor == ArrowLocation::Continue)
    }

    /// Enter the title screen: the cursor starts on New Game for a fresh
    /// save and on Continue otherwise, the night display reads the saved
    /// night once, and every effect starts on a fresh repeating timer with
    /// its shipped period and a fresh sprite.
    pub fn enter(cfg: &Config, rng: FrameRng) -> (t: TitleScreen)
        ensures
            t.wf(),
            t.cursor == (if cfg.spec_level() == 1 {
                ArrowLocation::NewGame
            } else {
                ArrowLocation::Continue
            }),
            t.night_frame == cfg.spec_level(),
            t.night_visible == (t.cursor == ArrowLocation::Continue),
            t.static_timer.duration_us == STATIC_FRAME_PERIOD_US,
            t.static_op_timer.duration_us == STATIC_OPACITY_PERIOD_US,
            t.freddy_timer.duration_us == FREDDY_FRAME_PERIOD_US,
            t.freddy_op_timer.duration_us == FREDDY_OPACITY_PERIOD_US,
            t.blip_timer.duration_us == BLIP_FRAME_PERIOD_US,
            t.blip_op_timer.duration_us == BLIP_OPACITY_PERIOD_US,
            t.blip_vis_timer.duration_us == BLIP_VIS_PERIOD_US,
            t.static_timer.repeating && t.static_op_timer.repeating && t.freddy_timer.repeating
                && t.freddy_op_timer.repeating && t.blip_timer.repeating
                && t.blip_op_timer.repeating && t.blip_vis_timer.repeating,
            t.static_timer.elapsed_us == 0 && t.static_op_timer.elapsed_us == 0
                && t.freddy_timer.elapsed_us == 0 && t.freddy_op_timer.elapsed_us == 0
                && t.blip_timer.elapsed_us == 0 && t.blip_op_timer.elapsed_us == 0
                && t.blip_vis_timer.elapsed_us == 0,
            t.static_sprite.frame_count == STATIC_FRAME_COUNT,
            t.freddy_sprite.frame_count == FREDDY_FRAME_COUNT,
            t.blip_sprite.frame_count == BLIP_FRAME_COUNT,
            t.static_sprite.index == 0 && t.freddy_sprite.index == 0 && t.blip_sprite.index == 0,
    {
        let cursor = initial_cursor(cfg);
        TitleScreen {
            cursor,
            night_frame: night_frame(cfg),
            night_visible: night_display_visible(cursor),
            static_timer: Timer::from_micros(STATIC_FRAME_PERIOD_US, true),
            static_op_timer: Timer::from_micros(STATIC_OPACITY_PERIOD_US, true),
            static_sprite: AnimatedSprite::new(STATIC_FRAME_COUNT),
            freddy_timer: Timer::from_micros(FREDDY_FRAME_PERIOD_US, true),
            freddy_op_timer: Timer::from_micros(FREDDY_OPACITY_PERIOD_US, true),
            freddy_sprite: AnimatedSprite::new(FREDDY_FRAME_COUNT),
            blip_timer: Timer::from_micros(BLIP_FRAME_PERIOD_US, true),
            blip_op_timer: Timer::from_micros(BLIP_OPACITY_PERIOD_US, true),
            blip_vis_timer: Timer::from_micros(BLIP_VIS_PERIOD_US, true),
            blip_sprite: AnimatedSprite::new(BLIP_FRAME_COUNT),
            rng,
        }
    }

    /// Advance the whole title screen by one frame: tick every effect,
    /// then reduce the frame's inputs into the cursor, then refresh the
    /// night display's visibility from the new cursor.
    ///
    /// The postcondition pins the cursor and every timer exactly; the
    /// sprites change only on their timers' fired ticks, frame indices as
    /// the cycle and pose tables say, opacities within their jitter bands.
    pub fn frame(&mut self, cfg: &Config, input: FrameInput, dt_us: u32)
        requires
            old(self).wf(),
            cfg.valid(),
        ensures
            final(self).wf(),
            final(self).cursor == spec_frame_cursor(old(self).cursor, input, *cfg),
            spec_unlocked(old(self).cursor, *cfg) ==> spec_unlocked(final(self).cursor, *cfg),
            final(self).night_visible == (final(self).cursor == ArrowLocation::Continue),
            final(self).night_frame == old(self).night_frame,
            final(self).static_timer == old(self).static_timer.spec_tick(dt_us),
            final(self).static_op_timer == old(self).static_op_timer.spec_tick(dt_us),
            final(self).freddy_timer == old(self).freddy_timer.spec_tick(dt_us),
            final(self).freddy_op_timer == old(self).freddy_op_timer.spec_tick(dt_us),
            final(self).blip_timer == old(self).blip_timer.spec_tick(dt_us),
            final(self).blip_op_timer == old(self).blip_op_timer.spec_tick(dt_us),
            final(self).blip_vis_timer == old(self).blip_vis_timer.spec_tick(dt_us),
            final(self).static_sprite.frame_count == old(self).static_sprite.frame_count,
            final(self).static_sprite.visible == old(self).static_sprite.visible,
            final(self).static_sprite.index == (if old(self).static_timer.spec_tick(
                dt_us,
            ).spec_just_finished() {
                spec_next_frame(
                    old(self).static_sprite.index as int,
                    old(self).static_sprite.frame_count as int,
                )
            } else {
                old(self).static_sprite.index as int
            }),
            (if old(self).static_op_timer.spec_tick(dt_us).spec_just_finished() {
                106 < final(self).static_sprite.alpha_255 <= 205
            } else {
                final(self).static_sprite.alpha_255 == old(self).static_sprite.alpha_255
            }),
            final(self).freddy_sprite.frame_count == old(self).freddy_sprite.frame_count,
            final(self).freddy_sprite.visible == old(self).freddy_sprite.visible,
            (if old(self).freddy_timer.spec_tick(dt_us).spec_just_finished() {
                exists|d: int|
                    0 <= d < 100 && final(self).freddy_sprite.index == spec_freddy_frame(d)
            } else {
                final(self).freddy_sprite.index == old(self).freddy_sprite.index
            }),
            (if old(self).freddy_op_timer.spec_tick(dt_us).spec_just_finished() {
                5 < final(self).freddy_sprite.alpha_255 <= 255
            } else {
                final(self).freddy_sprite.alpha_255 == old(self).freddy_sprite.alpha_255
            }),
            final(self).blip_sprite.frame_count == old(self).blip_sprite.frame_count,
            final(self).blip_sprite.index == (if old(self).blip_timer.spec_tick(
                dt_us,
            ).spec_just_finished() {
                spec_next_frame(
                    old(self).blip_sprite.index as int,
                    old(self).blip_sprite.frame_count as int,
                )
            } else {
                old(self).blip_sprite.index as int
            }),
            (if old(self).blip_op_timer.spec_tick(dt_us).spec_just_finished() {
                55 < final(self).blip_sprite.alpha_255 <= 155
            } else {
                final(self).blip_sprite.alpha_255 == old(self).blip_sprite.alpha_255
            }),
            !old(self).blip_vis_timer.spec_tick(dt_us).spec_just_finished()
                ==> final(self).blip_sprite.visible == old(self).blip_sprite.visible,
    {
        cycle_changer(&mut self.static_timer, &mut self.static_sprite, dt_us);
        static_op_changer(&mut self.static_op_timer, &mut self.static_sprite, &mut self.rng, dt_us);
        freddy_changer(&mut self.freddy_timer, &mut self.freddy_sprite, &mut self.rng, dt_us);
        freddy_op_changer(&mut self.freddy_op_timer, &mut self.freddy_sprite, &mut self.rng, dt_us);
        cycle_changer(&mut self.blip_timer, &mut self.blip_sprite, dt_us);
        blip_op_changer(&mut self.blip_op_timer, &mut self.blip_sprite, &mut self.rng, dt_us);
        blip_vis_changer(&mut self.blip_vis_timer, &mut self.blip_sprite, &mut self.rng, dt_us);

        let mut cursor = self.cursor;
        if let Some(target) = input.hovered {
            cursor = on_hover(cursor, target, cfg);
        }
        if input.up_pressed {
            cursor = on_key_up(cursor, cfg);
        }
        if input.down_pressed {
            cursor = on_key_down(cursor, cfg);
        }
        self.cursor = cursor;
        self.night_visible = night_display_visible(cursor);
    }
}

} // verus!
