//! The persisted player-progress record.
//!
//! The saved file stores a night number and three completion flags as small
//! integers; the flags are meaningful only as `0` or `1`, and the menu's
//! unlock tables additionally assume that progress is cumulative: the sixth
//! night can only have been beaten after the main game, and the seventh only
//! after the sixth.  `Config::valid()` captures exactly that shape; reading a
//! record that breaks it is a fatal setup error, which callers must reject
//! before handing the record to the menu logic.
//!
//! Loading, saving and the on-disk encoding are input/output and live with
//! the caller; this module holds the record itself and its accessors.  In
//! the running game every mutation is persisted before anything else reads
//! the record, so a `Config` value always mirrors the saved file.

use vstd::prelude::*;

verus! {

/// The raw saved record: the night reached and the completion flags, each
/// flag stored as `0` or `1`.
pub struct Freddy {
    level: u8,
    beatgame: u8,
    beat6: u8,
    beat7: u8,
}

impl Freddy {
    pub closed spec fn spec_level(self) -> u8 {
        self.level
    }

    pub closed spec fn raw_beatgame(self) -> u8 {
        self.beatgame
    }

    pub closed spec fn raw_beat6(self) -> u8 {
        self.beat6
    }

    pub closed spec fn raw_beat7(self) -> u8 {
        self.beat7
    }

    /// Build a record from plain values, encoding each flag as `0` or `1`.
    pub fn new(level: u8, beatgame: bool, beat6: bool, beat7: bool) -> (f: Freddy)
        ensures
            f.spec_level() == level,
            f.raw_beatgame() == (if beatgame { 1u8 } else { 0u8 }),
            f.raw_beat6() == (if beat6 { 1u8 } else { 0u8 }),
            f.raw_beat7() == (if beat7 { 1u8 } else { 0u8 }),
    {
        Freddy {
            level,
            beatgame: if beatgame { 1 } else { 0 },
            beat6: if beat6 { 1 } else { 0 },
            beat7: if beat7 { 1 } else { 0 },
        }
    }
}

/// The player's progress as the rest of the game reads it.
pub struct Config {
    freddy: Freddy,
}

impl Config {
    pub closed spec fn spec_record(self) -> Freddy {
        self.freddy
    }

    pub open spec fn spec_level(self) -> u8 {
        self.spec_record().spec_level()
    }

    /// Whether the main game has been beaten.
    pub open spec fn spec_beatgame(self) -> bool {
        self.spec_record().raw_beatgame() == 1
    }

    /// Whether the sixth night has been beaten.
    pub open spec fn spec_beat_six(self) -> bool {
        self.spec_record().raw_beat6() == 1
    }

    /// Whether the seventh night has been beaten.
    pub open spec fn spec_beat_seven(self) -> bool {
        self.spec_record().raw_beat7() == 1
    }

    /// A record the rest of the game can trust: the night number starts at
    /// one, each flag is a genuine boolean, and progress is cumulative.
    pub open spec fn valid(self) -> bool {
        &&& self.spec_level() >= 1
        &&& self.spec_record().raw_beatgame() <= 1
        &&& self.spec_record().raw_beat6() <= 1
        &&& self.spec_record().raw_beat7() <= 1
        &&& self.spec_beat_six() ==> self.spec_beatgame()
        &&& self.spec_beat_seven() ==> self.spec_beat_six()
    }

    /// Wrap a raw record.
    pub fn new(freddy: Freddy) -> (c: Config)
        ensures
            c.spec_record() == freddy,
    {
        Config { freddy }
    }

    /// Check the shape of a record that came from outside, e.g. a freshly
    /// parsed save file.  Callers must treat `false` as fatal rather than
    /// hand the record to the menu logic.
    pub fn is_valid(&self) -> (r: bool)
        ensures
            r == self.valid(),
    {
        self.freddy.level >= 1 && self.freddy.beatgame <= 1 && self.freddy.beat6 <= 1
            && self.freddy.beat7 <= 1
            && (self.freddy.beat6 != 1 || self.freddy.beatgame == 1)
            && (self.freddy.beat7 != 1 || self.freddy.beat6 == 1)
    }

    pub fn level(&self) -> (r: u8)
        ensures
            r == self.spec_level(),
    {
        self.freddy.level
    }

    pub fn set_level(&mut self, level: u8)
        ensures
            final(self).spec_level() == level,
            final(self).spec_record().raw_beatgame() == old(self).spec_record().raw_beatgame(),
            final(self).spec_record().raw_beat6() == old(self).spec_record().raw_beat6(),
            final(self).spec_record().raw_beat7() == old(self).spec_record().raw_beat7(),
    {
        self.freddy.level = level;
    }

    /// Read the main-game completion flag.  Requires a valid record: a flag
    /// outside `0..=1` has no boolean reading and is rejected at load time.
    pub fn beatgame(&self) -> (r: bool)
        requires
            self.valid(),
        ensures
            r == self.spec_beatgame(),
    {
        self.freddy.beatgame == 1
    }

    pub fn set_beatgame(&mut self, beatgame: bool)
        ensures
            final(self).spec_beatgame() == beatgame,
            final(self).spec_record().raw_beatgame() == (if beatgame { 1u8 } else { 0u8 }),
            final(self).spec_level() == old(self).spec_level(),
            final(self).spec_record().raw_beat6() == old(self).spec_record().raw_beat6(),
            final(self).spec_record().raw_beat7() == old(self).spec_record().raw_beat7(),
    {
        self.freddy.beatgame = if beatgame { 1 } else { 0 };
    }

    /// Read the sixth-night completion flag; see `beatgame`.
    pub fn beat_six(&self) -> (r: bool)
        requires
            self.valid(),
        ensures
            r == self.spec_beat_six(),
    {
        self.freddy.beat6 == 1
    }

    pub fn set_beat_six(&mut self, beat6: bool)
        ensures
            final(self).spec_beat_six() == beat6,
            final(self).spec_record().raw_beat6() == (if beat6 { 1u8 } else { 0u8 }),
            final(self).spec_level() == old(self).spec_level(),
            final(self).spec_record().raw_beatgame() == old(self).spec_record().raw_beatgame(),
            final(self).spec_record().raw_beat7() == old(self).spec_record().raw_beat7(),
    {
        self.freddy.beat6 = if beat6 { 1 } else { 0 };
    }

    /// Read the seventh-night completion flag; see `beatgame`.  The flag is
    /// tracked in the save file but gates no menu entry yet.
    pub fn beat_seven(&self) -> (r: bool)
        requires
            self.valid(),
        ensures
            r == self.spec_beat_seven(),
    {
        self.freddy.beat7 == 1
    }

    pub fn set_beat_seven(&mut self, beat7: bool)
        ensures
            final(self).spec_beat_seven() == beat7,
            final(self).spec_record().raw_beat7() == (if beat7 { 1u8 } else { 0u8 }),
            final(self).spec_level() == old(self).spec_level(),
            final(self).spec_record().raw_beatgame() == old(self).spec_record().raw_beatgame(),
            final(self).spec_record().raw_beat6() == old(self).spec_record().raw_beat6(),
    {
        self.freddy.beat7 = if beat7 { 1 } else { 0 };
    }
}

impl Default for Config {
    /// The record a fresh save starts from: the first night, nothing beaten.
    /// Loading falls back to this when no valid saved record exists.
    fn default() -> (c: Config)
        ensures
            c.spec_level() == 1,
            c.spec_record().raw_beatgame() == 0,
            c.spec_record().raw_beat6() == 0,
            c.spec_record().raw_beat7() == 0,
            c.valid(),
    {
        Config { freddy: Freddy { level: 1, beatgame: 0, beat6: 0, beat7: 0 } }
    }
}

} // verus!
