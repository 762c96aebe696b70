//! The player bar's cover as a turning disc: which angle step it is at, when that step has to be
//! drawn anew, and the glyphs that stand in for it on a terminal without images.
use vstd::prelude::*;

verus! {

/// Angle steps per turn: five degrees apart.
pub const STEPS_PER_TURN: u32 = 72;

/// The placeholder glyph while the spin is off.
pub const IDLE_GLYPH: char = '\u{266a}';

/// The needle on the disc while it turns, and lifted while it is parked.
pub const NEEDLE_DOWN: char = '\u{2572}';
pub const NEEDLE_UP: char = '\u{2502}';

/// The quarter-turn glyph for quadrant `q` (0 to 3).
pub open spec fn spin_glyph_at(q: int) -> char {
    if q <= 0 { '\u{25F4}' } else if q == 1 { '\u{25F5}' } else if q == 2 { '\u{25F6}' } else { '\u{25F7}' }
}

/// How far the disc has turned, and what the last frame asked of it.
#[derive(Debug, Clone, Copy, PartialEq, Eq, Structural)]
pub struct DiscSpin {
    /// The spin is switched on.
    pub on: bool,
    /// The terminal draws real images; a half-block terminal turns the placeholder instead.
    pub graphics: bool,
    /// The disc is being listened to: a paused or stopped player freezes it.
    pub playing: bool,
    /// The angle step the disc is at, and the step the drawn cover was encoded at.
    pub step: u32,
    pub encoded: u32,
}

impl DiscSpin {
    /// A disc at the top of its turn, spin off.
    pub fn new() -> (r: Self)
        ensures
            r == (DiscSpin { on: false, graphics: false, playing: false, step: 0, encoded: 0 }),
    {
        DiscSpin { on: false, graphics: false, playing: false, step: 0, encoded: 0 }
    }

    /// Back to angle zero: a new cover starts at the top of its turn.
    pub fn rewind(&mut self)
        ensures
            *final(self) == (DiscSpin { step: 0, encoded: 0, ..*old(self) }),
    {
        self.step = 0;
        self.encoded = 0;
    }

    /// Whether the disc turns at all this frame: only while the spin is on and a song plays.
    pub fn turning(&self) -> (r: bool)
        ensures
            r == (self.on && self.playing),
    {
        self.on && self.playing
    }

    /// Take in the step the angle has reached, and say whether the cover has to be encoded
    /// anew: only when the step changed and the terminal draws images, so a frame whose angle
    /// did not change costs nothing.
    pub fn reach(&mut self, step: u32) -> (r: bool)
        requires
            step < STEPS_PER_TURN,
        ensures
            final(self).step == step,
            r == (step != old(self).encoded && old(self).graphics),
            final(self).encoded == (if r { step } else { old(self).encoded }),
            final(self).on == old(self).on,
            final(self).graphics == old(self).graphics,
            final(self).playing == old(self).playing,
    {
        self.step = step;
        if step == self.encoded || !self.graphics {
            return false;
        }
        self.encoded = step;
        true
    }

    /// Whether the disc is shown by turning the placeholder glyph: the spin is on, but the
    /// terminal has no images for the angle to read on.
    pub fn spin_as_glyph(&self) -> (r: bool)
        ensures
            r == (self.on && !self.graphics),
    {
        self.on && !self.graphics
    }

    /// The placeholder's centre glyph: a note while the spin is off, else the quarter of the
    /// turn the disc is in.
    pub fn spin_glyph(&self) -> (r: char)
        ensures
            r == (if !self.on { IDLE_GLYPH } else {
                spin_glyph_at(if self.step * 4 / STEPS_PER_TURN as int > 3 { 3 } else { self.step * 4 / STEPS_PER_TURN as int })
            }),
    {
        if !self.on {
            return IDLE_GLYPH;
        }
        let quadrant: u64 = (self.step as u64) * 4 / (STEPS_PER_TURN as u64);
        if quadrant == 0 {
            '\u{25F4}'
        } else if quadrant == 1 {
            '\u{25F5}'
        } else if quadrant == 2 {
            '\u{25F6}'
        } else {
            '\u{25F7}'
        }
    }

    /// The needle beside the disc: on it while the cover turns, lifted while it is parked, and
    /// none while the spin is off.
    pub fn tonearm(&self) -> (r: Option<char>)
        ensures
            r == (if !self.on { None } else if self.playing { Some(NEEDLE_DOWN) } else { Some(NEEDLE_UP) }),
    {
        if !self.on {
            None
        } else if self.playing {
            Some(NEEDLE_DOWN)
        } else {
            Some(NEEDLE_UP)
        }
    }
}

/// Whether a cover that finished loading for `song_id` may go in: only while that song is still
/// the one the cover belongs to, so a slow load from an earlier song cannot overwrite a newer
/// cover.
pub fn cover_still_current(current: Option<u64>, song_id: u64) -> (r: bool)
    ensures
        r == (current == Some(song_id)),
{
    match current {
        Some(id) => id == song_id,
        None => false,
    }
}

/// Each quarter of a turn shows its own glyph, in order: the glyph only changes as the disc
/// crosses a quarter.
pub proof fn the_glyph_follows_the_quarter(d: DiscSpin)
    requires
        d.on,
        d.step < STEPS_PER_TURN,
    ensures
        d.step < 18 ==> spin_glyph_at(d.step * 4 / STEPS_PER_TURN as int) == '\u{25F4}',
        18 <= d.step < 36 ==> spin_glyph_at(d.step * 4 / STEPS_PER_TURN as int) == '\u{25F5}',
        36 <= d.step < 54 ==> spin_glyph_at(d.step * 4 / STEPS_PER_TURN as int) == '\u{25F6}',
        54 <= d.step ==> spin_glyph_at(d.step * 4 / STEPS_PER_TURN as int) == '\u{25F7}',
{
}

} // verus!
