//! The music video of the song that is playing: the slot its poster lands in, and the rows the
//! poster takes in the lyrics page's column.
//!
//! One MV at a time, because one song plays at a time: the slot is cleared when a track starts,
//! and a poster that was loading for an earlier track is dropped when it lands. A counter rather
//! than the song's id, because a track with no MV clears the slot and asks for nothing, so there
//! would be no new id to compare a late poster against.
use vstd::prelude::*;

verus! {

/// Pixels the API is asked for, through its own `?param=` resize parameter.
pub const POSTER_PIXELS: u32 = 480;

/// The tallest poster the panel draws, in rows.
pub const MAX_POSTER_ROWS: u16 = 12;

/// Rows of the column that are not the poster: three lines of facts, the blank under them and
/// one row of blurb.
pub const PANEL_TEXT_ROWS: u16 = 5;

/// The MV slot: the track it belongs to, and the panel once its poster has landed.
pub struct MvSlot<P> {
    generation: u64,
    panel: Option<P>,
}

impl<P> MvSlot<P> {
    /// The track loads are started for now.
    pub closed spec fn current(&self) -> u64 {
        self.generation
    }

    /// The panel the page draws, if one has landed.
    pub closed spec fn shown(&self) -> Option<P> {
        self.panel
    }

    /// The slot once its track is over: the next track, and no panel.
    pub closed spec fn cleared(self) -> Self {
        MvSlot { generation: (self.generation + 1) as u64, panel: None }
    }

    /// The slot after a load for `generation` landed with `panel`, and whether it went in.
    pub closed spec fn installed(self, generation: u64, panel: P) -> (Self, bool) {
        if self.generation == generation {
            (MvSlot { generation: self.generation, panel: Some(panel) }, true)
        } else {
            (self, false)
        }
    }

    /// An empty slot for the first track.
    pub fn new() -> (r: Self)
        ensures
            r.current() == 0,
            r.shown().is_none(),
    {
        MvSlot { generation: 0, panel: None }
    }

    /// The panel for the frame that is being drawn; `None` until the poster has landed, and
    /// when the song has no MV or the load failed.
    pub fn panel(&self) -> (r: Option<&P>)
        ensures
            r == match self.shown() {
                Some(p) => Some(&p),
                None => None::<&P>,
            },
    {
        match &self.panel {
            Some(p) => Some(p),
            None => None,
        }
    }

    /// Forget the poster: its track is over.
    pub fn clear(&mut self)
        requires
            old(self).current() < u64::MAX,
        ensures
            *final(self) == old(self).cleared(),
            final(self).current() == old(self).current() + 1,
            final(self).shown().is_none(),
    {
        self.generation = self.generation + 1;
        self.panel = None;
    }

    /// The track a load belongs to: taken before the load starts, checked when it lands.
    pub fn generation(&self) -> (r: u64)
        ensures
            r == self.current(),
    {
        self.generation
    }

    /// Whether a load for MV `mv_id`, started for `generation`, is worth making at all: a song
    /// with no MV has nothing to ask for, and a track skipped before the load started gets no
    /// request.
    pub fn worth_fetching(&self, mv_id: u64, generation: u64) -> (r: bool)
        ensures
            r == (mv_id != 0 && generation == self.current()),
    {
        mv_id != 0 && self.generation == generation
    }

    /// Install a panel whose poster just finished loading, unless the track it was fetched for
    /// is over. Returns whether it went in, which is what the caller repaints for.
    pub fn install(&mut self, generation: u64, panel: P) -> (r: bool)
        ensures
            (*final(self), r) == old(self).installed(generation, panel),
            r == (generation == old(self).current()),
            final(self).current() == old(self).current(),
            final(self).shown() == (if r { Some(panel) } else { old(self).shown() }),
    {
        if self.generation != generation {
            return false;
        }
        self.panel = Some(panel);
        true
    }
}

/// A poster that was loading when the track changed is dropped when it lands — also when the
/// new track has no MV and asked for nothing in its place.
pub proof fn a_poster_for_a_finished_track_is_dropped<P>(slot: MvSlot<P>, panel: P)
    requires
        slot.current() < u64::MAX,
    ensures
        slot.cleared().installed(slot.current(), panel) == (slot.cleared(), false),
        slot.installed(slot.current(), panel).0.shown() == Some(panel),
{
}

/// Rows the poster takes on a page of `height` rows: everything the text under it does not
/// need, up to the tallest poster the panel draws.
pub fn poster_rows(height: u16) -> (r: u16)
    ensures
        r == (if height <= PANEL_TEXT_ROWS { 0 } else if height - PANEL_TEXT_ROWS < MAX_POSTER_ROWS {
            height - PANEL_TEXT_ROWS
        } else {
            MAX_POSTER_ROWS as int
        }),
{
    let spare: u16 = if height > PANEL_TEXT_ROWS { height - PANEL_TEXT_ROWS } else { 0 };
    if spare < MAX_POSTER_ROWS { spare } else { MAX_POSTER_ROWS }
}

} // verus!
