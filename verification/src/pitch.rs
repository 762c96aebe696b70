//! The note readout of the dominant pitch: the name and octave of a MIDI note number, and how
//! long the last estimate stays on screen while detection comes up empty, so the readout does
//! not flicker.
use vstd::prelude::*;

verus! {

/// Frames an estimate survives while detection returns nothing (about half a second at 30 fps).
pub const MAX_MISSES: u32 = 15;

/// The names of the twelve notes of an octave, from C.
pub open spec fn note_names() -> Seq<Seq<char>> {
    seq!["C"@, "C#"@, "D"@, "D#"@, "E"@, "F"@, "F#"@, "G"@, "G#"@, "A"@, "A#"@, "B"@]
}

/// The name and octave of MIDI note `midi` (69 is A4): the octave is numbered so that C4 is
/// middle C, and it is cut to 32 bits as the readout stores it.
pub fn note_name(midi: i64) -> (r: (&'static str, i32))
    ensures
        r.0@ == note_names()[(midi as int) % 12],
        r.1 == ((midi as int) / 12 - 1) as i32,
{
    let names: [&'static str; 12] = ["C", "C#", "D", "D#", "E", "F", "F#", "G", "G#", "A", "A#", "B"];
    let (quotient, rest): (i64, usize) = if midi >= 0 {
        let m = midi as u64;
        ((m / 12) as i64, (m % 12) as usize)
    } else {
        let a = (-(midi + 1)) as u64;
        assert(midi as int == -(a as int) - 1);
        let q = a / 12;
        let r = a % 12;
        assert((midi as int) / 12 == -(q as int) - 1 && (midi as int) % 12 == 11 - (r as int)) by (nonlinear_arith)
            requires
                midi as int == -(a as int) - 1,
                q == a / 12,
                r == a % 12,
                a >= 0;
        (-(q as i64) - 1, 11 - r as usize)
    };
    assert(names@.len() == 12);
    (names[rest], (quotient - 1) as i32)
}

/// The estimate on screen, and how many frames in a row detection has come up empty since.
pub struct NoteHold<T> {
    misses: u32,
    held: Option<T>,
}

impl<T> NoteHold<T> {
    /// The estimate on screen.
    pub closed spec fn shown(&self) -> Option<T> {
        self.held
    }

    /// Empty frames since the estimate was made.
    pub closed spec fn missed(&self) -> u32 {
        self.misses
    }

    /// The well-formed states: never more misses than an estimate survives.
    pub closed spec fn wf(&self) -> bool {
        self.misses <= MAX_MISSES
    }

    /// The state after one empty frame.
    pub closed spec fn after_miss(self) -> Self {
        match self.held {
            None => self,
            Some(n) => if self.misses < MAX_MISSES {
                NoteHold { misses: (self.misses + 1) as u32, held: Some(n) }
            } else {
                NoteHold { misses: self.misses, held: None }
            },
        }
    }

    /// The state after `k` empty frames in a row.
    pub open spec fn after_misses(self, k: nat) -> Self
        decreases k,
    {
        if k == 0 { self } else { self.after_misses((k - 1) as nat).after_miss() }
    }

    /// Nothing on screen.
    pub fn new() -> (r: Self)
        ensures
            r.wf(),
            r.shown().is_none(),
            r.missed() == 0,
    {
        NoteHold { misses: 0, held: None }
    }

    /// A frame found a note: it goes on screen and the count of empty frames starts over.
    pub fn detected(&mut self, note: T)
        ensures
            final(self).wf(),
            final(self).shown() == Some(note),
            final(self).missed() == 0,
    {
        self.misses = 0;
        self.held = Some(note);
    }

    /// A frame found nothing: the last note stays for up to [`MAX_MISSES`] such frames, then
    /// goes. Returns whether a note is still on screen.
    pub fn missed_frame(&mut self) -> (r: bool)
        requires
            old(self).wf(),
        ensures
            final(self).wf(),
            *final(self) == old(self).after_miss(),
            r == final(self).shown().is_some(),
            old(self).shown().is_none() ==> *final(self) == *old(self) && !r,
            old(self).shown().is_some() && old(self).missed() < MAX_MISSES ==> {
                &&& final(self).shown() == old(self).shown()
                &&& final(self).missed() == old(self).missed() + 1
                &&& r
            },
            old(self).shown().is_some() && old(self).missed() >= MAX_MISSES ==> final(self).shown().is_none() && !r,
    {
        if self.held.is_none() {
            return false;
        }
        if self.misses < MAX_MISSES {
            self.misses = self.misses + 1;
            return true;
        }
        self.held = None;
        false
    }

    /// The note on screen.
    pub fn held(&self) -> (r: Option<&T>)
        ensures
            r == match self.shown() {
                Some(n) => Some(&n),
                None => None::<&T>,
            },
    {
        match &self.held {
            Some(n) => Some(n),
            None => None,
        }
    }
}

proof fn lemma_after_misses<T>(s: NoteHold<T>, k: nat)
    requires
        s.wf(),
        s.shown().is_some(),
        s.missed() == 0,
    ensures
        k <= MAX_MISSES ==> s.after_misses(k).shown() == s.shown() && s.after_misses(k).missed() == k,
        k > MAX_MISSES ==> s.after_misses(k).shown().is_none(),
    decreases k,
{
    if k > 0 {
        lemma_after_misses(s, (k - 1) as nat);
    }
}

/// A held note decays: after a detection it survives exactly [`MAX_MISSES`] empty frames, so
/// a gap in detection no longer than that never blanks the readout, and a longer one always does.
pub proof fn a_held_note_survives_a_bounded_gap<T>(s: NoteHold<T>, k: nat)
    requires
        s.wf(),
        s.shown().is_some(),
        s.missed() == 0,
    ensures
        s.after_misses(k).shown().is_some() <==> k <= MAX_MISSES,
        k <= MAX_MISSES ==> s.after_misses(k).shown() == s.shown(),
{
    lemma_after_misses(s, k);
}

} // verus!
