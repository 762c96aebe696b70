//! Sample-rate conversion between the file's rate and the device's: when a converter is built
//! at all, and how the end of a file is let through it. The converter itself works in floating
//! point and is the caller's.
use vstd::prelude::*;

verus! {

/// Frames read from the decoder per chunk.
pub const CHUNK: usize = 1024;

/// Whether a converter is built: only when the device runs at another rate than the file and
/// both the file and the device have a layout to convert. Leaving it out keeps a matching file
/// bit-perfect.
pub fn needs_resampling(in_rate: u32, out_rate: u32, channels: usize) -> (r: bool)
    ensures
        r == (in_rate != out_rate && channels != 0 && out_rate != 0),
{
    !(in_rate == out_rate || channels == 0 || out_rate == 0)
}

/// What one chunk read from the decoder leads to.
#[derive(Debug, Clone, Copy, PartialEq, Eq, Structural)]
pub enum Refill {
    /// Run the converter over the chunk, padded with silence past what was read.
    Resample,
    /// The file and its tail are through: nothing more comes.
    Finish,
}

/// How far the end of the file has got through the converter.
#[derive(Debug, Clone, Copy, PartialEq, Eq, Structural)]
pub struct Tail {
    /// A short or empty chunk has been padded and converted: the converter's own delay drains.
    pub flushed: bool,
    /// Nothing more will come.
    pub finished: bool,
}

/// The tail after a chunk of `read` frames: the first short or empty chunk flushes, and an empty
/// chunk after the flush finishes.
pub open spec fn tail_step(t: Tail, read: nat) -> (Tail, Refill) {
    if read == 0 {
        if t.flushed {
            (Tail { flushed: t.flushed, finished: true }, Refill::Finish)
        } else {
            (Tail { flushed: true, finished: t.finished }, Refill::Resample)
        }
    } else if read < CHUNK {
        (Tail { flushed: true, finished: t.finished }, Refill::Resample)
    } else {
        (t, Refill::Resample)
    }
}

impl Tail {
    /// A file whose end has not come yet.
    pub fn new() -> (r: Self)
        ensures
            r == (Tail { flushed: false, finished: false }),
    {
        Tail { flushed: false, finished: false }
    }

    /// Take in how many frames a chunk held, and say what to do with it.
    pub fn after_read(&mut self, read: usize) -> (r: Refill)
        ensures
            (*final(self), r) == tail_step(*old(self), read as nat),
    {
        if read == 0 {
            if self.flushed {
                self.finished = true;
                return Refill::Finish;
            }
            self.flushed = true;
        } else if read < CHUNK {
            self.flushed = true;
        }
        Refill::Resample
    }

    /// The converter failed: nothing more comes from it.
    pub fn failed(&mut self)
        ensures
            final(self).finished,
            final(self).flushed == old(self).flushed,
    {
        self.finished = true;
    }
}

/// The end of a file is let through exactly once: after the decoder runs dry, one padded chunk
/// is still converted (none more when a short chunk already flushed), and the next empty chunk
/// finishes.
pub proof fn the_tail_is_flushed_once(t: Tail, short: nat)
    requires
        !t.flushed,
        0 < short < CHUNK,
    ensures
        ({
            let (t1, a1) = tail_step(t, 0);
            let (t2, a2) = tail_step(t1, 0);
            &&& a1 == Refill::Resample
            &&& a2 == Refill::Finish
            &&& t2.finished
        }),
        ({
            let (t1, a1) = tail_step(t, short);
            let (t2, a2) = tail_step(t1, 0);
            &&& a1 == Refill::Resample
            &&& a2 == Refill::Finish
        }),
        tail_step(t, CHUNK as nat) == (t, Refill::Resample),
{
}

} // verus!
