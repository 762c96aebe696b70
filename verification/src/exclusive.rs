//! Bit-perfect output: what the exclusive path offers the device, and how the thread that feeds
//! the device decides what each buffer gets.
use vstd::prelude::*;

verus! {

/// The formats the exclusive path can feed, in the order it prefers them: float first, because
/// the chain works in `f32` and a float device needs no conversion at all.
#[derive(Debug, Clone, Copy, PartialEq, Eq, Structural)]
pub enum DeviceSample {
    Float32,
    Int16,
}

/// The format the device agreed to.
#[derive(Debug, Clone, Copy, PartialEq, Eq, Structural)]
pub struct Format {
    pub rate: u32,
    pub channels: u16,
    pub sample: DeviceSample,
}

impl DeviceSample {
    /// Bytes per sample.
    pub fn bytes(self) -> (r: usize)
        ensures
            r == (match self {
                DeviceSample::Float32 => 4usize,
                DeviceSample::Int16 => 2usize,
            }),
    {
        match self {
            DeviceSample::Float32 => 4,
            DeviceSample::Int16 => 2,
        }
    }
}

/// The rates to offer, in order: the track's own rate first (a device that takes it needs no
/// conversion), then the device's own; a zero is no rate, and a rate is offered once.
pub open spec fn candidates(device_rate: u32, preferred_rate: u32) -> Seq<u32> {
    let first: Seq<u32> = if preferred_rate > 0 { seq![preferred_rate] } else { Seq::empty() };
    if device_rate > 0 && device_rate != preferred_rate { first.push(device_rate) } else { first }
}

/// The rates to offer the device, in the order to try them.
pub fn candidate_rates(device_rate: u32, preferred_rate: u32) -> (r: Vec<u32>)
    ensures
        r@ == candidates(device_rate, preferred_rate),
{
    let mut rates: Vec<u32> = Vec::new();
    if preferred_rate > 0 {
        rates.push(preferred_rate);
    }
    if device_rate > 0 && device_rate != preferred_rate {
        rates.push(device_rate);
    }
    rates
}

/// The track's own rate is offered first, so a device that takes it plays the track bit-perfect;
/// the device's own rate follows as the fallback, when it is a rate and a different one; no
/// other rate is offered, no rate twice, and a zero never.
pub proof fn the_track_rate_is_offered_first(device_rate: u32, preferred_rate: u32)
    ensures
        preferred_rate > 0 ==> candidates(device_rate, preferred_rate).len() >= 1
            && candidates(device_rate, preferred_rate)[0] == preferred_rate,
        preferred_rate == 0 && device_rate > 0 ==> candidates(device_rate, preferred_rate) == seq![device_rate],
        candidates(device_rate, preferred_rate).len() == (if preferred_rate > 0 { 1int } else { 0 })
            + (if device_rate > 0 && device_rate != preferred_rate { 1int } else { 0 }),
        device_rate > 0 && device_rate != preferred_rate ==>
            candidates(device_rate, preferred_rate).last() == device_rate,
        forall|i: int| 0 <= i < candidates(device_rate, preferred_rate).len() ==>
            #[trigger] candidates(device_rate, preferred_rate)[i] > 0
            && (candidates(device_rate, preferred_rate)[i] == preferred_rate
                || candidates(device_rate, preferred_rate)[i] == device_rate),
        candidates(device_rate, preferred_rate).no_duplicates(),
{
}

/// One pull's worth of frames: the device is asked how much it wants each time, and this is the
/// size of the working buffer.
pub const CHUNK_FRAMES: usize = 4096;

/// The frames to feed when the device has room for `free`, and the samples that makes.
pub fn frames_for(free: u32, channels: u16) -> (r: (usize, usize))
    ensures
        r.0 == (if (free as int) < CHUNK_FRAMES as int { free as int } else { CHUNK_FRAMES as int }),
        r.1 == r.0 * channels,
{
    let frames: usize = if (free as usize) < CHUNK_FRAMES { free as usize } else { CHUNK_FRAMES };
    assert(frames * (channels as usize) <= CHUNK_FRAMES * 0xffff) by (nonlinear_arith)
        requires frames <= CHUNK_FRAMES, channels <= 0xffff;
    (frames, frames * (channels as usize))
}

/// What a buffer the device has room for gets.
#[derive(Debug, Clone, Copy, PartialEq, Eq, Structural)]
pub enum Feed {
    /// Silence: the song is paused, or its tail is being let out of the device.
    Silence,
    /// The samples that were pulled, padded with silence to the buffer's end.
    Samples,
    /// The song has ended and its tail has left the device: close the stream.
    Finish,
}

/// The feeding thread's memory: whether the source has already run dry once.
#[derive(Debug)]
pub struct Feeder {
    pub drained: bool,
}

/// What a buffer gets, given whether the song is paused and how many samples the source gave.
pub open spec fn feed_step(drained: bool, paused: bool, filled: nat) -> (bool, Feed) {
    if paused {
        (drained, Feed::Silence)
    } else if filled == 0 {
        if drained { (drained, Feed::Finish) } else { (true, Feed::Silence) }
    } else {
        (drained, Feed::Samples)
    }
}

impl Feeder {
    /// A thread that has not seen the source run dry.
    pub fn new() -> (r: Self)
        ensures
            !r.drained,
    {
        Feeder { drained: false }
    }

    /// Decide what the next buffer gets. A paused stream is fed silence rather than nothing,
    /// because an exclusive stream that is not written to underruns and clicks; when the source
    /// runs dry the device gets one buffer of silence, so the last samples leave it instead of
    /// being cut off, and only then does the stream finish.
    pub fn next(&mut self, paused: bool, filled: usize) -> (r: Feed)
        ensures
            (final(self).drained, r) == feed_step(old(self).drained, paused, filled as nat),
    {
        if paused {
            Feed::Silence
        } else if filled == 0 {
            if self.drained {
                Feed::Finish
            } else {
                self.drained = true;
                Feed::Silence
            }
        } else {
            Feed::Samples
        }
    }
}

/// A source that runs dry is let out with exactly one buffer of silence: the first empty pull
/// gets silence, the second finishes — and a pause in between changes neither.
pub proof fn the_tail_gets_one_buffer_of_silence(paused_between: bool)
    ensures
        ({
            let (d1, f1) = feed_step(false, false, 0);
            let (d2, f2) = feed_step(d1, paused_between, 0);
            let (d3, f3) = feed_step(d2, false, 0);
            &&& f1 == Feed::Silence
            &&& (paused_between ==> f2 == Feed::Silence && f3 == Feed::Finish)
            &&& (!paused_between ==> f2 == Feed::Finish)
        }),
{
}

/// Nothing finishes the stream while samples keep coming or the song is paused.
pub proof fn a_playing_source_is_never_cut_off(drained: bool, paused: bool, filled: nat)
    requires
        paused || filled > 0,
    ensures
        feed_step(drained, paused, filled).1 != Feed::Finish,
{
}

} // verus!
