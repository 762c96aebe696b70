//! The ring of the most recent interleaved samples the audio thread hands the spectrum: it keeps
//! the newest ones up to a fixed number of frames, and remembers the layout they came in (songs
//! differ in channel count and sample rate, and both feed the analysis).
use vstd::prelude::*;
use std::collections::VecDeque;

verus! {

/// Frames the ring keeps.
pub const RING_SAMPLES: usize = 2048;

/// What a ring holding `old` holds once `chunk` has been pushed into it with room for `cap`
/// samples: the newest `cap` of them, or everything when that fits. An empty chunk changes
/// nothing, not even a ring left over-full by a layout with more channels.
pub open spec fn ring_after<T>(old: Seq<T>, chunk: Seq<T>, cap: nat) -> Seq<T> {
    if chunk.len() == 0 {
        old
    } else {
        let all = old + chunk;
        if all.len() > cap { all.skip(all.len() - cap) } else { all }
    }
}

/// The sample ring.
pub struct SampleRing<T> {
    samples: VecDeque<T>,
    channels: usize,
    sample_rate: u32,
}

impl<T: Copy> SampleRing<T> {
    /// The samples held, oldest first.
    pub closed spec fn held(&self) -> Seq<T> {
        self.samples@
    }

    /// The channel count of the latest chunk, 0 before anything played.
    pub closed spec fn layout(&self) -> usize {
        self.channels
    }

    /// The sample rate of the latest chunk that had one, 0 before anything played.
    pub closed spec fn rate(&self) -> u32 {
        self.sample_rate
    }

    /// An empty ring.
    pub fn new() -> (r: Self)
        ensures
            r.held() == Seq::<T>::empty(),
            r.layout() == 0,
            r.rate() == 0,
    {
        SampleRing { samples: VecDeque::new(), channels: 0, sample_rate: 0 }
    }

    /// Copy a decoded chunk into the ring, remembering its layout: the ring keeps the newest
    /// `RING_SAMPLES` frames of it, dropping the oldest samples first. A channel count of 0 is
    /// taken as 1, and a sample rate of 0 leaves the one before.
    pub fn push(&mut self, chunk: &[T], channels: usize, sample_rate: u32)
        requires
            channels * RING_SAMPLES <= usize::MAX,
        ensures
            final(self).layout() == (if channels == 0 { 1 } else { channels }),
            final(self).rate() == (if sample_rate > 0 { sample_rate } else { old(self).rate() }),
            final(self).held() == ring_after(old(self).held(), chunk@, (final(self).layout() * RING_SAMPLES) as nat),
    {
        let channels = if channels == 0 { 1 } else { channels };
        self.channels = channels;
        if sample_rate > 0 {
            self.sample_rate = sample_rate;
        }
        let capacity = RING_SAMPLES * channels;
        let ghost start = self.samples@;
        let mut i: usize = 0;
        while i < chunk.len()
            invariant
                capacity == RING_SAMPLES * channels,
                capacity >= 1,
                i <= chunk@.len(),
                self.channels == channels,
                self.sample_rate == (if sample_rate > 0 { sample_rate } else { old(self).sample_rate }),
                start == old(self).samples@,
                self.samples@ == ring_after(start, chunk@.take(i as int), capacity as nat),
                i > 0 ==> self.samples@.len() <= capacity,
            decreases chunk@.len() - i,
        {
            let ghost before = self.samples@;
            while self.samples.len() >= capacity
                invariant
                    capacity >= 1,
                    self.channels == channels,
                    self.sample_rate == (if sample_rate > 0 { sample_rate } else { old(self).sample_rate }),
                    before.len() >= self.samples@.len(),
                    self.samples@ == before.skip(before.len() - self.samples@.len()),
                    before.len() >= capacity ==> self.samples@.len() >= capacity - 1,
                    before.len() < capacity ==> self.samples@.len() == before.len(),
                decreases self.samples@.len(),
            {
                let ghost prev = self.samples@;
                self.samples.pop_front();
                assert(self.samples@ =~= before.skip(before.len() - self.samples@.len())) by {
                    assert(prev.drop_first() =~= self.samples@);
                }
            }
            let ghost kept = self.samples@;
            self.samples.push_back(chunk[i]);
            proof {
                let x = chunk@[i as int];
                let all = start + chunk@.take(i + 1);
                let prev_all = start + chunk@.take(i as int);
                assert(all =~= prev_all.push(x));
                assert(self.samples@ =~= kept.push(x));
                if i == 0 {
                    assert(chunk@.take(0) =~= Seq::<T>::empty());
                    assert(prev_all =~= start);
                    assert(before =~= start);
                } else {
                    assert(before == (if prev_all.len() > capacity { prev_all.skip(prev_all.len() - capacity) } else { prev_all }));
                }
                if before.len() >= capacity {
                    assert(kept.len() == capacity - 1);
                    if i == 0 {
                        assert(kept.push(x) =~= all.skip(all.len() - capacity));
                    } else {
                        assert(prev_all.len() >= capacity);
                        assert(kept.push(x) =~= all.skip(all.len() - capacity));
                    }
                } else {
                    assert(kept =~= before);
                    if i > 0 {
                        assert(before =~= prev_all);
                    }
                    assert(kept.push(x) =~= all);
                }
                assert(self.samples@ =~= (if all.len() > capacity { all.skip(all.len() - capacity) } else { all }));
            }
            i = i + 1;
        }
        proof {
            assert(chunk@.take(chunk@.len() as int) =~= chunk@);
            if chunk@.len() == 0 {
                assert(chunk@.take(0) =~= Seq::<T>::empty());
            }
        }
    }

    /// How many samples make whole frames: a chunk cut mid-frame leaves its tail out.
    pub fn complete_samples(&self) -> (r: usize)
        ensures
            r == (if self.layout() == 0 { self.held().len() as int } else {
                (self.held().len() as int / self.layout() as int) * self.layout() as int
            }),
            r <= self.held().len(),
    {
        let channels = if self.channels == 0 { 1 } else { self.channels };
        let len = self.samples.len();
        let q = len / channels;
        assert(q * channels <= len) by (nonlinear_arith)
            requires q == len / channels, channels >= 1;
        q * channels
    }

    /// The sample at `i`, oldest first.
    pub fn sample(&self, i: usize) -> (r: T)
        requires
            i < self.held().len(),
        ensures
            r == self.held()[i as int],
    {
        self.samples[i]
    }

    /// The channel count of the latest chunk, at least 1.
    pub fn channels(&self) -> (r: usize)
        ensures
            r == (if self.layout() == 0 { 1 } else { self.layout() }),
    {
        if self.channels == 0 { 1 } else { self.channels }
    }

    /// The sample rate of the latest chunk, or 0 before anything played.
    pub fn sample_rate(&self) -> (r: u32)
        ensures
            r == self.rate(),
    {
        self.sample_rate
    }
}

/// The ring never outgrows its room once something has been pushed in, and what it holds is
/// always the newest samples, in the order they came.
pub proof fn the_ring_keeps_the_newest<T>(old: Seq<T>, chunk: Seq<T>, cap: nat)
    requires
        cap >= 1,
        chunk.len() > 0,
    ensures
        ring_after(old, chunk, cap).len() <= cap,
        ring_after(old, chunk, cap).len() == if old.len() + chunk.len() > cap { cap as int } else { (old.len() + chunk.len()) as int },
        ring_after(old, chunk, cap).last() == chunk.last(),
        forall|i: int| 0 <= i < ring_after(old, chunk, cap).len() ==>
            #[trigger] ring_after(old, chunk, cap)[i] == (old + chunk)[(old + chunk).len() - ring_after(old, chunk, cap).len() + i],
{
}

} // verus!
