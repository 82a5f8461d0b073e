//! Frame-timing instrumentation: a bounded FIFO history of per-frame
//! durations, and the rolling averages derived from it for status
//! reporting.

use vstd::prelude::*;

verus! {

/// How many per-frame samples the history keeps; the oldest is evicted
/// once it is full.
pub const TIMING_CAPACITY: usize = 120;

/// Microseconds in one second, for deriving frames per second.
pub const MICROS_PER_SECOND: u64 = 1_000_000;

/// Sum of a sequence of durations.
pub open spec fn sum_micros(s: Seq<u64>) -> int
    decreases s.len(),
{
    if s.len() == 0 {
        0
    } else {
        s[0] + sum_micros(s.subrange(1, s.len() as int))
    }
}

/// A bounded history of per-frame durations in microseconds, oldest
/// first.
pub struct FrameTiming {
    samples: Vec<u64>,
}

/// The history after one sample lands: appended while there is room,
/// otherwise the oldest sample is evicted first (FIFO).
pub open spec fn spec_record(s: Seq<u64>, micros: u64) -> Seq<u64> {
    if s.len() < TIMING_CAPACITY {
        s.push(micros)
    } else {
        s.subrange(1, s.len() as int).push(micros)
    }
}

/// Appending one sample adds its value to the sum.
pub proof fn lemma_sum_push(s: Seq<u64>, v: u64)
    ensures
        sum_micros(s.push(v)) == sum_micros(s) + v,
    decreases s.len(),
{
    if s.len() == 0 {
        assert(s.push(v)[0] == v);
        assert(s.push(v).subrange(1, 1) =~= Seq::<u64>::empty());
        assert(sum_micros(Seq::<u64>::empty()) == 0);
    } else {
        assert(s.push(v)[0] == s[0]);
        assert(s.push(v).subrange(1, s.len() as int + 1) =~= s.subrange(1, s.len() as int).push(v));
        lemma_sum_push(s.subrange(1, s.len() as int), v);
    }
}

impl FrameTiming {
    /// The history never outgrows its fixed capacity.
    pub open spec fn wf(self) -> bool {
        self.spec_samples().len() <= TIMING_CAPACITY
    }

    /// The recorded durations, oldest first.
    pub closed spec fn spec_samples(self) -> Seq<u64> {
        self.samples@
    }

    /// Mean recorded duration in microseconds; zero while nothing is
    /// recorded.
    pub open spec fn spec_average_micros(self) -> int {
        if self.spec_samples().len() == 0 {
            0
        } else {
            sum_micros(self.spec_samples()) / self.spec_samples().len() as int
        }
    }

    /// Rolling frame rate in thousandths of a frame per second: one
    /// second, in the same thousandth-scaled units, over the mean frame
    /// time. Zero while nothing is recorded.
    pub open spec fn spec_fps_milli(self) -> int {
        if self.spec_average_micros() == 0 {
            0
        } else {
            (MICROS_PER_SECOND * 1000) as int / self.spec_average_micros()
        }
    }

    /// An empty history.
    pub fn new() -> (r: FrameTiming)
        ensures
            r.wf(),
            r.spec_samples() == Seq::<u64>::empty(),
    {
        FrameTiming { samples: Vec::new() }
    }

    pub fn sample_count(&self) -> (r: usize)
        ensures
            r == self.spec_samples().len(),
    {
        self.samples.len()
    }

    /// Records one frame duration. While the history has room the sample
    /// is appended; once it is full the oldest sample is evicted first
    /// (FIFO), so the newest `TIMING_CAPACITY` samples are kept.
    pub fn record(&mut self, micros: u64)
        requires
            old(self).wf(),
        ensures
            final (self).wf(),
            final (self).spec_samples() == spec_record(old(self).spec_samples(), micros),
    {
        if self.samples.len() == TIMING_CAPACITY {
            self.samples.remove(0);
        }
        self.samples.push(micros);
    }

    /// The mean recorded frame duration in microseconds.
    pub fn average_micros(&self) -> (r: u64)
        requires
            self.wf(),
        ensures
            r == self.spec_average_micros(),
    {
        let len = self.samples.len();
        if len == 0 {
            return 0;
        }
        let mut acc: u128 = 0;
        let mut i: usize = 0;
        while i < len
            invariant
                i <= len,
                len == self.spec_samples().len(),
                acc == sum_micros(self.spec_samples().subrange(0, i as int)),
                acc <= i * (u64::MAX as int),
            decreases len - i,
        {
            proof {
                assert(self.spec_samples().subrange(0, i + 1) =~= self.spec_samples().subrange(
                    0,
                    i as int,
                ).push(self.spec_samples()[i as int]));
                lemma_sum_push(
                    self.spec_samples().subrange(0, i as int),
                    self.spec_samples()[i as int],
                );
            }
            acc = acc + (self.samples[i] as u128);
            i = i + 1;
        }
        proof {
            assert(self.spec_samples().subrange(0, len as int) =~= self.spec_samples());
            assert(acc / (len as u128) <= u64::MAX) by (nonlinear_arith)
                requires
                    acc <= len * (u64::MAX as int),
                    len >= 1,
            ;
        }
        let avg: u128 = acc / (len as u128);
        avg as u64
    }

    /// The rolling frame rate in thousandths of a frame per second.
    pub fn fps_milli(&self) -> (r: u64)
        requires
            self.wf(),
        ensures
            r == self.spec_fps_milli(),
    {
        let avg = self.average_micros();
        if avg == 0 {
            0
        } else {
            (MICROS_PER_SECOND * 1000) / avg
        }
    }
}

} // verus!
