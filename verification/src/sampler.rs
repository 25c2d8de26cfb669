//! Frame sampler: numbers the decoded frames and decides, for each frame on
//! its own, whether it is handed to the OCR engine.
//!
//! Every frame takes the next sequence number, kept or not, so a frame's
//! number does not depend on the sampling rate.

use vstd::prelude::*;

verus! {

/// Whether the frame with this sequence number is kept at this sampling rate.
pub open spec fn keeps(sequence_number: int, sample_rate: int) -> bool {
    sequence_number % sample_rate == 0
}

/// A sampling rate: one frame out of `value()` is kept. It is at least 1.
#[derive(Clone, Copy, Debug)]
pub struct SampleRate {
    every: usize,
}

impl SampleRate {
    #[verifier::type_invariant]
    spec fn positive(self) -> bool {
        self.every >= 1
    }

    /// The divisor.
    pub closed spec fn value(self) -> int {
        self.every as int
    }

    /// The rate that keeps one frame out of `every`; none where `every` is 0.
    pub fn new(every: usize) -> (r: Option<SampleRate>)
        ensures
            r is Some <==> every >= 1,
            r matches Some(rate) ==> rate.value() == every,
    {
        if every >= 1 {
            Some(SampleRate { every })
        } else {
            None
        }
    }

    /// The rate of a job that names none: every frame is kept.
    pub fn every_frame() -> (rate: SampleRate)
        ensures
            rate.value() == 1,
    {
        SampleRate { every: 1 }
    }

    /// The divisor.
    pub fn get(&self) -> (every: usize)
        ensures
            every == self.value(),
            every >= 1,
        no_unwind
    {
        proof {
            use_type_invariant(self);
        }
        self.every
    }

    /// Whether this rate keeps the frame with this sequence number.
    pub open spec fn keeps_number(self, sequence_number: usize) -> bool {
        keeps(sequence_number as int, self.value())
    }

    /// Decides whether the frame with this sequence number is kept.
    pub fn keeps_frame(&self, sequence_number: usize) -> (keep: bool)
        ensures
            keep == self.keeps_number(sequence_number),
        no_unwind
    {
        sequence_number % self.get() == 0
    }
}

/// Numbers frames in the order they arrive, for one job and one thread.
#[derive(Debug)]
pub struct FrameSampler {
    issued: usize,
    rate: SampleRate,
}

impl FrameSampler {
    /// How many sequence numbers were handed out: the next frame gets this
    /// number.
    pub closed spec fn issued(self) -> nat {
        self.issued as nat
    }

    /// The sampling rate of the job.
    pub closed spec fn rate(self) -> SampleRate {
        self.rate
    }

    /// A sampler that has seen no frame yet.
    pub fn new(rate: SampleRate) -> (sampler: FrameSampler)
        ensures
            sampler.issued() == 0,
            sampler.rate() == rate,
    {
        FrameSampler { issued: 0, rate }
    }

    /// How many frames the sampler has numbered.
    pub fn frames_seen(&self) -> (n: usize)
        ensures
            n == self.issued(),
    {
        self.issued
    }

    /// The sampling rate of the job.
    pub fn sample_rate(&self) -> (rate: SampleRate)
        ensures
            rate == self.rate(),
    {
        self.rate
    }

    /// Takes the next sequence number for a frame and decides whether the
    /// frame is kept. The counter moves by one whatever the decision. Once
    /// every number a `usize` holds is taken, no frame is numbered any more.
    pub fn next(&mut self) -> (r: Option<(usize, bool)>)
        ensures
            final(self).rate() == old(self).rate(),
            r is Some <==> old(self).issued() < usize::MAX,
            r matches Some((sequence_number, keep)) ==> {
                &&& sequence_number == old(self).issued()
                &&& final(self).issued() == old(self).issued() + 1
                &&& keep == keeps(sequence_number as int, old(self).rate().value())
            },
            r is None ==> final(self).issued() == old(self).issued(),
        no_unwind
    {
        if self.issued == usize::MAX {
            return None;
        }
        let sequence_number = self.issued;
        let keep = self.rate.keeps_frame(sequence_number);
        self.issued = sequence_number + 1;
        Some((sequence_number, keep))
    }
}

/// At rate 1 every frame is kept.
pub proof fn lemma_unit_rate_keeps_every_frame(sequence_number: int)
    ensures
        keeps(sequence_number, 1),
{
}

/// The first frame is kept at every rate.
pub proof fn lemma_first_frame_is_kept(sample_rate: int)
    requires
        sample_rate >= 1,
    ensures
        keeps(0, sample_rate),
{
}

/// A kept frame is followed by `sample_rate - 1` skipped frames and then by
/// the next kept one: the kept frames are `sample_rate` apart.
pub proof fn lemma_kept_frames_are_a_rate_apart(sequence_number: int, sample_rate: int, gap: int)
    requires
        sample_rate >= 1,
        sequence_number >= 0,
        keeps(sequence_number, sample_rate),
        0 < gap <= sample_rate,
    ensures
        keeps(sequence_number + gap, sample_rate) <==> gap == sample_rate,
{
    assert(gap < sample_rate ==> (sequence_number + gap) % sample_rate == gap) by (nonlinear_arith)
        requires
            sample_rate >= 1,
            sequence_number >= 0,
            sequence_number % sample_rate == 0,
            0 < gap <= sample_rate,
    ;
    assert((sequence_number + sample_rate) % sample_rate == 0) by (nonlinear_arith)
        requires
            sample_rate >= 1,
            sequence_number >= 0,
            sequence_number % sample_rate == 0,
    ;
}

} // verus!
