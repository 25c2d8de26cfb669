//! Frame sampler for a host that hands frames to several threads at once.
//!
//! The counter is atomic, so two callers never get the same number and no
//! number is skipped. Numbers follow the order in which the calls reach the
//! counter, which need not be the order in which the frames were decoded.

use crate::buffer::FrameGeometry;
use crate::frame::{decide, decided, Admission};
use crate::sampler::SampleRate;
use std::sync::atomic::AtomicUsize;
use std::sync::atomic::Ordering;
use vstd::prelude::*;

verus! {

/// Numbers frames in the order the calls arrive, from any number of threads.
#[derive(Debug)]
pub struct SharedFrameSampler {
    issued: AtomicUsize,
    rate: SampleRate,
}

impl SharedFrameSampler {
    /// The sampling rate of the job.
    pub closed spec fn rate(self) -> SampleRate {
        self.rate
    }

    /// A sampler whose first frame gets the number 0.
    pub fn new(rate: SampleRate) -> (sampler: SharedFrameSampler)
        ensures
            sampler.rate() == rate,
    {
        SharedFrameSampler { issued: AtomicUsize::new(0), rate }
    }

    /// The sampling rate of the job.
    pub fn sample_rate(&self) -> (rate: SampleRate)
        ensures
            rate == self.rate(),
    {
        self.rate
    }

    /// Takes the next sequence number and decides whether its frame is kept.
    /// Which number comes back depends on the other callers; the decision is
    /// the one the rate gives for that number. The counter wraps around once
    /// every number a `usize` holds is taken.
    pub fn next(&self) -> (r: (usize, bool))
        ensures
            r.1 == self.rate().keeps_number(r.0),
    {
        let sequence_number = self.issued.fetch_add(1, Ordering::Relaxed);
        (sequence_number, self.rate.keeps_frame(sequence_number))
    }

    /// Numbers a decoded frame and decides what to do with it. Which number
    /// the frame gets depends on the other callers; the decision is the one
    /// for that number, the job's rate and the frame's geometry.
    pub fn offer(&self, geometry: &FrameGeometry) -> (decision: Admission)
        ensures
            decided(decision.spec_sequence_number(), self.rate().value(), *geometry, decision),
    {
        let sequence_number = self.issued.fetch_add(1, Ordering::Relaxed);
        decide(sequence_number, &self.rate, geometry)
    }
}

} // verus!
