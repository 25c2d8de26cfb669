//! Batch job: the decisions taken for each decoded frame of a job that
//! collects its results and writes them once.
//!
//! The job numbers every frame, keeps one out of `sample_rate`, checks the
//! geometry of a kept frame and asks for its text. When the text comes back
//! it is recorded. Decoding and the OCR call happen outside: the job is told
//! what arrived and answers what to do next.

use crate::buffer::{BufferLayout, FrameGeometry, GeometryError};
use crate::frame::{decide, decided, Admission};
use crate::region_of_interest::Coordinates;
use crate::report::{reported_rectangle, BatchReport, FrameAnalysis, FrameAnalysisView};
use crate::sampler::{keeps, FrameSampler, SampleRate};
use vstd::prelude::*;

verus! {

/// What becomes of a job when one frame cannot be processed.
#[derive(Clone, Copy, Debug, PartialEq, Eq, Structural)]
pub enum FramePolicy {
    /// The frame is left out of the report and the job goes on.
    SkipFrame,
    /// The job is aborted.
    AbortJob,
}

/// Why the job did not do what it was asked.
#[derive(Clone, Copy, Debug, PartialEq, Eq, Structural)]
pub enum JobError {
    /// The job was aborted by an earlier failure.
    Aborted,
    /// The frame that was offered last has neither text nor failure yet.
    FramePending,
    /// No frame is waiting for its text.
    NothingPending,
    /// Every sequence number is taken.
    SequenceExhausted,
    /// A kept frame has a geometry that cannot be read; the job is aborted.
    BadFrame { sequence_number: usize, error: GeometryError },
    /// OCR failed on a frame; the job is aborted.
    RecognitionFailed { sequence_number: usize },
}

/// A batch job as a mathematical value.
pub struct BatchJobView {
    /// How many frames were numbered.
    pub issued: nat,
    /// The sampling rate.
    pub rate: int,
    /// The region of interest, resolved.
    pub region: Option<Coordinates>,
    /// What a frame that cannot be processed does to the job.
    pub policy: FramePolicy,
    /// The frame that waits for its text.
    pub pending: Option<(usize, BufferLayout)>,
    /// The entries recorded so far, in the order they were recorded.
    pub entries: Seq<FrameAnalysisView>,
    /// Whether a failure has aborted the job.
    pub aborted: bool,
}

/// The entry that is recorded for a frame.
pub open spec fn entry_for(
    sequence_number: usize,
    region: Option<Coordinates>,
    layout: BufferLayout,
    text: Seq<char>,
) -> FrameAnalysisView {
    FrameAnalysisView {
        coordinates: reported_rectangle(region, layout.width(), layout.height()),
        confidence: "NA"@,
        frame: sequence_number,
        text,
    }
}

/// The entries are those of frames that the rate keeps, numbered below
/// `issued`, each frame once and in ascending order.
pub open spec fn ordered_sample(entries: Seq<FrameAnalysisView>, rate: int, issued: nat) -> bool {
    &&& forall|i: int|
        0 <= i < entries.len() ==> (#[trigger] entries[i]).frame < issued && keeps(
            entries[i].frame as int,
            rate,
        )
    &&& forall|i: int, j: int|
        0 <= i < j < entries.len() ==> (#[trigger] entries[i]).frame < (#[trigger] entries[j]).frame
}

impl BatchJobView {
    /// What holds of every job: the report is an ordered sample of the
    /// frames seen, the pending frame is newer than all of them, and an
    /// aborted job waits for nothing.
    pub open spec fn wf(self) -> bool {
        &&& ordered_sample(self.entries, self.rate, self.issued)
        &&& self.pending matches Some((sequence_number, layout)) ==> {
            &&& !self.aborted
            &&& layout.sound()
            &&& sequence_number < self.issued
            &&& keeps(sequence_number as int, self.rate)
            &&& forall|i: int|
                0 <= i < self.entries.len() ==> (#[trigger] self.entries[i]).frame < sequence_number
        }
    }

    /// The job after one more frame was numbered.
    pub open spec fn numbered(self) -> BatchJobView {
        BatchJobView { issued: self.issued + 1, ..self }
    }

    /// The job once it waits for what `decision` asks for: for the text of
    /// a frame that is to be read, else for nothing.
    pub open spec fn awaiting(self, decision: Admission) -> BatchJobView {
        match decision {
            Admission::Recognize { sequence_number, layout } => BatchJobView {
                pending: Some((sequence_number, layout)),
                ..self
            },
            _ => self,
        }
    }

    /// What `offer` answers for a frame with this geometry, and the job
    /// that it leaves. A job that is aborted, that waits for a text or that
    /// has no number left refuses the frame and stays as it is. Otherwise
    /// the frame is numbered and the answer is the decision for it; where
    /// the frame would be dropped and the policy is to abort, the job is
    /// aborted in place of that.
    pub open spec fn offered(
        self,
        geometry: FrameGeometry,
        r: Result<Admission, JobError>,
        next: BatchJobView,
    ) -> bool {
        if self.aborted {
            r == Err::<Admission, JobError>(JobError::Aborted) && next == self
        } else if self.pending is Some {
            r == Err::<Admission, JobError>(JobError::FramePending) && next == self
        } else if self.issued >= usize::MAX {
            r == Err::<Admission, JobError>(JobError::SequenceExhausted) && next == self
        } else {
            let sequence_number = self.issued as usize;
            match r {
                Ok(decision) => {
                    &&& decided(sequence_number, self.rate, geometry, decision)
                    &&& decision is Dropped ==> self.policy == FramePolicy::SkipFrame
                    &&& next == self.numbered().awaiting(decision)
                },
                Err(refusal) => {
                    &&& self.policy == FramePolicy::AbortJob
                    &&& keeps(sequence_number as int, self.rate)
                    &&& geometry.defect() matches Some(error)
                    &&& refusal == (JobError::BadFrame { sequence_number, error })
                    &&& next == (BatchJobView { aborted: true, ..self.numbered() })
                },
            }
        }
    }

    /// The error of a job that is asked about a pending frame and has none.
    pub open spec fn nothing_pending(self) -> JobError {
        if self.aborted {
            JobError::Aborted
        } else {
            JobError::NothingPending
        }
    }
}

/// The state of one batch job.
#[derive(Debug)]
pub struct BatchJob {
    sampler: FrameSampler,
    region: Option<Coordinates>,
    policy: FramePolicy,
    pending: Option<(usize, BufferLayout)>,
    report: BatchReport,
    aborted: bool,
}

impl View for BatchJob {
    type V = BatchJobView;

    closed spec fn view(&self) -> BatchJobView {
        BatchJobView {
            issued: self.sampler.issued(),
            rate: self.sampler.rate().value(),
            region: self.region,
            policy: self.policy,
            pending: self.pending,
            entries: self.report@,
            aborted: self.aborted,
        }
    }
}

impl BatchJob {
    #[verifier::type_invariant]
    spec fn consistent(self) -> bool {
        self@.wf()
    }

    /// A job that has seen no frame.
    pub fn new(rate: SampleRate, region: Option<Coordinates>, policy: FramePolicy) -> (job: BatchJob)
        ensures
            job@ == (BatchJobView {
                issued: 0,
                rate: rate.value(),
                region,
                policy,
                pending: None,
                entries: Seq::empty(),
                aborted: false,
            }),
            job@.wf(),
    {
        BatchJob {
            sampler: FrameSampler::new(rate),
            region,
            policy,
            pending: None,
            report: BatchReport::new(),
            aborted: false,
        }
    }

    /// Offers the next decoded frame to the job. The frame is numbered; the
    /// answer says whether it is to be read.
    pub fn offer(&mut self, geometry: &FrameGeometry) -> (r: Result<Admission, JobError>)
        ensures
            final(self)@.wf(),
            old(self)@.offered(*geometry, r, final(self)@),
    {
        proof {
            use_type_invariant(&*self);
        }
        if self.aborted {
            return Err(JobError::Aborted);
        }
        if self.pending.is_some() {
            return Err(JobError::FramePending);
        }
        let rate = self.sampler.sample_rate();
        let sequence_number = match self.sampler.next() {
            Some((sequence_number, _)) => sequence_number,
            None => {
                return Err(JobError::SequenceExhausted);
            },
        };
        let decision = decide(sequence_number, &rate, geometry);
        match decision {
            Admission::Skipped { .. } => Ok(decision),
            Admission::Recognize { layout, .. } => {
                self.pending = Some((sequence_number, layout));
                Ok(decision)
            },
            Admission::Dropped { error, .. } => match self.policy {
                FramePolicy::SkipFrame => Ok(decision),
                FramePolicy::AbortJob => {
                    self.aborted = true;
                    Err(JobError::BadFrame { sequence_number, error })
                },
            },
        }
    }

    /// Records the text of the frame that was offered last.
    pub fn record(&mut self, text: String) -> (r: Result<usize, JobError>)
        ensures
            final(self)@.wf(),
            match old(self)@.pending {
                Some((sequence_number, layout)) => {
                    &&& r == Ok::<usize, JobError>(sequence_number)
                    &&& final(self)@ == (BatchJobView {
                        pending: None,
                        entries: old(self)@.entries.push(
                            entry_for(sequence_number, old(self)@.region, layout, text@),
                        ),
                        ..old(self)@
                    })
                },
                None => {
                    &&& r == Err::<usize, JobError>(old(self)@.nothing_pending())
                    &&& final(self)@ == old(self)@
                },
            },
    {
        proof {
            use_type_invariant(&*self);
        }
        match self.pending {
            Some((sequence_number, layout)) => {
                let entry = FrameAnalysis::new(sequence_number, self.region, &layout, text);
                let mut report = BatchReport::new();
                std::mem::swap(&mut report, &mut self.report);
                report.record(entry);
                self.pending = None;
                self.report = report;
                Ok(sequence_number)
            },
            None => {
                if self.aborted {
                    Err(JobError::Aborted)
                } else {
                    Err(JobError::NothingPending)
                }
            },
        }
    }

    /// Tells the job that OCR failed on the frame that was offered last.
    /// The frame is left out of the report; whether the job goes on is the
    /// policy's choice.
    pub fn fail_frame(&mut self) -> (r: Result<usize, JobError>)
        ensures
            final(self)@.wf(),
            match old(self)@.pending {
                Some((sequence_number, layout)) => {
                    &&& final(self)@ == (BatchJobView {
                        pending: None,
                        aborted: old(self)@.policy == FramePolicy::AbortJob,
                        ..old(self)@
                    })
                    &&& r == (match old(self)@.policy {
                        FramePolicy::SkipFrame => Ok::<usize, JobError>(sequence_number),
                        FramePolicy::AbortJob => Err::<usize, JobError>(
                            JobError::RecognitionFailed { sequence_number },
                        ),
                    })
                },
                None => {
                    &&& r == Err::<usize, JobError>(old(self)@.nothing_pending())
                    &&& final(self)@ == old(self)@
                },
            },
    {
        proof {
            use_type_invariant(&*self);
        }
        match self.pending {
            Some((sequence_number, _)) => {
                self.pending = None;
                match self.policy {
                    FramePolicy::SkipFrame => Ok(sequence_number),
                    FramePolicy::AbortJob => {
                        self.aborted = true;
                        Err(JobError::RecognitionFailed { sequence_number })
                    },
                }
            },
            None => {
                if self.aborted {
                    Err(JobError::Aborted)
                } else {
                    Err(JobError::NothingPending)
                }
            },
        }
    }

    /// How many frames were offered and numbered.
    pub fn frames_seen(&self) -> (n: usize)
        ensures
            n == self@.issued,
    {
        self.sampler.frames_seen()
    }

    /// How many entries the report has.
    pub fn frames_recorded(&self) -> (n: usize)
        ensures
            n == self@.entries.len(),
            n <= self@.issued,
    {
        proof {
            use_type_invariant(self);
            lemma_ordered_sample_is_short(self@.entries, self@.rate, self@.issued);
        }
        self.report.len()
    }

    /// Whether a failure has aborted the job.
    pub fn is_aborted(&self) -> (aborted: bool)
        ensures
            aborted == self@.aborted,
    {
        self.aborted
    }

    /// Ends the job at the end of the stream and hands out the report: the
    /// entries recorded so far, in ascending order of their frames. A frame
    /// that still waits for its text is not part of it.
    pub fn finish(self) -> (entries: Vec<FrameAnalysis>)
        ensures
            crate::report::entries_view(entries@) == self@.entries,
            ordered_sample(self@.entries, self@.rate, self@.issued),
    {
        proof {
            use_type_invariant(&self);
        }
        self.report.into_entries()
    }
}

/// An ordered sample of the frames below `issued` has at most `issued`
/// entries: no frame is reported twice.
pub proof fn lemma_ordered_sample_is_short(entries: Seq<FrameAnalysisView>, rate: int, issued: nat)
    requires
        ordered_sample(entries, rate, issued),
    ensures
        entries.len() <= issued,
    decreases entries.len(),
{
    if entries.len() > 0 {
        let shorter = entries.drop_last();
        let last = entries.last();
        assert forall|i: int| 0 <= i < shorter.len() implies (#[trigger] shorter[i]).frame
            < last.frame && keeps(shorter[i].frame as int, rate) by {
            assert(shorter[i] == entries[i]);
        }
        assert forall|i: int, j: int| 0 <= i < j < shorter.len() implies (#[trigger] shorter[i]).frame
            < (#[trigger] shorter[j]).frame by {
            assert(shorter[i] == entries[i]);
            assert(shorter[j] == entries[j]);
        }
        lemma_ordered_sample_is_short(shorter, rate, last.frame as nat);
    }
}

} // verus!
