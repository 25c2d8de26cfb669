//! The results of text recognition: one entry per processed frame, and the
//! report that collects the entries of a batch job in the order they arrive.

use crate::buffer::BufferLayout;
use crate::region_of_interest::Coordinates;
use vstd::prelude::*;

verus! {

/// What a streamed job sends for one processed frame.
#[derive(Debug)]
pub struct RecognisedText {
    /// Presentation timestamp of the frame.
    pub pts: u64,
    /// The text that was recognised; it may be empty.
    pub text: String,
}

/// What a batch job reports for one processed frame.
#[derive(Debug)]
pub struct FrameAnalysis {
    /// The rectangle that was read, as top, height, left, width.
    pub coordinates: (u32, u32, u32, u32),
    /// The confidence of the engine, or `"NA"` where it reports none.
    pub confidence: String,
    /// The sequence number of the frame.
    pub frame: usize,
    /// The text that was recognised; it may be empty.
    pub text: String,
}

/// A `RecognisedText` as a mathematical value.
pub struct RecognisedTextView {
    pub pts: u64,
    pub text: Seq<char>,
}

/// A `FrameAnalysis` as a mathematical value.
pub struct FrameAnalysisView {
    pub coordinates: (u32, u32, u32, u32),
    pub confidence: Seq<char>,
    pub frame: usize,
    pub text: Seq<char>,
}

impl View for RecognisedText {
    type V = RecognisedTextView;

    open spec fn view(&self) -> RecognisedTextView {
        RecognisedTextView { pts: self.pts, text: self.text@ }
    }
}

impl View for FrameAnalysis {
    type V = FrameAnalysisView;

    open spec fn view(&self) -> FrameAnalysisView {
        FrameAnalysisView {
            coordinates: self.coordinates,
            confidence: self.confidence@,
            frame: self.frame,
            text: self.text@,
        }
    }
}

/// The rectangle that an entry reports, as top, height, left, width: the
/// region of interest where the job has one, else the whole frame.
pub open spec fn reported_rectangle(region: Option<Coordinates>, frame_width: int, frame_height: int) -> (
    u32,
    u32,
    u32,
    u32,
) {
    match region {
        Some(rect) => (rect.top, rect.height, rect.left, rect.width),
        None => (0u32, frame_height as u32, 0u32, frame_width as u32),
    }
}

/// The entries of a report as mathematical values.
pub open spec fn entries_view(entries: Seq<FrameAnalysis>) -> Seq<FrameAnalysisView> {
    entries.map_values(|entry: FrameAnalysis| entry@)
}

impl RecognisedText {
    /// The message for a frame with this timestamp and this text.
    pub fn new(pts: u64, text: String) -> (r: RecognisedText)
        ensures
            r@ == (RecognisedTextView { pts, text: text@ }),
    {
        RecognisedText { pts, text }
    }
}

impl FrameAnalysis {
    /// The entry for the frame with this sequence number: the rectangle that
    /// was read, the placeholder for the confidence, and the text.
    pub fn new(frame: usize, region: Option<Coordinates>, layout: &BufferLayout, text: String) -> (r:
        FrameAnalysis)
        ensures
            r@ == (FrameAnalysisView {
                coordinates: reported_rectangle(region, layout.width(), layout.height()),
                confidence: "NA"@,
                frame,
                text: text@,
            }),
    {
        let coordinates = match region {
            Some(rect) => (rect.top, rect.height, rect.left, rect.width),
            None => (0, layout.frame_height() as u32, 0, layout.frame_width() as u32),
        };
        FrameAnalysis { coordinates, confidence: String::from_str("NA"), frame, text }
    }
}

/// The report of a batch job: the entries in the order they were recorded.
#[derive(Debug)]
pub struct BatchReport {
    entries: Vec<FrameAnalysis>,
}

impl View for BatchReport {
    type V = Seq<FrameAnalysisView>;

    closed spec fn view(&self) -> Seq<FrameAnalysisView> {
        entries_view(self.entries@)
    }
}

impl BatchReport {
    /// A report without entries.
    pub fn new() -> (report: BatchReport)
        ensures
            report@ == Seq::<FrameAnalysisView>::empty(),
    {
        let report = BatchReport { entries: Vec::new() };
        assert(report@ =~= Seq::<FrameAnalysisView>::empty());
        report
    }

    /// How many entries the report has.
    pub fn len(&self) -> (n: usize)
        ensures
            n == self@.len(),
    {
        self.entries.len()
    }

    /// Adds an entry after those that are there.
    pub fn record(&mut self, entry: FrameAnalysis)
        ensures
            final(self)@ == old(self)@.push(entry@),
    {
        self.entries.push(entry);
        assert(self@ =~= old(self)@.push(entry@));
    }

    /// Ends the report and hands out its entries, in the order they were
    /// recorded, for serialising.
    pub fn into_entries(self) -> (entries: Vec<FrameAnalysis>)
        ensures
            entries_view(entries@) == self@,
    {
        self.entries
    }
}

} // verus!
