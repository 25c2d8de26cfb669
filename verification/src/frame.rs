//! The decision taken for one decoded frame, once it has its sequence number:
//! whether it is read, and with which buffer layout.

use crate::buffer::{BufferLayout, FrameGeometry, GeometryError};
use crate::sampler::{keeps, SampleRate};
use vstd::prelude::*;

verus! {

/// What to do with a frame.
#[derive(Clone, Copy, Debug, PartialEq, Eq)]
pub enum Admission {
    /// The sampling rate leaves the frame out.
    Skipped { sequence_number: usize },
    /// The frame is to be read: OCR runs on the buffer that `layout`
    /// describes.
    Recognize { sequence_number: usize, layout: BufferLayout },
    /// The rate keeps the frame, but its geometry cannot be read.
    Dropped { sequence_number: usize, error: GeometryError },
}

impl Admission {
    /// The number of the frame that the decision is about.
    pub open spec fn spec_sequence_number(self) -> usize {
        match self {
            Admission::Skipped { sequence_number } => sequence_number,
            Admission::Recognize { sequence_number, .. } => sequence_number,
            Admission::Dropped { sequence_number, .. } => sequence_number,
        }
    }

    /// The number of the frame that the decision is about.
    pub fn sequence_number(&self) -> (number: usize)
        ensures
            number == self.spec_sequence_number(),
    {
        match self {
            Admission::Skipped { sequence_number } => *sequence_number,
            Admission::Recognize { sequence_number, .. } => *sequence_number,
            Admission::Dropped { sequence_number, .. } => *sequence_number,
        }
    }
}

/// The layout is the one of a frame with this geometry.
pub open spec fn layout_of(layout: BufferLayout, geometry: FrameGeometry) -> bool {
    &&& layout.sound()
    &&& layout.length() == geometry.buffer_length()
    &&& layout.width() == geometry.width
    &&& layout.height() == geometry.height
    &&& layout.bytes_per_pixel() == geometry.bytes_per_pixel()
    &&& layout.row_stride() == geometry.row_stride
}

/// `decision` is the one for the frame with this number and this geometry at
/// this rate: skipped where the rate leaves the number out, else read where
/// the geometry is sound, else dropped with what is wrong with it.
pub open spec fn decided(
    sequence_number: usize,
    rate: int,
    geometry: FrameGeometry,
    decision: Admission,
) -> bool {
    if !keeps(sequence_number as int, rate) {
        decision == (Admission::Skipped { sequence_number })
    } else {
        match geometry.defect() {
            None => {
                &&& decision matches Admission::Recognize { sequence_number: number, layout }
                &&& number == sequence_number
                &&& layout_of(layout, geometry)
            },
            Some(error) => decision == (Admission::Dropped { sequence_number, error }),
        }
    }
}

/// Decides what to do with the frame that got this sequence number.
pub fn decide(sequence_number: usize, rate: &SampleRate, geometry: &FrameGeometry) -> (decision:
    Admission)
    ensures
        decided(sequence_number, rate.value(), *geometry, decision),
{
    if !rate.keeps_frame(sequence_number) {
        return Admission::Skipped { sequence_number };
    }
    match geometry.layout() {
        Ok(layout) => Admission::Recognize { sequence_number, layout },
        Err(error) => Admission::Dropped { sequence_number, error },
    }
}

} // verus!
