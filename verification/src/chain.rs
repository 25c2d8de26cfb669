//! Transform chain builder: the ordered image transforms that every frame
//! passes before OCR.
//!
//! A chain crops (where a region was asked for), then scales (where a size
//! was asked for), then converts to packed 24-bit RGB, the format the OCR
//! engine reads. It is built once per job, for the first video stream of the
//! source, and never changed afterwards.

use crate::region_of_interest::Coordinates;
use vstd::prelude::*;

verus! {

/// What a stream of the source carries.
#[derive(Clone, Copy, Debug, PartialEq, Eq, Structural)]
pub enum StreamKind {
    Video,
    Audio,
    Subtitle,
    Data,
    Other,
}

/// What the builder reads of one stream of the source.
#[derive(Clone, Copy, Debug, PartialEq, Eq, Structural)]
pub struct StreamInfo {
    pub kind: StreamKind,
    /// Width of the decoded frames, in pixels (0 for a stream without picture).
    pub width: u32,
    /// Height of the decoded frames, in pixels (0 for a stream without picture).
    pub height: u32,
}

/// The size to scale to. A side that is not given follows the other one, so
/// that the aspect ratio is kept.
#[derive(Clone, Copy, Debug, PartialEq, Eq, Structural)]
pub struct Scaling {
    pub width: Option<u32>,
    pub height: Option<u32>,
}

/// A pixel format that the chain can convert to.
#[derive(Clone, Copy, Debug, PartialEq, Eq, Structural)]
pub enum PixelFormat {
    /// Packed RGB, 8 bits per sample, 3 bytes per pixel.
    Rgb24,
}

/// One stage of a transform chain.
#[derive(Clone, Copy, Debug, PartialEq, Eq, Structural)]
pub enum Stage {
    Crop(Coordinates),
    Scale(Scaling),
    PixelFormatConvert(PixelFormat),
}

/// Why no chain could be built.
#[derive(Clone, Copy, Debug, PartialEq, Eq, Structural)]
pub enum ChainError {
    /// The source has no video stream.
    MissingVideoStream,
    /// The crop rectangle of the job has no width or no height.
    EmptyCrop { stream_index: usize, region: Coordinates },
    /// The crop rectangle reaches past the frames of the chosen stream.
    CropOutOfBounds { stream_index: usize, region: Coordinates, frame_width: u32, frame_height: u32 },
}

impl ChainError {
    /// The text of the message.
    pub open spec fn spec_message(self) -> Seq<char> {
        match self {
            ChainError::MissingVideoStream => "Missing video stream in the source"@,
            ChainError::EmptyCrop { .. } => "Crop region has no width or no height"@,
            ChainError::CropOutOfBounds { .. } => "Crop region exceeds the frame bounds"@,
        }
    }

    /// A message for the job's error report. The stream and the rectangle
    /// are in the error itself.
    pub fn message(&self) -> (text: &'static str)
        ensures
            text@ == self.spec_message(),
    {
        match self {
            ChainError::MissingVideoStream => "Missing video stream in the source",
            ChainError::EmptyCrop { .. } => "Crop region has no width or no height",
            ChainError::CropOutOfBounds { .. } => "Crop region exceeds the frame bounds",
        }
    }
}

/// The stream at `index` is a video stream and none before it is.
pub open spec fn is_first_video(streams: Seq<StreamInfo>, index: int) -> bool {
    &&& 0 <= index < streams.len()
    &&& streams[index].kind == StreamKind::Video
    &&& forall|j: int| 0 <= j < index ==> (#[trigger] streams[j]).kind != StreamKind::Video
}

/// The source has a video stream.
pub open spec fn has_video(streams: Seq<StreamInfo>) -> bool {
    exists|i: int| 0 <= i < streams.len() && (#[trigger] streams[i]).kind == StreamKind::Video
}

/// The scale stage that a job asks for: none where it names neither side.
pub open spec fn scaling_of(width: Option<u32>, height: Option<u32>) -> Option<Scaling> {
    if width is None && height is None {
        None
    } else {
        Some(Scaling { width, height })
    }
}

/// The rectangle is not empty and lies within a frame of this size.
pub open spec fn fits(region: Coordinates, frame_width: u32, frame_height: u32) -> bool {
    region.wf() && region.right() <= frame_width && region.bottom() <= frame_height
}

/// The stages of a chain, in the order they run.
pub open spec fn chain_of(region: Option<Coordinates>, scaling: Option<Scaling>) -> Seq<Stage> {
    let crop = match region {
        Some(rect) => seq![Stage::Crop(rect)],
        None => Seq::empty(),
    };
    let scale = match scaling {
        Some(size) => seq![Stage::Scale(size)],
        None => Seq::empty(),
    };
    crop + scale + seq![Stage::PixelFormatConvert(PixelFormat::Rgb24)]
}

/// Finds the first video stream of the source.
pub fn first_video_stream(streams: &Vec<StreamInfo>) -> (r: Option<usize>)
    ensures
        r is Some <==> has_video(streams@),
        r matches Some(index) ==> is_first_video(streams@, index as int),
{
    let mut index: usize = 0;
    while index < streams.len()
        invariant
            index <= streams.len(),
            forall|j: int| 0 <= j < index ==> (#[trigger] streams@[j]).kind != StreamKind::Video,
        decreases streams.len() - index,
    {
        match streams[index].kind {
            StreamKind::Video => {
                return Some(index);
            },
            _ => {},
        }
        index += 1;
    }
    None
}

/// Tells whether the rectangle is not empty and lies within the frame.
pub fn region_fits(region: &Coordinates, frame_width: u32, frame_height: u32) -> (r: bool)
    ensures
        r == fits(*region, frame_width, frame_height),
{
    region.width > 0 && region.height > 0 && region.width <= frame_width && region.left
        <= frame_width - region.width && region.height <= frame_height && region.top
        <= frame_height - region.height
}

/// The chain of one job.
#[derive(Debug)]
pub struct TransformChain {
    stream_index: usize,
    region: Option<Coordinates>,
    scaling: Option<Scaling>,
    stages: Vec<Stage>,
}

impl TransformChain {
    #[verifier::type_invariant]
    spec fn ordered(self) -> bool {
        self.stages@ == chain_of(self.region, self.scaling)
    }

    /// The index, in the source, of the stream that the chain reads.
    pub closed spec fn stream_index(self) -> usize {
        self.stream_index
    }

    /// The stages, in the order they run.
    pub closed spec fn stages(self) -> Seq<Stage> {
        self.stages@
    }

    /// What `build` returns where the first video stream is `stream`, at
    /// `index`: the chain, or what is wrong with the crop rectangle.
    pub open spec fn build_outcome(
        index: int,
        stream: StreamInfo,
        region: Option<Coordinates>,
        width: Option<u32>,
        height: Option<u32>,
        r: Result<TransformChain, ChainError>,
    ) -> bool {
        match region {
            Some(rect) if !rect.wf() => r == Err::<TransformChain, ChainError>(
                ChainError::EmptyCrop { stream_index: index as usize, region: rect },
            ),
            Some(rect) if !fits(rect, stream.width, stream.height) => r == Err::<
                TransformChain,
                ChainError,
            >(
                ChainError::CropOutOfBounds {
                    stream_index: index as usize,
                    region: rect,
                    frame_width: stream.width,
                    frame_height: stream.height,
                },
            ),
            _ => r matches Ok(chain) && chain.stream_index() == index && chain.stages() == chain_of(
                region,
                scaling_of(width, height),
            ),
        }
    }

    /// Builds the chain of a job: for the first video stream of the source,
    /// a crop to `region` where one is given, a scale where a width or a
    /// height is given, and the conversion to packed RGB.
    pub fn build(
        streams: &Vec<StreamInfo>,
        region: Option<Coordinates>,
        width: Option<u32>,
        height: Option<u32>,
    ) -> (r: Result<TransformChain, ChainError>)
        ensures
            !has_video(streams@) ==> r == Err::<TransformChain, ChainError>(
                ChainError::MissingVideoStream,
            ),
            forall|index: int| #[trigger]
                is_first_video(streams@, index) ==> Self::build_outcome(
                    index,
                    streams@[index],
                    region,
                    width,
                    height,
                    r,
                ),
    {
        let stream_index = match first_video_stream(streams) {
            Some(index) => index,
            None => {
                return Err(ChainError::MissingVideoStream);
            },
        };
        assert forall|index: int| #[trigger] is_first_video(streams@, index) implies index
            == stream_index by {
            lemma_first_video_is_unique(streams@, stream_index as int, index);
        }
        let stream = streams[stream_index];
        let mut stages: Vec<Stage> = Vec::new();
        if let Some(rect) = region {
            if !(rect.width > 0 && rect.height > 0) {
                return Err(ChainError::EmptyCrop { stream_index, region: rect });
            }
            if !region_fits(&rect, stream.width, stream.height) {
                return Err(
                    ChainError::CropOutOfBounds {
                        stream_index,
                        region: rect,
                        frame_width: stream.width,
                        frame_height: stream.height,
                    },
                );
            }
            stages.push(Stage::Crop(rect));
        }
        let scaling = match (width, height) {
            (None, None) => None,
            (width, height) => Some(Scaling { width, height }),
        };
        if let Some(size) = scaling {
            stages.push(Stage::Scale(size));
        }
        stages.push(Stage::PixelFormatConvert(PixelFormat::Rgb24));
        assert(stages@ =~= chain_of(region, scaling));
        Ok(TransformChain { stream_index, region, scaling, stages })
    }

    /// The index, in the source, of the stream that the chain reads.
    pub fn video_stream_index(&self) -> (index: usize)
        ensures
            index == self.stream_index(),
    {
        self.stream_index
    }

    /// How many stages the chain has.
    pub fn len(&self) -> (n: usize)
        ensures
            n == self.stages().len(),
            1 <= n <= 3,
    {
        proof {
            use_type_invariant(self);
        }
        self.stages.len()
    }

    /// The stage at `position`, counted from the decoder's side.
    pub fn stage(&self, position: usize) -> (r: Option<Stage>)
        ensures
            r is Some <==> position < self.stages().len(),
            r matches Some(stage) ==> stage == self.stages()[position as int],
    {
        if position < self.stages.len() {
            Some(self.stages[position])
        } else {
            None
        }
    }

    /// Tells whether frames of the stream with this index pass through the
    /// chain: packets of the other streams are left aside.
    pub fn reads_stream(&self, stream_index: usize) -> (r: bool)
        ensures
            r == (stream_index == self.stream_index()),
    {
        stream_index == self.stream_index
    }
}

/// A source has at most one first video stream.
pub proof fn lemma_first_video_is_unique(streams: Seq<StreamInfo>, a: int, b: int)
    requires
        is_first_video(streams, a),
        is_first_video(streams, b),
    ensures
        a == b,
{
    if a < b {
        assert(streams[a].kind != StreamKind::Video);
    } else if b < a {
        assert(streams[b].kind != StreamKind::Video);
    }
}

/// Every chain ends with the conversion to packed RGB, and that stage occurs
/// nowhere else; a crop, where there is one, comes first, and a scale comes
/// after the crop and before the conversion.
pub proof fn lemma_chain_order(region: Option<Coordinates>, scaling: Option<Scaling>)
    ensures
        ({
            let stages = chain_of(region, scaling);
            let crops: int = if region is Some { 1 } else { 0 };
            let scales: int = if scaling is Some { 1 } else { 0 };
            &&& stages.len() == crops + scales + 1
            &&& stages.last() == Stage::PixelFormatConvert(PixelFormat::Rgb24)
            &&& forall|i: int|
                0 <= i < stages.len() - 1 ==> !(#[trigger] stages[i] is PixelFormatConvert)
            &&& region matches Some(rect) ==> stages[0] == Stage::Crop(rect)
            &&& scaling matches Some(size) ==> stages[crops] == Stage::Scale(size)
            &&& forall|i: int| 0 < i < stages.len() ==> !(#[trigger] stages[i] is Crop)
        }),
{
}

} // verus!
