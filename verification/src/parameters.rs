//! Job parameters: what a job may name, which defaults apply, and the one
//! validation that every job passes before a frame is decoded.

use crate::batch::FramePolicy;
use crate::chain::{scaling_of, Scaling};
use crate::region_of_interest::{Coordinates, RegionError, RegionOfInterest};
use crate::sampler::SampleRate;
use vstd::prelude::*;

verus! {

/// How the results of a job leave it.
#[derive(Clone, Copy, Debug, PartialEq, Eq, Structural)]
pub enum Mode {
    /// All results are collected and written once, at the end.
    Batch,
    /// Each result is sent as soon as it is there.
    Streamed,
}

/// The parameters that a job may name.
#[derive(Clone, Copy, Debug, PartialEq, Eq, Structural)]
pub enum ParameterName {
    SourcePath,
    Language,
    DestinationPath,
    SampleRate,
    RegionOfInterest,
    Width,
    Height,
    SkipFailedFrames,
}

/// Why the parameters of a job were refused.
#[derive(Clone, Copy, Debug, PartialEq, Eq, Structural)]
pub enum ParameterError {
    /// A parameter that the job needs is not there.
    Missing(ParameterName),
    /// The sampling rate is below 1, or larger than a frame number can be.
    InvalidSampleRate(i64),
    /// The region of interest does not resolve to a rectangle.
    InvalidRegion(RegionError),
}

/// The parameters as the job message carries them.
#[derive(Debug)]
pub struct RawParameters {
    pub source_path: Option<String>,
    pub language: Option<String>,
    pub destination_path: Option<String>,
    pub sample_rate: Option<i64>,
    pub region_of_interest: Option<RegionOfInterest>,
    pub width: Option<u32>,
    pub height: Option<u32>,
    /// Whether a frame that cannot be processed is left out, so that the
    /// job goes on, or ends the job.
    pub skip_failed_frames: Option<bool>,
}

/// The parameters of a job that passed validation.
#[derive(Debug)]
pub struct JobParameters {
    /// Where the media is read from.
    pub source_path: String,
    /// The language that the OCR engine is told.
    pub language: String,
    /// Where a batch job writes its report.
    pub destination_path: Option<String>,
    /// One frame out of so many is processed.
    pub sample_rate: SampleRate,
    /// The rectangle to crop to, resolved.
    pub region: Option<Coordinates>,
    /// The size to scale to, after the crop.
    pub scaling: Option<Scaling>,
    /// What a frame that cannot be processed does to the job.
    pub frame_policy: FramePolicy,
}

/// `JobParameters` as a mathematical value.
pub struct JobParametersView {
    pub source_path: Seq<char>,
    pub language: Seq<char>,
    pub destination_path: Option<Seq<char>>,
    pub sample_rate: int,
    pub region: Option<Coordinates>,
    pub scaling: Option<Scaling>,
    pub frame_policy: FramePolicy,
}

impl View for JobParameters {
    type V = JobParametersView;

    open spec fn view(&self) -> JobParametersView {
        JobParametersView {
            source_path: self.source_path@,
            language: self.language@,
            destination_path: text_of(self.destination_path),
            sample_rate: self.sample_rate.value(),
            region: self.region,
            scaling: self.scaling,
            frame_policy: self.frame_policy,
        }
    }
}

/// The characters of a string that may be missing.
pub open spec fn text_of(text: Option<String>) -> Option<Seq<char>> {
    match text {
        Some(s) => Some(s@),
        None => None,
    }
}

/// The language of a streamed job that names none.
pub open spec fn default_language() -> Seq<char> {
    "eng"@
}

/// What a frame that cannot be processed does to the job: it ends the job,
/// unless the job asks for such frames to be left out.
pub open spec fn frame_policy_of(skip_failed_frames: Option<bool>) -> FramePolicy {
    if skip_failed_frames == Some(true) {
        FramePolicy::SkipFrame
    } else {
        FramePolicy::AbortJob
    }
}

/// The sampling rate that a job asks for: 1 where it names none, and nothing
/// where the number is below 1 or does not fit a `usize`.
pub open spec fn sample_rate_of(parameter: Option<i64>) -> Option<int> {
    match parameter {
        None => Some(1),
        Some(n) => if 1 <= n <= usize::MAX {
            Some(n as int)
        } else {
            None
        },
    }
}

/// The region that a job asks for, resolved; an error where it names one
/// that does not resolve.
pub open spec fn region_of(parameter: Option<RegionOfInterest>) -> Result<
    Option<Coordinates>,
    RegionError,
> {
    match parameter {
        None => Ok(None),
        Some(roi) => match roi.resolved() {
            Ok(rect) => Ok(Some(rect)),
            Err(error) => Err(error),
        },
    }
}

impl RawParameters {
    /// What is wrong with the parameters, if anything: the first of a
    /// missing source path, a missing language in a batch job, a missing
    /// destination path in a batch job, an invalid sampling rate and an
    /// unresolvable region of interest. A streamed job needs neither a
    /// language nor a destination path.
    pub open spec fn defect(self, mode: Mode) -> Option<ParameterError> {
        if self.source_path is None {
            Some(ParameterError::Missing(ParameterName::SourcePath))
        } else if mode == Mode::Batch && self.language is None {
            Some(ParameterError::Missing(ParameterName::Language))
        } else if mode == Mode::Batch && self.destination_path is None {
            Some(ParameterError::Missing(ParameterName::DestinationPath))
        } else if sample_rate_of(self.sample_rate) is None {
            Some(ParameterError::InvalidSampleRate(self.sample_rate.unwrap()))
        } else {
            match region_of(self.region_of_interest) {
                Err(error) => Some(ParameterError::InvalidRegion(error)),
                Ok(_) => None,
            }
        }
    }

    /// What valid parameters amount to, with the defaults filled in: the
    /// default language (which only a streamed job can lack), every frame,
    /// no crop, no scale, and a job that ends on a frame that fails.
    pub open spec fn validated(self) -> JobParametersView {
        JobParametersView {
            source_path: self.source_path.unwrap()@,
            language: match self.language {
                Some(language) => language@,
                None => default_language(),
            },
            destination_path: text_of(self.destination_path),
            sample_rate: sample_rate_of(self.sample_rate).unwrap(),
            region: region_of(self.region_of_interest).unwrap(),
            scaling: scaling_of(self.width, self.height),
            frame_policy: frame_policy_of(self.skip_failed_frames),
        }
    }

    /// Validates the parameters of a job, once, before anything is decoded.
    pub fn validate(self, mode: Mode) -> (r: Result<JobParameters, ParameterError>)
        ensures
            match r {
                Ok(parameters) => self.defect(mode) is None && parameters@ == self.validated(),
                Err(error) => self.defect(mode) == Some(error),
            },
    {
        let source_path = match self.source_path {
            Some(path) => path,
            None => {
                return Err(ParameterError::Missing(ParameterName::SourcePath));
            },
        };
        match mode {
            Mode::Batch => {
                if self.language.is_none() {
                    return Err(ParameterError::Missing(ParameterName::Language));
                }
                if self.destination_path.is_none() {
                    return Err(ParameterError::Missing(ParameterName::DestinationPath));
                }
            },
            Mode::Streamed => {},
        }
        let sample_rate = match sample_rate_from(self.sample_rate) {
            Some(rate) => rate,
            None => {
                return Err(ParameterError::InvalidSampleRate(self.sample_rate.unwrap()));
            },
        };
        let region = match self.region_of_interest {
            None => None,
            Some(roi) => match roi.resolve() {
                Ok(rect) => Some(rect),
                Err(error) => {
                    return Err(ParameterError::InvalidRegion(error));
                },
            },
        };
        let language = match self.language {
            Some(language) => language,
            None => String::from_str("eng"),
        };
        let scaling = match (self.width, self.height) {
            (None, None) => None,
            (width, height) => Some(Scaling { width, height }),
        };
        let frame_policy = frame_policy_from(self.skip_failed_frames);
        Ok(
            JobParameters {
                source_path,
                language,
                destination_path: self.destination_path,
                sample_rate,
                region,
                scaling,
                frame_policy,
            },
        )
    }
}

/// The sampling rate that a job asks for: every frame where it names none,
/// nothing where the number is not a valid rate.
pub fn sample_rate_from(parameter: Option<i64>) -> (r: Option<SampleRate>)
    ensures
        r is Some <==> sample_rate_of(parameter) is Some,
        r matches Some(rate) ==> Some(rate.value()) == sample_rate_of(parameter),
{
    match parameter {
        None => Some(SampleRate::every_frame()),
        Some(n) => {
            if n >= 1 && n as u64 <= usize::MAX as u64 {
                SampleRate::new(n as usize)
            } else {
                None
            }
        },
    }
}

/// What a frame that cannot be processed does to a job: it ends the job,
/// unless the job asks for such frames to be left out.
pub fn frame_policy_from(skip_failed_frames: Option<bool>) -> (policy: FramePolicy)
    ensures
        policy == frame_policy_of(skip_failed_frames),
{
    match skip_failed_frames {
        Some(true) => FramePolicy::SkipFrame,
        _ => FramePolicy::AbortJob,
    }
}

impl ParameterName {
    pub open spec fn spec_name(self) -> Seq<char> {
        match self {
            ParameterName::SourcePath => "source_path"@,
            ParameterName::Language => "language"@,
            ParameterName::DestinationPath => "destination_path"@,
            ParameterName::SampleRate => "sample_rate"@,
            ParameterName::RegionOfInterest => "region_of_interest"@,
            ParameterName::Width => "width"@,
            ParameterName::Height => "height"@,
            ParameterName::SkipFailedFrames => "skip_failed_frames"@,
        }
    }

    /// The key under which the job message carries the parameter.
    pub fn name(&self) -> (name: &'static str)
        ensures
            name@ == self.spec_name(),
    {
        match self {
            ParameterName::SourcePath => "source_path",
            ParameterName::Language => "language",
            ParameterName::DestinationPath => "destination_path",
            ParameterName::SampleRate => "sample_rate",
            ParameterName::RegionOfInterest => "region_of_interest",
            ParameterName::Width => "width",
            ParameterName::Height => "height",
            ParameterName::SkipFailedFrames => "skip_failed_frames",
        }
    }
}

impl ParameterError {
    /// The parameter that the error is about.
    pub open spec fn spec_parameter(self) -> ParameterName {
        match self {
            ParameterError::Missing(name) => name,
            ParameterError::InvalidSampleRate(_) => ParameterName::SampleRate,
            ParameterError::InvalidRegion(_) => ParameterName::RegionOfInterest,
        }
    }

    /// The text of the message.
    pub open spec fn spec_message(self) -> Seq<char> {
        match self {
            ParameterError::Missing(name) => "Invalid job message: missing expected '"@
                + name.spec_name() + "' parameter"@,
            ParameterError::InvalidSampleRate(_) => {
                "Invalid job message: 'sample_rate' must be a positive integer"@
            },
            ParameterError::InvalidRegion(error) => error.spec_message(),
        }
    }

    /// The parameter that the error is about.
    pub fn parameter(&self) -> (name: ParameterName)
        ensures
            name == self.spec_parameter(),
    {
        match self {
            ParameterError::Missing(name) => *name,
            ParameterError::InvalidSampleRate(_) => ParameterName::SampleRate,
            ParameterError::InvalidRegion(_) => ParameterName::RegionOfInterest,
        }
    }

    /// A message for the job's error report; it names the parameter.
    pub fn message(&self) -> (text: String)
        ensures
            text@ == self.spec_message(),
    {
        match self {
            ParameterError::Missing(name) => {
                let mut text = String::from_str("Invalid job message: missing expected '");
                text.append(name.name());
                text.append("' parameter");
                text
            },
            ParameterError::InvalidSampleRate(_) => {
                String::from_str("Invalid job message: 'sample_rate' must be a positive integer")
            },
            ParameterError::InvalidRegion(error) => error.message(),
        }
    }
}

} // verus!
