//! What the filter-graph engine is told about a transform chain: for each
//! stage a filter name, a label and a fixed set of parameters, and the links
//! that lead from the decoder through every stage to the consumer.

use crate::chain::{PixelFormat, Stage, TransformChain};
use vstd::prelude::*;

verus! {

/// The label of the graph's input, which the decoder feeds.
pub const VIDEO_INPUT: &'static str = "video_input";

/// The label of the graph's output, which the last stage declares.
pub const VIDEO_OUTPUT: &'static str = "video_output";

/// The name of a filter parameter.
#[derive(Clone, Copy, Debug, PartialEq, Eq, Structural)]
pub enum ParameterKey {
    OutW,
    OutH,
    X,
    Y,
    Width,
    Height,
    PixFmts,
}

/// The value of a filter parameter.
#[derive(Clone, Copy, Debug, PartialEq, Eq, Structural)]
pub enum ParameterValue {
    /// A number of pixels; -1 for a side that follows the other one.
    Integer(i64),
    /// A pixel format, given to the engine by its name.
    Format(PixelFormat),
}

/// One parameter of a filter.
#[derive(Clone, Copy, Debug, PartialEq, Eq, Structural)]
pub struct FilterParameter {
    pub key: ParameterKey,
    pub value: ParameterValue,
}

/// An end of a link: the decoder's output, a stage of the chain by its
/// position, or the consumer of the transformed frames.
#[derive(Clone, Copy, Debug, PartialEq, Eq, Structural)]
pub enum Port {
    Input,
    Stage(usize),
    Output,
}

/// A connection from the output of one port to the input of another.
#[derive(Clone, Copy, Debug, PartialEq, Eq, Structural)]
pub struct Link {
    pub from: Port,
    pub to: Port,
}

/// The length that a scale stage is given for one side.
pub open spec fn side(length: Option<u32>) -> ParameterValue {
    match length {
        Some(pixels) => ParameterValue::Integer(pixels as i64),
        None => ParameterValue::Integer(-1i64),
    }
}

/// The length that a scale stage is given for one side.
fn side_value(length: Option<u32>) -> (value: ParameterValue)
    ensures
        value == side(length),
{
    match length {
        Some(pixels) => ParameterValue::Integer(pixels as i64),
        None => ParameterValue::Integer(-1),
    }
}

/// The link at `position` in a chain of `stages` stages: the first leaves
/// the decoder, the last reaches the consumer, and link `i` enters stage `i`.
pub open spec fn link_at(position: int, stages: int) -> Link {
    Link {
        from: if position == 0 {
            Port::Input
        } else {
            Port::Stage((position - 1) as usize)
        },
        to: if position == stages {
            Port::Output
        } else {
            Port::Stage(position as usize)
        },
    }
}

/// The links of a chain of `stages` stages, from the decoder to the consumer.
pub open spec fn wiring(stages: nat) -> Seq<Link> {
    Seq::new(stages + 1, |position: int| link_at(position, stages as int))
}

impl PixelFormat {
    pub open spec fn spec_name(self) -> Seq<char> {
        match self {
            PixelFormat::Rgb24 => "rgb24"@,
        }
    }

    pub open spec fn spec_bits_per_pixel(self) -> int {
        match self {
            PixelFormat::Rgb24 => 24,
        }
    }

    /// The name by which the engine knows the format.
    pub fn name(&self) -> (name: &'static str)
        ensures
            name@ == self.spec_name(),
    {
        match self {
            PixelFormat::Rgb24 => "rgb24",
        }
    }

    /// How many bits one pixel takes.
    pub fn bits_per_pixel(&self) -> (bits: i32)
        ensures
            bits == self.spec_bits_per_pixel(),
    {
        match self {
            PixelFormat::Rgb24 => 24,
        }
    }
}

impl ParameterKey {
    pub open spec fn spec_name(self) -> Seq<char> {
        match self {
            ParameterKey::OutW => "out_w"@,
            ParameterKey::OutH => "out_h"@,
            ParameterKey::X => "x"@,
            ParameterKey::Y => "y"@,
            ParameterKey::Width => "width"@,
            ParameterKey::Height => "height"@,
            ParameterKey::PixFmts => "pix_fmts"@,
        }
    }

    /// The name by which the engine knows the parameter.
    pub fn name(&self) -> (name: &'static str)
        ensures
            name@ == self.spec_name(),
    {
        match self {
            ParameterKey::OutW => "out_w",
            ParameterKey::OutH => "out_h",
            ParameterKey::X => "x",
            ParameterKey::Y => "y",
            ParameterKey::Width => "width",
            ParameterKey::Height => "height",
            ParameterKey::PixFmts => "pix_fmts",
        }
    }
}

impl Stage {
    pub open spec fn spec_filter_name(self) -> Seq<char> {
        match self {
            Stage::Crop(_) => "crop"@,
            Stage::Scale(_) => "scale"@,
            Stage::PixelFormatConvert(_) => "format"@,
        }
    }

    pub open spec fn spec_label(self) -> Seq<char> {
        match self {
            Stage::Crop(_) => "crop_filter"@,
            Stage::Scale(_) => "scale_filter"@,
            Stage::PixelFormatConvert(_) => "format_filter"@,
        }
    }

    /// The parameters of the stage: a crop is given its size and its corner,
    /// a scale its two sides, a conversion its target format.
    pub open spec fn spec_parameters(self) -> Seq<FilterParameter> {
        match self {
            Stage::Crop(rect) => seq![
                FilterParameter {
                    key: ParameterKey::OutW,
                    value: ParameterValue::Integer(rect.width as i64),
                },
                FilterParameter {
                    key: ParameterKey::OutH,
                    value: ParameterValue::Integer(rect.height as i64),
                },
                FilterParameter { key: ParameterKey::X, value: ParameterValue::Integer(rect.left as i64) },
                FilterParameter { key: ParameterKey::Y, value: ParameterValue::Integer(rect.top as i64) },
            ],
            Stage::Scale(size) => seq![
                FilterParameter { key: ParameterKey::Width, value: side(size.width) },
                FilterParameter { key: ParameterKey::Height, value: side(size.height) },
            ],
            Stage::PixelFormatConvert(format) => seq![
                FilterParameter { key: ParameterKey::PixFmts, value: ParameterValue::Format(format) },
            ],
        }
    }

    /// The name of the engine's filter that runs the stage.
    pub fn filter_name(&self) -> (name: &'static str)
        ensures
            name@ == self.spec_filter_name(),
    {
        match self {
            Stage::Crop(_) => "crop",
            Stage::Scale(_) => "scale",
            Stage::PixelFormatConvert(_) => "format",
        }
    }

    /// The label under which the stage is added to the graph.
    pub fn label(&self) -> (label: &'static str)
        ensures
            label@ == self.spec_label(),
    {
        match self {
            Stage::Crop(_) => "crop_filter",
            Stage::Scale(_) => "scale_filter",
            Stage::PixelFormatConvert(_) => "format_filter",
        }
    }

    /// The parameters that the engine's filter is given.
    pub fn parameters(&self) -> (parameters: Vec<FilterParameter>)
        ensures
            parameters@ == self.spec_parameters(),
    {
        let mut parameters: Vec<FilterParameter> = Vec::new();
        match self {
            Stage::Crop(rect) => {
                parameters.push(
                    FilterParameter {
                        key: ParameterKey::OutW,
                        value: ParameterValue::Integer(rect.width as i64),
                    },
                );
                parameters.push(
                    FilterParameter {
                        key: ParameterKey::OutH,
                        value: ParameterValue::Integer(rect.height as i64),
                    },
                );
                parameters.push(
                    FilterParameter {
                        key: ParameterKey::X,
                        value: ParameterValue::Integer(rect.left as i64),
                    },
                );
                parameters.push(
                    FilterParameter {
                        key: ParameterKey::Y,
                        value: ParameterValue::Integer(rect.top as i64),
                    },
                );
            },
            Stage::Scale(size) => {
                parameters.push(
                    FilterParameter { key: ParameterKey::Width, value: side_value(size.width) },
                );
                parameters.push(
                    FilterParameter { key: ParameterKey::Height, value: side_value(size.height) },
                );
            },
            Stage::PixelFormatConvert(format) => {
                parameters.push(
                    FilterParameter {
                        key: ParameterKey::PixFmts,
                        value: ParameterValue::Format(*format),
                    },
                );
            },
        }
        assert(parameters@ =~= self.spec_parameters());
        parameters
    }
}

impl TransformChain {
    /// The links that the graph needs, in the order from the decoder to the
    /// consumer: one more than there are stages.
    pub fn links(&self) -> (links: Vec<Link>)
        ensures
            links@ == wiring(self.stages().len()),
    {
        let stages = self.len();
        let mut links: Vec<Link> = Vec::new();
        let mut position: usize = 0;
        while position <= stages
            invariant
                stages <= 3,
                position <= stages + 1,
                links@.len() == position,
                forall|i: int| 0 <= i < position ==> links@[i] == link_at(i, stages as int),
            decreases stages + 1 - position,
        {
            let from = if position == 0 {
                Port::Input
            } else {
                Port::Stage(position - 1)
            };
            let to = if position == stages {
                Port::Output
            } else {
                Port::Stage(position)
            };
            links.push(Link { from, to });
            position += 1;
        }
        assert(links@ =~= wiring(self.stages().len()));
        links
    }

    /// Tells whether the stage at `position` declares the output of the
    /// graph: the last stage does, and no other.
    pub fn declares_output(&self, position: usize) -> (r: bool)
        ensures
            r == (position + 1 == self.stages().len()),
    {
        position < self.len() && position + 1 == self.len()
    }
}

/// In the wiring of a chain every stage has exactly one link that enters it
/// and exactly one that leaves it: no stage is left without a producer or
/// without a consumer.
pub proof fn lemma_wiring_connects_every_stage(stages: nat, stage: int)
    requires
        0 <= stage < stages <= usize::MAX,
    ensures
        wiring(stages).len() == stages + 1,
        wiring(stages)[stage].to == Port::Stage(stage as usize),
        wiring(stages)[stage + 1].from == Port::Stage(stage as usize),
        forall|position: int|
            0 <= position <= stages && position != stage ==> (#[trigger] wiring(
                stages,
            )[position]).to != Port::Stage(stage as usize),
        forall|position: int|
            0 <= position <= stages && position != stage + 1 ==> (#[trigger] wiring(
                stages,
            )[position]).from != Port::Stage(stage as usize),
{
}

/// The wiring of a chain starts at the decoder and ends at the consumer, and
/// neither occurs anywhere else: the graph has one input and one output.
pub proof fn lemma_wiring_has_one_input_and_one_output(stages: nat)
    requires
        1 <= stages <= usize::MAX,
    ensures
        wiring(stages)[0] == (Link { from: Port::Input, to: Port::Stage(0) }),
        wiring(stages)[stages as int] == (Link {
            from: Port::Stage((stages - 1) as usize),
            to: Port::Output,
        }),
        forall|position: int|
            0 < position <= stages ==> (#[trigger] wiring(stages)[position]).from != Port::Input,
        forall|position: int|
            0 <= position < stages ==> (#[trigger] wiring(stages)[position]).to != Port::Output,
        forall|position: int|
            0 <= position <= stages ==> (#[trigger] wiring(stages)[position]).from != Port::Output
                && wiring(stages)[position].to != Port::Input,
{
}

} // verus!
