//! Frame acquisition and region-resolved text recognition: the decisions a
//! text-recognition worker takes between the decoder and the OCR engine.

pub mod batch;
pub mod buffer;
pub mod chain;
pub mod filter;
pub mod frame;
pub mod parameters;
pub mod region_of_interest;
pub mod report;
pub mod sampler;
pub mod shared_sampler;
pub mod stream;
