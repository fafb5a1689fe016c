//! Input model formats.

use vstd::prelude::*;
use crate::sys::regor_format_t;

verus! {

/// Input model format accepted by the compiler.
#[derive(Debug, Clone, Copy, PartialEq, Eq, Hash, Structural)]
pub enum InputFormat {
    /// Regor's internal graph-builder API format.
    GraphApi,
    /// TensorFlow Lite / LiteRT flatbuffer.
    TfLite,
    /// TOSA flatbuffer.
    Tosa,
}

impl InputFormat {
    /// The C interface's name for this format.
    pub fn to_ffi(self) -> (f: regor_format_t)
        ensures
            f == match self {
                InputFormat::GraphApi => regor_format_t::REGOR_INPUTFORMAT_GRAPHAPI,
                InputFormat::TfLite => regor_format_t::REGOR_INPUTFORMAT_TFLITE,
                InputFormat::Tosa => regor_format_t::REGOR_INPUTFORMAT_TOSA,
            },
    {
        match self {
            InputFormat::GraphApi => regor_format_t::REGOR_INPUTFORMAT_GRAPHAPI,
            InputFormat::TfLite => regor_format_t::REGOR_INPUTFORMAT_TFLITE,
            InputFormat::Tosa => regor_format_t::REGOR_INPUTFORMAT_TOSA,
        }
    }
}

} // verus!
