//! The enumerated option values and the sections of the options document.

use vstd::prelude::*;

verus! {

/// Optimization strategy (`[scheduler] optimize`).
#[derive(Debug, Clone, Copy, PartialEq, Eq, Hash, Structural)]
pub enum Optimize {
    /// Prioritise inference speed; uses `arena_cache_size` as a memory target.
    Performance,
    /// Prioritise lower memory usage.
    Size,
}

/// The British spelling of [`Optimize`], as Vela's `--optimise` has it.
pub type Optimise = Optimize;

impl Optimize {
    /// The name regor matches.
    pub open spec fn name(self) -> Seq<char> {
        match self {
            Optimize::Performance => "Performance"@,
            Optimize::Size => "Size"@,
        }
    }

    /// The name regor matches.
    pub fn as_str(self) -> (s: &'static str)
        ensures
            s@ == self.name(),
    {
        match self {
            Optimize::Performance => "Performance",
            Optimize::Size => "Size",
        }
    }
}

/// Tensor allocation algorithm (`[scheduler] tensor_allocator`).
#[derive(Debug, Clone, Copy, PartialEq, Eq, Hash, Structural)]
pub enum TensorAllocator {
    /// Iterative search; usually the tightest packing.
    HillClimb,
    /// Single linear pass; fastest to run.
    LinearAlloc,
}

impl TensorAllocator {
    /// The name regor matches.
    pub open spec fn name(self) -> Seq<char> {
        match self {
            TensorAllocator::HillClimb => "HillClimb"@,
            TensorAllocator::LinearAlloc => "LinearAlloc"@,
        }
    }

    /// The name regor matches.
    pub fn as_str(self) -> (s: &'static str)
        ensures
            s@ == self.name(),
    {
        match self {
            TensorAllocator::HillClimb => "HillClimb",
            TensorAllocator::LinearAlloc => "LinearAlloc",
        }
    }
}

/// Custom operator payload format version (`[compiler] cop_format`).
#[derive(Debug, Clone, Copy, PartialEq, Eq, Hash, Structural)]
pub enum CopFormat {
    Cop1,
    /// Required for `CompilerOptions::separate_io_regions`.
    Cop2,
}

impl CopFormat {
    /// The name regor matches.
    pub open spec fn name(self) -> Seq<char> {
        match self {
            CopFormat::Cop1 => "COP1"@,
            CopFormat::Cop2 => "COP2"@,
        }
    }

    /// The name regor matches.
    pub fn as_str(self) -> (s: &'static str)
        ensures
            s@ == self.name(),
    {
        match self {
            CopFormat::Cop1 => "COP1",
            CopFormat::Cop2 => "COP2",
        }
    }
}

/// Output format for the compiled model (`[compiler] output_format`).
#[derive(Debug, Clone, Copy, PartialEq, Eq, Hash, Structural)]
pub enum OutputFormat {
    /// Standard `.tflite` with custom operator nodes.
    TfLite,
    /// Raw command stream with directly accessible arrays. No CPU fallback.
    Raw,
}

impl OutputFormat {
    /// The name regor matches, which it compares case-sensitively: a
    /// lowercase `tflite` is not recognised.
    pub open spec fn name(self) -> Seq<char> {
        match self {
            OutputFormat::TfLite => "TFLite"@,
            OutputFormat::Raw => "Raw"@,
        }
    }

    /// The name regor matches.
    pub fn as_str(self) -> (s: &'static str)
        ensures
            s@ == self.name(),
    {
        match self {
            OutputFormat::TfLite => "TFLite",
            OutputFormat::Raw => "Raw",
        }
    }
}

/// A section of regor's compiler options document.
///
/// Only needed for `CompilerOptions::raw`; the typed setters pick the right
/// section themselves.
#[derive(Debug, Clone, Copy, PartialEq, Eq, Hash, Structural)]
pub enum Section {
    /// Output and command-stream options.
    Compiler,
    /// Scheduling, allocation and memory options.
    Scheduler,
    /// Graph-optimiser options.
    Graph,
    /// Tracing.
    Debug,
}

} // verus!
