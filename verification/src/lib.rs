//! Typed configuration, reporting and diagnostics logic for ARM's regor
//! compiler, the C/C++ backend of Vela, which compiles neural-network models
//! for the Ethos-U family of NPUs.
//!
//! The library builds the two documents regor is configured with (see
//! [`options`]), keeps the configuration of a compiler context until it is
//! handed to the C library, turns the C library's status codes and reports
//! into Rust values, and sorts regor's diagnostics into log records.

pub mod compiler;
pub mod config;
pub mod constraints;
pub mod error;
pub mod format;
pub mod logging;
pub mod options;
pub mod output;
pub mod perf;
pub mod sys;
pub mod text;

pub use compiler::{Compiler, CompilerModel, PendingConfig, PendingView};
pub use config::Architecture;
pub use constraints::{ConstraintsReport, OperatorConstraints};
pub use error::{check, c_string, Error};
pub use format::InputFormat;
pub use logging::{LogFilter, LogFormat};
pub use options::{AcceleratorConfig, CompilerOptions, OptionsError, SystemConfig};
pub use output::Output;
pub use perf::{MemoryAccessPerf, PeakMemoryUsage, PerfReport};

use vstd::prelude::*;

verus! {

/// The result of the operations that can fail with an [`Error`].
pub type Result<T> = std::result::Result<T, Error>;

} // verus!
