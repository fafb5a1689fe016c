//! Typed builders for the two configuration documents regor accepts.
//!
//! regor is configured through two separate INI documents, and they are not
//! interchangeable:
//!
//! - [`SystemConfig`] describes the *hardware*: it carries the accelerator
//!   size and selects which sections of a Vela `.ini` to apply.
//! - [`CompilerOptions`] describes *how to compile*.
//!
//! Both are sectioned INI, and several options are spelled differently from
//! the equivalent Vela command-line switch (`--optimise` is `optimize`,
//! `--arena-cache-size` is `arena_size_limit`, and the various `--disable-*`
//! switches collapse into a single `disable_feature` list). These builders own
//! that renaming so callers can use the names they already know.

pub mod accelerator;
pub mod compiler_options;
pub mod features;
pub mod settings;
pub mod system_config;

pub use accelerator::{AcceleratorConfig, UnknownAccelerator};
pub use compiler_options::{CompilerOptions, OptionsError, OptionsErrorView, OptionsModel, SoftmaxRange};
pub use features::SchedulerFeature;
pub use settings::{CopFormat, Optimise, Optimize, OutputFormat, Section, TensorAllocator};
pub use system_config::{SystemConfig, SystemModel};
