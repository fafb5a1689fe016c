//! The compiler options document.

use vstd::prelude::*;
use crate::text::{
    bool_text, decimal, join, line, push_bool, push_decimal, push_line, texts, join_strings,
};
use super::features::{features_value, SchedulerFeature};
use super::settings::{CopFormat, Optimize, OutputFormat, Section, TensorAllocator};

verus! {

/// A value for `softmax_int16_neg_exp_range`: an `f32` held by its IEEE-754
/// bit pattern, beside the text Rust's `Display` gives that `f32`, which is
/// what the document carries.
#[derive(Debug)]
pub struct SoftmaxRange {
    /// `f32::to_bits` of the range.
    pub bits: u32,
    /// The range as `format!("{}", range)` renders it.
    pub text: String,
}

impl View for SoftmaxRange {
    type V = (u32, Seq<char>);

    open spec fn view(&self) -> (u32, Seq<char>) {
        (self.bits, self.text@)
    }
}

/// Whether the `f32` with bit pattern `bits` lies strictly between 0 and
/// 65535. Positive `f32` values order as their bit patterns, 65535.0 is
/// `0x477F_FF00`, and a set sign bit, a zero, the infinities and the NaNs
/// all fall outside.
pub open spec fn softmax_range_ok(bits: u32) -> bool {
    0 < bits < 0x477F_FF00
}

/// Whether `n` is a power of two.
pub open spec fn is_pow2(n: nat) -> bool
    decreases n,
{
    if n == 0 {
        false
    } else if n == 1 {
        true
    } else if n % 2 == 1 {
        false
    } else {
        is_pow2(n / 2)
    }
}

/// Whether a CPU tensor alignment is acceptable: a power of two of at
/// least 16.
pub open spec fn alignment_ok(a: u32) -> bool {
    a >= 16 && is_pow2(a as nat)
}

/// Whether the `f32` with bit pattern `bits` is a NaN: all exponent bits
/// set and a non-zero fraction.
pub open spec fn f32_is_nan(bits: u32) -> bool {
    bits & 0x7FFF_FFFF > 0x7F80_0000
}

/// Whether the `f32` with bit pattern `bits` is a zero of either sign.
pub open spec fn f32_is_zero(bits: u32) -> bool {
    bits & 0x7FFF_FFFF == 0
}

/// Whether two `f32` values, given by their bit patterns, compare equal with
/// `==`: a NaN equals nothing, the two zeros equal each other, and any other
/// value equals only itself.
pub open spec fn f32_bits_equal(a: u32, b: u32) -> bool {
    !f32_is_nan(a) && !f32_is_nan(b) && (a == b || (f32_is_zero(a) && f32_is_zero(b)))
}

/// Whether two `f32` values, given by their bit patterns, compare equal.
pub fn f32_equal(a: u32, b: u32) -> (r: bool)
    ensures
        r == f32_bits_equal(a, b),
{
    let a_nan = a & 0x7FFF_FFFF > 0x7F80_0000;
    let b_nan = b & 0x7FFF_FFFF > 0x7F80_0000;
    !a_nan && !b_nan && (a == b || (a & 0x7FFF_FFFF == 0 && b & 0x7FFF_FFFF == 0))
}

/// Two ranges are equal when their `f32` values are.
impl PartialEq for SoftmaxRange {
    fn eq(&self, other: &Self) -> (r: bool) {
        f32_equal(self.bits, other.bits)
    }
}

impl vstd::std_specs::cmp::PartialEqSpecImpl for SoftmaxRange {
    open spec fn obeys_eq_spec() -> bool {
        true
    }

    open spec fn eq_spec(&self, other: &Self) -> bool {
        f32_bits_equal(self.bits, other.bits)
    }
}

/// Error from option validation.
#[derive(Debug, Clone)]
pub enum OptionsError {
    /// `cpu_tensor_alignment` must be a power of two >= 16.
    InvalidAlignment(u32),
    /// `softmax_int16_neg_exp_range` must be in `(0, 65535)`.
    SoftmaxRangeOutOfRange(SoftmaxRange),
    /// `separate_io_regions` requires `cop_format = COP2`.
    SeparateIoRequiresCop2,
}

/// What an [`OptionsError`] says, with the range taken by its view.
pub enum OptionsErrorView {
    InvalidAlignment(u32),
    SoftmaxRangeOutOfRange((u32, Seq<char>)),
    SeparateIoRequiresCop2,
}

impl View for OptionsError {
    type V = OptionsErrorView;

    open spec fn view(&self) -> OptionsErrorView {
        match self {
            OptionsError::InvalidAlignment(a) => OptionsErrorView::InvalidAlignment(*a),
            OptionsError::SoftmaxRangeOutOfRange(r) => OptionsErrorView::SoftmaxRangeOutOfRange(r@),
            OptionsError::SeparateIoRequiresCop2 => OptionsErrorView::SeparateIoRequiresCop2,
        }
    }
}

/// Two errors are equal when they are the same variant with equal values,
/// the softmax ranges compared as `f32` values.
impl PartialEq for OptionsError {
    fn eq(&self, other: &Self) -> (r: bool) {
        match (self, other) {
            (OptionsError::InvalidAlignment(a), OptionsError::InvalidAlignment(b)) => *a == *b,
            (OptionsError::SoftmaxRangeOutOfRange(a), OptionsError::SoftmaxRangeOutOfRange(b)) => {
                f32_equal(a.bits, b.bits)
            },
            (OptionsError::SeparateIoRequiresCop2, OptionsError::SeparateIoRequiresCop2) => true,
            _ => false,
        }
    }
}

impl vstd::std_specs::cmp::PartialEqSpecImpl for OptionsError {
    open spec fn obeys_eq_spec() -> bool {
        true
    }

    open spec fn eq_spec(&self, other: &Self) -> bool {
        match (self, other) {
            (OptionsError::InvalidAlignment(a), OptionsError::InvalidAlignment(b)) => a == b,
            (OptionsError::SoftmaxRangeOutOfRange(a), OptionsError::SoftmaxRangeOutOfRange(b)) => {
                f32_bits_equal(a.bits, b.bits)
            },
            (OptionsError::SeparateIoRequiresCop2, OptionsError::SeparateIoRequiresCop2) => true,
            _ => false,
        }
    }
}

impl OptionsError {
    /// The message this error reads as.
    pub open spec fn text(e: OptionsErrorView) -> Seq<char> {
        match e {
            OptionsErrorView::InvalidAlignment(a) => "cpu_tensor_alignment must be a power of two >= 16, got "@
                + decimal(a as nat),
            OptionsErrorView::SoftmaxRangeOutOfRange(r) => "softmax_int16_neg_exp_range must be in (0, 65535), got "@
                + r.1,
            OptionsErrorView::SeparateIoRequiresCop2 => "separate_io_regions requires cop_format = COP2"@,
        }
    }

    /// The message this error reads as.
    pub fn message(&self) -> (s: String)
        ensures
            s@ == Self::text(self@),
    {
        match self {
            OptionsError::InvalidAlignment(a) => {
                let mut s = String::from_str("cpu_tensor_alignment must be a power of two >= 16, got ");
                push_decimal(&mut s, *a as u64);
                s
            },
            OptionsError::SoftmaxRangeOutOfRange(r) => {
                let mut s = String::from_str("softmax_int16_neg_exp_range must be in (0, 65535), got ");
                s.append(r.text.as_str());
                s
            },
            OptionsError::SeparateIoRequiresCop2 => String::from_str(
                "separate_io_regions requires cop_format = COP2",
            ),
        }
    }
}

/// What a [`CompilerOptions`] holds: each option as set, `None` where unset.
pub struct OptionsModel {
    pub output_format: Option<OutputFormat>,
    pub cop_format: Option<CopFormat>,
    pub enable_debug_db: Option<bool>,
    pub perf_report: Option<bool>,
    pub verbose_high_level_command_stream: Option<bool>,
    pub verbose_register_command_stream: Option<bool>,
    pub optimize: Option<Optimize>,
    pub arena_cache_size: Option<u64>,
    pub tensor_allocator: Option<TensorAllocator>,
    pub cpu_tensor_alignment: Option<u32>,
    pub separate_io_regions: Option<bool>,
    pub disable_features: u16,
    pub verbose_schedule: Option<bool>,
    pub verbose_allocation: Option<bool>,
    pub ignore_ops: Seq<Seq<char>>,
    pub verbose_graph: Option<bool>,
    pub verbose_quantization: Option<bool>,
    pub softmax_int16_neg_exp_range: Option<(u32, Seq<char>)>,
    pub trace: Option<bool>,
    pub raw: Seq<(Section, Seq<char>, Seq<char>)>,
}

/// The line `key=value` where a value is given, nothing where it is not.
pub open spec fn opt_line(key: Seq<char>, value: Option<Seq<char>>) -> Seq<char> {
    match value {
        Some(v) => line(key, v),
        None => Seq::empty(),
    }
}

/// The text of an optional Boolean.
pub open spec fn opt_bool(v: Option<bool>) -> Option<Seq<char>> {
    match v {
        Some(b) => Some(bool_text(b)),
        None => None,
    }
}

/// The decimal text of an optional number.
pub open spec fn opt_num(v: Option<u64>) -> Option<Seq<char>> {
    match v {
        Some(n) => Some(decimal(n as nat)),
        None => None,
    }
}

/// The `key=value` lines of the escape-hatch entries for `section`, in the
/// order they were set.
pub open spec fn raw_lines(raw: Seq<(Section, Seq<char>, Seq<char>)>, section: Section) -> Seq<char>
    decreases raw.len(),
{
    if raw.len() == 0 {
        Seq::empty()
    } else {
        raw_lines(raw.drop_last(), section) + if raw.last().0 == section {
            line(raw.last().1, raw.last().2)
        } else {
            Seq::empty()
        }
    }
}

/// Whether an escape-hatch entry targets the `[debug]` section.
pub open spec fn has_debug_raw(raw: Seq<(Section, Seq<char>, Seq<char>)>) -> bool {
    exists|i: int| 0 <= i < raw.len() && raw[i].0 == Section::Debug
}

/// The entries of the escape hatch, each taken by its texts.
pub open spec fn raw_texts(raw: Seq<(Section, String, String)>) -> Seq<(Section, Seq<char>, Seq<char>)> {
    raw.map_values(|e: (Section, String, String)| (e.0, e.1@, e.2@))
}

impl OptionsModel {
    /// Nothing set.
    pub open spec fn unset() -> OptionsModel {
        OptionsModel {
            output_format: None,
            cop_format: None,
            enable_debug_db: None,
            perf_report: None,
            verbose_high_level_command_stream: None,
            verbose_register_command_stream: None,
            optimize: None,
            arena_cache_size: None,
            tensor_allocator: None,
            cpu_tensor_alignment: None,
            separate_io_regions: None,
            disable_features: 0,
            verbose_schedule: None,
            verbose_allocation: None,
            ignore_ops: Seq::empty(),
            verbose_graph: None,
            verbose_quantization: None,
            softmax_int16_neg_exp_range: None,
            trace: None,
            raw: Seq::empty(),
        }
    }

    /// The first validation failure, if any, in the order they are checked:
    /// the alignment, then the softmax range, then the I/O regions.
    pub open spec fn error(self) -> Option<OptionsErrorView> {
        if self.cpu_tensor_alignment is Some && !alignment_ok(self.cpu_tensor_alignment->0) {
            Some(OptionsErrorView::InvalidAlignment(self.cpu_tensor_alignment->0))
        } else if self.softmax_int16_neg_exp_range matches Some((bits, text)) && !softmax_range_ok(bits) {
            Some(OptionsErrorView::SoftmaxRangeOutOfRange(self.softmax_int16_neg_exp_range->0))
        } else if self.separate_io_regions == Some(true) && self.cop_format != Some(
            CopFormat::Cop2,
        ) {
            Some(OptionsErrorView::SeparateIoRequiresCop2)
        } else {
            None
        }
    }

    /// The `[compiler]` section.
    pub open spec fn compiler_section(self) -> Seq<char> {
        "[compiler]\n"@ + opt_line(
            "output_format"@,
            match self.output_format {
                Some(f) => Some(f.name()),
                None => None,
            },
        ) + opt_line(
            "cop_format"@,
            match self.cop_format {
                Some(f) => Some(f.name()),
                None => None,
            },
        ) + opt_line("enable_db"@, opt_bool(self.enable_debug_db)) + opt_line(
            "perf_report"@,
            opt_bool(self.perf_report),
        ) + opt_line(
            "verbose_high_level_command_stream"@,
            opt_bool(self.verbose_high_level_command_stream),
        ) + opt_line(
            "verbose_register_command_stream"@,
            opt_bool(self.verbose_register_command_stream),
        ) + raw_lines(self.raw, Section::Compiler)
    }

    /// The `[scheduler]` section, after the blank line that ends the one
    /// before.
    pub open spec fn scheduler_section(self) -> Seq<char> {
        "\n[scheduler]\n"@ + opt_line(
            "optimize"@,
            match self.optimize {
                Some(o) => Some(o.name()),
                None => None,
            },
        ) + opt_line("arena_size_limit"@, opt_num(self.arena_cache_size)) + opt_line(
            "tensor_allocator"@,
            match self.tensor_allocator {
                Some(t) => Some(t.name()),
                None => None,
            },
        ) + opt_line(
            "cpu_tensor_alignment"@,
            match self.cpu_tensor_alignment {
                Some(a) => Some(decimal(a as nat)),
                None => None,
            },
        ) + opt_line("separate_io_regions"@, opt_bool(self.separate_io_regions)) + opt_line(
            "disable_feature"@,
            if self.disable_features == 0 {
                None
            } else {
                Some(features_value(self.disable_features))
            },
        ) + opt_line("verbose"@, opt_bool(self.verbose_schedule)) + opt_line(
            "verbose_allocation"@,
            opt_bool(self.verbose_allocation),
        ) + raw_lines(self.raw, Section::Scheduler)
    }

    /// The `[graph]` section, after the blank line that ends the one before.
    pub open spec fn graph_section(self) -> Seq<char> {
        "\n[graph]\n"@ + opt_line(
            "ignore_ops"@,
            if self.ignore_ops.len() == 0 {
                None
            } else {
                Some(join(self.ignore_ops, ","@))
            },
        ) + opt_line("verbose"@, opt_bool(self.verbose_graph)) + opt_line(
            "verbose_quantization"@,
            opt_bool(self.verbose_quantization),
        ) + opt_line(
            "softmax_int16_neg_exp_range"@,
            match self.softmax_int16_neg_exp_range {
                Some(r) => Some(r.1),
                None => None,
            },
        ) + raw_lines(self.raw, Section::Graph)
    }

    /// The `[debug]` section, written only when tracing is set or an
    /// escape-hatch entry targets it.
    pub open spec fn debug_section(self) -> Seq<char> {
        if self.trace is Some || has_debug_raw(self.raw) {
            "\n[debug]\n"@ + opt_line("trace"@, opt_bool(self.trace)) + raw_lines(
                self.raw,
                Section::Debug,
            )
        } else {
            Seq::empty()
        }
    }

    /// The whole document.
    pub open spec fn document(self) -> Seq<char> {
        self.compiler_section() + self.scheduler_section() + self.graph_section()
            + self.debug_section()
    }
}

/// Builder for the compiler options document.
///
/// Every option is left unset by default, which means "whatever regor's own
/// default is" rather than "off", so a value is only ever written because a
/// caller asked for it.
#[derive(Debug)]
pub struct CompilerOptions {
    // [compiler]
    output_format: Option<OutputFormat>,
    cop_format: Option<CopFormat>,
    enable_debug_db: Option<bool>,
    perf_report: Option<bool>,
    verbose_high_level_command_stream: Option<bool>,
    verbose_register_command_stream: Option<bool>,
    // [scheduler]
    optimize: Option<Optimize>,
    arena_cache_size: Option<u64>,
    tensor_allocator: Option<TensorAllocator>,
    cpu_tensor_alignment: Option<u32>,
    separate_io_regions: Option<bool>,
    disable_features: SchedulerFeature,
    verbose_schedule: Option<bool>,
    verbose_allocation: Option<bool>,
    // [graph]
    ignore_ops: Vec<String>,
    verbose_graph: Option<bool>,
    verbose_quantization: Option<bool>,
    softmax_int16_neg_exp_range: Option<SoftmaxRange>,
    // [debug]
    trace: Option<bool>,
    // escape hatch
    raw: Vec<(Section, String, String)>,
}

impl View for CompilerOptions {
    type V = OptionsModel;

    closed spec fn view(&self) -> OptionsModel {
        OptionsModel {
            output_format: self.output_format,
            cop_format: self.cop_format,
            enable_debug_db: self.enable_debug_db,
            perf_report: self.perf_report,
            verbose_high_level_command_stream: self.verbose_high_level_command_stream,
            verbose_register_command_stream: self.verbose_register_command_stream,
            optimize: self.optimize,
            arena_cache_size: self.arena_cache_size,
            tensor_allocator: self.tensor_allocator,
            cpu_tensor_alignment: self.cpu_tensor_alignment,
            separate_io_regions: self.separate_io_regions,
            disable_features: self.disable_features@,
            verbose_schedule: self.verbose_schedule,
            verbose_allocation: self.verbose_allocation,
            ignore_ops: texts(self.ignore_ops@),
            verbose_graph: self.verbose_graph,
            verbose_quantization: self.verbose_quantization,
            softmax_int16_neg_exp_range: match self.softmax_int16_neg_exp_range {
                Some(r) => Some(r@),
                None => None,
            },
            trace: self.trace,
            raw: raw_texts(self.raw@),
        }
    }
}

impl CompilerOptions {
    /// Options with nothing set.
    pub fn new() -> (r: Self)
        ensures
            r@ == OptionsModel::unset(),
    {
        let r = CompilerOptions {
            output_format: None,
            cop_format: None,
            enable_debug_db: None,
            perf_report: None,
            verbose_high_level_command_stream: None,
            verbose_register_command_stream: None,
            optimize: None,
            arena_cache_size: None,
            tensor_allocator: None,
            cpu_tensor_alignment: None,
            separate_io_regions: None,
            verbose_schedule: None,
            verbose_allocation: None,
            verbose_graph: None,
            verbose_quantization: None,
            softmax_int16_neg_exp_range: None,
            trace: None,
            disable_features: SchedulerFeature::empty(),
            ignore_ops: Vec::new(),
            raw: Vec::new(),
        };
        assert(texts(r.ignore_ops@) =~= Seq::empty());
        assert(raw_texts(r.raw@) =~= Seq::empty());
        r
    }

    /// Format the compiled model is written in.
    pub fn output_format(self, fmt: OutputFormat) -> (r: Self)
        ensures
            r@ == (OptionsModel { output_format: Some(fmt), ..self@ }),
    {
        let mut o = self;
        o.output_format = Some(fmt);
        o
    }

    /// Custom operator payload format version.
    pub fn cop_format(self, fmt: CopFormat) -> (r: Self)
        ensures
            r@ == (OptionsModel { cop_format: Some(fmt), ..self@ }),
    {
        let mut o = self;
        o.cop_format = Some(fmt);
        o
    }

    /// Emit the debug database mapping command-stream offsets to operators.
    ///
    /// This is also what makes regor report the operators it could not offload,
    /// which Vela exposes separately as `--show-cpu-operations`.
    pub fn enable_debug_db(self, enable: bool) -> (r: Self)
        ensures
            r@ == (OptionsModel { enable_debug_db: Some(enable), ..self@ }),
    {
        let mut o = self;
        o.enable_debug_db = Some(enable);
        o
    }

    /// Emit the performance report.
    pub fn perf_report(self, enable: bool) -> (r: Self)
        ensures
            r@ == (OptionsModel { perf_report: Some(enable), ..self@ }),
    {
        let mut o = self;
        o.perf_report = Some(enable);
        o
    }

    /// Dump the high-level command stream.
    pub fn verbose_high_level_command_stream(self, enable: bool) -> (r: Self)
        ensures
            r@ == (OptionsModel { verbose_high_level_command_stream: Some(enable), ..self@ }),
    {
        let mut o = self;
        o.verbose_high_level_command_stream = Some(enable);
        o
    }

    /// Dump the register-level command stream.
    pub fn verbose_register_command_stream(self, enable: bool) -> (r: Self)
        ensures
            r@ == (OptionsModel { verbose_register_command_stream: Some(enable), ..self@ }),
    {
        let mut o = self;
        o.verbose_register_command_stream = Some(enable);
        o
    }

    /// Whether to optimise for inference speed or memory footprint.
    ///
    /// Written as `optimize`, which is how regor spells it.
    pub fn optimize(self, strategy: Optimize) -> (r: Self)
        ensures
            r@ == (OptionsModel { optimize: Some(strategy), ..self@ }),
    {
        let mut o = self;
        o.optimize = Some(strategy);
        o
    }

    /// The same as [`optimize`](Self::optimize), under Vela's spelling.
    pub fn optimise(self, strategy: Optimize) -> (r: Self)
        ensures
            r@ == (OptionsModel { optimize: Some(strategy), ..self@ }),
    {
        self.optimize(strategy)
    }

    /// Arena/cache memory budget in bytes.
    ///
    /// Written as `arena_size_limit`. Under [`Optimize::Performance`] regor
    /// treats it as a target rather than a hard cap.
    pub fn arena_cache_size(self, bytes: u64) -> (r: Self)
        ensures
            r@ == (OptionsModel { arena_cache_size: Some(bytes), ..self@ }),
    {
        let mut o = self;
        o.arena_cache_size = Some(bytes);
        o
    }

    /// Which algorithm packs tensors into the arena.
    pub fn tensor_allocator(self, alloc: TensorAllocator) -> (r: Self)
        ensures
            r@ == (OptionsModel { tensor_allocator: Some(alloc), ..self@ }),
    {
        let mut o = self;
        o.tensor_allocator = Some(alloc);
        o
    }

    /// CPU tensor alignment in bytes.
    ///
    /// Validated at [`build`](Self::build) time: must be a power of two and at
    /// least 16.
    pub fn cpu_tensor_alignment(self, alignment: u32) -> (r: Self)
        ensures
            r@ == (OptionsModel { cpu_tensor_alignment: Some(alignment), ..self@ }),
    {
        let mut o = self;
        o.cpu_tensor_alignment = Some(alignment);
        o
    }

    /// Allocate inputs/outputs in separate regions instead of scratch.
    ///
    /// Requires [`CopFormat::Cop2`], checked at [`build`](Self::build) time.
    pub fn separate_io_regions(self, enable: bool) -> (r: Self)
        ensures
            r@ == (OptionsModel { separate_io_regions: Some(enable), ..self@ }),
    {
        let mut o = self;
        o.separate_io_regions = Some(enable);
        o
    }

    /// Switch off scheduler features.
    ///
    /// Replaces any previously set features; combine them in one call.
    pub fn disable_features(self, features: SchedulerFeature) -> (r: Self)
        ensures
            r@ == (OptionsModel { disable_features: features@, ..self@ }),
    {
        let mut o = self;
        o.disable_features = features;
        o
    }

    /// Dump the schedule regor chose.
    pub fn verbose_schedule(self, enable: bool) -> (r: Self)
        ensures
            r@ == (OptionsModel { verbose_schedule: Some(enable), ..self@ }),
    {
        let mut o = self;
        o.verbose_schedule = Some(enable);
        o
    }

    /// Dump the tensor arena allocation.
    pub fn verbose_allocation(self, enable: bool) -> (r: Self)
        ensures
            r@ == (OptionsModel { verbose_allocation: Some(enable), ..self@ }),
    {
        let mut o = self;
        o.verbose_allocation = Some(enable);
        o
    }

    /// TFLite operators to force onto the CPU.
    ///
    /// Written comma-separated, which is what regor's operator-list parser
    /// expects, unlike [`disable_features`](Self::disable_features).
    /// Replaces any previously set list.
    pub fn ignore_ops(self, ops: &[&str]) -> (r: Self)
        ensures
            r@ == (OptionsModel { ignore_ops: ops@.map_values(|o: &str| o@), ..self@ }),
    {
        let mut list: Vec<String> = Vec::new();
        let mut i: usize = 0;
        while i < ops.len()
            invariant
                0 <= i <= ops.len(),
                texts(list@) =~= ops@.take(i as int).map_values(|o: &str| o@),
            decreases ops.len() - i,
        {
            let ghost before = list@;
            list.push(ops[i].to_owned());
            assert(texts(list@) =~= texts(before).push(ops@[i as int]@));
            assert(ops@.take(i + 1).map_values(|o: &str| o@) =~= ops@.take(i as int).map_values(
                |o: &str| o@,
            ).push(ops@[i as int]@));
            i += 1;
        }
        assert(ops@.take(ops.len() as int) =~= ops@);
        let mut o = self;
        o.ignore_ops = list;
        o
    }

    /// Dump the optimised graph.
    pub fn verbose_graph(self, enable: bool) -> (r: Self)
        ensures
            r@ == (OptionsModel { verbose_graph: Some(enable), ..self@ }),
    {
        let mut o = self;
        o.verbose_graph = Some(enable);
        o
    }

    /// Dump the quantisation decisions.
    pub fn verbose_quantization(self, enable: bool) -> (r: Self)
        ensures
            r@ == (OptionsModel { verbose_quantization: Some(enable), ..self@ }),
    {
        let mut o = self;
        o.verbose_quantization = Some(enable);
        o
    }

    /// Negative exponent range for an int16 softmax.
    ///
    /// Validated at [`build`](Self::build) time: regor requires
    /// `0 < range < 65535`.
    pub fn softmax_int16_neg_exp_range(self, range: SoftmaxRange) -> (r: Self)
        ensures
            r@ == (OptionsModel { softmax_int16_neg_exp_range: Some(range@), ..self@ }),
    {
        let mut o = self;
        o.softmax_int16_neg_exp_range = Some(range);
        o
    }

    /// Raise the log filter to include trace output.
    pub fn trace(self, enable: bool) -> (r: Self)
        ensures
            r@ == (OptionsModel { trace: Some(enable), ..self@ }),
    {
        let mut o = self;
        o.trace = Some(enable);
        o
    }

    /// Set an arbitrary `key=value` in `section`, for options this API does not
    /// model.
    ///
    /// Unknown keys are ignored by regor rather than rejected, so a typo here is
    /// silent.
    pub fn raw(self, section: Section, key: &str, value: &str) -> (r: Self)
        ensures
            r@ == (OptionsModel { raw: self@.raw.push((section, key@, value@)), ..self@ }),
    {
        let mut o = self;
        o.raw.push((section, key.to_owned(), value.to_owned()));
        assert(raw_texts(o.raw@) =~= raw_texts(self.raw@).push((section, key@, value@)));
        o
    }
}

impl Default for CompilerOptions {
    fn default() -> (r: Self)
        ensures
            r@ == OptionsModel::unset(),
    {
        CompilerOptions::new()
    }
}

impl Clone for SoftmaxRange {
    fn clone(&self) -> (r: Self)
        ensures
            r@ == self@,
    {
        SoftmaxRange { bits: self.bits, text: self.text.clone() }
    }
}

/// Whether `a` is a power of two.
pub fn is_power_of_two(a: u32) -> (r: bool)
    ensures
        r == is_pow2(a as nat),
{
    let mut x = a;
    while x > 1 && x % 2 == 0
        invariant
            is_pow2(x as nat) == is_pow2(a as nat),
            a == 0 ==> x == 0,
            a > 0 ==> x > 0,
        decreases x,
    {
        x = x / 2;
    }
    x == 1
}

/// Appends `key=true` or `key=false` where a value is given.
fn push_opt_bool(out: &mut String, key: &str, v: Option<bool>)
    ensures
        final(out)@ == old(out)@ + opt_line(key@, opt_bool(v)),
{
    if let Some(b) = v {
        out.append(key);
        out.append("=");
        push_bool(out, b);
        out.append("\n");
    }
}

/// Appends `key=<decimal>` where a value is given.
fn push_opt_num(out: &mut String, key: &str, v: Option<u64>)
    ensures
        final(out)@ == old(out)@ + opt_line(key@, opt_num(v)),
{
    if let Some(n) = v {
        out.append(key);
        out.append("=");
        push_decimal(out, n);
        out.append("\n");
    }
}

impl CompilerOptions {
    /// Appends the escape-hatch entries for `section`.
    fn write_raw(&self, out: &mut String, section: Section)
        ensures
            final(out)@ == old(out)@ + raw_lines(self@.raw, section),
    {
        let ghost start = out@;
        let mut i: usize = 0;
        while i < self.raw.len()
            invariant
                0 <= i <= self.raw.len(),
                out@ == start + raw_lines(raw_texts(self.raw@.take(i as int)), section),
            decreases self.raw.len() - i,
        {
            let entry = &self.raw[i];
            assert(raw_texts(self.raw@.take(i + 1)).drop_last() =~= raw_texts(self.raw@.take(i as int)));
            if entry.0 == section {
                push_line(out, entry.1.as_str(), entry.2.as_str());
            }
            i += 1;
        }
        assert(self.raw@.take(self.raw.len() as int) =~= self.raw@);
    }

    /// Whether an escape-hatch entry targets the `[debug]` section.
    fn has_debug_raw(&self) -> (b: bool)
        ensures
            b == has_debug_raw(self@.raw),
    {
        let mut i: usize = 0;
        while i < self.raw.len()
            invariant
                0 <= i <= self.raw.len(),
                forall|j: int| 0 <= j < i ==> self.raw@[j].0 != Section::Debug,
            decreases self.raw.len() - i,
        {
            if self.raw[i].0 == Section::Debug {
                assert(raw_texts(self.raw@)[i as int].0 == Section::Debug);
                return true;
            }
            i += 1;
        }
        assert forall|j: int| 0 <= j < self@.raw.len() implies self@.raw[j].0 != Section::Debug by {
            assert(raw_texts(self.raw@)[j].0 == self.raw@[j].0);
        }
        false
    }

    /// The `[compiler]` section.
    fn compiler_section(&self) -> (out: String)
        ensures
            out@ == self@.compiler_section(),
    {
        let mut out = String::from_str("[compiler]\n");
        if let Some(v) = self.output_format {
            push_line(&mut out, "output_format", v.as_str());
        }
        if let Some(v) = self.cop_format {
            push_line(&mut out, "cop_format", v.as_str());
        }
        push_opt_bool(&mut out, "enable_db", self.enable_debug_db);
        push_opt_bool(&mut out, "perf_report", self.perf_report);
        push_opt_bool(
            &mut out,
            "verbose_high_level_command_stream",
            self.verbose_high_level_command_stream,
        );
        push_opt_bool(
            &mut out,
            "verbose_register_command_stream",
            self.verbose_register_command_stream,
        );
        self.write_raw(&mut out, Section::Compiler);
        out
    }

    /// The `[scheduler]` section.
    fn scheduler_section(&self) -> (out: String)
        ensures
            out@ == self@.scheduler_section(),
    {
        let mut out = String::from_str("\n[scheduler]\n");
        if let Some(v) = self.optimize {
            push_line(&mut out, "optimize", v.as_str());
        }
        push_opt_num(&mut out, "arena_size_limit", self.arena_cache_size);
        if let Some(v) = self.tensor_allocator {
            push_line(&mut out, "tensor_allocator", v.as_str());
        }
        let alignment: Option<u64> = match self.cpu_tensor_alignment {
            Some(a) => Some(a as u64),
            None => None,
        };
        push_opt_num(&mut out, "cpu_tensor_alignment", alignment);
        push_opt_bool(&mut out, "separate_io_regions", self.separate_io_regions);
        self.write_disabled_features(&mut out);
        push_opt_bool(&mut out, "verbose", self.verbose_schedule);
        push_opt_bool(&mut out, "verbose_allocation", self.verbose_allocation);
        self.write_raw(&mut out, Section::Scheduler);
        out
    }

    /// Appends the `disable_feature` line, where a feature is switched off.
    fn write_disabled_features(&self, out: &mut String)
        ensures
            final(out)@ == old(out)@ + opt_line(
                "disable_feature"@,
                if self@.disable_features == 0 {
                    None
                } else {
                    Some(features_value(self@.disable_features))
                },
            ),
    {
        if !self.disable_features.is_empty() {
            let value = self.disable_features.to_regor_value();
            push_line(out, "disable_feature", value.as_str());
        }
    }

    /// The `[graph]` section.
    fn graph_section(&self) -> (out: String)
        ensures
            out@ == self@.graph_section(),
    {
        let mut out = String::from_str("\n[graph]\n");
        if self.ignore_ops.len() > 0 {
            let value = join_strings(&self.ignore_ops, ",");
            push_line(&mut out, "ignore_ops", value.as_str());
        }
        push_opt_bool(&mut out, "verbose", self.verbose_graph);
        push_opt_bool(&mut out, "verbose_quantization", self.verbose_quantization);
        if let Some(r) = &self.softmax_int16_neg_exp_range {
            push_line(&mut out, "softmax_int16_neg_exp_range", r.text.as_str());
        }
        self.write_raw(&mut out, Section::Graph);
        out
    }

    /// The `[debug]` section, where there is one.
    fn debug_section(&self) -> (out: String)
        ensures
            out@ == self@.debug_section(),
    {
        let debug_raw = self.has_debug_raw();
        if self.trace.is_some() || debug_raw {
            let mut out = String::from_str("\n[debug]\n");
            push_opt_bool(&mut out, "trace", self.trace);
            self.write_raw(&mut out, Section::Debug);
            out
        } else {
            String::new()
        }
    }

    /// Serialise to the sectioned INI `regor_set_compiler_options` expects.
    ///
    /// # Errors
    ///
    /// Returns [`OptionsError`] if `cpu_tensor_alignment` is not a power of two
    /// of at least 16, if `softmax_int16_neg_exp_range` is out of range, or if
    /// `separate_io_regions` is set without [`CopFormat::Cop2`].
    pub fn build(&self) -> (r: Result<String, OptionsError>)
        ensures
            match self@.error() {
                Some(e) => r is Err && r->Err_0@ == e,
                None => r is Ok && r->Ok_0@ == self@.document(),
            },
    {
        if let Some(a) = self.cpu_tensor_alignment {
            if a < 16 || !is_power_of_two(a) {
                return Err(OptionsError::InvalidAlignment(a));
            }
        }
        if let Some(range) = &self.softmax_int16_neg_exp_range {
            if !(0 < range.bits && range.bits < 0x477F_FF00) {
                return Err(OptionsError::SoftmaxRangeOutOfRange(range.clone()));
            }
        }
        if let Some(true) = self.separate_io_regions {
            let cop2 = match self.cop_format {
                Some(CopFormat::Cop2) => true,
                _ => false,
            };
            if !cop2 {
                return Err(OptionsError::SeparateIoRequiresCop2);
            }
        }
        let mut out = self.compiler_section();
        out.append(self.scheduler_section().as_str());
        out.append(self.graph_section().as_str());
        out.append(self.debug_section().as_str());
        Ok(out)
    }
}

/// Options left unset are not written: with nothing set, the document is
/// the three section headers and nothing else.
pub proof fn law_unset_options_are_not_written()
    ensures
        OptionsModel::unset().document() == "[compiler]\n"@ + "\n[scheduler]\n"@ + "\n[graph]\n"@,
{
    let m = OptionsModel::unset();
    assert(m.compiler_section() =~= "[compiler]\n"@);
    assert(m.scheduler_section() =~= "\n[scheduler]\n"@);
    assert(m.graph_section() =~= "\n[graph]\n"@);
    assert(!has_debug_raw(m.raw));
    assert(m.debug_section() =~= Seq::<char>::empty());
    assert(m.document() =~= "[compiler]\n"@ + "\n[scheduler]\n"@ + "\n[graph]\n"@);
}

/// Setting the disabled features again replaces the earlier set rather than
/// adding to it.
pub proof fn law_disabled_features_are_replaced(m: OptionsModel, first: u16, second: u16)
    ensures
        (OptionsModel { disable_features: second, ..OptionsModel { disable_features: first, ..m } })
            == (OptionsModel { disable_features: second, ..m }),
{
}

/// `separate_io_regions` set to true is accepted exactly when COP2 is the
/// payload format (other options being valid); set to false it is always
/// accepted.
pub proof fn law_separate_io_regions_needs_cop2(m: OptionsModel)
    requires
        m.cpu_tensor_alignment matches Some(a) ==> alignment_ok(a),
        m.softmax_int16_neg_exp_range matches Some(r) ==> softmax_range_ok(r.0),
    ensures
        m.separate_io_regions == Some(true) ==> (m.error() is None <==> m.cop_format == Some(
            CopFormat::Cop2,
        )),
        m.separate_io_regions != Some(true) ==> m.error() is None,
{
}

/// The power-of-two test used for the alignment agrees with vstd's
/// recursive one.
proof fn lemma_pow2_test_agrees(n: nat)
    ensures
        is_pow2(n) == vstd::arithmetic::power2::is_pow2(n as int),
    decreases n,
{
    reveal(vstd::arithmetic::power2::is_pow2);
    if n > 1 {
        lemma_pow2_test_agrees(n / 2);
    }
}

/// The alignment's power-of-two test holds of `n` exactly when `n` is
/// `2^k` for some `k`.
pub proof fn law_pow2_test_is_power_of_two(n: nat)
    ensures
        is_pow2(n) <==> exists|k: nat| vstd::arithmetic::power::pow(2, k) == n,
{
    lemma_pow2_test_agrees(n);
    vstd::arithmetic::power2::is_pow2_equiv(n as int);
}

/// Building fails exactly when the alignment is set below 16 or to no power
/// of two, the softmax range is set outside `(0, 65535)`, or the I/O regions
/// are separated without COP2; the error names the first of these in that
/// order.
pub proof fn law_build_error_order(m: OptionsModel)
    ensures
        ({
            let bad_alignment = m.cpu_tensor_alignment matches Some(a) && (a < 16 || !is_pow2(
                a as nat,
            ));
            let bad_range = m.softmax_int16_neg_exp_range matches Some(r) && !(0 < r.0
                < 0x477F_FF00);
            let bad_io = m.separate_io_regions == Some(true) && m.cop_format != Some(
                CopFormat::Cop2,
            );
            &&& m.error() is Some <==> (bad_alignment || bad_range || bad_io)
            &&& bad_alignment ==> m.error() == Some(
                OptionsErrorView::InvalidAlignment(m.cpu_tensor_alignment->0),
            )
            &&& !bad_alignment && bad_range ==> m.error() == Some(
                OptionsErrorView::SoftmaxRangeOutOfRange(m.softmax_int16_neg_exp_range->0),
            )
            &&& !bad_alignment && !bad_range && bad_io ==> m.error() == Some(
                OptionsErrorView::SeparateIoRequiresCop2,
            )
        }),
{
}

/// The typed key lines of the `[compiler]` section, between its header and
/// its escape-hatch lines.
proof fn lemma_compiler_section_split(m: OptionsModel) -> (c: Seq<char>)
    ensures
        m.compiler_section() == "[compiler]\n"@ + c + raw_lines(m.raw, Section::Compiler),
{
    reveal_strlit("[compiler]\n");
    let r = raw_lines(m.raw, Section::Compiler);
    let c = m.compiler_section().subrange(11, m.compiler_section().len() - r.len());
    assert(m.compiler_section() =~= "[compiler]\n"@ + c + r);
    c
}

/// The typed key lines of the `[scheduler]` section, between its header and
/// its escape-hatch lines.
proof fn lemma_scheduler_section_split(m: OptionsModel) -> (s: Seq<char>)
    ensures
        m.scheduler_section() == "\n[scheduler]\n"@ + s + raw_lines(m.raw, Section::Scheduler),
{
    reveal_strlit("\n[scheduler]\n");
    let r = raw_lines(m.raw, Section::Scheduler);
    let s = m.scheduler_section().subrange(13, m.scheduler_section().len() - r.len());
    assert(m.scheduler_section() =~= "\n[scheduler]\n"@ + s + r);
    s
}

/// The typed key lines of the `[graph]` section, between its header and its
/// escape-hatch lines.
proof fn lemma_graph_section_split(m: OptionsModel) -> (g: Seq<char>)
    ensures
        m.graph_section() == "\n[graph]\n"@ + g + raw_lines(m.raw, Section::Graph),
{
    reveal_strlit("\n[graph]\n");
    let r = raw_lines(m.raw, Section::Graph);
    let g = m.graph_section().subrange(9, m.graph_section().len() - r.len());
    assert(m.graph_section() =~= "\n[graph]\n"@ + g + r);
    g
}

/// The document opens with the `[compiler]` header, and the `[scheduler]`
/// and `[graph]` headers follow in that order; each of these sections ends
/// with the escape-hatch lines given for it, in the order they were given.
/// A `[debug]` section comes last, and is written exactly when tracing is
/// set or an escape-hatch entry targets it.
pub proof fn law_document_layout(m: OptionsModel)
    ensures
        exists|c: Seq<char>, s: Seq<char>, g: Seq<char>|
            m.document() == "[compiler]\n"@ + c + raw_lines(m.raw, Section::Compiler)
                + "\n[scheduler]\n"@ + s + raw_lines(m.raw, Section::Scheduler) + "\n[graph]\n"@
                + g + raw_lines(m.raw, Section::Graph) + m.debug_section(),
        m.debug_section().len() > 0 <==> (m.trace is Some || has_debug_raw(m.raw)),
        (m.trace is Some || has_debug_raw(m.raw)) ==> exists|t: Seq<char>|
            m.debug_section() == "\n[debug]\n"@ + t + raw_lines(m.raw, Section::Debug),
{
    reveal_strlit("\n[debug]\n");
    let c = lemma_compiler_section_split(m);
    let s = lemma_scheduler_section_split(m);
    let g = lemma_graph_section_split(m);
    let doc = "[compiler]\n"@ + c + raw_lines(m.raw, Section::Compiler) + "\n[scheduler]\n"@ + s
        + raw_lines(m.raw, Section::Scheduler) + "\n[graph]\n"@ + g + raw_lines(
        m.raw,
        Section::Graph,
    ) + m.debug_section();
    assert(m.document() == doc);
    if m.trace is Some || has_debug_raw(m.raw) {
        let t = opt_line("trace"@, opt_bool(m.trace));
        assert(m.debug_section() =~= "\n[debug]\n"@ + t + raw_lines(m.raw, Section::Debug));
    }
}

/// An optional line is either nothing or a line ending in a newline.
proof fn lemma_opt_line_ends_line(key: Seq<char>, value: Option<Seq<char>>)
    ensures
        opt_line(key, value).len() == 0 || opt_line(key, value).last() == '\n',
{
    reveal_strlit("\n");
    if let Some(v) = value {
        assert(opt_line(key, value) == key + "="@ + v + "\n"@);
    }
}

/// Text that ends a line still ends a line after an optional line is added.
proof fn lemma_ends_line_after(p: Seq<char>, key: Seq<char>, value: Option<Seq<char>>)
    requires
        p.len() > 0 && p.last() == '\n',
    ensures
        (p + opt_line(key, value)).len() > 0 && (p + opt_line(key, value)).last() == '\n',
{
    lemma_opt_line_ends_line(key, value);
}

/// Setting `perf_report` to `v` writes the one line `perf_report=<v>` into
/// the `[compiler]` section, at the start of a line, and changes nothing
/// else there; left unset, nothing is written in its place. The line comes
/// from `perf_report` alone, whatever the other options hold.
pub proof fn law_perf_report_line(m: OptionsModel, v: bool)
    ensures
        exists|p: Seq<char>, r: Seq<char>|
            {
                &&& p.len() > 0 && p.last() == '\n'
                &&& (OptionsModel { perf_report: Some(v), ..m }).compiler_section() == p + (
                "perf_report"@ + "="@ + bool_text(v) + "\n"@) + r
                &&& (OptionsModel { perf_report: None, ..m }).compiler_section() == p + r
            },
{
    reveal_strlit("[compiler]\n");
    let a = OptionsModel { perf_report: Some(v), ..m };
    let b = OptionsModel { perf_report: None, ..m };
    let p0 = "[compiler]\n"@;
    let o1 = opt_line(
        "output_format"@,
        match m.output_format {
            Some(f) => Some(f.name()),
            None => None,
        },
    );
    let o2 = opt_line(
        "cop_format"@,
        match m.cop_format {
            Some(f) => Some(f.name()),
            None => None,
        },
    );
    let o3 = opt_line("enable_db"@, opt_bool(m.enable_debug_db));
    assert(p0.last() == '\n');
    lemma_ends_line_after(p0, "output_format"@, match m.output_format {
        Some(f) => Some(f.name()),
        None => None,
    });
    lemma_ends_line_after(p0 + o1, "cop_format"@, match m.cop_format {
        Some(f) => Some(f.name()),
        None => None,
    });
    lemma_ends_line_after(p0 + o1 + o2, "enable_db"@, opt_bool(m.enable_debug_db));
    let p = p0 + o1 + o2 + o3;
    let r = opt_line(
        "verbose_high_level_command_stream"@,
        opt_bool(m.verbose_high_level_command_stream),
    ) + opt_line("verbose_register_command_stream"@, opt_bool(m.verbose_register_command_stream))
        + raw_lines(m.raw, Section::Compiler);
    let l = "perf_report"@ + "="@ + bool_text(v) + "\n"@;
    assert(a.compiler_section() =~= p + l + r);
    assert(b.compiler_section() =~= p + r);
}

/// Setting `output_format` to `v` writes `output_format=` and the name of `v`
/// as one line of the `[compiler]` section, at the start of a line, and changes
/// nothing else there; left unset, nothing is written in its place. The line
/// comes from this option alone, whatever the others hold.
pub proof fn law_output_format_line(m: OptionsModel, v: OutputFormat)
    ensures
        exists|p: Seq<char>, r: Seq<char>|
            {
                &&& p.len() > 0 && p.last() == '\n'
                &&& (OptionsModel { output_format: Some(v), ..m }).compiler_section() == p
                    + ("output_format"@ + "="@ + v.name() + "\n"@) + r
                &&& (OptionsModel { output_format: None, ..m }).compiler_section() == p + r
            },
{
    reveal_strlit("[compiler]\n");
    let t1 = opt_line("cop_format"@, match m.cop_format { Some(f) => Some(f.name()), None => None });
    let t2 = opt_line("enable_db"@, opt_bool(m.enable_debug_db));
    let t3 = opt_line("perf_report"@, opt_bool(m.perf_report));
    let t4 = opt_line("verbose_high_level_command_stream"@, opt_bool(m.verbose_high_level_command_stream));
    let t5 = opt_line("verbose_register_command_stream"@, opt_bool(m.verbose_register_command_stream));
    let raw = raw_lines(m.raw, Section::Compiler);
    let p0 = "[compiler]\n"@;
    assert(p0.last() == '\n');
    let p = p0;
    let r = t1 + t2 + t3 + t4 + t5 + raw;
    let l = "output_format"@ + "="@ + v.name() + "\n"@;
    let e = opt_line("output_format"@, None);
    assert(p + e =~= p);
    vstd::seq_lib::lemma_concat_associative(p + l, t1, t2);
    vstd::seq_lib::lemma_concat_associative(p + l, t1 + t2, t3);
    vstd::seq_lib::lemma_concat_associative(p + l, t1 + t2 + t3, t4);
    vstd::seq_lib::lemma_concat_associative(p + l, t1 + t2 + t3 + t4, t5);
    vstd::seq_lib::lemma_concat_associative(p + l, t1 + t2 + t3 + t4 + t5, raw);
    vstd::seq_lib::lemma_concat_associative(p, t1, t2);
    vstd::seq_lib::lemma_concat_associative(p, t1 + t2, t3);
    vstd::seq_lib::lemma_concat_associative(p, t1 + t2 + t3, t4);
    vstd::seq_lib::lemma_concat_associative(p, t1 + t2 + t3 + t4, t5);
    vstd::seq_lib::lemma_concat_associative(p, t1 + t2 + t3 + t4 + t5, raw);
    assert((OptionsModel { output_format: Some(v), ..m }).compiler_section() == p + l + t1 + t2 + t3 + t4 + t5 + raw);
    assert((OptionsModel { output_format: None, ..m }).compiler_section() == p + e + t1 + t2 + t3 + t4 + t5 + raw);
}

/// Setting `cop_format` to `v` writes `cop_format=` and the name of `v` as one
/// line of the `[compiler]` section, at the start of a line, and changes
/// nothing else there; left unset, nothing is written in its place. The line
/// comes from this option alone, whatever the others hold.
pub proof fn law_cop_format_line(m: OptionsModel, v: CopFormat)
    ensures
        exists|p: Seq<char>, r: Seq<char>|
            {
                &&& p.len() > 0 && p.last() == '\n'
                &&& (OptionsModel { cop_format: Some(v), ..m }).compiler_section() == p
                    + ("cop_format"@ + "="@ + v.name() + "\n"@) + r
                &&& (OptionsModel { cop_format: None, ..m }).compiler_section() == p + r
            },
{
    reveal_strlit("[compiler]\n");
    let t0 = opt_line("output_format"@, match m.output_format { Some(f) => Some(f.name()), None => None });
    let t2 = opt_line("enable_db"@, opt_bool(m.enable_debug_db));
    let t3 = opt_line("perf_report"@, opt_bool(m.perf_report));
    let t4 = opt_line("verbose_high_level_command_stream"@, opt_bool(m.verbose_high_level_command_stream));
    let t5 = opt_line("verbose_register_command_stream"@, opt_bool(m.verbose_register_command_stream));
    let raw = raw_lines(m.raw, Section::Compiler);
    let p0 = "[compiler]\n"@;
    assert(p0.last() == '\n');
    lemma_ends_line_after(p0, "output_format"@, match m.output_format { Some(f) => Some(f.name()), None => None });
    let p = p0 + t0;
    let r = t2 + t3 + t4 + t5 + raw;
    let l = "cop_format"@ + "="@ + v.name() + "\n"@;
    let e = opt_line("cop_format"@, None);
    assert(p + e =~= p);
    vstd::seq_lib::lemma_concat_associative(p + l, t2, t3);
    vstd::seq_lib::lemma_concat_associative(p + l, t2 + t3, t4);
    vstd::seq_lib::lemma_concat_associative(p + l, t2 + t3 + t4, t5);
    vstd::seq_lib::lemma_concat_associative(p + l, t2 + t3 + t4 + t5, raw);
    vstd::seq_lib::lemma_concat_associative(p, t2, t3);
    vstd::seq_lib::lemma_concat_associative(p, t2 + t3, t4);
    vstd::seq_lib::lemma_concat_associative(p, t2 + t3 + t4, t5);
    vstd::seq_lib::lemma_concat_associative(p, t2 + t3 + t4 + t5, raw);
    assert((OptionsModel { cop_format: Some(v), ..m }).compiler_section() == p + l + t2 + t3 + t4 + t5 + raw);
    assert((OptionsModel { cop_format: None, ..m }).compiler_section() == p + e + t2 + t3 + t4 + t5 + raw);
}

/// Setting `enable_debug_db` to `v` writes `enable_db=<v>` as one line of the
/// `[compiler]` section, at the start of a line, and changes nothing else
/// there; left unset, nothing is written in its place. The line comes from this
/// option alone, whatever the others hold.
pub proof fn law_enable_debug_db_line(m: OptionsModel, v: bool)
    ensures
        exists|p: Seq<char>, r: Seq<char>|
            {
                &&& p.len() > 0 && p.last() == '\n'
                &&& (OptionsModel { enable_debug_db: Some(v), ..m }).compiler_section() == p
                    + ("enable_db"@ + "="@ + bool_text(v) + "\n"@) + r
                &&& (OptionsModel { enable_debug_db: None, ..m }).compiler_section() == p + r
            },
{
    reveal_strlit("[compiler]\n");
    let t0 = opt_line("output_format"@, match m.output_format { Some(f) => Some(f.name()), None => None });
    let t1 = opt_line("cop_format"@, match m.cop_format { Some(f) => Some(f.name()), None => None });
    let t3 = opt_line("perf_report"@, opt_bool(m.perf_report));
    let t4 = opt_line("verbose_high_level_command_stream"@, opt_bool(m.verbose_high_level_command_stream));
    let t5 = opt_line("verbose_register_command_stream"@, opt_bool(m.verbose_register_command_stream));
    let raw = raw_lines(m.raw, Section::Compiler);
    let p0 = "[compiler]\n"@;
    assert(p0.last() == '\n');
    lemma_ends_line_after(p0, "output_format"@, match m.output_format { Some(f) => Some(f.name()), None => None });
    lemma_ends_line_after(p0 + t0, "cop_format"@, match m.cop_format { Some(f) => Some(f.name()), None => None });
    let p = p0 + t0 + t1;
    let r = t3 + t4 + t5 + raw;
    let l = "enable_db"@ + "="@ + bool_text(v) + "\n"@;
    let e = opt_line("enable_db"@, None);
    assert(p + e =~= p);
    vstd::seq_lib::lemma_concat_associative(p + l, t3, t4);
    vstd::seq_lib::lemma_concat_associative(p + l, t3 + t4, t5);
    vstd::seq_lib::lemma_concat_associative(p + l, t3 + t4 + t5, raw);
    vstd::seq_lib::lemma_concat_associative(p, t3, t4);
    vstd::seq_lib::lemma_concat_associative(p, t3 + t4, t5);
    vstd::seq_lib::lemma_concat_associative(p, t3 + t4 + t5, raw);
    assert((OptionsModel { enable_debug_db: Some(v), ..m }).compiler_section() == p + l + t3 + t4 + t5 + raw);
    assert((OptionsModel { enable_debug_db: None, ..m }).compiler_section() == p + e + t3 + t4 + t5 + raw);
}

/// Setting `verbose_high_level_command_stream` to `v` writes
/// `verbose_high_level_command_stream=<v>` as one line of the `[compiler]`
/// section, at the start of a line, and changes nothing else there; left unset,
/// nothing is written in its place. The line comes from this option alone,
/// whatever the others hold.
pub proof fn law_verbose_high_level_command_stream_line(m: OptionsModel, v: bool)
    ensures
        exists|p: Seq<char>, r: Seq<char>|
            {
                &&& p.len() > 0 && p.last() == '\n'
                &&& (OptionsModel { verbose_high_level_command_stream: Some(v), ..m }).compiler_section() == p
                    + ("verbose_high_level_command_stream"@ + "="@ + bool_text(v) + "\n"@) + r
                &&& (OptionsModel { verbose_high_level_command_stream: None, ..m }).compiler_section() == p + r
            },
{
    reveal_strlit("[compiler]\n");
    let t0 = opt_line("output_format"@, match m.output_format { Some(f) => Some(f.name()), None => None });
    let t1 = opt_line("cop_format"@, match m.cop_format { Some(f) => Some(f.name()), None => None });
    let t2 = opt_line("enable_db"@, opt_bool(m.enable_debug_db));
    let t3 = opt_line("perf_report"@, opt_bool(m.perf_report));
    let t5 = opt_line("verbose_register_command_stream"@, opt_bool(m.verbose_register_command_stream));
    let raw = raw_lines(m.raw, Section::Compiler);
    let p0 = "[compiler]\n"@;
    assert(p0.last() == '\n');
    lemma_ends_line_after(p0, "output_format"@, match m.output_format { Some(f) => Some(f.name()), None => None });
    lemma_ends_line_after(p0 + t0, "cop_format"@, match m.cop_format { Some(f) => Some(f.name()), None => None });
    lemma_ends_line_after(p0 + t0 + t1, "enable_db"@, opt_bool(m.enable_debug_db));
    lemma_ends_line_after(p0 + t0 + t1 + t2, "perf_report"@, opt_bool(m.perf_report));
    let p = p0 + t0 + t1 + t2 + t3;
    let r = t5 + raw;
    let l = "verbose_high_level_command_stream"@ + "="@ + bool_text(v) + "\n"@;
    let e = opt_line("verbose_high_level_command_stream"@, None);
    assert(p + e =~= p);
    vstd::seq_lib::lemma_concat_associative(p + l, t5, raw);
    vstd::seq_lib::lemma_concat_associative(p, t5, raw);
    assert((OptionsModel { verbose_high_level_command_stream: Some(v), ..m }).compiler_section() == p + l + t5 + raw);
    assert((OptionsModel { verbose_high_level_command_stream: None, ..m }).compiler_section() == p + e + t5 + raw);
}

/// Setting `verbose_register_command_stream` to `v` writes
/// `verbose_register_command_stream=<v>` as one line of the `[compiler]`
/// section, at the start of a line, and changes nothing else there; left unset,
/// nothing is written in its place. The line comes from this option alone,
/// whatever the others hold.
pub proof fn law_verbose_register_command_stream_line(m: OptionsModel, v: bool)
    ensures
        exists|p: Seq<char>, r: Seq<char>|
            {
                &&& p.len() > 0 && p.last() == '\n'
                &&& (OptionsModel { verbose_register_command_stream: Some(v), ..m }).compiler_section() == p
                    + ("verbose_register_command_stream"@ + "="@ + bool_text(v) + "\n"@) + r
                &&& (OptionsModel { verbose_register_command_stream: None, ..m }).compiler_section() == p + r
            },
{
    reveal_strlit("[compiler]\n");
    let t0 = opt_line("output_format"@, match m.output_format { Some(f) => Some(f.name()), None => None });
    let t1 = opt_line("cop_format"@, match m.cop_format { Some(f) => Some(f.name()), None => None });
    let t2 = opt_line("enable_db"@, opt_bool(m.enable_debug_db));
    let t3 = opt_line("perf_report"@, opt_bool(m.perf_report));
    let t4 = opt_line("verbose_high_level_command_stream"@, opt_bool(m.verbose_high_level_command_stream));
    let raw = raw_lines(m.raw, Section::Compiler);
    let p0 = "[compiler]\n"@;
    assert(p0.last() == '\n');
    lemma_ends_line_after(p0, "output_format"@, match m.output_format { Some(f) => Some(f.name()), None => None });
    lemma_ends_line_after(p0 + t0, "cop_format"@, match m.cop_format { Some(f) => Some(f.name()), None => None });
    lemma_ends_line_after(p0 + t0 + t1, "enable_db"@, opt_bool(m.enable_debug_db));
    lemma_ends_line_after(p0 + t0 + t1 + t2, "perf_report"@, opt_bool(m.perf_report));
    lemma_ends_line_after(p0 + t0 + t1 + t2 + t3, "verbose_high_level_command_stream"@, opt_bool(m.verbose_high_level_command_stream));
    let p = p0 + t0 + t1 + t2 + t3 + t4;
    let r = raw;
    let l = "verbose_register_command_stream"@ + "="@ + bool_text(v) + "\n"@;
    let e = opt_line("verbose_register_command_stream"@, None);
    assert(p + e =~= p);
    assert((OptionsModel { verbose_register_command_stream: Some(v), ..m }).compiler_section() == p + l + raw);
    assert((OptionsModel { verbose_register_command_stream: None, ..m }).compiler_section() == p + e + raw);
}

/// Setting `optimize` to `v` writes `optimize=` and the name of `v` as one line
/// of the `[scheduler]` section, at the start of a line, and changes nothing
/// else there; left unset, nothing is written in its place. The line comes from
/// this option alone, whatever the others hold.
pub proof fn law_optimize_line(m: OptionsModel, v: Optimize)
    ensures
        exists|p: Seq<char>, r: Seq<char>|
            {
                &&& p.len() > 0 && p.last() == '\n'
                &&& (OptionsModel { optimize: Some(v), ..m }).scheduler_section() == p
                    + ("optimize"@ + "="@ + v.name() + "\n"@) + r
                &&& (OptionsModel { optimize: None, ..m }).scheduler_section() == p + r
            },
{
    reveal_strlit("\n[scheduler]\n");
    let t1 = opt_line("arena_size_limit"@, opt_num(m.arena_cache_size));
    let t2 = opt_line("tensor_allocator"@, match m.tensor_allocator { Some(t) => Some(t.name()), None => None });
    let t3 = opt_line("cpu_tensor_alignment"@, match m.cpu_tensor_alignment { Some(a) => Some(decimal(a as nat)), None => None });
    let t4 = opt_line("separate_io_regions"@, opt_bool(m.separate_io_regions));
    let t5 = opt_line("disable_feature"@, if m.disable_features == 0 { None } else { Some(features_value(m.disable_features)) });
    let t6 = opt_line("verbose"@, opt_bool(m.verbose_schedule));
    let t7 = opt_line("verbose_allocation"@, opt_bool(m.verbose_allocation));
    let raw = raw_lines(m.raw, Section::Scheduler);
    let p0 = "\n[scheduler]\n"@;
    assert(p0.last() == '\n');
    let p = p0;
    let r = t1 + t2 + t3 + t4 + t5 + t6 + t7 + raw;
    let l = "optimize"@ + "="@ + v.name() + "\n"@;
    let e = opt_line("optimize"@, None);
    assert(p + e =~= p);
    vstd::seq_lib::lemma_concat_associative(p + l, t1, t2);
    vstd::seq_lib::lemma_concat_associative(p + l, t1 + t2, t3);
    vstd::seq_lib::lemma_concat_associative(p + l, t1 + t2 + t3, t4);
    vstd::seq_lib::lemma_concat_associative(p + l, t1 + t2 + t3 + t4, t5);
    vstd::seq_lib::lemma_concat_associative(p + l, t1 + t2 + t3 + t4 + t5, t6);
    vstd::seq_lib::lemma_concat_associative(p + l, t1 + t2 + t3 + t4 + t5 + t6, t7);
    vstd::seq_lib::lemma_concat_associative(p + l, t1 + t2 + t3 + t4 + t5 + t6 + t7, raw);
    vstd::seq_lib::lemma_concat_associative(p, t1, t2);
    vstd::seq_lib::lemma_concat_associative(p, t1 + t2, t3);
    vstd::seq_lib::lemma_concat_associative(p, t1 + t2 + t3, t4);
    vstd::seq_lib::lemma_concat_associative(p, t1 + t2 + t3 + t4, t5);
    vstd::seq_lib::lemma_concat_associative(p, t1 + t2 + t3 + t4 + t5, t6);
    vstd::seq_lib::lemma_concat_associative(p, t1 + t2 + t3 + t4 + t5 + t6, t7);
    vstd::seq_lib::lemma_concat_associative(p, t1 + t2 + t3 + t4 + t5 + t6 + t7, raw);
    assert((OptionsModel { optimize: Some(v), ..m }).scheduler_section() == p + l + t1 + t2 + t3 + t4 + t5 + t6 + t7 + raw);
    assert((OptionsModel { optimize: None, ..m }).scheduler_section() == p + e + t1 + t2 + t3 + t4 + t5 + t6 + t7 + raw);
}

/// Setting `arena_cache_size` to `v` writes `arena_size_limit=` and `v` in
/// decimal as one line of the `[scheduler]` section, at the start of a line,
/// and changes nothing else there; left unset, nothing is written in its place.
/// The line comes from this option alone, whatever the others hold.
pub proof fn law_arena_cache_size_line(m: OptionsModel, v: u64)
    ensures
        exists|p: Seq<char>, r: Seq<char>|
            {
                &&& p.len() > 0 && p.last() == '\n'
                &&& (OptionsModel { arena_cache_size: Some(v), ..m }).scheduler_section() == p
                    + ("arena_size_limit"@ + "="@ + decimal(v as nat) + "\n"@) + r
                &&& (OptionsModel { arena_cache_size: None, ..m }).scheduler_section() == p + r
            },
{
    reveal_strlit("\n[scheduler]\n");
    let t0 = opt_line("optimize"@, match m.optimize { Some(o) => Some(o.name()), None => None });
    let t2 = opt_line("tensor_allocator"@, match m.tensor_allocator { Some(t) => Some(t.name()), None => None });
    let t3 = opt_line("cpu_tensor_alignment"@, match m.cpu_tensor_alignment { Some(a) => Some(decimal(a as nat)), None => None });
    let t4 = opt_line("separate_io_regions"@, opt_bool(m.separate_io_regions));
    let t5 = opt_line("disable_feature"@, if m.disable_features == 0 { None } else { Some(features_value(m.disable_features)) });
    let t6 = opt_line("verbose"@, opt_bool(m.verbose_schedule));
    let t7 = opt_line("verbose_allocation"@, opt_bool(m.verbose_allocation));
    let raw = raw_lines(m.raw, Section::Scheduler);
    let p0 = "\n[scheduler]\n"@;
    assert(p0.last() == '\n');
    lemma_ends_line_after(p0, "optimize"@, match m.optimize { Some(o) => Some(o.name()), None => None });
    let p = p0 + t0;
    let r = t2 + t3 + t4 + t5 + t6 + t7 + raw;
    let l = "arena_size_limit"@ + "="@ + decimal(v as nat) + "\n"@;
    let e = opt_line("arena_size_limit"@, None);
    assert(p + e =~= p);
    vstd::seq_lib::lemma_concat_associative(p + l, t2, t3);
    vstd::seq_lib::lemma_concat_associative(p + l, t2 + t3, t4);
    vstd::seq_lib::lemma_concat_associative(p + l, t2 + t3 + t4, t5);
    vstd::seq_lib::lemma_concat_associative(p + l, t2 + t3 + t4 + t5, t6);
    vstd::seq_lib::lemma_concat_associative(p + l, t2 + t3 + t4 + t5 + t6, t7);
    vstd::seq_lib::lemma_concat_associative(p + l, t2 + t3 + t4 + t5 + t6 + t7, raw);
    vstd::seq_lib::lemma_concat_associative(p, t2, t3);
    vstd::seq_lib::lemma_concat_associative(p, t2 + t3, t4);
    vstd::seq_lib::lemma_concat_associative(p, t2 + t3 + t4, t5);
    vstd::seq_lib::lemma_concat_associative(p, t2 + t3 + t4 + t5, t6);
    vstd::seq_lib::lemma_concat_associative(p, t2 + t3 + t4 + t5 + t6, t7);
    vstd::seq_lib::lemma_concat_associative(p, t2 + t3 + t4 + t5 + t6 + t7, raw);
    assert((OptionsModel { arena_cache_size: Some(v), ..m }).scheduler_section() == p + l + t2 + t3 + t4 + t5 + t6 + t7 + raw);
    assert((OptionsModel { arena_cache_size: None, ..m }).scheduler_section() == p + e + t2 + t3 + t4 + t5 + t6 + t7 + raw);
}

/// Setting `tensor_allocator` to `v` writes `tensor_allocator=` and the name of
/// `v` as one line of the `[scheduler]` section, at the start of a line, and
/// changes nothing else there; left unset, nothing is written in its place. The
/// line comes from this option alone, whatever the others hold.
pub proof fn law_tensor_allocator_line(m: OptionsModel, v: TensorAllocator)
    ensures
        exists|p: Seq<char>, r: Seq<char>|
            {
                &&& p.len() > 0 && p.last() == '\n'
                &&& (OptionsModel { tensor_allocator: Some(v), ..m }).scheduler_section() == p
                    + ("tensor_allocator"@ + "="@ + v.name() + "\n"@) + r
                &&& (OptionsModel { tensor_allocator: None, ..m }).scheduler_section() == p + r
            },
{
    reveal_strlit("\n[scheduler]\n");
    let t0 = opt_line("optimize"@, match m.optimize { Some(o) => Some(o.name()), None => None });
    let t1 = opt_line("arena_size_limit"@, opt_num(m.arena_cache_size));
    let t3 = opt_line("cpu_tensor_alignment"@, match m.cpu_tensor_alignment { Some(a) => Some(decimal(a as nat)), None => None });
    let t4 = opt_line("separate_io_regions"@, opt_bool(m.separate_io_regions));
    let t5 = opt_line("disable_feature"@, if m.disable_features == 0 { None } else { Some(features_value(m.disable_features)) });
    let t6 = opt_line("verbose"@, opt_bool(m.verbose_schedule));
    let t7 = opt_line("verbose_allocation"@, opt_bool(m.verbose_allocation));
    let raw = raw_lines(m.raw, Section::Scheduler);
    let p0 = "\n[scheduler]\n"@;
    assert(p0.last() == '\n');
    lemma_ends_line_after(p0, "optimize"@, match m.optimize { Some(o) => Some(o.name()), None => None });
    lemma_ends_line_after(p0 + t0, "arena_size_limit"@, opt_num(m.arena_cache_size));
    let p = p0 + t0 + t1;
    let r = t3 + t4 + t5 + t6 + t7 + raw;
    let l = "tensor_allocator"@ + "="@ + v.name() + "\n"@;
    let e = opt_line("tensor_allocator"@, None);
    assert(p + e =~= p);
    vstd::seq_lib::lemma_concat_associative(p + l, t3, t4);
    vstd::seq_lib::lemma_concat_associative(p + l, t3 + t4, t5);
    vstd::seq_lib::lemma_concat_associative(p + l, t3 + t4 + t5, t6);
    vstd::seq_lib::lemma_concat_associative(p + l, t3 + t4 + t5 + t6, t7);
    vstd::seq_lib::lemma_concat_associative(p + l, t3 + t4 + t5 + t6 + t7, raw);
    vstd::seq_lib::lemma_concat_associative(p, t3, t4);
    vstd::seq_lib::lemma_concat_associative(p, t3 + t4, t5);
    vstd::seq_lib::lemma_concat_associative(p, t3 + t4 + t5, t6);
    vstd::seq_lib::lemma_concat_associative(p, t3 + t4 + t5 + t6, t7);
    vstd::seq_lib::lemma_concat_associative(p, t3 + t4 + t5 + t6 + t7, raw);
    assert((OptionsModel { tensor_allocator: Some(v), ..m }).scheduler_section() == p + l + t3 + t4 + t5 + t6 + t7 + raw);
    assert((OptionsModel { tensor_allocator: None, ..m }).scheduler_section() == p + e + t3 + t4 + t5 + t6 + t7 + raw);
}

/// Setting `cpu_tensor_alignment` to `v` writes `cpu_tensor_alignment=` and `v`
/// in decimal as one line of the `[scheduler]` section, at the start of a line,
/// and changes nothing else there; left unset, nothing is written in its place.
/// The line comes from this option alone, whatever the others hold.
pub proof fn law_cpu_tensor_alignment_line(m: OptionsModel, v: u32)
    ensures
        exists|p: Seq<char>, r: Seq<char>|
            {
                &&& p.len() > 0 && p.last() == '\n'
                &&& (OptionsModel { cpu_tensor_alignment: Some(v), ..m }).scheduler_section() == p
                    + ("cpu_tensor_alignment"@ + "="@ + decimal(v as nat) + "\n"@) + r
                &&& (OptionsModel { cpu_tensor_alignment: None, ..m }).scheduler_section() == p + r
            },
{
    reveal_strlit("\n[scheduler]\n");
    let t0 = opt_line("optimize"@, match m.optimize { Some(o) => Some(o.name()), None => None });
    let t1 = opt_line("arena_size_limit"@, opt_num(m.arena_cache_size));
    let t2 = opt_line("tensor_allocator"@, match m.tensor_allocator { Some(t) => Some(t.name()), None => None });
    let t4 = opt_line("separate_io_regions"@, opt_bool(m.separate_io_regions));
    let t5 = opt_line("disable_feature"@, if m.disable_features == 0 { None } else { Some(features_value(m.disable_features)) });
    let t6 = opt_line("verbose"@, opt_bool(m.verbose_schedule));
    let t7 = opt_line("verbose_allocation"@, opt_bool(m.verbose_allocation));
    let raw = raw_lines(m.raw, Section::Scheduler);
    let p0 = "\n[scheduler]\n"@;
    assert(p0.last() == '\n');
    lemma_ends_line_after(p0, "optimize"@, match m.optimize { Some(o) => Some(o.name()), None => None });
    lemma_ends_line_after(p0 + t0, "arena_size_limit"@, opt_num(m.arena_cache_size));
    lemma_ends_line_after(p0 + t0 + t1, "tensor_allocator"@, match m.tensor_allocator { Some(t) => Some(t.name()), None => None });
    let p = p0 + t0 + t1 + t2;
    let r = t4 + t5 + t6 + t7 + raw;
    let l = "cpu_tensor_alignment"@ + "="@ + decimal(v as nat) + "\n"@;
    let e = opt_line("cpu_tensor_alignment"@, None);
    assert(p + e =~= p);
    vstd::seq_lib::lemma_concat_associative(p + l, t4, t5);
    vstd::seq_lib::lemma_concat_associative(p + l, t4 + t5, t6);
    vstd::seq_lib::lemma_concat_associative(p + l, t4 + t5 + t6, t7);
    vstd::seq_lib::lemma_concat_associative(p + l, t4 + t5 + t6 + t7, raw);
    vstd::seq_lib::lemma_concat_associative(p, t4, t5);
    vstd::seq_lib::lemma_concat_associative(p, t4 + t5, t6);
    vstd::seq_lib::lemma_concat_associative(p, t4 + t5 + t6, t7);
    vstd::seq_lib::lemma_concat_associative(p, t4 + t5 + t6 + t7, raw);
    assert((OptionsModel { cpu_tensor_alignment: Some(v), ..m }).scheduler_section() == p + l + t4 + t5 + t6 + t7 + raw);
    assert((OptionsModel { cpu_tensor_alignment: None, ..m }).scheduler_section() == p + e + t4 + t5 + t6 + t7 + raw);
}

/// Setting `separate_io_regions` to `v` writes `separate_io_regions=<v>` as one
/// line of the `[scheduler]` section, at the start of a line, and changes
/// nothing else there; left unset, nothing is written in its place. The line
/// comes from this option alone, whatever the others hold.
pub proof fn law_separate_io_regions_line(m: OptionsModel, v: bool)
    ensures
        exists|p: Seq<char>, r: Seq<char>|
            {
                &&& p.len() > 0 && p.last() == '\n'
                &&& (OptionsModel { separate_io_regions: Some(v), ..m }).scheduler_section() == p
                    + ("separate_io_regions"@ + "="@ + bool_text(v) + "\n"@) + r
                &&& (OptionsModel { separate_io_regions: None, ..m }).scheduler_section() == p + r
            },
{
    reveal_strlit("\n[scheduler]\n");
    let t0 = opt_line("optimize"@, match m.optimize { Some(o) => Some(o.name()), None => None });
    let t1 = opt_line("arena_size_limit"@, opt_num(m.arena_cache_size));
    let t2 = opt_line("tensor_allocator"@, match m.tensor_allocator { Some(t) => Some(t.name()), None => None });
    let t3 = opt_line("cpu_tensor_alignment"@, match m.cpu_tensor_alignment { Some(a) => Some(decimal(a as nat)), None => None });
    let t5 = opt_line("disable_feature"@, if m.disable_features == 0 { None } else { Some(features_value(m.disable_features)) });
    let t6 = opt_line("verbose"@, opt_bool(m.verbose_schedule));
    let t7 = opt_line("verbose_allocation"@, opt_bool(m.verbose_allocation));
    let raw = raw_lines(m.raw, Section::Scheduler);
    let p0 = "\n[scheduler]\n"@;
    assert(p0.last() == '\n');
    lemma_ends_line_after(p0, "optimize"@, match m.optimize { Some(o) => Some(o.name()), None => None });
    lemma_ends_line_after(p0 + t0, "arena_size_limit"@, opt_num(m.arena_cache_size));
    lemma_ends_line_after(p0 + t0 + t1, "tensor_allocator"@, match m.tensor_allocator { Some(t) => Some(t.name()), None => None });
    lemma_ends_line_after(p0 + t0 + t1 + t2, "cpu_tensor_alignment"@, match m.cpu_tensor_alignment { Some(a) => Some(decimal(a as nat)), None => None });
    let p = p0 + t0 + t1 + t2 + t3;
    let r = t5 + t6 + t7 + raw;
    let l = "separate_io_regions"@ + "="@ + bool_text(v) + "\n"@;
    let e = opt_line("separate_io_regions"@, None);
    assert(p + e =~= p);
    vstd::seq_lib::lemma_concat_associative(p + l, t5, t6);
    vstd::seq_lib::lemma_concat_associative(p + l, t5 + t6, t7);
    vstd::seq_lib::lemma_concat_associative(p + l, t5 + t6 + t7, raw);
    vstd::seq_lib::lemma_concat_associative(p, t5, t6);
    vstd::seq_lib::lemma_concat_associative(p, t5 + t6, t7);
    vstd::seq_lib::lemma_concat_associative(p, t5 + t6 + t7, raw);
    assert((OptionsModel { separate_io_regions: Some(v), ..m }).scheduler_section() == p + l + t5 + t6 + t7 + raw);
    assert((OptionsModel { separate_io_regions: None, ..m }).scheduler_section() == p + e + t5 + t6 + t7 + raw);
}

/// Setting a non-empty set `v` of disabled features writes `disable_feature=`
/// and the `|`-separated list of `v` as one line of the `[scheduler]` section,
/// at the start of a line, and changes nothing else there; left unset, nothing
/// is written in its place. The line comes from this option alone, whatever the
/// others hold.
pub proof fn law_disable_features_line(m: OptionsModel, v: u16)
    requires
        v != 0,
    ensures
        exists|p: Seq<char>, r: Seq<char>|
            {
                &&& p.len() > 0 && p.last() == '\n'
                &&& (OptionsModel { disable_features: v, ..m }).scheduler_section() == p
                    + ("disable_feature"@ + "="@ + features_value(v) + "\n"@) + r
                &&& (OptionsModel { disable_features: 0, ..m }).scheduler_section() == p + r
            },
{
    reveal_strlit("\n[scheduler]\n");
    let t0 = opt_line("optimize"@, match m.optimize { Some(o) => Some(o.name()), None => None });
    let t1 = opt_line("arena_size_limit"@, opt_num(m.arena_cache_size));
    let t2 = opt_line("tensor_allocator"@, match m.tensor_allocator { Some(t) => Some(t.name()), None => None });
    let t3 = opt_line("cpu_tensor_alignment"@, match m.cpu_tensor_alignment { Some(a) => Some(decimal(a as nat)), None => None });
    let t4 = opt_line("separate_io_regions"@, opt_bool(m.separate_io_regions));
    let t6 = opt_line("verbose"@, opt_bool(m.verbose_schedule));
    let t7 = opt_line("verbose_allocation"@, opt_bool(m.verbose_allocation));
    let raw = raw_lines(m.raw, Section::Scheduler);
    let p0 = "\n[scheduler]\n"@;
    assert(p0.last() == '\n');
    lemma_ends_line_after(p0, "optimize"@, match m.optimize { Some(o) => Some(o.name()), None => None });
    lemma_ends_line_after(p0 + t0, "arena_size_limit"@, opt_num(m.arena_cache_size));
    lemma_ends_line_after(p0 + t0 + t1, "tensor_allocator"@, match m.tensor_allocator { Some(t) => Some(t.name()), None => None });
    lemma_ends_line_after(p0 + t0 + t1 + t2, "cpu_tensor_alignment"@, match m.cpu_tensor_alignment { Some(a) => Some(decimal(a as nat)), None => None });
    lemma_ends_line_after(p0 + t0 + t1 + t2 + t3, "separate_io_regions"@, opt_bool(m.separate_io_regions));
    let p = p0 + t0 + t1 + t2 + t3 + t4;
    let r = t6 + t7 + raw;
    let l = "disable_feature"@ + "="@ + features_value(v) + "\n"@;
    let e = opt_line("disable_feature"@, None);
    assert(p + e =~= p);
    vstd::seq_lib::lemma_concat_associative(p + l, t6, t7);
    vstd::seq_lib::lemma_concat_associative(p + l, t6 + t7, raw);
    vstd::seq_lib::lemma_concat_associative(p, t6, t7);
    vstd::seq_lib::lemma_concat_associative(p, t6 + t7, raw);
    assert((OptionsModel { disable_features: v, ..m }).scheduler_section() == p + l + t6 + t7 + raw);
    assert((OptionsModel { disable_features: 0, ..m }).scheduler_section() == p + e + t6 + t7 + raw);
}

/// Setting `verbose_schedule` to `v` writes `verbose=<v>` as one line of the
/// `[scheduler]` section, at the start of a line, and changes nothing else
/// there; left unset, nothing is written in its place. The line comes from this
/// option alone, whatever the others hold.
pub proof fn law_verbose_schedule_line(m: OptionsModel, v: bool)
    ensures
        exists|p: Seq<char>, r: Seq<char>|
            {
                &&& p.len() > 0 && p.last() == '\n'
                &&& (OptionsModel { verbose_schedule: Some(v), ..m }).scheduler_section() == p
                    + ("verbose"@ + "="@ + bool_text(v) + "\n"@) + r
                &&& (OptionsModel { verbose_schedule: None, ..m }).scheduler_section() == p + r
            },
{
    reveal_strlit("\n[scheduler]\n");
    let t0 = opt_line("optimize"@, match m.optimize { Some(o) => Some(o.name()), None => None });
    let t1 = opt_line("arena_size_limit"@, opt_num(m.arena_cache_size));
    let t2 = opt_line("tensor_allocator"@, match m.tensor_allocator { Some(t) => Some(t.name()), None => None });
    let t3 = opt_line("cpu_tensor_alignment"@, match m.cpu_tensor_alignment { Some(a) => Some(decimal(a as nat)), None => None });
    let t4 = opt_line("separate_io_regions"@, opt_bool(m.separate_io_regions));
    let t5 = opt_line("disable_feature"@, if m.disable_features == 0 { None } else { Some(features_value(m.disable_features)) });
    let t7 = opt_line("verbose_allocation"@, opt_bool(m.verbose_allocation));
    let raw = raw_lines(m.raw, Section::Scheduler);
    let p0 = "\n[scheduler]\n"@;
    assert(p0.last() == '\n');
    lemma_ends_line_after(p0, "optimize"@, match m.optimize { Some(o) => Some(o.name()), None => None });
    lemma_ends_line_after(p0 + t0, "arena_size_limit"@, opt_num(m.arena_cache_size));
    lemma_ends_line_after(p0 + t0 + t1, "tensor_allocator"@, match m.tensor_allocator { Some(t) => Some(t.name()), None => None });
    lemma_ends_line_after(p0 + t0 + t1 + t2, "cpu_tensor_alignment"@, match m.cpu_tensor_alignment { Some(a) => Some(decimal(a as nat)), None => None });
    lemma_ends_line_after(p0 + t0 + t1 + t2 + t3, "separate_io_regions"@, opt_bool(m.separate_io_regions));
    lemma_ends_line_after(p0 + t0 + t1 + t2 + t3 + t4, "disable_feature"@, if m.disable_features == 0 { None } else { Some(features_value(m.disable_features)) });
    let p = p0 + t0 + t1 + t2 + t3 + t4 + t5;
    let r = t7 + raw;
    let l = "verbose"@ + "="@ + bool_text(v) + "\n"@;
    let e = opt_line("verbose"@, None);
    assert(p + e =~= p);
    vstd::seq_lib::lemma_concat_associative(p + l, t7, raw);
    vstd::seq_lib::lemma_concat_associative(p, t7, raw);
    assert((OptionsModel { verbose_schedule: Some(v), ..m }).scheduler_section() == p + l + t7 + raw);
    assert((OptionsModel { verbose_schedule: None, ..m }).scheduler_section() == p + e + t7 + raw);
}

/// Setting `verbose_allocation` to `v` writes `verbose_allocation=<v>` as one
/// line of the `[scheduler]` section, at the start of a line, and changes
/// nothing else there; left unset, nothing is written in its place. The line
/// comes from this option alone, whatever the others hold.
pub proof fn law_verbose_allocation_line(m: OptionsModel, v: bool)
    ensures
        exists|p: Seq<char>, r: Seq<char>|
            {
                &&& p.len() > 0 && p.last() == '\n'
                &&& (OptionsModel { verbose_allocation: Some(v), ..m }).scheduler_section() == p
                    + ("verbose_allocation"@ + "="@ + bool_text(v) + "\n"@) + r
                &&& (OptionsModel { verbose_allocation: None, ..m }).scheduler_section() == p + r
            },
{
    reveal_strlit("\n[scheduler]\n");
    let t0 = opt_line("optimize"@, match m.optimize { Some(o) => Some(o.name()), None => None });
    let t1 = opt_line("arena_size_limit"@, opt_num(m.arena_cache_size));
    let t2 = opt_line("tensor_allocator"@, match m.tensor_allocator { Some(t) => Some(t.name()), None => None });
    let t3 = opt_line("cpu_tensor_alignment"@, match m.cpu_tensor_alignment { Some(a) => Some(decimal(a as nat)), None => None });
    let t4 = opt_line("separate_io_regions"@, opt_bool(m.separate_io_regions));
    let t5 = opt_line("disable_feature"@, if m.disable_features == 0 { None } else { Some(features_value(m.disable_features)) });
    let t6 = opt_line("verbose"@, opt_bool(m.verbose_schedule));
    let raw = raw_lines(m.raw, Section::Scheduler);
    let p0 = "\n[scheduler]\n"@;
    assert(p0.last() == '\n');
    lemma_ends_line_after(p0, "optimize"@, match m.optimize { Some(o) => Some(o.name()), None => None });
    lemma_ends_line_after(p0 + t0, "arena_size_limit"@, opt_num(m.arena_cache_size));
    lemma_ends_line_after(p0 + t0 + t1, "tensor_allocator"@, match m.tensor_allocator { Some(t) => Some(t.name()), None => None });
    lemma_ends_line_after(p0 + t0 + t1 + t2, "cpu_tensor_alignment"@, match m.cpu_tensor_alignment { Some(a) => Some(decimal(a as nat)), None => None });
    lemma_ends_line_after(p0 + t0 + t1 + t2 + t3, "separate_io_regions"@, opt_bool(m.separate_io_regions));
    lemma_ends_line_after(p0 + t0 + t1 + t2 + t3 + t4, "disable_feature"@, if m.disable_features == 0 { None } else { Some(features_value(m.disable_features)) });
    lemma_ends_line_after(p0 + t0 + t1 + t2 + t3 + t4 + t5, "verbose"@, opt_bool(m.verbose_schedule));
    let p = p0 + t0 + t1 + t2 + t3 + t4 + t5 + t6;
    let r = raw;
    let l = "verbose_allocation"@ + "="@ + bool_text(v) + "\n"@;
    let e = opt_line("verbose_allocation"@, None);
    assert(p + e =~= p);
    assert((OptionsModel { verbose_allocation: Some(v), ..m }).scheduler_section() == p + l + raw);
    assert((OptionsModel { verbose_allocation: None, ..m }).scheduler_section() == p + e + raw);
}

/// Setting a non-empty list `v` of ignored operators writes `ignore_ops=` and
/// the comma-separated list of `v` as one line of the `[graph]` section, at the
/// start of a line, and changes nothing else there; left unset, nothing is
/// written in its place. The line comes from this option alone, whatever the
/// others hold.
pub proof fn law_ignore_ops_line(m: OptionsModel, v: Seq<Seq<char>>)
    requires
        v.len() > 0,
    ensures
        exists|p: Seq<char>, r: Seq<char>|
            {
                &&& p.len() > 0 && p.last() == '\n'
                &&& (OptionsModel { ignore_ops: v, ..m }).graph_section() == p
                    + ("ignore_ops"@ + "="@ + join(v, ","@) + "\n"@) + r
                &&& (OptionsModel { ignore_ops: Seq::empty(), ..m }).graph_section() == p + r
            },
{
    reveal_strlit("\n[graph]\n");
    let t1 = opt_line("verbose"@, opt_bool(m.verbose_graph));
    let t2 = opt_line("verbose_quantization"@, opt_bool(m.verbose_quantization));
    let t3 = opt_line("softmax_int16_neg_exp_range"@, match m.softmax_int16_neg_exp_range { Some(r) => Some(r.1), None => None });
    let raw = raw_lines(m.raw, Section::Graph);
    let p0 = "\n[graph]\n"@;
    assert(p0.last() == '\n');
    let p = p0;
    let r = t1 + t2 + t3 + raw;
    let l = "ignore_ops"@ + "="@ + join(v, ","@) + "\n"@;
    let e = opt_line("ignore_ops"@, None);
    assert(p + e =~= p);
    vstd::seq_lib::lemma_concat_associative(p + l, t1, t2);
    vstd::seq_lib::lemma_concat_associative(p + l, t1 + t2, t3);
    vstd::seq_lib::lemma_concat_associative(p + l, t1 + t2 + t3, raw);
    vstd::seq_lib::lemma_concat_associative(p, t1, t2);
    vstd::seq_lib::lemma_concat_associative(p, t1 + t2, t3);
    vstd::seq_lib::lemma_concat_associative(p, t1 + t2 + t3, raw);
    assert((OptionsModel { ignore_ops: v, ..m }).graph_section() == p + l + t1 + t2 + t3 + raw);
    assert((OptionsModel { ignore_ops: Seq::empty(), ..m }).graph_section() == p + e + t1 + t2 + t3 + raw);
}

/// Setting `verbose_graph` to `v` writes `verbose=<v>` as one line of the
/// `[graph]` section, at the start of a line, and changes nothing else there;
/// left unset, nothing is written in its place. The line comes from this option
/// alone, whatever the others hold.
pub proof fn law_verbose_graph_line(m: OptionsModel, v: bool)
    ensures
        exists|p: Seq<char>, r: Seq<char>|
            {
                &&& p.len() > 0 && p.last() == '\n'
                &&& (OptionsModel { verbose_graph: Some(v), ..m }).graph_section() == p
                    + ("verbose"@ + "="@ + bool_text(v) + "\n"@) + r
                &&& (OptionsModel { verbose_graph: None, ..m }).graph_section() == p + r
            },
{
    reveal_strlit("\n[graph]\n");
    let t0 = opt_line("ignore_ops"@, if m.ignore_ops.len() == 0 { None } else { Some(join(m.ignore_ops, ","@)) });
    let t2 = opt_line("verbose_quantization"@, opt_bool(m.verbose_quantization));
    let t3 = opt_line("softmax_int16_neg_exp_range"@, match m.softmax_int16_neg_exp_range { Some(r) => Some(r.1), None => None });
    let raw = raw_lines(m.raw, Section::Graph);
    let p0 = "\n[graph]\n"@;
    assert(p0.last() == '\n');
    lemma_ends_line_after(p0, "ignore_ops"@, if m.ignore_ops.len() == 0 { None } else { Some(join(m.ignore_ops, ","@)) });
    let p = p0 + t0;
    let r = t2 + t3 + raw;
    let l = "verbose"@ + "="@ + bool_text(v) + "\n"@;
    let e = opt_line("verbose"@, None);
    assert(p + e =~= p);
    vstd::seq_lib::lemma_concat_associative(p + l, t2, t3);
    vstd::seq_lib::lemma_concat_associative(p + l, t2 + t3, raw);
    vstd::seq_lib::lemma_concat_associative(p, t2, t3);
    vstd::seq_lib::lemma_concat_associative(p, t2 + t3, raw);
    assert((OptionsModel { verbose_graph: Some(v), ..m }).graph_section() == p + l + t2 + t3 + raw);
    assert((OptionsModel { verbose_graph: None, ..m }).graph_section() == p + e + t2 + t3 + raw);
}

/// Setting `verbose_quantization` to `v` writes `verbose_quantization=<v>` as
/// one line of the `[graph]` section, at the start of a line, and changes
/// nothing else there; left unset, nothing is written in its place. The line
/// comes from this option alone, whatever the others hold.
pub proof fn law_verbose_quantization_line(m: OptionsModel, v: bool)
    ensures
        exists|p: Seq<char>, r: Seq<char>|
            {
                &&& p.len() > 0 && p.last() == '\n'
                &&& (OptionsModel { verbose_quantization: Some(v), ..m }).graph_section() == p
                    + ("verbose_quantization"@ + "="@ + bool_text(v) + "\n"@) + r
                &&& (OptionsModel { verbose_quantization: None, ..m }).graph_section() == p + r
            },
{
    reveal_strlit("\n[graph]\n");
    let t0 = opt_line("ignore_ops"@, if m.ignore_ops.len() == 0 { None } else { Some(join(m.ignore_ops, ","@)) });
    let t1 = opt_line("verbose"@, opt_bool(m.verbose_graph));
    let t3 = opt_line("softmax_int16_neg_exp_range"@, match m.softmax_int16_neg_exp_range { Some(r) => Some(r.1), None => None });
    let raw = raw_lines(m.raw, Section::Graph);
    let p0 = "\n[graph]\n"@;
    assert(p0.last() == '\n');
    lemma_ends_line_after(p0, "ignore_ops"@, if m.ignore_ops.len() == 0 { None } else { Some(join(m.ignore_ops, ","@)) });
    lemma_ends_line_after(p0 + t0, "verbose"@, opt_bool(m.verbose_graph));
    let p = p0 + t0 + t1;
    let r = t3 + raw;
    let l = "verbose_quantization"@ + "="@ + bool_text(v) + "\n"@;
    let e = opt_line("verbose_quantization"@, None);
    assert(p + e =~= p);
    vstd::seq_lib::lemma_concat_associative(p + l, t3, raw);
    vstd::seq_lib::lemma_concat_associative(p, t3, raw);
    assert((OptionsModel { verbose_quantization: Some(v), ..m }).graph_section() == p + l + t3 + raw);
    assert((OptionsModel { verbose_quantization: None, ..m }).graph_section() == p + e + t3 + raw);
}

/// Setting `softmax_int16_neg_exp_range` to `v` writes
/// `softmax_int16_neg_exp_range=` and the text of `v` as one line of the
/// `[graph]` section, at the start of a line, and changes nothing else there;
/// left unset, nothing is written in its place. The line comes from this option
/// alone, whatever the others hold.
pub proof fn law_softmax_int16_neg_exp_range_line(m: OptionsModel, v: (u32, Seq<char>))
    ensures
        exists|p: Seq<char>, r: Seq<char>|
            {
                &&& p.len() > 0 && p.last() == '\n'
                &&& (OptionsModel { softmax_int16_neg_exp_range: Some(v), ..m }).graph_section() == p
                    + ("softmax_int16_neg_exp_range"@ + "="@ + v.1 + "\n"@) + r
                &&& (OptionsModel { softmax_int16_neg_exp_range: None, ..m }).graph_section() == p + r
            },
{
    reveal_strlit("\n[graph]\n");
    let t0 = opt_line("ignore_ops"@, if m.ignore_ops.len() == 0 { None } else { Some(join(m.ignore_ops, ","@)) });
    let t1 = opt_line("verbose"@, opt_bool(m.verbose_graph));
    let t2 = opt_line("verbose_quantization"@, opt_bool(m.verbose_quantization));
    let raw = raw_lines(m.raw, Section::Graph);
    let p0 = "\n[graph]\n"@;
    assert(p0.last() == '\n');
    lemma_ends_line_after(p0, "ignore_ops"@, if m.ignore_ops.len() == 0 { None } else { Some(join(m.ignore_ops, ","@)) });
    lemma_ends_line_after(p0 + t0, "verbose"@, opt_bool(m.verbose_graph));
    lemma_ends_line_after(p0 + t0 + t1, "verbose_quantization"@, opt_bool(m.verbose_quantization));
    let p = p0 + t0 + t1 + t2;
    let r = raw;
    let l = "softmax_int16_neg_exp_range"@ + "="@ + v.1 + "\n"@;
    let e = opt_line("softmax_int16_neg_exp_range"@, None);
    assert(p + e =~= p);
    assert((OptionsModel { softmax_int16_neg_exp_range: Some(v), ..m }).graph_section() == p + l + raw);
    assert((OptionsModel { softmax_int16_neg_exp_range: None, ..m }).graph_section() == p + e + raw);
}

/// Setting `trace` to `v` opens the `[debug]` section with the one line
/// `trace=<v>`, followed by the escape-hatch lines given for that section;
/// left unset with no such line, the section is not written at all.
pub proof fn law_trace_line(m: OptionsModel, v: bool)
    ensures
        (OptionsModel { trace: Some(v), ..m }).debug_section() == "\n[debug]\n"@ + ("trace"@ + "="@
            + bool_text(v) + "\n"@) + raw_lines(m.raw, Section::Debug),
        !has_debug_raw(m.raw) ==> (OptionsModel { trace: None, ..m }).debug_section().len() == 0,
{
}

/// An escape-hatch entry adds its line at the end of its own section's
/// lines, and leaves every other section's lines as they were.
pub proof fn law_raw_entry_goes_last(
    raw: Seq<(Section, Seq<char>, Seq<char>)>,
    entry: (Section, Seq<char>, Seq<char>),
    section: Section,
)
    ensures
        raw_lines(raw.push(entry), section) == raw_lines(raw, section) + if entry.0 == section {
            line(entry.1, entry.2)
        } else {
            Seq::empty()
        },
{
    assert(raw.push(entry).drop_last() =~= raw);
}

/// A copy of each string of a list.
fn clone_strings(v: &Vec<String>) -> (r: Vec<String>)
    ensures
        texts(r@) == texts(v@),
{
    let mut r: Vec<String> = Vec::new();
    let mut i: usize = 0;
    while i < v.len()
        invariant
            0 <= i <= v.len(),
            texts(r@) == texts(v@.take(i as int)),
        decreases v.len() - i,
    {
        let ghost before = r@;
        r.push(v[i].clone());
        assert(texts(r@) =~= texts(before).push(v@[i as int]@));
        assert(texts(v@.take(i + 1)) =~= texts(v@.take(i as int)).push(v@[i as int]@));
        i += 1;
    }
    assert(v@.take(v.len() as int) =~= v@);
    r
}

/// A copy of each escape-hatch entry.
fn clone_raw(v: &Vec<(Section, String, String)>) -> (r: Vec<(Section, String, String)>)
    ensures
        raw_texts(r@) == raw_texts(v@),
{
    let mut r: Vec<(Section, String, String)> = Vec::new();
    let mut i: usize = 0;
    while i < v.len()
        invariant
            0 <= i <= v.len(),
            raw_texts(r@) == raw_texts(v@.take(i as int)),
        decreases v.len() - i,
    {
        let ghost before = r@;
        let e = &v[i];
        r.push((e.0, e.1.clone(), e.2.clone()));
        assert(raw_texts(r@) =~= raw_texts(before).push((e.0, e.1@, e.2@)));
        assert(raw_texts(v@.take(i + 1)) =~= raw_texts(v@.take(i as int)).push((e.0, e.1@, e.2@)));
        i += 1;
    }
    assert(v@.take(v.len() as int) =~= v@);
    r
}

impl Clone for CompilerOptions {
    fn clone(&self) -> (r: Self)
        ensures
            r@ == self@,
    {
        let softmax = match &self.softmax_int16_neg_exp_range {
            Some(range) => Some(range.clone()),
            None => None,
        };
        CompilerOptions {
            output_format: self.output_format,
            cop_format: self.cop_format,
            enable_debug_db: self.enable_debug_db,
            perf_report: self.perf_report,
            verbose_high_level_command_stream: self.verbose_high_level_command_stream,
            verbose_register_command_stream: self.verbose_register_command_stream,
            optimize: self.optimize,
            arena_cache_size: self.arena_cache_size,
            tensor_allocator: self.tensor_allocator,
            cpu_tensor_alignment: self.cpu_tensor_alignment,
            separate_io_regions: self.separate_io_regions,
            disable_features: self.disable_features,
            verbose_schedule: self.verbose_schedule,
            verbose_allocation: self.verbose_allocation,
            verbose_graph: self.verbose_graph,
            verbose_quantization: self.verbose_quantization,
            trace: self.trace,
            ignore_ops: clone_strings(&self.ignore_ops),
            softmax_int16_neg_exp_range: softmax,
            raw: clone_raw(&self.raw),
        }
    }
}

} // verus!
