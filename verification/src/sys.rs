//! The plain values of regor's C interface: its enumerations with the
//! numbers the C side uses, its size limits, and the report records it fills
//! in, held here with their character arrays as byte vectors and their
//! pointers as optional vectors.

#![allow(non_camel_case_types)]

use vstd::prelude::*;

verus! {

/// The longest memory or operator name a report holds, NUL included.
pub const REGOR_PERF_NAME_MAX: usize = 32;

/// The most constraints reported for one operator.
pub const REGOR_MAX_CONSTRAINTS: usize = 32;

/// The longest constraint text, NUL included.
pub const REGOR_CONSTRAINT_MAX_LENGTH: usize = 512;

/// Bit flags on a raw tensor.
pub type regor_raw_tensor_flags_t = u32;

/// The raw tensor flag saying that quantization parameters follow.
pub const REGOR_RAW_TENSOR_FLAG_HAS_QUANTIZATION: regor_raw_tensor_flags_t = 1;

/// Input model format.
#[derive(Debug, Clone, Copy, PartialEq, Eq, Hash, Structural)]
pub enum regor_format_t {
    REGOR_INPUTFORMAT_GRAPHAPI,
    REGOR_INPUTFORMAT_TFLITE,
    REGOR_INPUTFORMAT_TOSA,
}

impl regor_format_t {
    /// The number the C interface gives this format.
    pub fn value(self) -> (v: u32)
        ensures
            v == match self {
                regor_format_t::REGOR_INPUTFORMAT_GRAPHAPI => 0u32,
                regor_format_t::REGOR_INPUTFORMAT_TFLITE => 1u32,
                regor_format_t::REGOR_INPUTFORMAT_TOSA => 2u32,
            },
    {
        match self {
            regor_format_t::REGOR_INPUTFORMAT_GRAPHAPI => 0,
            regor_format_t::REGOR_INPUTFORMAT_TFLITE => 1,
            regor_format_t::REGOR_INPUTFORMAT_TOSA => 2,
        }
    }
}

/// Logging output format.
#[derive(Debug, Clone, Copy, PartialEq, Eq, Hash, Structural)]
pub enum regor_logging_format_t {
    REGOR_LOG_FORMAT_TEXT,
    REGOR_LOG_FORMAT_TERMINAL,
}

impl regor_logging_format_t {
    /// The number the C interface gives this format.
    pub fn value(self) -> (v: u32)
        ensures
            v == match self {
                regor_logging_format_t::REGOR_LOG_FORMAT_TEXT => 0u32,
                regor_logging_format_t::REGOR_LOG_FORMAT_TERMINAL => 1u32,
            },
    {
        match self {
            regor_logging_format_t::REGOR_LOG_FORMAT_TEXT => 0,
            regor_logging_format_t::REGOR_LOG_FORMAT_TERMINAL => 1,
        }
    }
}

/// Tensor type tag inside a raw tensor header.
#[derive(Debug, Clone, Copy, PartialEq, Eq, Hash, Structural)]
pub enum raw_tensor_type_t {
    RAW_TENSOR_TYPE_COMMAND_STREAM,
    RAW_TENSOR_TYPE_READ_ONLY,
    RAW_TENSOR_TYPE_SCRATCH,
    RAW_TENSOR_TYPE_SCRATCH_FAST,
    RAW_TENSOR_TYPE_INPUT,
    RAW_TENSOR_TYPE_OUTPUT,
    RAW_TENSOR_TYPE_VARIABLE,
}

impl raw_tensor_type_t {
    /// The number the C interface gives this tensor type.
    pub open spec fn number(self) -> u32 {
        match self {
            raw_tensor_type_t::RAW_TENSOR_TYPE_COMMAND_STREAM => 0,
            raw_tensor_type_t::RAW_TENSOR_TYPE_READ_ONLY => 1,
            raw_tensor_type_t::RAW_TENSOR_TYPE_SCRATCH => 2,
            raw_tensor_type_t::RAW_TENSOR_TYPE_SCRATCH_FAST => 3,
            raw_tensor_type_t::RAW_TENSOR_TYPE_INPUT => 4,
            raw_tensor_type_t::RAW_TENSOR_TYPE_OUTPUT => 5,
            raw_tensor_type_t::RAW_TENSOR_TYPE_VARIABLE => 6,
        }
    }

    /// The number the C interface gives this tensor type.
    pub fn value(self) -> (v: u32)
        ensures
            v == self.number(),
    {
        match self {
            raw_tensor_type_t::RAW_TENSOR_TYPE_COMMAND_STREAM => 0,
            raw_tensor_type_t::RAW_TENSOR_TYPE_READ_ONLY => 1,
            raw_tensor_type_t::RAW_TENSOR_TYPE_SCRATCH => 2,
            raw_tensor_type_t::RAW_TENSOR_TYPE_SCRATCH_FAST => 3,
            raw_tensor_type_t::RAW_TENSOR_TYPE_INPUT => 4,
            raw_tensor_type_t::RAW_TENSOR_TYPE_OUTPUT => 5,
            raw_tensor_type_t::RAW_TENSOR_TYPE_VARIABLE => 6,
        }
    }
}

/// Memory region a tensor resides in.
#[derive(Debug, Clone, Copy, PartialEq, Eq, Hash, Structural)]
pub enum raw_tensor_region_t {
    RAW_TENSOR_REGION_WEIGHTS,
    RAW_TENSOR_REGION_SCRATCH,
    RAW_TENSOR_REGION_SCRATCH_FAST,
}

impl raw_tensor_region_t {
    /// The number the C interface gives this region.
    pub fn value(self) -> (v: u32)
        ensures
            v == match self {
                raw_tensor_region_t::RAW_TENSOR_REGION_WEIGHTS => 0u32,
                raw_tensor_region_t::RAW_TENSOR_REGION_SCRATCH => 1u32,
                raw_tensor_region_t::RAW_TENSOR_REGION_SCRATCH_FAST => 2u32,
            },
    {
        match self {
            raw_tensor_region_t::RAW_TENSOR_REGION_WEIGHTS => 0,
            raw_tensor_region_t::RAW_TENSOR_REGION_SCRATCH => 1,
            raw_tensor_region_t::RAW_TENSOR_REGION_SCRATCH_FAST => 2,
        }
    }
}

/// The header of one tensor in the raw output format.
#[derive(Clone, Copy)]
pub struct regor_raw_tensor_header_t {
    pub tensor_type: raw_tensor_type_t,
    pub region: raw_tensor_region_t,
    pub flags: regor_raw_tensor_flags_t,
    pub offset: u64,
    pub size: u64,
}

/// The quantization record that follows a raw tensor header: its count,
/// after which the C side places `count` scales and `count` zero points.
#[derive(Debug, Clone, Copy, PartialEq, Eq, Structural)]
pub struct regor_raw_quantization_t {
    pub count: u32,
}

/// Memory access performance for one region, as the C side reports it.
#[derive(Debug, Clone)]
pub struct regor_memory_access_perf_t {
    /// The bytes of the NUL-terminated name array.
    pub memory_name: Vec<u8>,
    /// The bytes of the NUL-terminated access type array.
    pub access_type: Vec<u8>,
    pub bytes_read: i64,
    pub bytes_written: i64,
    pub access_cycles: i64,
}

/// Peak memory usage for one region, as the C side reports it.
#[derive(Debug, Clone)]
pub struct regor_peak_memory_usage_t {
    /// The bytes of the NUL-terminated name array.
    pub memory_name: Vec<u8>,
    pub peak_usage: i64,
    pub total_access_cycles: i64,
}

/// The performance report as the C side fills it in.
#[derive(Debug, Clone)]
pub struct regor_perf_report_t {
    pub npu_cycles: i64,
    pub cpu_cycles: i64,
    pub total_cycles: i64,
    pub mac_count: i64,
    pub cpu_ops: i64,
    pub npu_ops: i64,
    pub cascaded_ops: i64,
    pub cascades: i64,
    pub original_weights: i64,
    pub encoded_weights: i64,
    pub read_only_peak_usage: i32,
    pub access_count: i32,
    pub memory: i32,
    pub num_memories: i32,
    pub staging_memory: i32,
    /// The fixed array of per-region peak usages.
    pub peak_usages: Vec<regor_peak_memory_usage_t>,
    /// The access records: `None` where the C pointer is null, else the
    /// `access_count` records it points at.
    pub access: Option<Vec<regor_memory_access_perf_t>>,
}

/// One operator's constraints as the C side reports them.
#[derive(Debug, Clone)]
pub struct regor_operator_constraints_t {
    /// The bytes of the NUL-terminated operator name array.
    pub operator_name: Vec<u8>,
    /// The bytes of each NUL-terminated constraint array.
    pub constraint: Vec<Vec<u8>>,
    /// How many of `constraint` are in use.
    pub constraints: i32,
}

/// The operator constraints report as the C side fills it in.
#[derive(Debug, Clone)]
pub struct regor_operator_constraints_report_t {
    /// `None` where the C pointer is null, else the `operators` records it
    /// points at.
    pub op_constraints: Option<Vec<regor_operator_constraints_t>>,
    pub operators: i32,
}

impl regor_memory_access_perf_t {
    /// Whether the record has the shape of the C one: two name arrays of
    /// `REGOR_PERF_NAME_MAX` bytes.
    pub open spec fn well_formed(self) -> bool {
        &&& self.memory_name@.len() == REGOR_PERF_NAME_MAX
        &&& self.access_type@.len() == REGOR_PERF_NAME_MAX
    }
}

impl regor_peak_memory_usage_t {
    /// Whether the record has the shape of the C one: a name array of
    /// `REGOR_PERF_NAME_MAX` bytes.
    pub open spec fn well_formed(self) -> bool {
        self.memory_name@.len() == REGOR_PERF_NAME_MAX
    }
}

impl regor_perf_report_t {
    /// Whether the report has the shape of the C one: four peak usage
    /// records, and where the access pointer is set, `access_count` access
    /// records (none where that count is not positive).
    pub open spec fn well_formed(self) -> bool {
        &&& self.peak_usages@.len() == 4
        &&& forall|i: int| 0 <= i < 4 ==> (#[trigger] self.peak_usages@[i]).well_formed()
        &&& self.access matches Some(v) ==> {
            &&& v@.len() == if self.access_count > 0 {
                self.access_count as int
            } else {
                0
            }
            &&& forall|i: int| 0 <= i < v@.len() ==> (#[trigger] v@[i]).well_formed()
        }
    }
}

impl regor_operator_constraints_t {
    /// Whether the record has the shape of the C one: a name array of
    /// `REGOR_PERF_NAME_MAX` bytes and `REGOR_MAX_CONSTRAINTS` constraint
    /// arrays of `REGOR_CONSTRAINT_MAX_LENGTH` bytes.
    pub open spec fn well_formed(self) -> bool {
        &&& self.operator_name@.len() == REGOR_PERF_NAME_MAX
        &&& self.constraint@.len() == REGOR_MAX_CONSTRAINTS
        &&& forall|i: int|
            0 <= i < REGOR_MAX_CONSTRAINTS ==> (#[trigger] self.constraint@[i])@.len()
                == REGOR_CONSTRAINT_MAX_LENGTH
    }
}

impl regor_operator_constraints_report_t {
    /// Whether the report has the shape of the C one: where the pointer is
    /// set, `operators` records (none where that count is not positive), each
    /// of the C record's shape.
    pub open spec fn well_formed(self) -> bool {
        self.op_constraints matches Some(v) ==> {
            &&& v@.len() == if self.operators > 0 {
                self.operators as int
            } else {
                0
            }
            &&& forall|i: int| 0 <= i < v@.len() ==> (#[trigger] v@[i]).well_formed()
        }
    }
}

} // verus!
