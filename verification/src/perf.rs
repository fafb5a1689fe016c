//! The performance report of a compilation.

use vstd::prelude::*;
use crate::sys::{regor_memory_access_perf_t, regor_peak_memory_usage_t, regor_perf_report_t};
use crate::text::{c_text, c_text_of};

verus! {

/// Memory access performance for a single region.
#[derive(Debug, Clone)]
pub struct MemoryAccessPerf {
    pub memory_name: String,
    pub access_type: String,
    pub bytes_read: i64,
    pub bytes_written: i64,
    pub access_cycles: i64,
}

/// Peak memory usage for a single region.
#[derive(Debug, Clone)]
pub struct PeakMemoryUsage {
    pub memory_name: String,
    pub peak_usage: i64,
    pub total_access_cycles: i64,
}

/// Performance report from a compilation.
#[derive(Debug, Clone)]
pub struct PerfReport {
    pub npu_cycles: i64,
    pub cpu_cycles: i64,
    pub total_cycles: i64,
    pub mac_count: i64,
    pub cpu_ops: i64,
    pub npu_ops: i64,
    pub cascaded_ops: i64,
    pub cascades: i64,
    pub original_weights: i64,
    pub encoded_weights: i64,
    pub read_only_peak_usage: i32,
    pub access_count: i32,
    pub memory: i32,
    pub num_memories: i32,
    pub staging_memory: i32,
    pub peak_usages: Vec<PeakMemoryUsage>,
    pub accesses: Vec<MemoryAccessPerf>,
}

/// Whether `p` is the C record `raw` read into Rust values.
pub open spec fn peak_read_from(p: PeakMemoryUsage, raw: regor_peak_memory_usage_t) -> bool {
    &&& p.memory_name@ == c_text_of(raw.memory_name@)
    &&& p.peak_usage == raw.peak_usage
    &&& p.total_access_cycles == raw.total_access_cycles
}

/// Whether `a` is the C record `raw` read into Rust values.
pub open spec fn access_read_from(a: MemoryAccessPerf, raw: regor_memory_access_perf_t) -> bool {
    &&& a.memory_name@ == c_text_of(raw.memory_name@)
    &&& a.access_type@ == c_text_of(raw.access_type@)
    &&& a.bytes_read == raw.bytes_read
    &&& a.bytes_written == raw.bytes_written
    &&& a.access_cycles == raw.access_cycles
}

/// The access records a report carries: none where the C pointer is null
/// or the count is not positive, else those it points at.
pub open spec fn reported_accesses(raw: regor_perf_report_t) -> Seq<regor_memory_access_perf_t> {
    match raw.access {
        Some(v) => if raw.access_count <= 0 {
            Seq::empty()
        } else {
            v@
        },
        None => Seq::empty(),
    }
}

fn read_peak(raw: &regor_peak_memory_usage_t) -> (p: PeakMemoryUsage)
    ensures
        peak_read_from(p, *raw),
{
    PeakMemoryUsage {
        memory_name: c_text(raw.memory_name.as_slice()),
        peak_usage: raw.peak_usage,
        total_access_cycles: raw.total_access_cycles,
    }
}

fn read_access(raw: &regor_memory_access_perf_t) -> (a: MemoryAccessPerf)
    ensures
        access_read_from(a, *raw),
{
    MemoryAccessPerf {
        memory_name: c_text(raw.memory_name.as_slice()),
        access_type: c_text(raw.access_type.as_slice()),
        bytes_read: raw.bytes_read,
        bytes_written: raw.bytes_written,
        access_cycles: raw.access_cycles,
    }
}

impl PerfReport {
    /// Read the report regor filled in.
    pub fn from_raw(raw: &regor_perf_report_t) -> (r: PerfReport)
        ensures
            r.npu_cycles == raw.npu_cycles,
            r.cpu_cycles == raw.cpu_cycles,
            r.total_cycles == raw.total_cycles,
            r.mac_count == raw.mac_count,
            r.cpu_ops == raw.cpu_ops,
            r.npu_ops == raw.npu_ops,
            r.cascaded_ops == raw.cascaded_ops,
            r.cascades == raw.cascades,
            r.original_weights == raw.original_weights,
            r.encoded_weights == raw.encoded_weights,
            r.read_only_peak_usage == raw.read_only_peak_usage,
            r.access_count == raw.access_count,
            r.memory == raw.memory,
            r.num_memories == raw.num_memories,
            r.staging_memory == raw.staging_memory,
            r.peak_usages@.len() == raw.peak_usages@.len(),
            forall|i: int|
                0 <= i < raw.peak_usages@.len() ==> peak_read_from(
                    #[trigger] r.peak_usages@[i],
                    raw.peak_usages@[i],
                ),
            r.accesses@.len() == reported_accesses(*raw).len(),
            forall|i: int|
                0 <= i < reported_accesses(*raw).len() ==> access_read_from(
                    #[trigger] r.accesses@[i],
                    reported_accesses(*raw)[i],
                ),
            raw.well_formed() ==> r.peak_usages@.len() == 4,
            raw.well_formed() ==> r.accesses@.len() == if raw.access is Some && raw.access_count
                > 0 {
                raw.access_count as int
            } else {
                0
            },
    {
        let mut peak_usages: Vec<PeakMemoryUsage> = Vec::new();
        let mut i: usize = 0;
        while i < raw.peak_usages.len()
            invariant
                0 <= i <= raw.peak_usages@.len(),
                peak_usages@.len() == i,
                forall|j: int|
                    0 <= j < i ==> peak_read_from(#[trigger] peak_usages@[j], raw.peak_usages@[j]),
            decreases raw.peak_usages.len() - i,
        {
            peak_usages.push(read_peak(&raw.peak_usages[i]));
            i += 1;
        }
        let mut accesses: Vec<MemoryAccessPerf> = Vec::new();
        if let Some(records) = &raw.access {
            if raw.access_count > 0 {
                let mut k: usize = 0;
                while k < records.len()
                    invariant
                        0 <= k <= records@.len(),
                        accesses@.len() == k,
                        forall|j: int|
                            0 <= j < k ==> access_read_from(#[trigger] accesses@[j], records@[j]),
                    decreases records.len() - k,
                {
                    accesses.push(read_access(&records[k]));
                    k += 1;
                }
            }
        }
        PerfReport {
            npu_cycles: raw.npu_cycles,
            cpu_cycles: raw.cpu_cycles,
            total_cycles: raw.total_cycles,
            mac_count: raw.mac_count,
            cpu_ops: raw.cpu_ops,
            npu_ops: raw.npu_ops,
            cascaded_ops: raw.cascaded_ops,
            cascades: raw.cascades,
            original_weights: raw.original_weights,
            encoded_weights: raw.encoded_weights,
            read_only_peak_usage: raw.read_only_peak_usage,
            access_count: raw.access_count,
            memory: raw.memory,
            num_memories: raw.num_memories,
            staging_memory: raw.staging_memory,
            peak_usages,
            accesses,
        }
    }
}

} // verus!
