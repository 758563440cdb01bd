//! Point-in-time memory and CPU readings, as reported by the metrics endpoint.
use vstd::prelude::*;

use crate::usage::{cpu_usage_percent, mean_usage, within_full, FULL_CORE};

verus! {

/// Used bytes as reported: the reading, capped at the total so that the
/// free figure can always be derived from the other two.
pub open spec fn used_part(total: u64, used: u64) -> u64 {
    if used <= total {
        used
    } else {
        total
    }
}

/// Free bytes: whatever of the total is not used.
pub open spec fn free_part(total: u64, used: u64) -> int {
    total - used_part(total, used)
}

/// Memory byte counts and the number of logical cores.
#[derive(Clone, Copy, Debug, PartialEq, Eq, Structural)]
pub struct MemoryStats {
    pub total_memory: u64,
    pub used_memory: u64,
    pub free_memory: u64,
    pub cpu_cores: usize,
}

impl MemoryStats {
    /// Used and free bytes add up to the total.
    pub open spec fn wf(&self) -> bool {
        self.used_memory + self.free_memory == self.total_memory
    }
}

/// One answer of the metrics endpoint. `cpu_usage` is in hundredths of a percent.
#[derive(Clone, Copy, Debug, PartialEq, Eq, Structural)]
pub struct MetricsSnapshot {
    pub cpu_usage: u32,
    pub total_memory: u64,
    pub used_memory: u64,
    pub free_memory: u64,
    pub cpu_cores: usize,
}

impl MetricsSnapshot {
    /// Used and free bytes add up to the total.
    pub open spec fn wf(&self) -> bool {
        self.used_memory + self.free_memory == self.total_memory
    }
}

/// Memory statistics from a total and a used reading; free memory is the
/// difference, with the used reading capped at the total.
pub fn memory_stats(total: u64, used: u64, cpu_cores: usize) -> (r: MemoryStats)
    ensures
        r.total_memory == total,
        r.used_memory == used_part(total, used),
        r.free_memory == free_part(total, used),
        r.cpu_cores == cpu_cores,
        r.wf(),
        used <= total ==> r.used_memory == used,
{
    let used_memory = if used <= total {
        used
    } else {
        total
    };
    MemoryStats { total_memory: total, used_memory, free_memory: total - used_memory, cpu_cores }
}

/// The snapshot for the given per-core readings and memory figures: the mean
/// of the readings, one core per reading, and the memory statistics.
pub fn metrics_snapshot(per_core: &Vec<u32>, total: u64, used: u64) -> (r: MetricsSnapshot)
    ensures
        r.cpu_usage == mean_usage(per_core@),
        r.total_memory == total,
        r.used_memory == used_part(total, used),
        r.free_memory == free_part(total, used),
        r.cpu_cores == per_core@.len(),
        r.wf(),
        within_full(per_core@) ==> r.cpu_usage <= FULL_CORE,
{
    let cpu_usage = cpu_usage_percent(per_core);
    let mem = memory_stats(total, used, per_core.len());
    MetricsSnapshot {
        cpu_usage,
        total_memory: mem.total_memory,
        used_memory: mem.used_memory,
        free_memory: mem.free_memory,
        cpu_cores: mem.cpu_cores,
    }
}

/// Used and free memory always add up to the total, and when the used reading
/// does not exceed the total, free memory is exactly the difference.
pub proof fn lemma_used_plus_free_is_total(total: u64, used: u64)
    ensures
        used_part(total, used) + free_part(total, used) == total,
        used <= total ==> free_part(total, used) == total - used,
{
}

} // verus!
