use vstd::prelude::*;

verus! {

/// Bounds the CPU controller keeps the scheduler tunables within.
#[derive(Debug, Clone, Copy, PartialEq, Eq, Structural)]
pub struct CpuLimitsConfig {
    pub min_latency_ns: u64,
    pub max_latency_ns: u64,
    pub min_granularity_ns: u64,
    pub max_granularity_ns: u64,
    pub min_wakeup_ns: u64,
    pub max_wakeup_ns: u64,
    pub min_migration_cost: u64,
    pub max_migration_cost: u64,
    pub min_walt_init_pct: u64,
    pub max_walt_init_pct: u64,
    pub min_uclamp_min: u64,
    pub max_uclamp_min: u64,
}

/// The CPU bounds used when the host gives none.
pub open spec fn default_cpu_limits() -> CpuLimitsConfig {
    CpuLimitsConfig {
        min_latency_ns: 8_000_000,
        max_latency_ns: 20_000_000,
        min_granularity_ns: 2_500_000,
        max_granularity_ns: 6_500_000,
        min_wakeup_ns: 1_500_000,
        max_wakeup_ns: 6_500_000,
        min_migration_cost: 200_000,
        max_migration_cost: 600_000,
        min_walt_init_pct: 10,
        max_walt_init_pct: 40,
        min_uclamp_min: 0,
        max_uclamp_min: 384,
    }
}

impl Default for CpuLimitsConfig {
    fn default() -> (c: Self)
        ensures
            c == default_cpu_limits(),
    {
        CpuLimitsConfig {
            min_latency_ns: 8_000_000,
            max_latency_ns: 20_000_000,
            min_granularity_ns: 2_500_000,
            max_granularity_ns: 6_500_000,
            min_wakeup_ns: 1_500_000,
            max_wakeup_ns: 6_500_000,
            min_migration_cost: 200_000,
            max_migration_cost: 600_000,
            min_walt_init_pct: 10,
            max_walt_init_pct: 40,
            min_uclamp_min: 0,
            max_uclamp_min: 384,
        }
    }
}

/// Bounds the storage controller keeps the block queue tunables within.
#[derive(Debug, Clone, Copy, PartialEq, Eq, Structural)]
pub struct StorageLimitsConfig {
    pub min_read_ahead: u64,
    pub max_read_ahead: u64,
    pub min_nr_requests: u64,
    pub max_nr_requests: u64,
}

/// The storage bounds used when the host gives none.
pub open spec fn default_storage_limits() -> StorageLimitsConfig {
    StorageLimitsConfig {
        min_read_ahead: 128,
        max_read_ahead: 1024,
        min_nr_requests: 64,
        max_nr_requests: 256,
    }
}

impl Default for StorageLimitsConfig {
    fn default() -> (c: Self)
        ensures
            c == default_storage_limits(),
    {
        StorageLimitsConfig {
            min_read_ahead: 128,
            max_read_ahead: 1024,
            min_nr_requests: 64,
            max_nr_requests: 256,
        }
    }
}

/// Every minimum of the CPU bounds is at most its maximum.
pub open spec fn cpu_limits_ordered(c: CpuLimitsConfig) -> bool {
    &&& c.min_latency_ns <= c.max_latency_ns
    &&& c.min_granularity_ns <= c.max_granularity_ns
    &&& c.min_wakeup_ns <= c.max_wakeup_ns
    &&& c.min_migration_cost <= c.max_migration_cost
    &&& c.min_walt_init_pct <= c.max_walt_init_pct
    &&& c.min_uclamp_min <= c.max_uclamp_min
}

/// Every minimum of the storage bounds is at most its maximum.
pub open spec fn storage_limits_ordered(c: StorageLimitsConfig) -> bool {
    &&& c.min_read_ahead <= c.max_read_ahead
    &&& c.min_nr_requests <= c.max_nr_requests
}

/// The built-in bounds are ordered: no minimum exceeds its maximum.
pub proof fn law_default_limits_are_ordered()
    ensures
        cpu_limits_ordered(default_cpu_limits()),
        storage_limits_ordered(default_storage_limits()),
{
}

} // verus!
