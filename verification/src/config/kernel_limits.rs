use vstd::prelude::*;
use crate::config::limits::{CpuLimitsConfig, StorageLimitsConfig};
use crate::hal::hardware::DeviceTier;

verus! {

/// Kernel-side CPU bounds, chosen by the tier of the device.
#[derive(Debug, Clone, Copy, PartialEq, Eq, Structural)]
pub struct CpuKernelLimitsConfig {
    pub min_latency_ns: u64,
    pub max_latency_ns: u64,
    pub min_granularity_ns: u64,
    pub max_granularity_ns: u64,
    pub min_wakeup_ns: u64,
    pub max_wakeup_ns: u64,
    pub min_migration_cost: u64,
    pub max_migration_cost: u64,
    pub min_walt_init_pct: u64,
    pub max_walt_init_pct: u64,
    pub min_uclamp_min: u64,
    pub max_uclamp_min: u64,
}

pub open spec fn spec_cpu_kernel_limits(tier: DeviceTier) -> CpuKernelLimitsConfig {
    match tier {
        DeviceTier::Flagship => CpuKernelLimitsConfig {
            min_latency_ns: 8_000_000,
            max_latency_ns: 18_000_000,
            min_granularity_ns: 2_500_000,
            max_granularity_ns: 6_000_000,
            min_wakeup_ns: 1_500_000,
            max_wakeup_ns: 6_000_000,
            min_migration_cost: 200_000,
            max_migration_cost: 600_000,
            min_walt_init_pct: 10,
            max_walt_init_pct: 40,
            min_uclamp_min: 0,
            max_uclamp_min: 384,
        },
        DeviceTier::MidRange => CpuKernelLimitsConfig {
            min_latency_ns: 9_000_000,
            max_latency_ns: 16_000_000,
            min_granularity_ns: 2_750_000,
            max_granularity_ns: 5_500_000,
            min_wakeup_ns: 1_750_000,
            max_wakeup_ns: 5_500_000,
            min_migration_cost: 225_000,
            max_migration_cost: 550_000,
            min_walt_init_pct: 12,
            max_walt_init_pct: 37,
            min_uclamp_min: 0,
            max_uclamp_min: 320,
        },
        DeviceTier::LowEnd => CpuKernelLimitsConfig {
            min_latency_ns: 10_000_000,
            max_latency_ns: 15_000_000,
            min_granularity_ns: 3_000_000,
            max_granularity_ns: 5_000_000,
            min_wakeup_ns: 2_000_000,
            max_wakeup_ns: 5_000_000,
            min_migration_cost: 250_000,
            max_migration_cost: 500_000,
            min_walt_init_pct: 15,
            max_walt_init_pct: 35,
            min_uclamp_min: 0,
            max_uclamp_min: 256,
        },
    }
}

impl CpuKernelLimitsConfig {
    /// The CPU bounds for a device of this tier.
    pub fn for_tier(tier: DeviceTier) -> (c: Self)
        ensures
            c == spec_cpu_kernel_limits(tier),
    {
        match tier {
            DeviceTier::Flagship => CpuKernelLimitsConfig {
                min_latency_ns: 8_000_000,
                max_latency_ns: 18_000_000,
                min_granularity_ns: 2_500_000,
                max_granularity_ns: 6_000_000,
                min_wakeup_ns: 1_500_000,
                max_wakeup_ns: 6_000_000,
                min_migration_cost: 200_000,
                max_migration_cost: 600_000,
                min_walt_init_pct: 10,
                max_walt_init_pct: 40,
                min_uclamp_min: 0,
                max_uclamp_min: 384,
            },
            DeviceTier::MidRange => CpuKernelLimitsConfig {
                min_latency_ns: 9_000_000,
                max_latency_ns: 16_000_000,
                min_granularity_ns: 2_750_000,
                max_granularity_ns: 5_500_000,
                min_wakeup_ns: 1_750_000,
                max_wakeup_ns: 5_500_000,
                min_migration_cost: 225_000,
                max_migration_cost: 550_000,
                min_walt_init_pct: 12,
                max_walt_init_pct: 37,
                min_uclamp_min: 0,
                max_uclamp_min: 320,
            },
            DeviceTier::LowEnd => CpuKernelLimitsConfig {
                min_latency_ns: 10_000_000,
                max_latency_ns: 15_000_000,
                min_granularity_ns: 3_000_000,
                max_granularity_ns: 5_000_000,
                min_wakeup_ns: 2_000_000,
                max_wakeup_ns: 5_000_000,
                min_migration_cost: 250_000,
                max_migration_cost: 500_000,
                min_walt_init_pct: 15,
                max_walt_init_pct: 35,
                min_uclamp_min: 0,
                max_uclamp_min: 256,
            },
        }
    }

    /// The same bounds as the controller's limit record.
    pub fn to_limits(&self) -> (c: CpuLimitsConfig)
        ensures
            c.min_latency_ns == self.min_latency_ns && c.max_latency_ns == self.max_latency_ns
                && c.min_granularity_ns == self.min_granularity_ns && c.max_granularity_ns
                == self.max_granularity_ns && c.min_wakeup_ns == self.min_wakeup_ns
                && c.max_wakeup_ns == self.max_wakeup_ns && c.min_migration_cost
                == self.min_migration_cost && c.max_migration_cost == self.max_migration_cost
                && c.min_walt_init_pct == self.min_walt_init_pct && c.max_walt_init_pct
                == self.max_walt_init_pct && c.min_uclamp_min == self.min_uclamp_min
                && c.max_uclamp_min == self.max_uclamp_min,
    {
        CpuLimitsConfig {
            min_latency_ns: self.min_latency_ns,
            max_latency_ns: self.max_latency_ns,
            min_granularity_ns: self.min_granularity_ns,
            max_granularity_ns: self.max_granularity_ns,
            min_wakeup_ns: self.min_wakeup_ns,
            max_wakeup_ns: self.max_wakeup_ns,
            min_migration_cost: self.min_migration_cost,
            max_migration_cost: self.max_migration_cost,
            min_walt_init_pct: self.min_walt_init_pct,
            max_walt_init_pct: self.max_walt_init_pct,
            min_uclamp_min: self.min_uclamp_min,
            max_uclamp_min: self.max_uclamp_min,
        }
    }
}

/// Kernel-side storage bounds, chosen by the tier of the device.
#[derive(Debug, Clone, Copy, PartialEq, Eq, Structural)]
pub struct StorageKernelLimitsConfig {
    pub max_read_ahead: u64,
    pub min_read_ahead: u64,
    pub max_nr_requests: u64,
    pub min_nr_requests: u64,
}

pub open spec fn spec_storage_kernel_limits(tier: DeviceTier) -> StorageKernelLimitsConfig {
    match tier {
        DeviceTier::Flagship => StorageKernelLimitsConfig {
            max_read_ahead: 1024,
            min_read_ahead: 128,
            max_nr_requests: 256,
            min_nr_requests: 64,
        },
        DeviceTier::MidRange => StorageKernelLimitsConfig {
            max_read_ahead: 768,
            min_read_ahead: 128,
            max_nr_requests: 192,
            min_nr_requests: 64,
        },
        DeviceTier::LowEnd => StorageKernelLimitsConfig {
            max_read_ahead: 512,
            min_read_ahead: 128,
            max_nr_requests: 128,
            min_nr_requests: 64,
        },
    }
}

impl StorageKernelLimitsConfig {
    /// The storage bounds for a device of this tier.
    pub fn for_tier(tier: DeviceTier) -> (c: Self)
        ensures
            c == spec_storage_kernel_limits(tier),
    {
        match tier {
            DeviceTier::Flagship => StorageKernelLimitsConfig {
                max_read_ahead: 1024,
                min_read_ahead: 128,
                max_nr_requests: 256,
                min_nr_requests: 64,
            },
            DeviceTier::MidRange => StorageKernelLimitsConfig {
                max_read_ahead: 768,
                min_read_ahead: 128,
                max_nr_requests: 192,
                min_nr_requests: 64,
            },
            DeviceTier::LowEnd => StorageKernelLimitsConfig {
                max_read_ahead: 512,
                min_read_ahead: 128,
                max_nr_requests: 128,
                min_nr_requests: 64,
            },
        }
    }

    /// The same bounds as the controller's limit record.
    pub fn to_limits(&self) -> (c: StorageLimitsConfig)
        ensures
            c.min_read_ahead == self.min_read_ahead && c.max_read_ahead == self.max_read_ahead
                && c.min_nr_requests == self.min_nr_requests && c.max_nr_requests
                == self.max_nr_requests,
    {
        StorageLimitsConfig {
            min_read_ahead: self.min_read_ahead,
            max_read_ahead: self.max_read_ahead,
            min_nr_requests: self.min_nr_requests,
            max_nr_requests: self.max_nr_requests,
        }
    }
}

/// For every tier the kernel bounds are ordered, and a better tier allows at
/// least as much read-ahead and queue depth.
pub proof fn law_kernel_limits_by_tier(tier: DeviceTier)
    ensures
        spec_cpu_kernel_limits(tier).min_latency_ns <= spec_cpu_kernel_limits(tier).max_latency_ns,
        spec_cpu_kernel_limits(tier).min_granularity_ns <= spec_cpu_kernel_limits(tier).max_granularity_ns,
        spec_cpu_kernel_limits(tier).min_wakeup_ns <= spec_cpu_kernel_limits(tier).max_wakeup_ns,
        spec_cpu_kernel_limits(tier).min_migration_cost <= spec_cpu_kernel_limits(tier).max_migration_cost,
        spec_cpu_kernel_limits(tier).min_walt_init_pct <= spec_cpu_kernel_limits(tier).max_walt_init_pct,
        spec_cpu_kernel_limits(tier).min_uclamp_min <= spec_cpu_kernel_limits(tier).max_uclamp_min,
        spec_storage_kernel_limits(tier).min_read_ahead <= spec_storage_kernel_limits(tier).max_read_ahead,
        spec_storage_kernel_limits(tier).min_nr_requests <= spec_storage_kernel_limits(tier).max_nr_requests,
        spec_storage_kernel_limits(DeviceTier::LowEnd).max_read_ahead <= spec_storage_kernel_limits(
            DeviceTier::MidRange,
        ).max_read_ahead <= spec_storage_kernel_limits(DeviceTier::Flagship).max_read_ahead,
        spec_storage_kernel_limits(DeviceTier::LowEnd).max_nr_requests <= spec_storage_kernel_limits(
            DeviceTier::MidRange,
        ).max_nr_requests <= spec_storage_kernel_limits(DeviceTier::Flagship).max_nr_requests,
{
}

} // verus!
