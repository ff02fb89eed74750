use vstd::prelude::*;
use vstd::std_specs::convert::FromSpecImpl;
use crate::config::limits::{CpuLimitsConfig, StorageLimitsConfig};

verus! {

/// CPU bounds as the host passes them across the C boundary.
#[derive(Debug, Clone, Copy, PartialEq, Eq, Structural)]
pub struct FfiCpuLimits {
    pub min_latency_ns: u64,
    pub max_latency_ns: u64,
    pub min_granularity_ns: u64,
    pub max_granularity_ns: u64,
    pub min_wakeup_ns: u64,
    pub max_wakeup_ns: u64,
    pub min_migration_cost: u64,
    pub max_migration_cost: u64,
    pub min_walt_init_pct: u64,
    pub max_walt_init_pct: u64,
    pub min_uclamp_min: u64,
    pub max_uclamp_min: u64,
}

/// The controller's CPU bounds that carry the host's values field for field.
pub open spec fn cpu_limits_from_ffi(f: FfiCpuLimits) -> CpuLimitsConfig {
    CpuLimitsConfig {
        min_latency_ns: f.min_latency_ns,
        max_latency_ns: f.max_latency_ns,
        min_granularity_ns: f.min_granularity_ns,
        max_granularity_ns: f.max_granularity_ns,
        min_wakeup_ns: f.min_wakeup_ns,
        max_wakeup_ns: f.max_wakeup_ns,
        min_migration_cost: f.min_migration_cost,
        max_migration_cost: f.max_migration_cost,
        min_walt_init_pct: f.min_walt_init_pct,
        max_walt_init_pct: f.max_walt_init_pct,
        min_uclamp_min: f.min_uclamp_min,
        max_uclamp_min: f.max_uclamp_min,
    }
}

impl From<FfiCpuLimits> for CpuLimitsConfig {
    fn from(ffi: FfiCpuLimits) -> (c: Self) {
        CpuLimitsConfig {
            min_latency_ns: ffi.min_latency_ns,
            max_latency_ns: ffi.max_latency_ns,
            min_granularity_ns: ffi.min_granularity_ns,
            max_granularity_ns: ffi.max_granularity_ns,
            min_wakeup_ns: ffi.min_wakeup_ns,
            max_wakeup_ns: ffi.max_wakeup_ns,
            min_migration_cost: ffi.min_migration_cost,
            max_migration_cost: ffi.max_migration_cost,
            min_walt_init_pct: ffi.min_walt_init_pct,
            max_walt_init_pct: ffi.max_walt_init_pct,
            min_uclamp_min: ffi.min_uclamp_min,
            max_uclamp_min: ffi.max_uclamp_min,
        }
    }
}

impl FromSpecImpl<FfiCpuLimits> for CpuLimitsConfig {
    open spec fn obeys_from_spec() -> bool {
        true
    }

    open spec fn from_spec(v: FfiCpuLimits) -> Self {
        cpu_limits_from_ffi(v)
    }
}

/// Storage bounds as the host passes them across the C boundary.
#[derive(Debug, Clone, Copy, PartialEq, Eq, Structural)]
pub struct FfiStorageLimits {
    pub min_read_ahead: u64,
    pub max_read_ahead: u64,
    pub min_nr_requests: u64,
    pub max_nr_requests: u64,
}

/// The controller's storage bounds that carry the host's values.
pub open spec fn storage_limits_from_ffi(f: FfiStorageLimits) -> StorageLimitsConfig {
    StorageLimitsConfig {
        min_read_ahead: f.min_read_ahead,
        max_read_ahead: f.max_read_ahead,
        min_nr_requests: f.min_nr_requests,
        max_nr_requests: f.max_nr_requests,
    }
}

impl From<FfiStorageLimits> for StorageLimitsConfig {
    fn from(ffi: FfiStorageLimits) -> (c: Self) {
        StorageLimitsConfig {
            min_read_ahead: ffi.min_read_ahead,
            max_read_ahead: ffi.max_read_ahead,
            min_nr_requests: ffi.min_nr_requests,
            max_nr_requests: ffi.max_nr_requests,
        }
    }
}

impl FromSpecImpl<FfiStorageLimits> for StorageLimitsConfig {
    open spec fn obeys_from_spec() -> bool {
        true
    }

    open spec fn from_spec(v: FfiStorageLimits) -> Self {
        storage_limits_from_ffi(v)
    }
}

/// Converts the host's CPU bounds.
pub fn cpu_limits_of(f: FfiCpuLimits) -> (c: CpuLimitsConfig)
    ensures
        c == cpu_limits_from_ffi(f),
{
    CpuLimitsConfig::from(f)
}

/// Converts the host's storage bounds.
pub fn storage_limits_of(f: FfiStorageLimits) -> (c: StorageLimitsConfig)
    ensures
        c == storage_limits_from_ffi(f),
{
    StorageLimitsConfig::from(f)
}

/// The services the main loop can run.
#[derive(Debug, Clone, Copy, PartialEq, Eq, Structural)]
pub enum ServiceKind {
    Signal,
    Storage,
    Cpu,
    Cleaner,
    Blocker,
}

/// Which optional services the host enabled.
#[derive(Debug, Clone, Copy, PartialEq, Eq, Structural)]
pub struct ServiceSwitches {
    pub storage: bool,
    pub cpu: bool,
    pub cleaner: bool,
    pub blocker: bool,
}

/// The services the main loop starts, in order: the signal service always
/// comes first, then each enabled service in the order storage, CPU,
/// cleaner, blocker.
pub open spec fn spec_service_plan(s: ServiceSwitches) -> Seq<ServiceKind> {
    seq![ServiceKind::Signal]
        + (if s.storage { seq![ServiceKind::Storage] } else { seq![] })
        + (if s.cpu { seq![ServiceKind::Cpu] } else { seq![] })
        + (if s.cleaner { seq![ServiceKind::Cleaner] } else { seq![] })
        + (if s.blocker { seq![ServiceKind::Blocker] } else { seq![] })
}

/// Lists the services to start for these switches.
pub fn plan_services(s: ServiceSwitches) -> (plan: Vec<ServiceKind>)
    ensures
        plan@ == spec_service_plan(s),
{
    let mut plan: Vec<ServiceKind> = Vec::new();
    plan.push(ServiceKind::Signal);
    let ghost p0 = plan@;
    if s.storage {
        plan.push(ServiceKind::Storage);
    }
    let ghost p1 = plan@;
    assert(p1 =~= p0 + (if s.storage { seq![ServiceKind::Storage] } else { seq![] }));
    if s.cpu {
        plan.push(ServiceKind::Cpu);
    }
    let ghost p2 = plan@;
    assert(p2 =~= p1 + (if s.cpu { seq![ServiceKind::Cpu] } else { seq![] }));
    if s.cleaner {
        plan.push(ServiceKind::Cleaner);
    }
    let ghost p3 = plan@;
    assert(p3 =~= p2 + (if s.cleaner { seq![ServiceKind::Cleaner] } else { seq![] }));
    if s.blocker {
        plan.push(ServiceKind::Blocker);
    }
    assert(plan@ =~= p3 + (if s.blocker { seq![ServiceKind::Blocker] } else { seq![] }));
    plan
}

/// The signal service always runs and comes first; every other service runs
/// exactly when its switch is on, and none runs twice.
pub proof fn law_service_plan(s: ServiceSwitches)
    ensures
        spec_service_plan(s).len() >= 1,
        spec_service_plan(s)[0] == ServiceKind::Signal,
        spec_service_plan(s).contains(ServiceKind::Storage) == s.storage,
        spec_service_plan(s).contains(ServiceKind::Cpu) == s.cpu,
        spec_service_plan(s).contains(ServiceKind::Cleaner) == s.cleaner,
        spec_service_plan(s).contains(ServiceKind::Blocker) == s.blocker,
        spec_service_plan(s).no_duplicates(),
{
    let p = spec_service_plan(s);
    let a = seq![ServiceKind::Signal];
    let b = if s.storage { seq![ServiceKind::Storage] } else { seq![] };
    let c = if s.cpu { seq![ServiceKind::Cpu] } else { seq![] };
    let d = if s.cleaner { seq![ServiceKind::Cleaner] } else { seq![] };
    let e = if s.blocker { seq![ServiceKind::Blocker] } else { seq![] };
    assert(p == a + b + c + d + e);
    if s.storage {
        assert(p[1] == ServiceKind::Storage);
    }
    if s.cpu {
        assert(p[(1 + b.len()) as int] == ServiceKind::Cpu);
    }
    if s.cleaner {
        assert(p[(1 + b.len() + c.len()) as int] == ServiceKind::Cleaner);
    }
    if s.blocker {
        assert(p[(1 + b.len() + c.len() + d.len()) as int] == ServiceKind::Blocker);
    }
}

/// What `start_services` answers: `-1` while the main loop already runs,
/// `0` once the new loop acknowledged its start, `-1` when it did not.
pub fn start_status(already_running: bool, handshake_received: bool) -> (code: i32)
    ensures
        code == (if already_running || !handshake_received { -1i32 } else { 0i32 }),
{
    if already_running {
        return -1;
    }
    if handshake_received { 0 } else { -1 }
}

} // verus!
