use qos_core::bindings::cstr::{ffi_buffer_of, to_cstring, validate_value, with_cstr, FFI_BUFFER_LEN};
use qos_core::bindings::ffi::{
    cpu_limits_of, plan_services, start_status, storage_limits_of, FfiCpuLimits, FfiStorageLimits,
    ServiceKind, ServiceSwitches,
};
use qos_core::config::kernel_limits::{CpuKernelLimitsConfig, StorageKernelLimitsConfig};
use qos_core::config::limits::{CpuLimitsConfig, StorageLimitsConfig};
use qos_core::daemon::types::QosError;
use qos_core::hal::hardware::DeviceTier;

fn invalid_input(e: QosError) -> String {
    match e {
        QosError::InvalidInput(m) => m,
        _ => panic!("unexpected error"),
    }
}

#[test]
fn with_cstr_hands_terminated_buffer() {
    let r = with_cstr("/proc/pressure/cpu", |b: &[u8]| {
        assert_eq!(b.len(), FFI_BUFFER_LEN);
        assert_eq!(&b[..18], b"/proc/pressure/cpu");
        assert!(b[18..].iter().all(|&x| x == 0));
        7
    });
    assert_eq!(r.ok(), Some(7));
}

#[test]
fn with_cstr_refuses_long_strings() {
    let long = "a".repeat(256);
    let r = with_cstr(&long, |_b: &[u8]| 0);
    assert_eq!(invalid_input(r.err().unwrap()), "String too long for FFI boundary");
    assert!(ffi_buffer_of(&"a".repeat(255)).is_ok());
}

#[test]
fn to_cstring_appends_terminator() {
    assert_eq!(to_cstring("abc").ok(), Some(b"abc\0".to_vec()));
    assert_eq!(to_cstring("").ok(), Some(b"\0".to_vec()));
}

#[test]
fn to_cstring_names_first_nul() {
    let e = to_cstring("ab\0c\0").err().unwrap();
    assert_eq!(invalid_input(e), "String contains null byte: nul byte found in provided data at position: 2");
    let e = to_cstring("\0").err().unwrap();
    assert_eq!(invalid_input(e), "String contains null byte: nul byte found in provided data at position: 0");
}

#[test]
fn ffi_value_validation_is_ascii_only() {
    assert!(validate_value("performance schedutil-1.0 a=b_c"));
    assert!(!validate_value("a/b"));
    assert!(!validate_value("é"));
    assert!(validate_value(""));
}

#[test]
fn default_limits() {
    let c = CpuLimitsConfig::default();
    assert_eq!(c.min_latency_ns, 8_000_000);
    assert_eq!(c.max_latency_ns, 20_000_000);
    assert_eq!(c.max_uclamp_min, 384);
    let s = StorageLimitsConfig::default();
    assert_eq!((s.min_read_ahead, s.max_read_ahead, s.min_nr_requests, s.max_nr_requests), (128, 1024, 64, 256));
}

#[test]
fn ffi_limits_convert_field_for_field() {
    let f = FfiCpuLimits {
        min_latency_ns: 1,
        max_latency_ns: 2,
        min_granularity_ns: 3,
        max_granularity_ns: 4,
        min_wakeup_ns: 5,
        max_wakeup_ns: 6,
        min_migration_cost: 7,
        max_migration_cost: 8,
        min_walt_init_pct: 9,
        max_walt_init_pct: 10,
        min_uclamp_min: 11,
        max_uclamp_min: 12,
    };
    let c = cpu_limits_of(f);
    assert_eq!(c, CpuLimitsConfig::from(f));
    assert_eq!((c.min_latency_ns, c.max_wakeup_ns, c.min_walt_init_pct, c.max_uclamp_min), (1, 6, 9, 12));
    let s = storage_limits_of(FfiStorageLimits { min_read_ahead: 1, max_read_ahead: 2, min_nr_requests: 3, max_nr_requests: 4 });
    assert_eq!((s.min_read_ahead, s.max_read_ahead, s.min_nr_requests, s.max_nr_requests), (1, 2, 3, 4));
}

#[test]
fn kernel_limits_by_tier() {
    let f = CpuKernelLimitsConfig::for_tier(DeviceTier::Flagship);
    assert_eq!((f.min_latency_ns, f.max_latency_ns, f.max_uclamp_min), (8_000_000, 18_000_000, 384));
    let m = CpuKernelLimitsConfig::for_tier(DeviceTier::MidRange);
    assert_eq!((m.min_walt_init_pct, m.max_walt_init_pct, m.max_uclamp_min), (12, 37, 320));
    let l = CpuKernelLimitsConfig::for_tier(DeviceTier::LowEnd);
    assert_eq!((l.min_granularity_ns, l.max_migration_cost), (3_000_000, 500_000));
    assert_eq!(l.to_limits().max_uclamp_min, 256);
    let s = StorageKernelLimitsConfig::for_tier(DeviceTier::MidRange);
    assert_eq!((s.max_read_ahead, s.max_nr_requests), (768, 192));
    let s = StorageKernelLimitsConfig::for_tier(DeviceTier::LowEnd).to_limits();
    assert_eq!((s.min_read_ahead, s.max_read_ahead, s.min_nr_requests, s.max_nr_requests), (128, 512, 64, 128));
}

#[test]
fn service_plan_order() {
    let all = ServiceSwitches { storage: true, cpu: true, cleaner: true, blocker: true };
    assert_eq!(
        plan_services(all),
        vec![ServiceKind::Signal, ServiceKind::Storage, ServiceKind::Cpu, ServiceKind::Cleaner, ServiceKind::Blocker]
    );
    let some = ServiceSwitches { storage: false, cpu: true, cleaner: false, blocker: true };
    assert_eq!(plan_services(some), vec![ServiceKind::Signal, ServiceKind::Cpu, ServiceKind::Blocker]);
    let none = ServiceSwitches { storage: false, cpu: false, cleaner: false, blocker: false };
    assert_eq!(plan_services(none), vec![ServiceKind::Signal]);
}

#[test]
fn start_status_codes() {
    assert_eq!(start_status(true, true), -1);
    assert_eq!(start_status(false, false), -1);
    assert_eq!(start_status(false, true), 0);
}
