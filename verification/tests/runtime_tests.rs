use qos_core::daemon::runtime::{
    apply_file_tweaks, apply_prop_tweaks, boot_wait_step, epoll_error_is_benign, get_service_flags,
    is_boot_completed, EpollOp, EEXIST, ENOENT,
    is_fatal_init_error, is_fatal_runtime_error, plan_cycle, BootWaitStep, FileTweak, PropOutcome,
    PropTweak, ServiceState, EPOLL_ERR, EPOLL_IN, EPOLL_PRI,
};
use qos_core::daemon::types::{IoErrorKind, QosError};

fn io(kind: IoErrorKind) -> QosError {
    QosError::IoError(kind, "x".to_string())
}

#[test]
fn fatal_runtime_errors() {
    assert!(is_fatal_runtime_error(&io(IoErrorKind::NotFound)));
    assert!(is_fatal_runtime_error(&io(IoErrorKind::BrokenPipe)));
    assert!(is_fatal_runtime_error(&io(IoErrorKind::PermissionDenied)));
    assert!(!is_fatal_runtime_error(&io(IoErrorKind::WouldBlock)));
    assert!(is_fatal_runtime_error(&QosError::SystemCheckFailed("a".into())));
    assert!(is_fatal_runtime_error(&QosError::PermissionDenied("a".into())));
    assert!(!is_fatal_runtime_error(&QosError::InvalidInput("a".into())));
}

#[test]
fn fatal_init_errors() {
    assert!(is_fatal_init_error(&io(IoErrorKind::NotFound)));
    assert!(!is_fatal_init_error(&io(IoErrorKind::Interrupted)));
}

#[test]
fn new_service_is_due_at_once() {
    let s = ServiceState::new(100_000);
    assert_eq!(s.cooldown_start_ms, Some(95_000));
    let plan = plan_cycle(&vec![s], &vec![0], 100_000);
    assert_eq!(plan.initialize, vec![true]);
    let early = ServiceState::new(10);
    assert_eq!(early.cooldown_start_ms, Some(10));
}

#[test]
fn failed_service_recovers_after_cooldown() {
    let mut s = ServiceState::new(100_000);
    s.record_init_success(100_000);
    s.record_registration(true, 100_000);
    let delete = s.record_handler_failure(&QosError::InvalidInput("bad".into()), 200_000);
    assert!(delete);
    assert!(!s.has_handler && !s.registered_in_epoll && !s.is_permanently_disabled);
    assert_eq!(s.cooldown_start_ms, Some(200_000));
    let plan = plan_cycle(&vec![s], &vec![0], 203_000);
    assert_eq!(plan.initialize, vec![false]);
    assert_eq!(plan.wait_ms, 2000);
    let plan = plan_cycle(&vec![s], &vec![0], 205_000);
    assert_eq!(plan.initialize, vec![true]);
}

#[test]
fn fatal_failure_disables_for_good() {
    let mut s = ServiceState::new(0);
    s.record_init_success(0);
    let delete = s.record_handler_failure(&io(IoErrorKind::BrokenPipe), 10);
    assert!(!delete);
    assert!(s.is_permanently_disabled);
    let plan = plan_cycle(&vec![s], &vec![1000], 1_000_000);
    assert_eq!(plan.initialize, vec![false]);
    assert_eq!(plan.wait_ms, 10_000);
}

#[test]
fn init_failure_restarts_cooldown_or_disables() {
    let mut s = ServiceState::new(50_000);
    s.record_init_failure(&QosError::FfiError("e".into()), 50_000);
    assert_eq!(s.cooldown_start_ms, Some(50_000));
    assert!(!s.is_permanently_disabled);
    s.record_init_failure(&io(IoErrorKind::NotFound), 60_000);
    assert!(s.is_permanently_disabled);
}

#[test]
fn registration_failure_drops_handler() {
    let mut s = ServiceState::new(0);
    s.record_init_success(7);
    s.record_registration(false, 9);
    assert!(!s.has_handler);
    assert_eq!(s.cooldown_start_ms, Some(9));
    assert!(!s.unregister_if_active());
}

#[test]
fn wait_is_earliest_deadline() {
    let mut a = ServiceState::new(0);
    a.record_init_success(1_000);
    let mut b = ServiceState::new(0);
    b.record_init_success(1_500);
    let plan = plan_cycle(&vec![a, b], &vec![3000, 1000], 2_000);
    assert_eq!(plan.initialize, vec![false, false]);
    assert_eq!(plan.wait_ms, 500);
    let plan = plan_cycle(&vec![a], &vec![-1], 2_000);
    assert_eq!(plan.wait_ms, 10_000);
    let plan = plan_cycle(&vec![a], &vec![500], 2_000);
    assert_eq!(plan.wait_ms, 0);
}

#[test]
fn timeout_due_and_tick() {
    let mut s = ServiceState::new(0);
    s.record_init_success(1_000);
    assert!(!s.timeout_due(1_999, 1000));
    assert!(s.timeout_due(2_000, 1000));
    assert!(!s.timeout_due(5_000, 0));
    s.record_tick(2_000);
    assert_eq!(s.last_tick_ms, 2_000);
}

#[test]
fn boot_wait_steps() {
    assert_eq!(boot_wait_step(true, true, 0), BootWaitStep::Abort);
    assert_eq!(boot_wait_step(false, true, 5), BootWaitStep::Stabilize);
    assert_eq!(boot_wait_step(false, false, 5), BootWaitStep::Sleep { retries: 6 });
    assert_eq!(boot_wait_step(false, false, 299), BootWaitStep::Sleep { retries: 300 });
    assert_eq!(boot_wait_step(false, false, 300), BootWaitStep::Stabilize);
    assert!(is_boot_completed("1"));
    assert!(!is_boot_completed("0"));
    assert!(!is_boot_completed("1 "));
}

#[test]
fn service_flags() {
    assert_eq!(EPOLL_IN, 1);
    assert_eq!(EPOLL_PRI, 2);
    assert_eq!(EPOLL_ERR, 8);
    assert_eq!(get_service_flags("CPU"), 10);
    assert_eq!(get_service_flags("Storage"), 10);
    assert_eq!(get_service_flags("Memory"), 10);
    assert_eq!(get_service_flags("Signal"), 11);
    assert_eq!(get_service_flags("cpu"), 11);
}

#[test]
fn prop_tweaks_skip_missing_and_count_applied() {
    let tweaks = vec![
        PropTweak { key: "a.present", value: "1" },
        PropTweak { key: "b.missing", value: "2" },
        PropTweak { key: "c.readonly", value: "3" },
    ];
    let present = |k: &str| k != "b.missing";
    let set = |k: &str, _v: &str| k != "c.readonly";
    let (outcomes, applied) = apply_prop_tweaks(&tweaks, &present, &set);
    assert_eq!(outcomes, vec![PropOutcome::Applied, PropOutcome::Missing, PropOutcome::Failed]);
    assert_eq!(applied, 1);
}

#[test]
fn file_tweaks_report_each_write() {
    let tweaks = vec![
        FileTweak { path: "/proc/sys/vm/a".into(), value: "1".into() },
        FileTweak { path: "/nope".into(), value: "2".into() },
    ];
    let write = |p: &str, v: &str| p.starts_with("/proc/") && v == "1";
    let (outcomes, applied) = apply_file_tweaks(&tweaks, &write);
    assert_eq!(outcomes, vec![true, false]);
    assert_eq!(applied, 1);
}

#[test]
fn benign_epoll_errors() {
    assert_eq!(ENOENT, libc::ENOENT);
    assert_eq!(EEXIST, libc::EEXIST);
    assert!(epoll_error_is_benign(EpollOp::Delete, ENOENT));
    assert!(epoll_error_is_benign(EpollOp::Add, EEXIST));
    assert!(!epoll_error_is_benign(EpollOp::Add, ENOENT));
    assert!(!epoll_error_is_benign(EpollOp::Delete, EEXIST));
    assert!(!epoll_error_is_benign(EpollOp::Modify, EEXIST));
}
