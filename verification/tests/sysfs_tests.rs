use qos_core::algorithms::tolerance::check_absolute;
use qos_core::daemon::types::QosError;
use qos_core::hal::sysfs::{
    check_canonical_path, check_relative, fd_link_path, format_stream_value, prepare_file_write,
    validate_fd_target, CachedFile, CheckStrategy,
};

#[test]
fn stream_value_is_decimal_with_newline() {
    assert_eq!(format_stream_value(0), b"0\n".to_vec());
    assert_eq!(format_stream_value(4096), b"4096\n".to_vec());
    assert_eq!(format_stream_value(u64::MAX), b"18446744073709551615\n".to_vec());
}

#[test]
fn absolute_tolerance() {
    assert!(!check_absolute(100, 100, 0));
    assert!(check_absolute(100, 132, 32));
    assert!(!check_absolute(100, 131, 32));
    assert!(check_absolute(132, 100, 32));
}

#[test]
fn relative_tolerance() {
    assert!(!check_relative(1000, 1000, 50));
    assert!(check_relative(0, 5, 50));
    assert!(!check_relative(0, 0, 50));
    assert!(check_relative(1000, 1050, 50));
    assert!(!check_relative(1000, 1049, 50));
    assert!(check_relative(1000, 950, 50));
}

#[test]
fn cached_file_writes_only_when_needed() {
    let mut c = CachedFile::new(128);
    assert!(c.is_active());
    assert_eq!(c.plan_update(140, false, &CheckStrategy::Absolute(32)), None);
    assert_eq!(c.plan_update(140, true, &CheckStrategy::Absolute(32)), Some(b"140\n".to_vec()));
    assert_eq!(c.plan_update(129, false, &CheckStrategy::Strict), Some(b"129\n".to_vec()));
    c.commit_update(200, false);
    assert_eq!(c.last_value, 128);
    c.commit_update(200, true);
    assert_eq!(c.last_value, 200);
    assert_eq!(c.plan_update(200, false, &CheckStrategy::Strict), None);
    let absent = CachedFile::new_opt(false, 0);
    assert_eq!(absent.plan_update(5, true, &CheckStrategy::Strict), None);
}

#[test]
fn file_write_checks_value() {
    assert_eq!(prepare_file_write("/proc/x", "1").ok(), Some(b"1\n".to_vec()));
    match prepare_file_write("/proc/x", "a;b") {
        Err(QosError::SystemCheckFailed(m)) => assert_eq!(m, "Invalid characters in value for /proc/x: 'a;b'"),
        _ => panic!("expected a refusal"),
    }
    match prepare_file_write("/proc/x", &"9".repeat(64)) {
        Err(QosError::InvalidInput(m)) => assert_eq!(m, "Value too long for stack buffer"),
        _ => panic!("expected a refusal"),
    }
    assert!(prepare_file_write("/proc/x", &"9".repeat(63)).is_ok());
}

#[test]
fn fd_link_paths() {
    assert_eq!(fd_link_path(7).ok(), Some(b"/proc/self/fd/7\0".to_vec()));
    assert_eq!(fd_link_path(-12).ok(), Some(b"/proc/self/fd/-12\0".to_vec()));
    assert_eq!(fd_link_path(i32::MIN).ok(), Some(b"/proc/self/fd/-2147483648\0".to_vec()));
}

#[test]
fn fd_targets() {
    assert!(validate_fd_target(10, b"/proc/sys/vm/swappiness").is_ok());
    assert!(validate_fd_target(10, b"/sys/block/sda/queue/nr_requests").is_ok());
    match validate_fd_target(10, b"/data/x") {
        Err(QosError::PermissionDenied(m)) => assert_eq!(m, "Access denied"),
        _ => panic!("expected a refusal"),
    }
    match validate_fd_target(-1, b"/proc/x") {
        Err(QosError::InvalidPath(m)) => assert_eq!(m, "FD resolution failed"),
        _ => panic!("expected a refusal"),
    }
}

#[test]
fn canonical_paths() {
    assert!(check_canonical_path("/proc/sys/vm/page-cluster").is_ok());
    assert!(check_canonical_path("/sys/kernel/x").is_ok());
    match check_canonical_path("/system/etc/hosts") {
        Err(QosError::PermissionDenied(m)) => assert_eq!(m, "Access denied: /system/etc/hosts"),
        _ => panic!("expected a refusal"),
    }
    assert!(check_canonical_path("/proc").is_err());
}
