use qos_core::algorithms::helpers::round_to_step;
use qos_core::algorithms::poll_math::{apply_jitter, hysteresis, is_time_discontinuity, PollRng};
use qos_core::controllers::blocker::{disable_command_args, target_component_list, BlockerSchedule};
use qos_core::controllers::signal::{on_signal_read, SignalRead};
use qos_core::controllers::storage::{nr_requests_strategy, read_ahead_strategy, require_storage_tunables};
use qos_core::controllers::tweaker::{hardening_prop_tweaks, static_tweak_list, SystemTweaker};
use qos_core::daemon::traits::LoopAction;
use qos_core::daemon::types::{IoErrorKind, QosError};
use qos_core::hal::properties::{property_value, property_write_request};
use qos_core::hal::sensors::{parse_temperature_raw, temperature_overflows, BatterySensor};
use qos_core::hal::sysfs::CheckStrategy;
use qos_core::hal::traversal::{after_action, classify_entry, may_walk, EntryStep, FileKind, SizeScan, TraversalAction};
use qos_core::hal::validate_value;

#[test]
fn round_to_step_nearest_multiple() {
    assert_eq!(round_to_step(130, 32), 128);
    assert_eq!(round_to_step(144, 32), 160);
    assert_eq!(round_to_step(143, 32), 128);
    assert_eq!(round_to_step(7, 0), 7);
    assert_eq!(round_to_step(7, 1), 7);
    assert_eq!(round_to_step(5, 10), 10);
}

#[test]
fn lcg_draws_in_range() {
    let mut r = PollRng::new(1);
    assert_eq!(r.next_random(0), 0);
    assert_eq!(r.state, 1);
    let n = r.next_random(10);
    let expected_state = 1u64.wrapping_mul(6364136223846793005).wrapping_add(1);
    assert_eq!(r.state, expected_state);
    assert_eq!(n, expected_state % 21);
    assert!(n <= 20);
}

#[test]
fn jitter_stays_within_limits() {
    for seed in 0..50u64 {
        let mut r = PollRng::new(seed);
        let v = apply_jitter(&mut r, 9_950, 3000, 10_000);
        assert!((3000..=10_000).contains(&v));
        let mut r = PollRng::new(seed);
        let v = apply_jitter(&mut r, 100, 3000, 5000);
        assert!((3000..=3150).contains(&v));
    }
    let top = u64::MAX / 5;
    for seed in 0..20u64 {
        let mut r = PollRng::new(seed);
        let v = apply_jitter(&mut r, top, 0, top);
        assert!(v <= top && v >= top - top / 20);
    }
    let mut r = PollRng::new(3);
    assert_eq!(apply_jitter(&mut r, 10, 0, 10), 10);
    assert_eq!(r.state, 3);
    let mut r = PollRng::new(3);
    apply_jitter(&mut r, 4000, 3000, 10_000);
    assert_eq!(r.state, 3u64.wrapping_mul(6364136223846793005).wrapping_add(1));
}

#[test]
fn jitter_uses_the_drawn_noise() {
    let mut r = PollRng::new(42);
    let v = apply_jitter(&mut r, 4000, 3000, 10_000);
    let state = 42u64.wrapping_mul(6364136223846793005).wrapping_add(1);
    let noise = state % 401;
    let expected = if noise > 200 { 4000 + (noise - 200) } else { 4000 - (200 - noise) };
    assert_eq!(v, expected);
    assert_eq!(r.state, state);
}

#[test]
fn poll_interval_helpers() {
    assert!(is_time_discontinuity(3_501, 3_000));
    assert!(!is_time_discontinuity(3_500, 3_000));
    assert_eq!(hysteresis(3000, 3400), 3000);
    assert_eq!(hysteresis(3000, 3500), 3500);
    assert_eq!(hysteresis(3500, 3000), 3000);
}

#[test]
fn temperature_raw_values() {
    assert_eq!(parse_temperature_raw(b"45000\n"), Some(45000));
    assert_eq!(parse_temperature_raw(b"-12"), Some(-12));
    assert_eq!(parse_temperature_raw(b"temp: 38 C 99"), Some(38));
    assert_eq!(parse_temperature_raw(b"-"), None);
    assert_eq!(parse_temperature_raw(b""), None);
    assert_eq!(parse_temperature_raw(b"4-2"), Some(4));
    assert_eq!(parse_temperature_raw(b"5000000000"), Some(705032704));
}

#[test]
fn temperature_overflow_detection() {
    assert!(temperature_overflows(b"-2147483648"));
    assert!(!temperature_overflows(b"-2147483647"));
    assert!(!temperature_overflows(b"2147483648"));
    assert_eq!(parse_temperature_raw(b"2147483648"), Some(i32::MIN));
    assert_eq!(parse_temperature_raw(b"-2147483647"), Some(-2147483647));
}

#[test]
fn battery_sensor_availability() {
    assert!(BatterySensor::new(Some(3)).is_available());
    assert!(!BatterySensor::new(None).is_available());
    assert_eq!(BatterySensor::new(Some(9)).fd, Some(9));
}

#[test]
fn unicode_value_validation() {
    assert!(validate_value("über 1.0"));
    assert!(validate_value("٣"));
    assert!(!validate_value("a;b"));
    assert!(!validate_value("a\tb"));
}

#[test]
fn property_requests() {
    let (k, v) = property_write_request("persist.sys.x", "0").ok().unwrap();
    assert_eq!(k, b"persist.sys.x\0".to_vec());
    assert_eq!(v, b"0\0".to_vec());
    match property_write_request("a b", "1") {
        Err(QosError::InvalidInput(m)) => assert_eq!(m, "Invalid characters in key: 'a b'"),
        _ => panic!("expected a refusal"),
    }
    let (k, v) = property_write_request("ro.ü-1_x", "a b=c").ok().unwrap();
    assert_eq!(k, "ro.ü-1_x\0".as_bytes().to_vec());
    assert_eq!(v, b"a b=c\0".to_vec());
    assert!(property_write_request("a\0b", "1").is_err());
    assert!(property_write_request("a", "1\0").is_err());
    match property_write_request("a.b", "x;y") {
        Err(QosError::InvalidInput(m)) => assert_eq!(m, "Invalid characters in value: 'x;y'"),
        _ => panic!("expected a refusal"),
    }
}

#[test]
fn property_values() {
    assert_eq!(property_value(-1, b"1\0\0"), "");
    assert_eq!(property_value(1, b"1\0zz"), "1");
    assert_eq!(property_value(3, b"abc"), "abc");
    assert_eq!(property_value(2, b"\xff\0"), "\u{fffd}");
}

#[test]
fn walk_entries() {
    assert_eq!(classify_entry(b".", FileKind::Directory, None), EntryStep::Skip);
    assert_eq!(classify_entry(b"..", FileKind::Directory, None), EntryStep::Skip);
    assert_eq!(classify_entry(b"...", FileKind::Other, None), EntryStep::Visit);
    assert_eq!(classify_entry(b"d", FileKind::Directory, None), EntryStep::Descend);
    assert_eq!(classify_entry(b"l", FileKind::Symlink, None), EntryStep::Skip);
    assert_eq!(classify_entry(b"u", FileKind::Unknown, Some(0o040_755)), EntryStep::Descend);
    assert_eq!(classify_entry(b"u", FileKind::Unknown, Some(0o120_777)), EntryStep::Skip);
    assert_eq!(classify_entry(b"u", FileKind::Unknown, Some(0o100_644)), EntryStep::Visit);
    assert_eq!(classify_entry(b"u", FileKind::Unknown, None), EntryStep::Visit);
    assert!(may_walk(20));
    assert!(!may_walk(21));
}

#[test]
fn walk_counts_deletions() {
    assert_eq!(after_action(3, TraversalAction::DeleteFile, true), (4, false));
    assert_eq!(after_action(3, TraversalAction::DeleteFile, false), (3, false));
    assert_eq!(after_action(3, TraversalAction::Stop, false), (3, true));
    assert_eq!(after_action(3, TraversalAction::Keep, false), (3, false));
}

#[test]
fn size_scan_caps() {
    let mut s = SizeScan::new(100);
    assert_eq!(s.room_for_subdirectory(), Some(100));
    assert!(!s.add(60));
    assert_eq!(s.room_for_subdirectory(), Some(40));
    assert!(!s.add(40));
    assert_eq!(s.room_for_subdirectory(), None);
    assert!(s.add(1));
    assert_eq!(s.size, 101);
}

#[test]
fn signal_reads() {
    assert_eq!(on_signal_read(SignalRead::Bytes(8)).ok(), Some((LoopAction::Continue, true)));
    assert_eq!(on_signal_read(SignalRead::Bytes(0)).ok(), Some((LoopAction::Continue, false)));
    assert_eq!(
        on_signal_read(SignalRead::Failed(IoErrorKind::WouldBlock, "again".into())).ok(),
        Some((LoopAction::Continue, false))
    );
    match on_signal_read(SignalRead::Failed(IoErrorKind::Other, "boom".into())) {
        Err(QosError::IoError(IoErrorKind::Other, m)) => assert_eq!(m, "boom"),
        _ => panic!("expected the read error"),
    }
}

#[test]
fn blocker_schedule() {
    let mut b = BlockerSchedule::new(1000);
    assert_eq!(b.get_timeout_ms(), 86_400_000);
    assert!(!b.on_timeout(86_400_999));
    assert_eq!(b.last_run_ms, 1000);
    assert!(b.on_timeout(86_401_000));
    assert_eq!(b.last_run_ms, 86_401_000);
    let list = target_component_list();
    assert_eq!(list.len(), 18);
    assert_eq!(list[0], "com.google.android.gms/com.google.android.gms.ads.AdRequestBrokerService");
    assert_eq!(disable_command_args("x/y"), vec!["pm".to_string(), "disable".to_string(), "x/y".to_string()]);
}

#[test]
fn storage_tunables_required() {
    assert!(require_storage_tunables(true, false).is_ok());
    assert!(require_storage_tunables(false, true).is_ok());
    match require_storage_tunables(false, false) {
        Err(QosError::SystemCheckFailed(m)) => assert_eq!(m, "No storage block tunables found."),
        _ => panic!("expected a refusal"),
    }
    assert!(matches!(read_ahead_strategy(), CheckStrategy::Absolute(32)));
    assert!(matches!(nr_requests_strategy(), CheckStrategy::Absolute(16)));
}

#[test]
fn system_tweaks_write_table_then_props() {
    let table = static_tweak_list();
    assert_eq!(table.len(), 40);
    assert_eq!(table[0].path, "/proc/sys/vm/page-cluster");
    assert_eq!(table[39].value, "westwood");
    assert_eq!((table[15].path, table[15].value), ("/sys/block/mmcblk0/queue/add_random", "0"));
    assert_eq!((table[16].path, table[16].value), ("/sys/block/mmcblk0/queue/iostats", "1"));
    assert_eq!((table[17].path, table[17].value), ("/sys/block/mmcblk0/queue/rq_affinity", "1"));
    let write = |p: &str, _v: &str| !p.starts_with("/sys/");
    let set = |_k: &str, v: &str| v == "0";
    let (files, props) = SystemTweaker::apply_all(&write, &set);
    assert_eq!(files.outcomes.len(), 40);
    assert_eq!(files.applied, 36);
    assert_eq!(props.tweaks.len(), 3);
    assert_eq!(props.tweaks[0].path, "persist.sys.lmk.reportkills");
    assert_eq!(props.outcomes, vec![false, true, true]);
    assert_eq!(props.applied, 2);
}

#[test]
fn hardening_props_as_tweaks() {
    let p = hardening_prop_tweaks();
    assert_eq!(p.len(), 3);
    assert_eq!((p[0].key, p[0].value), ("persist.sys.lmk.reportkills", "false"));
    assert_eq!((p[2].key, p[2].value), ("persist.service.debuggable", "0"));
}

#[test]
fn error_descriptions() {
    assert_eq!(QosError::InvalidInput("bad".into()).describe(), "Invalid Input: bad");
    assert_eq!(QosError::IoError(IoErrorKind::NotFound, "gone".into()).describe(), "I/O Error: gone");
    assert_eq!(QosError::FfiError("x".into()).describe(), "FFI Error: x");
}
