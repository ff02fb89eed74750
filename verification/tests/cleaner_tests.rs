use qos_core::controllers::cleaner::{
    cache_age, cache_file_action, cache_scan_limit, cmdline_package, code_cache_age,
    code_cache_file_action, file_action, hash_bytes, is_pid_dir, is_safe_name,
    is_trash_extension, system_dump_action, ActivePackages, CleanerConfig, SweepDecision,
    SweepReadings, SweepScheduler,
};
use qos_core::hal::traversal::TraversalAction;

fn calm() -> SweepReadings {
    SweepReadings { too_hot: false, critically_hot: false, io_busy: false, cpu_busy: false, cpu_saturated: false }
}

#[test]
fn cleaner_config_defaults() {
    let c = CleanerConfig::default();
    assert_eq!(c.sweep_interval_ms, 600_000);
    assert_eq!(c.bloat_limit_bytes, 512 * 1024 * 1024);
    assert_eq!(c.storage_critical_percent, 10);
    assert_eq!(c.age_stale_media_sec, 72 * 3600);
    assert_eq!(c.age_stale_code_sec, 720 * 3600);
    assert_eq!(c.age_bloat_sec, 24 * 3600);
    assert_eq!(c.age_emergency_sec, 3600);
    assert_eq!(c.age_trash_sec, 3600);
    assert_eq!(cache_scan_limit(&c), 512 * 1024 * 1024 + 1024);
}

#[test]
fn safe_names() {
    for n in ["app.db", "x.xml", "main.obb", "a.pak", "b.dat", "c.json", "d.lock", "e.pref", "f.conf", "db-journal", "db-wal", "db-shm", ".db"] {
        assert!(is_safe_name(n.as_bytes()), "{n}");
    }
    for n in ["photo.jpg", "db", "x.DB", "journal", ""] {
        assert!(!is_safe_name(n.as_bytes()), "{n}");
    }
}

#[test]
fn trash_extensions() {
    for n in ["a.tmp", "b.temp", "c.log", "d.bak", "e.old", "f.thumb", "g.exo"] {
        assert!(is_trash_extension(n.as_bytes()), "{n}");
    }
    assert!(!is_trash_extension(b"a.txt"));
    assert!(!is_trash_extension(b"tmp"));
}

#[test]
fn file_action_by_age() {
    assert_eq!(file_action(b"a.jpg", true, 3600, 7200, 10_000, Some(2_000)), TraversalAction::DeleteFile);
    assert_eq!(file_action(b"a.jpg", true, 3600, 7200, 10_000, Some(2_800)), TraversalAction::Keep);
    assert_eq!(file_action(b"a.jpg", true, 3600, 7200, 10_000, Some(2_799)), TraversalAction::DeleteFile);
    assert_eq!(file_action(b"a.tmp", true, 3600, 7200, 10_000, Some(6_000)), TraversalAction::DeleteFile);
    assert_eq!(file_action(b"a.tmp", true, 3600, 7200, 10_000, Some(6_400)), TraversalAction::Keep);
    assert_eq!(file_action(b"a.jpg", true, 3600, 7200, 10_000, None), TraversalAction::Keep);
}

#[test]
fn file_action_keeps_state_unless_critical() {
    assert_eq!(file_action(b"app.db", true, 0, 0, 1_000_000, Some(0)), TraversalAction::Keep);
    assert_eq!(file_action(b"app.db", false, 0, 0, 1_000_000, Some(0)), TraversalAction::DeleteFile);
}

#[test]
fn file_action_saturates_age() {
    assert_eq!(file_action(b"a", true, 0, i64::MAX - 1, i64::MAX, Some(i64::MIN)), TraversalAction::DeleteFile);
    assert_eq!(file_action(b"a", true, 0, 0, i64::MIN, Some(i64::MAX)), TraversalAction::Keep);
}

#[test]
fn system_dump_uses_trash_and_media_ages() {
    let c = CleanerConfig::default();
    let now = 1_000_000;
    assert_eq!(system_dump_action(&c, b"trace.txt", now, Some(now - 259_201)), TraversalAction::DeleteFile);
    assert_eq!(system_dump_action(&c, b"trace.txt", now, Some(now - 259_200)), TraversalAction::Keep);
    assert_eq!(system_dump_action(&c, b"x.log", now, Some(now - 3_601)), TraversalAction::DeleteFile);
    assert_eq!(system_dump_action(&c, b"x.db", now, Some(0)), TraversalAction::Keep);
}

#[test]
fn cache_ages() {
    let c = CleanerConfig::default();
    assert_eq!(cache_age(&c, true, 0), 3600);
    assert_eq!(cache_age(&c, false, c.bloat_limit_bytes + 1), 86_400);
    assert_eq!(cache_age(&c, false, c.bloat_limit_bytes), 259_200);
    assert_eq!(code_cache_age(&c, true), 3600);
    assert_eq!(code_cache_age(&c, false), 2_592_000);
}

#[test]
fn cache_file_actions() {
    let c = CleanerConfig::default();
    let now = 10_000_000;
    assert_eq!(cache_file_action(&c, false, 1, b"img.png", now, Some(now - 100_000)), TraversalAction::Keep);
    assert_eq!(cache_file_action(&c, false, u64::MAX, b"img.png", now, Some(now - 100_000)), TraversalAction::DeleteFile);
    assert_eq!(cache_file_action(&c, true, 0, b"state.db", now, Some(now - 4_000)), TraversalAction::DeleteFile);
    assert_eq!(code_cache_file_action(&c, false, b"x.odex", now, Some(now - 2_592_001)), TraversalAction::DeleteFile);
    assert_eq!(code_cache_file_action(&c, false, b"x.odex", now, Some(now - 2_592_000)), TraversalAction::Keep);
}

#[test]
fn package_hash_values() {
    assert_eq!(hash_bytes(b""), 0xcbf29ce484222325);
    assert_eq!(hash_bytes(b"a"), 0xcf62cc8c8601ec8c);
    assert_eq!(hash_bytes(b"foobar"), 0x9e62c341f73967e8);
}

#[test]
fn cmdline_packages() {
    assert_eq!(cmdline_package(b"com.example.app\0--flag\0"), Some(b"com.example.app".to_vec()));
    assert_eq!(cmdline_package(b"com.example.app"), Some(b"com.example.app".to_vec()));
    assert_eq!(cmdline_package(b"/system/bin/sh\0"), None);
    assert_eq!(cmdline_package(b"\0com.example"), None);
    assert_eq!(cmdline_package(b""), None);
}

#[test]
fn pid_dirs() {
    assert!(is_pid_dir(b"1234"));
    assert!(is_pid_dir(b"1x"));
    assert!(!is_pid_dir(b"self"));
    assert!(!is_pid_dir(b""));
}

#[test]
fn active_packages_are_skipped_unless_critical() {
    let mut a = ActivePackages::new();
    a.record_cmdline(b"com.example.app\0");
    a.record_cmdline(b"/init\0");
    assert!(a.skips(b"com.example.app", false));
    assert!(!a.skips(b"com.example.app", true));
    assert!(!a.skips(b"com.other", false));
    assert!(!a.skips(b"/init", false));
}

#[test]
fn sweep_waits_for_interval() {
    let s = SweepScheduler::new(100_000_000, 600_000);
    assert_eq!(s.last_sweep_ms, 100_000_000 - 86_400_000);
    assert_eq!(s.decide(100_000_000, false, &calm()), SweepDecision::Sweep { emergency: false });
    let mut s = s;
    s.record_sent(100_000_000);
    assert_eq!(s.decide(100_599_999, false, &calm()), SweepDecision::Wait);
    assert!(!s.interval_elapsed(100_599_999));
    assert!(s.interval_elapsed(100_600_000));
    assert_eq!(s.decide(100_600_000, false, &calm()), SweepDecision::Sweep { emergency: false });
    assert_eq!(s.get_timeout_ms(), 600_000);
    assert_eq!(SweepScheduler::new(5, 1).last_sweep_ms, 5);
}

#[test]
fn sweep_skips_when_busy_or_hot() {
    let s = SweepScheduler { last_sweep_ms: 0, interval_ms: 1000 };
    let hot = SweepReadings { too_hot: true, ..calm() };
    assert_eq!(s.decide(5000, false, &hot), SweepDecision::Skip);
    assert_eq!(s.decide(5000, true, &hot), SweepDecision::Sweep { emergency: true });
    let very_hot = SweepReadings { too_hot: true, critically_hot: true, ..calm() };
    assert_eq!(s.decide(5000, true, &very_hot), SweepDecision::Skip);
    let io = SweepReadings { io_busy: true, ..calm() };
    assert_eq!(s.decide(5000, false, &io), SweepDecision::Skip);
    assert_eq!(s.decide(5000, true, &io), SweepDecision::Sweep { emergency: true });
    let cpu = SweepReadings { cpu_busy: true, ..calm() };
    assert_eq!(s.decide(5000, false, &cpu), SweepDecision::Skip);
    assert_eq!(s.decide(5000, true, &cpu), SweepDecision::Sweep { emergency: true });
    let saturated = SweepReadings { cpu_busy: true, cpu_saturated: true, ..calm() };
    assert_eq!(s.decide(5000, true, &saturated), SweepDecision::Skip);
}

#[test]
fn sweep_negative_interval_never_elapses() {
    let s = SweepScheduler { last_sweep_ms: 0, interval_ms: -1 };
    assert_eq!(s.decide(u64::MAX, false, &calm()), SweepDecision::Wait);
}
