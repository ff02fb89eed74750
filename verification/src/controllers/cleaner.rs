use vstd::prelude::*;
use crate::hal::text::chars_of;
use crate::hal::traversal::TraversalAction;

verus! {

/// The bytes of an ASCII text.
pub open spec fn ascii_bytes(s: Seq<char>) -> Seq<u8> {
    s.map_values(|c: char| c as u8)
}

/// The bytes of an ASCII literal.
pub fn ascii_of(s: &str) -> (b: Vec<u8>)
    ensures
        b@ == ascii_bytes(s@),
{
    let chars = chars_of(s);
    let mut b: Vec<u8> = Vec::new();
    let mut i: usize = 0;
    while i < chars.len()
        invariant
            i <= chars.len(),
            chars@ == s@,
            b@ == ascii_bytes(chars@.subrange(0, i as int)),
        decreases chars.len() - i,
    {
        b.push(chars[i] as u8);
        i = i + 1;
        assert(ascii_bytes(chars@.subrange(0, i as int)) =~= ascii_bytes(chars@.subrange(0, i - 1)).push(chars@[i - 1] as u8));
    }
    assert(chars@.subrange(0, chars.len() as int) =~= chars@);
    b
}

/// `name` ends with `suffix`.
pub open spec fn ends_with(name: Seq<u8>, suffix: Seq<u8>) -> bool {
    suffix.len() <= name.len() && name.subrange(name.len() - suffix.len(), name.len() as int) == suffix
}

/// Whether `name` ends with `suffix`.
pub fn bytes_end_with(name: &[u8], suffix: &[u8]) -> (r: bool)
    ensures
        r == ends_with(name@, suffix@),
{
    if suffix.len() > name.len() {
        return false;
    }
    let off: usize = name.len() - suffix.len();
    let mut i: usize = 0;
    while i < suffix.len()
        invariant
            i <= suffix.len(),
            off + suffix.len() == name.len(),
            forall|j: int| 0 <= j < i ==> name@[off + j] == suffix@[j],
        decreases suffix.len() - i,
    {
        if name[off + i] != suffix[i] {
            assert(name@.subrange(off as int, name.len() as int)[i as int] != suffix@[i as int]);
            return false;
        }
        i = i + 1;
    }
    assert(name@.subrange(off as int, name.len() as int) =~= suffix@);
    true
}

/// Endings of files that hold state an app needs: never removed by age.
pub open spec fn safe_suffixes() -> Seq<Seq<char>> {
    seq![
        ".db"@, ".xml"@, ".obb"@, ".pak"@, ".dat"@, ".json"@, ".lock"@, ".pref"@, ".conf"@,
        "-journal"@, "-wal"@, "-shm"@,
    ]
}

/// Endings of files that are scratch data and age out sooner.
pub open spec fn trash_suffixes() -> Seq<Seq<char>> {
    seq![".tmp"@, ".temp"@, ".log"@, ".bak"@, ".old"@, ".thumb"@, ".exo"@]
}

/// `name` ends with one of `suffixes`.
pub open spec fn ends_with_any(name: Seq<u8>, suffixes: Seq<Seq<char>>) -> bool {
    exists|i: int| 0 <= i < suffixes.len() && ends_with(name, ascii_bytes(#[trigger] suffixes[i]))
}

fn ends_with_any_of(name: &[u8], suffixes: &[&str]) -> (r: bool)
    ensures
        r == ends_with_any(name@, suffixes@.map_values(|s: &str| s@)),
{
    let ghost views = suffixes@.map_values(|s: &str| s@);
    let mut i: usize = 0;
    while i < suffixes.len()
        invariant
            i <= suffixes.len(),
            views == suffixes@.map_values(|s: &str| s@),
            forall|j: int| 0 <= j < i ==> !ends_with(name@, ascii_bytes(#[trigger] views[j])),
        decreases suffixes.len() - i,
    {
        let suffix = ascii_of(suffixes[i]);
        if bytes_end_with(name, suffix.as_slice()) {
            assert(ends_with(name@, ascii_bytes(views[i as int])));
            return true;
        }
        i = i + 1;
    }
    false
}

/// Whether a file name marks app state that the cleaner keeps.
pub fn is_safe_name(name: &[u8]) -> (r: bool)
    ensures
        r == ends_with_any(name@, safe_suffixes()),
{
    let list: [&str; 12] = [
        ".db", ".xml", ".obb", ".pak", ".dat", ".json", ".lock", ".pref", ".conf", "-journal",
        "-wal", "-shm",
    ];
    assert(list@.map_values(|s: &str| s@) =~= safe_suffixes());
    ends_with_any_of(name, &list)
}

/// Whether a file name marks scratch data.
pub fn is_trash_extension(name: &[u8]) -> (r: bool)
    ensures
        r == ends_with_any(name@, trash_suffixes()),
{
    let list: [&str; 7] = [".tmp", ".temp", ".log", ".bak", ".old", ".thumb", ".exo"];
    assert(list@.map_values(|s: &str| s@) =~= trash_suffixes());
    ends_with_any_of(name, &list)
}

} // verus!

verus! {

/// The cleaner's settings. Ages are in seconds; the storage threshold is the
/// share of free space, in percent, below which cleaning turns aggressive.
#[derive(Debug, Clone, Copy, PartialEq, Eq, Structural)]
pub struct CleanerConfig {
    pub sweep_interval_ms: i32,
    pub bloat_limit_bytes: u64,
    pub storage_critical_percent: u32,
    pub age_stale_media_sec: u64,
    pub age_stale_code_sec: u64,
    pub age_bloat_sec: u64,
    pub age_emergency_sec: u64,
    pub age_trash_sec: u64,
}

/// The cleaner's built-in settings.
pub open spec fn default_cleaner_config() -> CleanerConfig {
    CleanerConfig {
        sweep_interval_ms: 600_000,
        bloat_limit_bytes: 536_870_912,
        storage_critical_percent: 10,
        age_stale_media_sec: 259_200,
        age_stale_code_sec: 2_592_000,
        age_bloat_sec: 86_400,
        age_emergency_sec: 3600,
        age_trash_sec: 3600,
    }
}

impl Default for CleanerConfig {
    fn default() -> (c: Self)
        ensures
            c == default_cleaner_config(),
    {
        CleanerConfig {
            sweep_interval_ms: 600_000,
            bloat_limit_bytes: 512 * 1024 * 1024,
            storage_critical_percent: 10,
            age_stale_media_sec: 72 * 3600,
            age_stale_code_sec: 720 * 3600,
            age_bloat_sec: 24 * 3600,
            age_emergency_sec: 3600,
            age_trash_sec: 3600,
        }
    }
}

/// A number of seconds read as a signed value, bit for bit.
pub open spec fn signed_secs(secs: u64) -> i64 {
    secs as i64
}

/// `a - b`, held within the `i64` range.
pub open spec fn saturating_diff(a: i64, b: i64) -> i64 {
    if a - b > i64::MAX {
        i64::MAX
    } else if a - b < i64::MIN {
        i64::MIN
    } else {
        (a - b) as i64
    }
}

fn saturating_sub_i64(a: i64, b: i64) -> (d: i64)
    ensures
        d == saturating_diff(a, b),
{
    let wide: i128 = a as i128 - b as i128;
    if wide > i64::MAX as i128 {
        i64::MAX
    } else if wide < i64::MIN as i128 {
        i64::MIN
    } else {
        wide as i64
    }
}

/// What the cleaner does with one file: with `honour_safe_names` a file
/// that holds app state stays; otherwise the file goes when it is older than
/// its threshold (the trash age for scratch files, `target_age_sec` for the
/// rest). A file whose modification time could not be read stays.
pub open spec fn spec_file_action(
    name: Seq<u8>,
    honour_safe_names: bool,
    trash_age_sec: i64,
    target_age_sec: i64,
    now_sec: i64,
    mtime_sec: Option<i64>,
) -> TraversalAction {
    if honour_safe_names && ends_with_any(name, safe_suffixes()) {
        TraversalAction::Keep
    } else {
        let threshold = if ends_with_any(name, trash_suffixes()) { trash_age_sec } else { target_age_sec };
        match mtime_sec {
            Some(m) => if saturating_diff(now_sec, m) > threshold {
                TraversalAction::DeleteFile
            } else {
                TraversalAction::Keep
            },
            None => TraversalAction::Keep,
        }
    }
}

/// Decides what happens to the file `name` during a sweep at `now_sec`.
pub fn file_action(
    name: &[u8],
    honour_safe_names: bool,
    trash_age_sec: i64,
    target_age_sec: i64,
    now_sec: i64,
    mtime_sec: Option<i64>,
) -> (a: TraversalAction)
    ensures
        a == spec_file_action(name@, honour_safe_names, trash_age_sec, target_age_sec, now_sec, mtime_sec),
{
    if honour_safe_names && is_safe_name(name) {
        return TraversalAction::Keep;
    }
    let threshold = if is_trash_extension(name) { trash_age_sec } else { target_age_sec };
    match mtime_sec {
        Some(m) => {
            if saturating_sub_i64(now_sec, m) > threshold {
                TraversalAction::DeleteFile
            } else {
                TraversalAction::Keep
            }
        },
        None => TraversalAction::Keep,
    }
}

/// The file action for crash dumps and ANR traces: state files are kept,
/// scratch files go after the trash age, the rest after the stale-media age.
pub fn system_dump_action(config: &CleanerConfig, name: &[u8], now_sec: i64, mtime_sec: Option<i64>) -> (a: TraversalAction)
    ensures
        a == spec_file_action(
            name@,
            true,
            signed_secs(config.age_trash_sec),
            signed_secs(config.age_stale_media_sec),
            now_sec,
            mtime_sec,
        ),
{
    file_action(name, true, config.age_trash_sec as i64, config.age_stale_media_sec as i64, now_sec, mtime_sec)
}

/// How many bytes of an app cache the size scan needs to see.
pub open spec fn spec_cache_scan_limit(config: CleanerConfig) -> int {
    config.bloat_limit_bytes + 1024
}

/// The cap for the size scan of an app cache: a little past the bloat limit.
pub fn cache_scan_limit(config: &CleanerConfig) -> (l: u64)
    requires
        config.bloat_limit_bytes + 1024 <= u64::MAX,
    ensures
        l == spec_cache_scan_limit(*config),
{
    config.bloat_limit_bytes + 1024
}

/// The age after which files in an app's `cache` directory go: the
/// emergency age when storage is critical, the bloat age when the cache is
/// over the bloat limit, the stale-media age otherwise.
pub open spec fn spec_cache_age(config: CleanerConfig, critical: bool, cache_size: u64) -> u64 {
    if critical {
        config.age_emergency_sec
    } else if cache_size > config.bloat_limit_bytes {
        config.age_bloat_sec
    } else {
        config.age_stale_media_sec
    }
}

/// The age after which files in an app's `cache` directory go.
pub fn cache_age(config: &CleanerConfig, critical: bool, cache_size: u64) -> (age: u64)
    ensures
        age == spec_cache_age(*config, critical, cache_size),
{
    if critical {
        config.age_emergency_sec
    } else if cache_size > config.bloat_limit_bytes {
        config.age_bloat_sec
    } else {
        config.age_stale_media_sec
    }
}

/// The age after which compiled code in `code_cache` goes.
pub open spec fn spec_code_cache_age(config: CleanerConfig, critical: bool) -> u64 {
    if critical { config.age_emergency_sec } else { config.age_stale_code_sec }
}

/// The age after which compiled code in `code_cache` goes.
pub fn code_cache_age(config: &CleanerConfig, critical: bool) -> (age: u64)
    ensures
        age == spec_code_cache_age(*config, critical),
{
    if critical { config.age_emergency_sec } else { config.age_stale_code_sec }
}

/// The file action inside an app's `cache` directory whose size (as the
/// capped scan measured it) is `cache_size`; under critical storage even
/// state files may go.
pub fn cache_file_action(
    config: &CleanerConfig,
    critical: bool,
    cache_size: u64,
    name: &[u8],
    now_sec: i64,
    mtime_sec: Option<i64>,
) -> (a: TraversalAction)
    ensures
        a == spec_file_action(
            name@,
            !critical,
            signed_secs(config.age_trash_sec),
            signed_secs(spec_cache_age(*config, critical, cache_size)),
            now_sec,
            mtime_sec,
        ),
{
    let age = cache_age(config, critical, cache_size);
    file_action(name, !critical, config.age_trash_sec as i64, age as i64, now_sec, mtime_sec)
}

/// The file action inside an app's `code_cache` directory.
pub fn code_cache_file_action(
    config: &CleanerConfig,
    critical: bool,
    name: &[u8],
    now_sec: i64,
    mtime_sec: Option<i64>,
) -> (a: TraversalAction)
    ensures
        a == spec_file_action(
            name@,
            !critical,
            signed_secs(config.age_trash_sec),
            signed_secs(spec_code_cache_age(*config, critical)),
            now_sec,
            mtime_sec,
        ),
{
    let age = code_cache_age(config, critical);
    file_action(name, !critical, config.age_trash_sec as i64, age as i64, now_sec, mtime_sec)
}

/// A file that holds app state survives every sweep outside critical
/// storage, however old it is.
pub proof fn law_safe_names_survive(
    name: Seq<u8>,
    trash_age_sec: i64,
    target_age_sec: i64,
    now_sec: i64,
    mtime_sec: Option<i64>,
)
    requires
        ends_with_any(name, safe_suffixes()),
    ensures
        spec_file_action(name, true, trash_age_sec, target_age_sec, now_sec, mtime_sec)
            == TraversalAction::Keep,
{
}

/// A file is only ever deleted when it is older than the threshold that
/// applies to it, and the policy never asks to stop the walk.
pub proof fn law_only_old_files_go(
    name: Seq<u8>,
    honour_safe_names: bool,
    trash_age_sec: i64,
    target_age_sec: i64,
    now_sec: i64,
    mtime_sec: Option<i64>,
)
    ensures
        spec_file_action(name, honour_safe_names, trash_age_sec, target_age_sec, now_sec, mtime_sec)
            != TraversalAction::Stop,
        spec_file_action(name, honour_safe_names, trash_age_sec, target_age_sec, now_sec, mtime_sec)
            == TraversalAction::DeleteFile ==> mtime_sec is Some && saturating_diff(
            now_sec,
            mtime_sec->0,
        ) > (if ends_with_any(name, trash_suffixes()) { trash_age_sec } else { target_age_sec }),
{
}

} // verus!

verus! {

/// The starting value of the package hash (the FNV-1a offset basis).
pub const FNV_OFFSET: u64 = 0xcbf29ce484222325;
/// The multiplier of the package hash.
pub const FNV_PRIME: u64 = 0x10000001b3;

/// The package hash of `bytes`, in the FNV-1a scheme with the multiplier
/// above: from the offset basis, each byte is xored in and the state
/// multiplied by the multiplier, modulo 2^64.
pub open spec fn fnv1a(bytes: Seq<u8>) -> u64
    decreases bytes.len(),
{
    if bytes.len() == 0 {
        FNV_OFFSET
    } else {
        (((fnv1a(bytes.drop_last()) ^ (bytes.last() as u64)) as nat * FNV_PRIME as nat)
            % 0x1_0000_0000_0000_0000nat) as u64
    }
}

/// Hashes a package name.
pub fn hash_bytes(bytes: &[u8]) -> (h: u64)
    ensures
        h == fnv1a(bytes@),
{
    let mut hash: u64 = FNV_OFFSET;
    let mut i: usize = 0;
    while i < bytes.len()
        invariant
            i <= bytes.len(),
            hash == fnv1a(bytes@.subrange(0, i as int)),
        decreases bytes.len() - i,
    {
        let ghost prefix = bytes@.subrange(0, i + 1);
        assert(prefix.drop_last() =~= bytes@.subrange(0, i as int));
        hash = (hash ^ (bytes[i] as u64)).wrapping_mul(FNV_PRIME);
        i = i + 1;
    }
    assert(bytes@.subrange(0, bytes.len() as int) =~= bytes@);
    hash
}

/// Length of the run of `s` before its first zero byte (all of `s` when it
/// has none).
pub open spec fn first_field_len(s: Seq<u8>) -> nat
    decreases s.len(),
{
    if s.len() == 0 || s[0] == 0 {
        0
    } else {
        1 + first_field_len(s.drop_first())
    }
}

pub proof fn lemma_first_field_len(s: Seq<u8>)
    ensures
        first_field_len(s) <= s.len(),
        forall|j: int| 0 <= j < first_field_len(s) ==> s[j] != 0,
        first_field_len(s) < s.len() ==> s[first_field_len(s) as int] == 0,
    decreases s.len(),
{
    if s.len() > 0 && s[0] != 0 {
        lemma_first_field_len(s.drop_first());
        assert forall|j: int| 0 <= j < first_field_len(s) implies s[j] != 0 by {
            if j > 0 {
                assert(s[j] == s.drop_first()[j - 1]);
            }
        }
    }
}

/// The package a process runs, read from what its `cmdline` file gave:
/// the text before the first zero byte, when the read got any bytes and that
/// text has a dot in it.
pub open spec fn spec_cmdline_package(buf: Seq<u8>) -> Option<Seq<u8>> {
    let name = buf.subrange(0, first_field_len(buf) as int);
    if buf.len() > 0 && name.contains(46u8) {
        Some(name)
    } else {
        None
    }
}

/// Extracts the package name from a process's `cmdline` bytes.
pub fn cmdline_package(buf: &[u8]) -> (r: Option<Vec<u8>>)
    ensures
        match spec_cmdline_package(buf@) {
            Some(n) => r matches Some(v) && v@ == n,
            None => r is None,
        },
{
    proof {
        lemma_first_field_len(buf@);
    }
    if buf.len() == 0 {
        return None;
    }
    let mut name: Vec<u8> = Vec::new();
    let mut has_dot = false;
    let mut i: usize = 0;
    while i < buf.len() && buf[i] != 0
        invariant
            i <= first_field_len(buf@),
            first_field_len(buf@) <= buf.len(),
            forall|j: int| 0 <= j < first_field_len(buf@) ==> buf@[j] != 0,
            first_field_len(buf@) < buf.len() ==> buf@[first_field_len(buf@) as int] == 0,
            name@ == buf@.subrange(0, i as int),
            has_dot == name@.contains(46u8),
        decreases buf.len() - i,
    {
        let b = buf[i];
        proof {
            assert(buf@.subrange(0, i + 1) =~= name@.push(b));
            if !has_dot && b == 46u8 {
                assert(name@.push(b)[i as int] == 46u8);
            }
            if has_dot {
                let k = choose|k: int| 0 <= k < name@.len() && name@[k] == 46u8;
                assert(name@.push(b)[k] == 46u8);
            }
        }
        if b == 46u8 {
            has_dot = true;
        }
        name.push(b);
        i = i + 1;
    }
    assert(i == first_field_len(buf@));
    if has_dot {
        Some(name)
    } else {
        None
    }
}

/// Whether a `/proc` entry names a process: its name starts with a digit.
pub fn is_pid_dir(name: &[u8]) -> (r: bool)
    ensures
        r == (name@.len() > 0 && 48 <= name@[0] <= 57),
{
    name.len() > 0 && name[0] >= 48 && name[0] <= 57
}

} // verus!

verus! {

/// The active set after taking in a process's `cmdline` bytes: the hash of
/// the package they name is added, if they name one.
pub open spec fn after_record(active: Set<u64>, buf: Seq<u8>) -> Set<u64> {
    match spec_cmdline_package(buf) {
        Some(n) => active.insert(fnv1a(n)),
        None => active,
    }
}

/// An app directory is skipped when its package runs and storage is not
/// critical.
pub open spec fn spec_skips(active: Set<u64>, package: Seq<u8>, critical: bool) -> bool {
    active.contains(fnv1a(package)) && !critical
}

/// The hashes of the packages that have a running process.
pub struct ActivePackages {
    hashes: std::collections::HashSet<u64>,
}

impl ActivePackages {
    pub closed spec fn view(&self) -> Set<u64> {
        self.hashes@
    }

    pub fn new() -> (a: Self)
        ensures
            a.view() == Set::<u64>::empty(),
    {
        ActivePackages { hashes: std::collections::HashSet::new() }
    }

    /// Takes in what a process's `cmdline` file gave: the package it names,
    /// if any, counts as active.
    pub fn record_cmdline(&mut self, buf: &[u8])
        ensures
            final(self).view() == after_record(old(self).view(), buf@),
    {
        broadcast use vstd::std_specs::hash::group_hash_axioms;

        match cmdline_package(buf) {
            Some(name) => {
                let h = hash_bytes(name.as_slice());
                self.hashes.insert(h);
            },
            None => {},
        }
    }

    /// Whether an app directory is left alone this sweep: its package runs
    /// and storage is not critical.
    pub fn skips(&self, package: &[u8], critical: bool) -> (skip: bool)
        ensures
            skip == spec_skips(self.view(), package@, critical),
    {
        broadcast use vstd::std_specs::hash::group_hash_axioms;

        let h = hash_bytes(package);
        self.hashes.contains(&h) && !critical
    }
}

/// Once `record_cmdline` took in the `cmdline` of a process that runs a
/// package, `skips` leaves that package's directories alone in every sweep
/// outside critical storage, and never under critical storage.
pub proof fn law_recorded_package_is_skipped(before: ActivePackages, after: ActivePackages, buf: Seq<u8>)
    requires
        spec_cmdline_package(buf) is Some,
        after.view() == after_record(before.view(), buf),
    ensures
        spec_skips(after.view(), spec_cmdline_package(buf)->0, false),
        !spec_skips(after.view(), spec_cmdline_package(buf)->0, true),
{
}

/// Recording a process never forgets one recorded before: every package
/// skipped before a `record_cmdline` is still skipped after it, the active
/// set only grows, and by at most the one package the cmdline names.
pub proof fn law_recording_keeps_earlier_packages(
    before: ActivePackages,
    after: ActivePackages,
    buf: Seq<u8>,
    package: Seq<u8>,
    critical: bool,
)
    requires
        after.view() == after_record(before.view(), buf),
    ensures
        before.view().subset_of(after.view()),
        spec_skips(before.view(), package, critical) ==> spec_skips(after.view(), package, critical),
        forall|h: u64| #[trigger] after.view().contains(h) ==> before.view().contains(h) || (
        spec_cmdline_package(buf) is Some && h == fnv1a(spec_cmdline_package(buf)->0)),
{
}

/// Two processes recorded one after the other both count as running: the
/// directories of either package are skipped outside critical storage.
pub proof fn law_two_recorded_packages_are_both_skipped(
    start: ActivePackages,
    mid: ActivePackages,
    end: ActivePackages,
    first: Seq<u8>,
    second: Seq<u8>,
)
    requires
        spec_cmdline_package(first) is Some,
        spec_cmdline_package(second) is Some,
        mid.view() == after_record(start.view(), first),
        end.view() == after_record(mid.view(), second),
    ensures
        spec_skips(end.view(), spec_cmdline_package(first)->0, false),
        spec_skips(end.view(), spec_cmdline_package(second)->0, false),
{
}

/// Under critical storage an app cache ages out at the emergency age
/// whatever its size; otherwise a cache over the bloat limit ages out at the
/// bloat age and any other at the stale-media age.
pub proof fn law_cache_age_by_storage_and_size(config: CleanerConfig, cache_size: u64, other_size: u64)
    ensures
        spec_cache_age(config, true, cache_size) == config.age_emergency_sec,
        spec_cache_age(config, true, cache_size) == spec_cache_age(config, true, other_size),
        cache_size > config.bloat_limit_bytes ==> spec_cache_age(config, false, cache_size) == config.age_bloat_sec,
        cache_size <= config.bloat_limit_bytes ==> spec_cache_age(config, false, cache_size)
            == config.age_stale_media_sec,
        spec_code_cache_age(config, true) == config.age_emergency_sec,
        spec_code_cache_age(config, false) == config.age_stale_code_sec,
{
}

/// What the environment looked like when the sweep timer fired, as the
/// thermal sensor and the pressure monitors report it.
#[derive(Debug, Clone, Copy, PartialEq, Eq, Structural)]
pub struct SweepReadings {
    /// The battery is above 40 °C.
    pub too_hot: bool,
    /// The battery is above 46 °C.
    pub critically_hot: bool,
    /// I/O pressure (10 s average) is above 3 %.
    pub io_busy: bool,
    /// CPU pressure (10 s average) is above 3 %.
    pub cpu_busy: bool,
    /// CPU pressure (10 s average) is above 80 %.
    pub cpu_saturated: bool,
}

/// What the cleaner controller does when its timer fires.
#[derive(Debug, Clone, Copy, PartialEq, Eq, Structural)]
pub enum SweepDecision {
    /// The sweep interval has not passed yet.
    Wait,
    /// The device is too busy or too hot for a sweep.
    Skip,
    /// Ask the worker for a sweep, aggressive when storage is critical.
    Sweep { emergency: bool },
}

/// When the cleaner last sent a sweep, on a monotonic millisecond clock.
#[derive(Debug, Clone, Copy, PartialEq, Eq, Structural)]
pub struct SweepScheduler {
    pub last_sweep_ms: u64,
    pub interval_ms: i32,
}

/// How far back the first sweep is dated, so that it is due at once.
pub const INITIAL_SWEEP_BACKDATE_MS: u64 = 86_400_000;

/// Milliseconds since the last sweep; zero if the clock reads earlier.
pub open spec fn since_sweep(s: SweepScheduler, now: u64) -> u64 {
    if now >= s.last_sweep_ms { (now - s.last_sweep_ms) as u64 } else { 0 }
}

/// The decision for a timer tick at `now`: nothing before the interval has
/// passed; then, in normal mode a hot device, busy I/O or a busy CPU skips
/// the sweep, while in an emergency only a critically hot device or a
/// saturated CPU does.
pub open spec fn spec_sweep_decision(s: SweepScheduler, now: u64, emergency: bool, r: SweepReadings) -> SweepDecision {
    if (since_sweep(s, now) as u128) < (s.interval_ms as u128) {
        SweepDecision::Wait
    } else if emergency && r.critically_hot {
        SweepDecision::Skip
    } else if !emergency && r.too_hot {
        SweepDecision::Skip
    } else if !emergency && r.io_busy {
        SweepDecision::Skip
    } else if emergency && r.cpu_busy && r.cpu_saturated {
        SweepDecision::Skip
    } else if !emergency && r.cpu_busy {
        SweepDecision::Skip
    } else {
        SweepDecision::Sweep { emergency }
    }
}

impl SweepScheduler {
    /// A scheduler started at `now_ms` whose first sweep is due at once: the
    /// last sweep is dated a day back (or to the clock's start).
    pub fn new(now_ms: u64, interval_ms: i32) -> (s: Self)
        ensures
            s.interval_ms == interval_ms,
            s.last_sweep_ms == (if now_ms >= INITIAL_SWEEP_BACKDATE_MS { now_ms - INITIAL_SWEEP_BACKDATE_MS } else { now_ms as int }),
    {
        let last = match now_ms.checked_sub(INITIAL_SWEEP_BACKDATE_MS) {
            Some(t) => t,
            None => now_ms,
        };
        SweepScheduler { last_sweep_ms: last, interval_ms }
    }

    pub fn decide(&self, now_ms: u64, emergency: bool, r: &SweepReadings) -> (d: SweepDecision)
        ensures
            d == spec_sweep_decision(*self, now_ms, emergency, *r),
    {
        let since: u64 = if now_ms >= self.last_sweep_ms { now_ms - self.last_sweep_ms } else { 0 };
        if (since as u128) < (self.interval_ms as u128) {
            return SweepDecision::Wait;
        }
        if emergency {
            if r.critically_hot {
                return SweepDecision::Skip;
            }
        } else if r.too_hot {
            return SweepDecision::Skip;
        }
        if !emergency && r.io_busy {
            return SweepDecision::Skip;
        }
        if emergency {
            if r.cpu_busy && r.cpu_saturated {
                return SweepDecision::Skip;
            }
        } else if r.cpu_busy {
            return SweepDecision::Skip;
        }
        SweepDecision::Sweep { emergency }
    }

    /// Whether the sweep interval has passed at `now_ms`; until it has, every
    /// decision is `Wait`, whatever the readings.
    pub fn interval_elapsed(&self, now_ms: u64) -> (due: bool)
        ensures
            due == !((since_sweep(*self, now_ms) as u128) < (self.interval_ms as u128)),
            !due ==> forall|e: bool, r: SweepReadings| spec_sweep_decision(*self, now_ms, e, r) == SweepDecision::Wait,
    {
        let since: u64 = if now_ms >= self.last_sweep_ms { now_ms - self.last_sweep_ms } else { 0 };
        !((since as u128) < (self.interval_ms as u128))
    }

    /// The worker accepted a sweep at `now_ms`.
    pub fn record_sent(&mut self, now_ms: u64)
        ensures
            final(self).last_sweep_ms == now_ms,
            final(self).interval_ms == old(self).interval_ms,
    {
        self.last_sweep_ms = now_ms;
    }

    /// How long the event loop may wait before the next tick.
    pub fn get_timeout_ms(&self) -> (t: i32)
        ensures
            t == self.interval_ms,
    {
        self.interval_ms
    }
}

/// Once a sweep was sent, no other is sent until the interval has passed.
pub proof fn law_sweeps_are_spaced(s: SweepScheduler, sent_at: u64, now: u64, emergency: bool, r: SweepReadings)
    requires
        0 <= s.interval_ms,
        sent_at <= now,
        now - sent_at < s.interval_ms,
    ensures
        spec_sweep_decision(SweepScheduler { last_sweep_ms: sent_at, ..s }, now, emergency, r)
            == SweepDecision::Wait,
{
}

/// In an emergency, busy I/O and a moderately busy CPU never hold a due
/// sweep back; only heat or a saturated CPU do.
pub proof fn law_emergency_overrides_load(s: SweepScheduler, now: u64, r: SweepReadings)
    requires
        spec_sweep_decision(s, now, true, r) != SweepDecision::Wait,
        !r.critically_hot,
        !r.cpu_saturated,
    ensures
        spec_sweep_decision(s, now, true, r) == (SweepDecision::Sweep { emergency: true }),
{
}

} // verus!
