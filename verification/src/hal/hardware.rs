use vstd::prelude::*;
use crate::hal::text::{
    chars_contain, chars_eq_ignore_ascii_case, chars_equal, chars_of, chars_start_with, lines, parse_u64,
    parse_u64_chars, seq_contains, seq_eq_ignore_ascii_case, seq_starts_with, split_lines,
    split_whitespace, split_ws, to_lowercase, trim, trim_chars, unicode_lowercase, views_of,
};

verus! {

pub const FREQ_FLAGSHIP_MIN: u64 = 2_800_000;
pub const FREQ_BIG_CORE_MIN: u64 = 2_100_000;
pub const FREQ_DUAL_CLUSTER_MID: u64 = 2_450_000;
pub const RAM_FLAGSHIP_MIN: u64 = 5_500;
pub const RAM_MID_REQ: u64 = 3_800;
pub const DEFAULT_MAX_FREQ: u64 = 2_000_000;
/// CPUs 0 to 15 are probed.
pub const MAX_CPUS: usize = 16;
/// From this CPU on, a CPU without frequency tables ends the probe.
pub const FALLBACK_BREAK: usize = 8;
/// The memory assumed when `/proc/meminfo` gives none.
pub const DEFAULT_RAM_MB: u64 = 3072;

/// How capable the device is, which selects the tuning limits.
#[derive(Debug, Clone, Copy, PartialEq, Eq, Structural)]
pub enum DeviceTier {
    LowEnd,
    MidRange,
    Flagship,
}

/// What the CPU frequency tables say about the processor.
#[derive(Debug, Clone, Copy, PartialEq, Eq, Structural)]
pub struct CpuStats {
    pub max_freq_khz: u64,
    pub big_cores_count: u8,
}

/// A flagship has a fast core and plenty of memory; a mid-range device has
/// enough memory and either four big cores or a fast enough core.
pub open spec fn spec_tier(stats: CpuStats, total_ram_mb: u64) -> DeviceTier {
    if stats.max_freq_khz >= FREQ_FLAGSHIP_MIN && total_ram_mb >= RAM_FLAGSHIP_MIN {
        DeviceTier::Flagship
    } else if stats.big_cores_count >= 4 && total_ram_mb >= RAM_MID_REQ {
        DeviceTier::MidRange
    } else if stats.max_freq_khz >= FREQ_DUAL_CLUSTER_MID && total_ram_mb >= RAM_MID_REQ {
        DeviceTier::MidRange
    } else {
        DeviceTier::LowEnd
    }
}

impl DeviceTier {
    /// The tier of a device with these CPU statistics and this much memory.
    pub fn get(stats: &CpuStats, total_ram_mb: u64) -> (tier: DeviceTier)
        ensures
            tier == spec_tier(*stats, total_ram_mb),
    {
        if stats.max_freq_khz >= FREQ_FLAGSHIP_MIN && total_ram_mb >= RAM_FLAGSHIP_MIN {
            return DeviceTier::Flagship;
        }
        if stats.big_cores_count >= 4 && total_ram_mb >= RAM_MID_REQ {
            return DeviceTier::MidRange;
        }
        if stats.max_freq_khz >= FREQ_DUAL_CLUSTER_MID && total_ram_mb >= RAM_MID_REQ {
            return DeviceTier::MidRange;
        }
        DeviceTier::LowEnd
    }
}

/// The frequency a CPU's table reports, when it parses.
pub open spec fn reading_freq(r: Option<String>) -> Option<u64> {
    match r {
        Some(t) => parse_u64(trim(t@)),
        None => None,
    }
}

/// Walks the readings of CPUs `i..` with the running maximum and big-core
/// count; a missing table from the ninth CPU on ends the walk, an earlier
/// one or an unparsable value is skipped.
pub open spec fn scan_cpus(readings: Seq<Option<String>>, i: int, max: u64, big: nat) -> (u64, nat)
    decreases readings.len() - i,
{
    if i < 0 || i >= readings.len() {
        (max, big)
    } else {
        match readings[i] {
            None => if i >= FALLBACK_BREAK {
                (max, big)
            } else {
                scan_cpus(readings, i + 1, max, big)
            },
            Some(_) => match reading_freq(readings[i]) {
                None => scan_cpus(readings, i + 1, max, big),
                Some(f) => scan_cpus(
                    readings,
                    i + 1,
                    if f > max { f } else { max },
                    if f >= FREQ_BIG_CORE_MIN { big + 1 } else { big },
                ),
            },
        }
    }
}

/// The statistics the frequency readings give: the highest frequency (or
/// the default when none parsed) and the number of big cores.
pub open spec fn spec_cpu_stats(readings: Seq<Option<String>>) -> CpuStats {
    let (max, big) = scan_cpus(readings, 0, 0, 0);
    CpuStats {
        max_freq_khz: if max == 0 { DEFAULT_MAX_FREQ } else { max },
        big_cores_count: big as u8,
    }
}

proof fn lemma_scan_big_bounded(readings: Seq<Option<String>>, i: int, max: u64, big: nat)
    requires
        0 <= i,
    ensures
        scan_cpus(readings, i, max, big).1 <= big + if readings.len() > i { readings.len() - i } else { 0 },
    decreases readings.len() - i,
{
    if i < readings.len() {
        lemma_scan_big_bounded(readings, i + 1, max, big);
        match reading_freq(readings[i]) {
            Some(f) => {
                lemma_scan_big_bounded(
                    readings,
                    i + 1,
                    if f > max { f } else { max },
                    if f >= FREQ_BIG_CORE_MIN { big + 1 } else { big },
                );
            },
            None => {},
        }
    }
}

/// Summarizes the frequency tables of CPUs 0 to 15: `readings[i]` is the text
/// of CPU `i`'s maximum frequency, or `None` when neither of its tables could
/// be read.
pub fn get_cpu_stats(readings: &Vec<Option<String>>) -> (stats: CpuStats)
    requires
        readings.len() <= MAX_CPUS,
    ensures
        stats == spec_cpu_stats(readings@),
{
    let mut max: u64 = 0;
    let mut big: u8 = 0;
    let mut i: usize = 0;
    proof {
        lemma_scan_big_bounded(readings@, 0, 0, 0);
    }
    while i < readings.len()
        invariant
            i <= readings.len() <= MAX_CPUS,
            big <= i,
            scan_cpus(readings@, i as int, max, big as nat) == scan_cpus(readings@, 0, 0, 0),
        ensures
            scan_cpus(readings@, 0, 0, 0) == (max, big as nat),
        decreases readings.len() - i,
    {
        match &readings[i] {
            None => {
                if i >= FALLBACK_BREAK {
                    break;
                }
            },
            Some(text) => {
                let chars = chars_of(text.as_str());
                let trimmed = trim_chars(&chars);
                match parse_u64_chars(&trimmed) {
                    None => {},
                    Some(f) => {
                        if f > max {
                            max = f;
                        }
                        if f >= FREQ_BIG_CORE_MIN {
                            big = big + 1;
                        }
                    },
                }
            },
        }
        i = i + 1;
    }
    CpuStats { max_freq_khz: if max == 0 { DEFAULT_MAX_FREQ } else { max }, big_cores_count: big }
}

} // verus!

verus! {

/// The key of the total-memory line in `/proc/meminfo`.
pub open spec fn mem_total_key() -> Seq<char> {
    "MemTotal:"@
}

/// Scans the lines of `/proc/meminfo` from line `i`: the first line that
/// starts with `MemTotal:` and has a second word gives the memory in MiB
/// (zero when that word is not a number); with no such line, the default.
pub open spec fn mem_total_from(ls: Seq<Seq<char>>, i: int) -> u64
    decreases ls.len() - i,
{
    if i < 0 || i >= ls.len() {
        DEFAULT_RAM_MB
    } else if seq_starts_with(ls[i], mem_total_key()) && split_ws(ls[i]).len() >= 2 {
        match parse_u64(split_ws(ls[i])[1]) {
            Some(kb) => kb / 1024,
            None => 0,
        }
    } else {
        mem_total_from(ls, i + 1)
    }
}

/// The total memory in MiB that `/proc/meminfo` reports, or the default when
/// the file could not be read.
pub open spec fn spec_total_ram_mb(meminfo: Option<&str>) -> u64 {
    match meminfo {
        Some(text) => mem_total_from(lines(text@), 0),
        None => DEFAULT_RAM_MB,
    }
}

/// Reads the total memory in MiB out of the text of `/proc/meminfo`
/// (`None` when the file could not be read).
pub fn get_total_ram_mb(meminfo: Option<&str>) -> (mb: u64)
    ensures
        mb == spec_total_ram_mb(meminfo),
{
    let text = match meminfo {
        Some(t) => t,
        None => {
            return DEFAULT_RAM_MB;
        },
    };
    let chars = chars_of(text);
    let ls = split_lines(&chars);
    let key = chars_of("MemTotal:");
    let mut i: usize = 0;
    while i < ls.len()
        invariant
            i <= ls.len(),
            meminfo == Some(text),
            views_of(ls@) == lines(text@),
            key@ == mem_total_key(),
            mem_total_from(lines(text@), i as int) == mem_total_from(lines(text@), 0),
        decreases ls.len() - i,
    {
        assert(views_of(ls@)[i as int] == ls@[i as int]@);
        if chars_start_with(&ls[i], &key) {
            let words = split_whitespace(&ls[i]);
            if words.len() >= 2 {
                proof {
                    let l = lines(text@)[i as int];
                    assert(l == ls@[i as int]@);
                    assert(views_of(words@)[1] == words@[1]@);
                    assert(split_ws(l)[1] == words@[1]@);
                    assert(seq_starts_with(l, mem_total_key()));
                }
                let mb: u64 = match parse_u64_chars(&words[1]) {
                    Some(kb) => kb / 1024,
                    None => 0,
                };
                assert(lines(text@).len() == ls.len());
                assert(mb == mem_total_from(lines(text@), i as int));
                return mb;
            }
        }
        i = i + 1;
    }
    DEFAULT_RAM_MB
}

/// The block devices that may hold user data, in the order they are tried.
pub open spec fn storage_candidates() -> Seq<Seq<char>> {
    seq!["nvme0n1"@, "sda"@, "sdb"@, "mmcblk0"@]
}

/// The first candidate that exists under `/sys/block`, or `mmcblk0`.
pub open spec fn first_present_device(present: Seq<bool>, i: int) -> Seq<char>
    decreases 4 - i,
{
    if i < 0 || i >= 4 {
        "mmcblk0"@
    } else if i < present.len() && present[i] {
        storage_candidates()[i]
    } else {
        first_present_device(present, i + 1)
    }
}

/// The name of candidate `i` of the storage devices.
pub fn storage_candidate(i: usize) -> (name: &'static str)
    requires
        i < 4,
    ensures
        name@ == storage_candidates()[i as int],
{
    if i == 0 {
        "nvme0n1"
    } else if i == 1 {
        "sda"
    } else if i == 2 {
        "sdb"
    } else {
        "mmcblk0"
    }
}

/// Picks the storage device: `present[i]` tells whether candidate `i`
/// (see `storage_candidate`) exists under `/sys/block`.
pub fn detect_storage_device(present: &Vec<bool>) -> (dev: String)
    ensures
        dev@ == first_present_device(present@, 0),
{
    let mut i: usize = 0;
    while i < 4
        invariant
            i <= 4,
            first_present_device(present@, i as int) == first_present_device(present@, 0),
        decreases 4 - i,
    {
        if i < present.len() && present[i] {
            return String::from_str(storage_candidate(i));
        }
        i = i + 1;
    }
    String::from_str("mmcblk0")
}

/// `/sys/block/<dev>/queue/read_ahead_kb`.
pub open spec fn read_ahead_path(dev: Seq<char>) -> Seq<char> {
    "/sys/block/"@ + dev + "/queue/read_ahead_kb"@
}

/// `/sys/block/<dev>/queue/nr_requests`.
pub open spec fn nr_requests_path(dev: Seq<char>) -> Seq<char> {
    "/sys/block/"@ + dev + "/queue/nr_requests"@
}

/// `/sys/block/<dev>/stat`.
pub open spec fn diskstats_path(dev: Seq<char>) -> Seq<char> {
    "/sys/block/"@ + dev + "/stat"@
}

/// The read-ahead size file of the storage device `dev`.
pub fn get_read_ahead_path(dev: &str) -> (p: String)
    ensures
        p@ == read_ahead_path(dev@),
{
    let mut p = String::from_str("/sys/block/");
    p.append(dev);
    p.append("/queue/read_ahead_kb");
    p
}

/// The request queue depth file of the storage device `dev`.
pub fn get_nr_requests_path(dev: &str) -> (p: String)
    ensures
        p@ == nr_requests_path(dev@),
{
    let mut p = String::from_str("/sys/block/");
    p.append(dev);
    p.append("/queue/nr_requests");
    p
}

/// The I/O statistics file of the storage device `dev`.
pub fn get_diskstats_path(dev: &str) -> (p: String)
    ensures
        p@ == diskstats_path(dev@),
{
    let mut p = String::from_str("/sys/block/");
    p.append(dev);
    p.append("/stat");
    p
}

} // verus!

verus! {

/// Zone types that name the CPU sensor, best first.
pub open spec fn thermal_priority() -> Seq<Seq<char>> {
    seq![
        "cpu-1-0-usr"@, "cpu-1-1-usr"@, "cpu-1-2-usr"@, "cpu-1-3-usr"@, "cpu-0-0-usr"@,
        "cpu-0-1-usr"@, "big-core"@, "mid-core"@, "little-core"@, "cpu0_thermal"@,
        "cpu1_thermal"@, "mtktscpu"@, "mtk_ts_cpu"@, "mtkts_cpu"@, "thermal-cpuss-0"@,
        "thermal-cpuss-1"@, "exynos_thermal"@, "exynos_dev_thermal"@, "hisi_thermal"@,
        "mtktsAP"@, "mtk_ts_ap"@, "ap_cdev"@, "ap_thermal"@, "soc_thermal"@, "soc-thermal"@,
        "cpu_thermal"@, "cpu-thermal"@, "cpu"@, "tsens_tz_sensor10"@, "tsens_tz_sensor5"@,
        "tsens_tz_sensor0"@,
    ]
}

/// Words that mark a zone as measuring something other than the CPU.
pub open spec fn thermal_blacklist() -> Seq<Seq<char>> {
    seq![
        "battery"@, "bms"@, "bat"@, "charger"@, "usb"@, "pa_therm"@, "pa-therm"@, "modem"@,
        "wifi"@, "wlan"@, "gpu"@, "camera"@, "flash"@, "led"@, "pmic"@, "buck"@, "ldo"@,
        "xo_therm"@, "quiet"@, "backlight"@,
    ]
}

/// Words that make a zone type look like a CPU sensor.
pub open spec fn cpu_like_words() -> Seq<Seq<char>> {
    seq!["cpu"@, "soc"@, "cluster"@, "ap"@]
}

/// Builds a list of string literals one push at a time.
fn literal_list(names: &[&'static str]) -> (v: Vec<&'static str>)
    ensures
        v@ == names@,
{
    let mut v: Vec<&'static str> = Vec::new();
    let mut i: usize = 0;
    while i < names.len()
        invariant
            i <= names.len(),
            v@ == names@.subrange(0, i as int),
        decreases names.len() - i,
    {
        v.push(names[i]);
        i = i + 1;
        assert(v@ =~= names@.subrange(0, i as int));
    }
    assert(names@.subrange(0, names.len() as int) =~= names@);
    v
}

pub open spec fn str_views(v: Seq<&str>) -> Seq<Seq<char>> {
    v.map_values(|s: &str| s@)
}

fn thermal_priority_list() -> (v: Vec<&'static str>)
    ensures
        str_views(v@) == thermal_priority(),
{
    let v = literal_list(
        &[
            "cpu-1-0-usr", "cpu-1-1-usr", "cpu-1-2-usr", "cpu-1-3-usr", "cpu-0-0-usr",
            "cpu-0-1-usr", "big-core", "mid-core", "little-core", "cpu0_thermal",
            "cpu1_thermal", "mtktscpu", "mtk_ts_cpu", "mtkts_cpu", "thermal-cpuss-0",
            "thermal-cpuss-1", "exynos_thermal", "exynos_dev_thermal", "hisi_thermal",
            "mtktsAP", "mtk_ts_ap", "ap_cdev", "ap_thermal", "soc_thermal", "soc-thermal",
            "cpu_thermal", "cpu-thermal", "cpu", "tsens_tz_sensor10", "tsens_tz_sensor5",
            "tsens_tz_sensor0",
        ],
    );
    assert(str_views(v@) =~= thermal_priority());
    v
}

} // verus!

verus! {

fn thermal_blacklist_list() -> (v: Vec<&'static str>)
    ensures
        str_views(v@) == thermal_blacklist(),
{
    let v = literal_list(
        &[
            "battery", "bms", "bat", "charger", "usb", "pa_therm", "pa-therm", "modem", "wifi",
            "wlan", "gpu", "camera", "flash", "led", "pmic", "buck", "ldo", "xo_therm", "quiet",
            "backlight",
        ],
    );
    assert(str_views(v@) =~= thermal_blacklist());
    v
}

fn cpu_like_word_list() -> (v: Vec<&'static str>)
    ensures
        str_views(v@) == cpu_like_words(),
{
    let v = literal_list(&["cpu", "soc", "cluster", "ap"]);
    assert(str_views(v@) =~= cpu_like_words());
    v
}

/// Whether some word of `words` occurs in `hay`.
fn contains_any_word(hay: &Vec<char>, words: &Vec<&'static str>) -> (r: bool)
    ensures
        r == contains_any(hay@, str_views(words@)),
{
    let mut i: usize = 0;
    while i < words.len()
        invariant
            i <= words.len(),
            forall|j: int| 0 <= j < i ==> !seq_contains(hay@, #[trigger] str_views(words@)[j]),
        decreases words.len() - i,
    {
        let w = chars_of(words[i]);
        if chars_contain(hay, &w) {
            assert(seq_contains(hay@, str_views(words@)[i as int]));
            return true;
        }
        i = i + 1;
    }
    false
}

pub open spec fn string_views(v: Seq<String>) -> Seq<Seq<char>> {
    v.map_values(|s: String| s@)
}

/// The first index from `i` on whose key is `k`, or -1.
pub open spec fn find_key(keys: Seq<Seq<char>>, k: Seq<char>, i: int) -> int
    decreases keys.len() - i,
{
    if i < 0 || i >= keys.len() {
        -1
    } else if keys[i] == k {
        i
    } else {
        find_key(keys, k, i + 1)
    }
}

/// The first index from `i` on whose key equals `k` up to ASCII case, or -1.
pub open spec fn find_key_ci(keys: Seq<Seq<char>>, k: Seq<char>, i: int) -> int
    decreases keys.len() - i,
{
    if i < 0 || i >= keys.len() {
        -1
    } else if seq_eq_ignore_ascii_case(keys[i], k) {
        i
    } else {
        find_key_ci(keys, k, i + 1)
    }
}

/// Some word of `words` occurs in `hay`.
pub open spec fn contains_any(hay: Seq<char>, words: Seq<Seq<char>>) -> bool {
    exists|i: int| 0 <= i < words.len() && seq_contains(hay, #[trigger] words[i])
}

/// A zone type that names a CPU-like sensor and no blacklisted part, read in
/// lower case.
pub open spec fn looks_like_cpu_zone(t: Seq<char>) -> bool {
    contains_any(unicode_lowercase(t), cpu_like_words()) && !contains_any(
        unicode_lowercase(t),
        thermal_blacklist(),
    )
}

/// The first index from `i` on whose key looks like a CPU zone, or -1.
pub open spec fn find_cpu_like(keys: Seq<Seq<char>>, i: int) -> int
    decreases keys.len() - i,
{
    if i < 0 || i >= keys.len() {
        -1
    } else if looks_like_cpu_zone(keys[i]) {
        i
    } else {
        find_cpu_like(keys, i + 1)
    }
}

/// Walks the priority list from entry `j`: an exact type match wins, then a
/// match up to ASCII case.
pub open spec fn priority_zone(keys: Seq<Seq<char>>, dirs: Seq<Seq<char>>, j: int) -> Option<Seq<char>>
    decreases 31 - j,
{
    if j < 0 || j >= 31 {
        None
    } else if find_key(keys, thermal_priority()[j], 0) >= 0 {
        Some(dirs[find_key(keys, thermal_priority()[j], 0)])
    } else if find_key_ci(keys, thermal_priority()[j], 0) >= 0 {
        Some(dirs[find_key_ci(keys, thermal_priority()[j], 0)])
    } else {
        priority_zone(keys, dirs, j + 1)
    }
}

/// The zone directory whose `temp` file gives the CPU temperature.
pub open spec fn selected_zone(keys: Seq<Seq<char>>, dirs: Seq<Seq<char>>) -> Seq<char> {
    match priority_zone(keys, dirs, 0) {
        Some(d) => d,
        None => if find_cpu_like(keys, 0) >= 0 {
            dirs[find_cpu_like(keys, 0)]
        } else {
            "thermal_zone3"@
        },
    }
}

/// What `find_key` finds: the first index from `i` on that holds `k`.
pub proof fn lemma_find_key(keys: Seq<Seq<char>>, k: Seq<char>, i: int)
    requires
        0 <= i,
    ensures
        find_key(keys, k, i) == -1 || (i <= find_key(keys, k, i) < keys.len() && keys[find_key(keys, k, i)] == k),
        find_key(keys, k, i) == -1 ==> forall|j: int| i <= j < keys.len() ==> keys[j] != k,
        find_key(keys, k, i) >= 0 ==> forall|j: int| i <= j < find_key(keys, k, i) ==> keys[j] != k,
    decreases keys.len() - i,
{
    if i < keys.len() && keys[i] != k {
        lemma_find_key(keys, k, i + 1);
    }
}

/// What `find_key_ci` finds: the first index from `i` on that holds `k` up
/// to ASCII case.
pub proof fn lemma_find_key_ci(keys: Seq<Seq<char>>, k: Seq<char>, i: int)
    requires
        0 <= i,
    ensures
        find_key_ci(keys, k, i) == -1 || (i <= find_key_ci(keys, k, i) < keys.len()
            && seq_eq_ignore_ascii_case(keys[find_key_ci(keys, k, i)], k)),
        find_key_ci(keys, k, i) == -1 ==> forall|j: int| i <= j < keys.len() ==> !seq_eq_ignore_ascii_case(#[trigger] keys[j], k),
    decreases keys.len() - i,
{
    if i < keys.len() && !seq_eq_ignore_ascii_case(keys[i], k) {
        lemma_find_key_ci(keys, k, i + 1);
    }
}

/// What `find_cpu_like` finds.
pub proof fn lemma_find_cpu_like(keys: Seq<Seq<char>>, i: int)
    requires
        0 <= i,
    ensures
        find_cpu_like(keys, i) == -1 || (i <= find_cpu_like(keys, i) < keys.len() && looks_like_cpu_zone(
            keys[find_cpu_like(keys, i)],
        )),
        find_cpu_like(keys, i) == -1 ==> forall|j: int| i <= j < keys.len() ==> !looks_like_cpu_zone(#[trigger] keys[j]),
        find_cpu_like(keys, i) >= 0 ==> forall|j: int| i <= j < find_cpu_like(keys, i) ==> !looks_like_cpu_zone(#[trigger] keys[j]),
    decreases keys.len() - i,
{
    if i < keys.len() && !looks_like_cpu_zone(keys[i]) {
        lemma_find_cpu_like(keys, i + 1);
    }
}

/// The name every zone directory starts with.
pub open spec fn zone_dir_prefix() -> Seq<char> {
    "thermal_zone"@
}

/// The thermal zones found under `/sys/class/thermal`: the trimmed type of
/// each zone and its directory name, in the order they were first seen. A
/// type is held once; a later zone of the same type replaces the directory.
pub struct ThermalZones {
    types: Vec<Vec<char>>,
    dirs: Vec<String>,
}

impl ThermalZones {
    pub closed spec fn type_names(&self) -> Seq<Seq<char>> {
        views_of(self.types@)
    }

    pub closed spec fn dir_names(&self) -> Seq<Seq<char>> {
        string_views(self.dirs@)
    }

    /// Both lists have the same length and no type occurs twice.
    pub closed spec fn wf(&self) -> bool {
        &&& self.types.len() == self.dirs.len()
        &&& forall|i: int, j: int|
            0 <= i < j < self.types.len() ==> #[trigger] self.types@[i]@ != #[trigger] self.types@[j]@
    }

    /// The zones as a map from type to directory.
    pub open spec fn as_map(&self) -> Map<Seq<char>, Seq<char>> {
        Map::new(
            |t: Seq<char>| find_key(self.type_names(), t, 0) >= 0,
            |t: Seq<char>| self.dir_names()[find_key(self.type_names(), t, 0)],
        )
    }

    pub proof fn lemma_wf_lengths(&self)
        requires
            self.wf(),
        ensures
            self.type_names().len() == self.dir_names().len(),
    {
    }

    pub fn new() -> (z: Self)
        ensures
            z.wf(),
            z.type_names() == Seq::<Seq<char>>::empty(),
            z.dir_names() == Seq::<Seq<char>>::empty(),
    {
        let z = ThermalZones { types: Vec::new(), dirs: Vec::new() };
        assert(z.type_names() =~= Seq::<Seq<char>>::empty());
        assert(z.dir_names() =~= Seq::<Seq<char>>::empty());
        z
    }

    /// Records a zone of type `zone_type` in directory `dir`; a zone already
    /// held under that type gets the new directory.
    pub fn insert(&mut self, zone_type: Vec<char>, dir: String)
        requires
            old(self).wf(),
        ensures
            final(self).wf(),
            final(self).as_map() == old(self).as_map().insert(zone_type@, dir@),
            find_key(old(self).type_names(), zone_type@, 0) >= 0 ==> final(self).type_names()
                == old(self).type_names() && final(self).dir_names() == old(self).dir_names().update(
                find_key(old(self).type_names(), zone_type@, 0),
                dir@,
            ),
            find_key(old(self).type_names(), zone_type@, 0) == -1 ==> final(self).type_names()
                == old(self).type_names().push(zone_type@) && final(self).dir_names()
                == old(self).dir_names().push(dir@),
    {
        let ghost keys = self.type_names();
        let ghost old_map = self.as_map();
        proof {
            lemma_find_key(keys, zone_type@, 0);
        }
        match self.position(&zone_type) {
            Some(i) => {
                self.dirs.set(i, dir);
                proof {
                    assert(self.type_names() =~= keys);
                    assert(self.dir_names() =~= old(self).dir_names().update(i as int, dir@));
                    let m = old_map.insert(zone_type@, dir@);
                    assert forall|t: Seq<char>| #[trigger] self.as_map().dom().contains(t) == m.dom().contains(t) by {
                        lemma_find_key(keys, t, 0);
                    }
                    assert forall|t: Seq<char>| #[trigger] self.as_map().dom().contains(t) implies self.as_map()[t] == m[t] by {
                        lemma_find_key(keys, t, 0);
                        if t != zone_type@ {
                            assert(find_key(keys, t, 0) != i);
                        }
                    }
                    assert(self.as_map() =~= m);
                }
            },
            None => {
                let ghost n = self.types.len();
                self.types.push(zone_type);
                self.dirs.push(dir);
                proof {
                    let nk = self.type_names();
                    assert(nk =~= keys.push(zone_type@));
                    assert(self.dir_names() =~= old(self).dir_names().push(dir@));
                    assert forall|i: int, j: int| 0 <= i < j < self.types.len() implies #[trigger] self.types@[i]@ != #[trigger] self.types@[j]@ by {
                        if j == n {
                            assert(keys[i] == self.types@[i]@);
                        }
                    }
                    assert forall|t: Seq<char>| true implies find_key(nk, t, 0) == (if t == zone_type@ { n as int } else { find_key(keys, t, 0) }) by {
                        lemma_find_key(nk, t, 0);
                        lemma_find_key(keys, t, 0);
                        let a = find_key(nk, t, 0);
                        let b = if t == zone_type@ { n as int } else { find_key(keys, t, 0) };
                        if a != b {
                            if a >= 0 && b >= 0 {
                                if a < b { assert(nk[a] == t); } else { assert(nk[b] == t); }
                            } else if a >= 0 {
                                assert(nk[a] == t);
                            } else {
                                assert(nk[b] == t);
                            }
                        }
                    }
                    let m = old_map.insert(zone_type@, dir@);
                    assert forall|t: Seq<char>| #[trigger] self.as_map().dom().contains(t) == m.dom().contains(t) by {
                        assert(find_key(nk, t, 0) == (if t == zone_type@ { n as int } else { find_key(keys, t, 0) }));
                    }
                    assert forall|t: Seq<char>| #[trigger] self.as_map().dom().contains(t) implies self.as_map()[t] == m[t] by {
                        assert(find_key(nk, t, 0) == (if t == zone_type@ { n as int } else { find_key(keys, t, 0) }));
                        lemma_find_key(keys, t, 0);
                    }
                    assert(self.as_map() =~= m);
                }
            },
        }
    }

    /// Records what the zone directory `dir` holds: only a directory named
    /// `thermal_zone...` whose `type` file could be read counts, under its
    /// trimmed type.
    pub fn record(&mut self, dir: &str, type_content: Option<&str>)
        requires
            old(self).wf(),
        ensures
            final(self).wf(),
            (seq_starts_with(dir@, zone_dir_prefix()) && type_content is Some) ==> final(self).as_map()
                == old(self).as_map().insert(trim(type_content->0@), dir@),
            (seq_starts_with(dir@, zone_dir_prefix()) && type_content is Some && find_key(
                old(self).type_names(),
                trim(type_content->0@),
                0,
            ) >= 0) ==> final(self).type_names() == old(self).type_names() && final(self).dir_names()
                == old(self).dir_names().update(
                find_key(old(self).type_names(), trim(type_content->0@), 0),
                dir@,
            ),
            (seq_starts_with(dir@, zone_dir_prefix()) && type_content is Some && find_key(
                old(self).type_names(),
                trim(type_content->0@),
                0,
            ) == -1) ==> final(self).type_names() == old(self).type_names().push(
                trim(type_content->0@),
            ) && final(self).dir_names() == old(self).dir_names().push(dir@),
            !(seq_starts_with(dir@, zone_dir_prefix()) && type_content is Some) ==> *final(self)
                == *old(self),
    {
        let name = chars_of(dir);
        let prefix = chars_of("thermal_zone");
        if !chars_start_with(&name, &prefix) {
            return;
        }
        match type_content {
            None => {},
            Some(c) => {
                let t = trim_chars(&chars_of(c));
                self.insert(t, String::from_str(dir));
            },
        }
    }

    fn position_ci(&self, k: &Vec<char>) -> (r: Option<usize>)
        requires
            self.wf(),
        ensures
            match r {
                Some(i) => i as int == find_key_ci(self.type_names(), k@, 0) && i < self.types.len(),
                None => find_key_ci(self.type_names(), k@, 0) == -1,
            },
    {
        let mut i: usize = 0;
        while i < self.types.len()
            invariant
                i <= self.types.len(),
                self.type_names().len() == self.types.len(),
                find_key_ci(self.type_names(), k@, i as int) == find_key_ci(self.type_names(), k@, 0),
            decreases self.types.len() - i,
        {
            if chars_eq_ignore_ascii_case(&self.types[i], k) {
                return Some(i);
            }
            i = i + 1;
        }
        None
    }

    fn cpu_like_at(&self, i: usize) -> (r: bool)
        requires
            self.wf(),
            i < self.types.len(),
        ensures
            r == looks_like_cpu_zone(self.type_names()[i as int]),
    {
        let lower = to_lowercase(&self.types[i]);
        contains_any_word(&lower, &cpu_like_word_list()) && !contains_any_word(
            &lower,
            &thermal_blacklist_list(),
        )
    }

    /// The directory of the zone that measures the CPU: the first entry of
    /// the priority list that some zone type matches exactly, or else up to
    /// ASCII case; failing those, the first zone whose lower-cased type
    /// names a CPU-like part and no blacklisted one; failing that,
    /// `thermal_zone3`.
    pub fn select_cpu_zone(&self) -> (d: String)
        requires
            self.wf(),
        ensures
            d@ == selected_zone(self.type_names(), self.dir_names()),
    {
        let prio = thermal_priority_list();
        assert(prio@.len() == str_views(prio@).len());
        assert(thermal_priority().len() == 31);
        let mut j: usize = 0;
        while j < prio.len()
            invariant
                j <= prio.len() == 31,
                self.wf(),
                str_views(prio@) == thermal_priority(),
                priority_zone(self.type_names(), self.dir_names(), j as int) == priority_zone(
                    self.type_names(),
                    self.dir_names(),
                    0,
                ),
            decreases prio.len() - j,
        {
            let target = chars_of(prio[j]);
            assert(target@ == thermal_priority()[j as int]);
            match self.position(&target) {
                Some(i) => {
                    return self.dirs[i].clone();
                },
                None => {},
            }
            match self.position_ci(&target) {
                Some(i) => {
                    return self.dirs[i].clone();
                },
                None => {},
            }
            j = j + 1;
        }
        let mut i: usize = 0;
        while i < self.types.len()
            invariant
                i <= self.types.len(),
                self.wf(),
                priority_zone(self.type_names(), self.dir_names(), 0) is None,
                find_cpu_like(self.type_names(), i as int) == find_cpu_like(self.type_names(), 0),
            decreases self.types.len() - i,
        {
            if self.cpu_like_at(i) {
                return self.dirs[i].clone();
            }
            i = i + 1;
        }
        String::from_str("thermal_zone3")
    }

    fn position(&self, k: &Vec<char>) -> (r: Option<usize>)
        requires
            self.wf(),
        ensures
            match r {
                Some(i) => i as int == find_key(self.type_names(), k@, 0) && i < self.types.len(),
                None => find_key(self.type_names(), k@, 0) == -1,
            },
    {
        let mut i: usize = 0;
        while i < self.types.len()
            invariant
                i <= self.types.len(),
                self.type_names().len() == self.types.len(),
                find_key(self.type_names(), k@, i as int) == find_key(self.type_names(), k@, 0),
            decreases self.types.len() - i,
        {
            if chars_equal(&self.types[i], k) {
                return Some(i);
            }
            i = i + 1;
        }
        None
    }
}

} // verus!

verus! {

/// `/sys/class/thermal/<zone>/temp`.
pub open spec fn cpu_temp_path(zone: Seq<char>) -> Seq<char> {
    "/sys/class/thermal/"@ + zone + "/temp"@
}

/// The temperature file of the thermal zone directory `zone`.
pub fn get_cpu_temp_path(zone: &str) -> (p: String)
    ensures
        p@ == cpu_temp_path(zone@),
{
    let mut p = String::from_str("/sys/class/thermal/");
    p.append(zone);
    p.append("/temp");
    p
}

} // verus!

verus! {

/// The tier of the device whose CPU frequency tables and `/proc/meminfo`
/// read as given (see `get_cpu_stats` and `get_total_ram_mb`).
pub fn detect_hardware_capabilities(readings: &Vec<Option<String>>, meminfo: Option<&str>) -> (tier: DeviceTier)
    requires
        readings.len() <= MAX_CPUS,
    ensures
        tier == spec_tier(spec_cpu_stats(readings@), spec_total_ram_mb(meminfo)),
{
    let stats = get_cpu_stats(readings);
    let ram = get_total_ram_mb(meminfo);
    DeviceTier::get(&stats, ram)
}

/// The rank of a tier: low end below mid-range below flagship.
pub open spec fn tier_rank(t: DeviceTier) -> int {
    match t {
        DeviceTier::LowEnd => 0,
        DeviceTier::MidRange => 1,
        DeviceTier::Flagship => 2,
    }
}

/// More memory, a faster top core or more big cores never lower the tier.
pub proof fn law_tier_is_monotone(a: CpuStats, ram_a: u64, b: CpuStats, ram_b: u64)
    requires
        a.max_freq_khz <= b.max_freq_khz,
        a.big_cores_count <= b.big_cores_count,
        ram_a <= ram_b,
    ensures
        tier_rank(spec_tier(a, ram_a)) <= tier_rank(spec_tier(b, ram_b)),
{
}

proof fn lemma_priority_zone_recorded(keys: Seq<Seq<char>>, dirs: Seq<Seq<char>>, j: int)
    requires
        keys.len() == dirs.len(),
        0 <= j,
    ensures
        priority_zone(keys, dirs, j) matches Some(d) ==> exists|i: int| 0 <= i < dirs.len() && dirs[i] == d,
    decreases 31 - j,
{
    if j < 31 {
        lemma_find_key(keys, thermal_priority()[j], 0);
        lemma_find_key_ci(keys, thermal_priority()[j], 0);
        lemma_priority_zone_recorded(keys, dirs, j + 1);
    }
}

/// The chosen CPU zone is always one of the recorded zone directories, or
/// the `thermal_zone3` fallback.
pub proof fn law_selected_zone_is_recorded(z: ThermalZones)
    requires
        z.wf(),
    ensures
        selected_zone(z.type_names(), z.dir_names()) == "thermal_zone3"@ || exists|i: int|
            0 <= i < z.dir_names().len() && z.dir_names()[i] == selected_zone(
                z.type_names(),
                z.dir_names(),
            ),
{
    z.lemma_wf_lengths();
    lemma_priority_zone_recorded(z.type_names(), z.dir_names(), 0);
    lemma_find_cpu_like(z.type_names(), 0);
}

} // verus!

verus! {

/// Some recorded type equals priority entry `j` up to ASCII case.
pub open spec fn some_key_matches(keys: Seq<Seq<char>>, j: int) -> bool {
    exists|i: int| 0 <= i < keys.len() && seq_eq_ignore_ascii_case(#[trigger] keys[i], thermal_priority()[j])
}

proof fn lemma_priority_choice(keys: Seq<Seq<char>>, dirs: Seq<Seq<char>>, j: int)
    requires
        keys.len() == dirs.len(),
        0 <= j <= 31,
    ensures
        (forall|j2: int| j <= j2 < 31 ==> !#[trigger] some_key_matches(keys, j2)) ==> priority_zone(keys, dirs, j) is None,
        (exists|j2: int| j <= j2 < 31 && #[trigger] some_key_matches(keys, j2)) ==> exists|jj: int, i: int|
            j <= jj < 31 && 0 <= i < keys.len() && priority_zone(keys, dirs, j) == Some(dirs[i])
                && seq_eq_ignore_ascii_case(#[trigger] keys[i], #[trigger] thermal_priority()[jj])
                && (forall|j2: int| j <= j2 < jj ==> !#[trigger] some_key_matches(keys, j2))
                && (keys[i] != thermal_priority()[jj] ==> forall|i2: int| 0 <= i2 < keys.len() ==> keys[i2] != thermal_priority()[jj]),
    decreases 31 - j,
{
    if j < 31 {
        let t = thermal_priority()[j];
        lemma_find_key(keys, t, 0);
        lemma_find_key_ci(keys, t, 0);
        lemma_priority_choice(keys, dirs, j + 1);
        let fk = find_key(keys, t, 0);
        let fc = find_key_ci(keys, t, 0);
        if fk >= 0 {
            assert(seq_eq_ignore_ascii_case(keys[fk], t));
            assert(some_key_matches(keys, j));
        } else if fc >= 0 {
            assert(some_key_matches(keys, j));
        } else {
            assert(!some_key_matches(keys, j));
            if exists|j2: int| j <= j2 < 31 && #[trigger] some_key_matches(keys, j2) {
                let w = choose|j2: int| j <= j2 < 31 && #[trigger] some_key_matches(keys, j2);
                assert(w != j);
                assert(j + 1 <= w < 31 && some_key_matches(keys, w));
                let (jj, i) = choose|jj: int, i: int|
                    j + 1 <= jj < 31 && 0 <= i < keys.len() && priority_zone(keys, dirs, j + 1) == Some(dirs[i])
                        && seq_eq_ignore_ascii_case(#[trigger] keys[i], #[trigger] thermal_priority()[jj])
                        && (forall|j2: int| j + 1 <= j2 < jj ==> !#[trigger] some_key_matches(keys, j2))
                        && (keys[i] != thermal_priority()[jj] ==> forall|i2: int| 0 <= i2 < keys.len() ==> keys[i2] != thermal_priority()[jj]);
                assert forall|j2: int| j <= j2 < jj implies !#[trigger] some_key_matches(keys, j2) by {
                    if j2 > j {
                        assert(j + 1 <= j2 < jj);
                    }
                }
            }
        }
    }
}

/// Which zone gives the CPU temperature: the zone whose type matches the
/// earliest entry of the priority list that any type matches up to ASCII
/// case (an exact match of that entry winning); failing any such match, the
/// first zone whose lower-cased type names a CPU-like part and no
/// blacklisted one; failing that, `thermal_zone3`. The path is that zone's
/// `temp` file.
pub proof fn law_cpu_zone_choice(z: ThermalZones)
    requires
        z.wf(),
    ensures
        ({
            let keys = z.type_names();
            let dirs = z.dir_names();
            let sel = selected_zone(keys, dirs);
            &&& (exists|j: int| 0 <= j < 31 && #[trigger] some_key_matches(keys, j)) ==> exists|jj: int, i: int|
                0 <= jj < 31 && 0 <= i < keys.len() && sel == dirs[i]
                    && seq_eq_ignore_ascii_case(#[trigger] keys[i], #[trigger] thermal_priority()[jj])
                    && (forall|j2: int| 0 <= j2 < jj ==> !#[trigger] some_key_matches(keys, j2))
                    && (keys[i] != thermal_priority()[jj] ==> forall|i2: int| 0 <= i2 < keys.len() ==> keys[i2] != thermal_priority()[jj])
            &&& ((forall|j: int| 0 <= j < 31 ==> !#[trigger] some_key_matches(keys, j)) && exists|i: int|
                0 <= i < keys.len() && #[trigger] looks_like_cpu_zone(keys[i])) ==> exists|i: int|
                0 <= i < keys.len() && sel == dirs[i] && #[trigger] looks_like_cpu_zone(keys[i]) && forall|i2: int|
                    0 <= i2 < i ==> !#[trigger] looks_like_cpu_zone(keys[i2])
            &&& ((forall|j: int| 0 <= j < 31 ==> !#[trigger] some_key_matches(keys, j)) && forall|i: int|
                0 <= i < keys.len() ==> !#[trigger] looks_like_cpu_zone(keys[i])) ==> sel == "thermal_zone3"@
            &&& cpu_temp_path(sel) == "/sys/class/thermal/"@ + sel + "/temp"@
        }),
{
    z.lemma_wf_lengths();
    let keys = z.type_names();
    let dirs = z.dir_names();
    lemma_priority_choice(keys, dirs, 0);
    lemma_find_cpu_like(keys, 0);
}

} // verus!

verus! {

/// The temperature path depends on the recorded zones alone: probing the
/// same zones again gives the same path, which is what lets the path be
/// found once and kept.
pub proof fn law_cpu_temp_path_same_every_call(a: ThermalZones, b: ThermalZones)
    requires
        a.wf(),
        b.wf(),
        a.type_names() == b.type_names(),
        a.dir_names() == b.dir_names(),
    ensures
        cpu_temp_path(selected_zone(a.type_names(), a.dir_names())) == cpu_temp_path(
            selected_zone(b.type_names(), b.dir_names()),
        ),
{
}

} // verus!

verus! {

/// What the CPU probe does with one reading at index `i`: a missing reading
/// from index `FALLBACK_BREAK` on ends the probe (`None`); any other reading
/// without a frequency is passed over (`Some(None)`); a frequency counts
/// (`Some(Some(f))`).
pub open spec fn probe_step(x: Option<String>, i: int) -> Option<Option<u64>> {
    match x {
        None => if i >= FALLBACK_BREAK { None } else { Some(None) },
        Some(t) => match parse_u64(trim(t@)) {
            Some(f) => Some(Some(f)),
            None => Some(None),
        },
    }
}

proof fn lemma_scan_follows_steps(r: Seq<Option<String>>, q: Seq<Option<String>>, k: int, max: u64, big: nat)
    requires
        r.len() == q.len(),
        0 <= k,
        forall|j: int| k <= j < r.len() ==> probe_step(#[trigger] r[j], j) == probe_step(q[j], j),
    ensures
        scan_cpus(r, k, max, big) == scan_cpus(q, k, max, big),
    decreases r.len() - k,
{
    if k < r.len() {
        assert(probe_step(r[k], k) == probe_step(q[k], k));
        lemma_scan_follows_steps(r, q, k + 1, max, big);
        match reading_freq(r[k]) {
            Some(f) => {
                lemma_scan_follows_steps(
                    r,
                    q,
                    k + 1,
                    if f > max { f } else { max },
                    if f >= FREQ_BIG_CORE_MIN { big + 1 } else { big },
                );
            },
            None => {},
        }
    }
}

/// A CPU below index `FALLBACK_BREAK` whose frequency tables are missing
/// (an offline core) hides nothing: the statistics are those of the same
/// readings with that entry turned into an unreadable value, so the CPUs
/// after it still count.
pub proof fn law_missing_early_cpu_is_skipped(r: Seq<Option<String>>, i: int, unreadable: String)
    requires
        0 <= i < r.len(),
        i < FALLBACK_BREAK,
        r[i] is None,
        parse_u64(trim(unreadable@)) is None,
    ensures
        spec_cpu_stats(r) == spec_cpu_stats(r.update(i, Some(unreadable))),
{
    let q = r.update(i, Some(unreadable));
    assert forall|j: int| 0 <= j < r.len() implies probe_step(#[trigger] r[j], j) == probe_step(q[j], j) by {
        if j != i {
            assert(q[j] == r[j]);
        }
    }
    lemma_scan_follows_steps(r, q, 0, 0, 0);
}

/// Each step of the probe is what `probe_step` says: the running maximum
/// takes in every counted frequency, and a big core is one at or above the
/// big-core frequency.
proof fn lemma_scan_counts(r: Seq<Option<String>>, k: int, max: u64, big: nat, j: int, f: u64)
    requires
        0 <= k <= j < r.len(),
        probe_step(r[j], j) == Some(Some(f)),
        forall|m: int| k <= m < j ==> #[trigger] probe_step(r[m], m) is Some,
    ensures
        scan_cpus(r, k, max, big).0 >= f,
        scan_cpus(r, k, max, big).0 >= max,
    decreases r.len() - k,
{
    lemma_scan_max_grows(r, k, max, big);
    if k < j {
        assert(probe_step(r[k], k) is Some);
        match reading_freq(r[k]) {
            Some(g) => {
                lemma_scan_counts(
                    r,
                    k + 1,
                    if g > max { g } else { max },
                    if g >= FREQ_BIG_CORE_MIN { big + 1 } else { big },
                    j,
                    f,
                );
            },
            None => {
                lemma_scan_counts(r, k + 1, max, big, j, f);
            },
        }
    } else {
        let g = f;
        lemma_scan_max_grows(
            r,
            k + 1,
            if g > max { g } else { max },
            if g >= FREQ_BIG_CORE_MIN { big + 1 } else { big },
        );
    }
}

proof fn lemma_scan_max_grows(r: Seq<Option<String>>, k: int, max: u64, big: nat)
    requires
        0 <= k,
    ensures
        scan_cpus(r, k, max, big).0 >= max,
    decreases r.len() - k,
{
    if k < r.len() {
        match reading_freq(r[k]) {
            Some(g) => {
                lemma_scan_max_grows(
                    r,
                    k + 1,
                    if g > max { g } else { max },
                    if g >= FREQ_BIG_CORE_MIN { big + 1 } else { big },
                );
            },
            None => {
                lemma_scan_max_grows(r, k + 1, max, big);
            },
        }
    }
}

/// The highest frequency the probe reports is at least every frequency read
/// before the probe ends, the end being the first missing reading at index
/// `FALLBACK_BREAK` or later.
pub proof fn law_max_covers_every_probed_cpu(r: Seq<Option<String>>, j: int, f: u64)
    requires
        0 <= j < r.len(),
        probe_step(r[j], j) == Some(Some(f)),
        forall|m: int| 0 <= m < j ==> #[trigger] probe_step(r[m], m) is Some,
    ensures
        spec_cpu_stats(r).max_freq_khz >= f,
{
    lemma_scan_counts(r, 0, 0, 0, j, f);
}

} // verus!
