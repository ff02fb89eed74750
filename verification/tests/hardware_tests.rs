use qos_core::hal::hardware::{
    detect_hardware_capabilities, detect_storage_device, get_cpu_stats, get_cpu_temp_path,
    get_diskstats_path, get_nr_requests_path, get_read_ahead_path, get_total_ram_mb,
    storage_candidate, CpuStats, DeviceTier, ThermalZones,
};

fn readings(items: &[Option<&str>]) -> Vec<Option<String>> {
    items.iter().map(|r| r.map(|s| s.to_string())).collect()
}

#[test]
fn tier_flagship_needs_fast_core_and_memory() {
    let stats = CpuStats { max_freq_khz: 2_900_000, big_cores_count: 4 };
    assert_eq!(DeviceTier::get(&stats, 6000), DeviceTier::Flagship);
    assert_eq!(DeviceTier::get(&stats, 5499), DeviceTier::MidRange);
    assert_eq!(DeviceTier::get(&stats, 3799), DeviceTier::LowEnd);
}

#[test]
fn tier_mid_range_by_big_cores_or_frequency() {
    let four_big = CpuStats { max_freq_khz: 2_200_000, big_cores_count: 4 };
    assert_eq!(DeviceTier::get(&four_big, 3800), DeviceTier::MidRange);
    let fast = CpuStats { max_freq_khz: 2_450_000, big_cores_count: 2 };
    assert_eq!(DeviceTier::get(&fast, 4000), DeviceTier::MidRange);
    let slow = CpuStats { max_freq_khz: 2_449_999, big_cores_count: 3 };
    assert_eq!(DeviceTier::get(&slow, 8000), DeviceTier::LowEnd);
}

#[test]
fn tier_never_drops_with_more_resources() {
    let small = CpuStats { max_freq_khz: 2_000_000, big_cores_count: 2 };
    let big = CpuStats { max_freq_khz: 3_000_000, big_cores_count: 8 };
    let rank = |t: DeviceTier| match t {
        DeviceTier::LowEnd => 0,
        DeviceTier::MidRange => 1,
        DeviceTier::Flagship => 2,
    };
    for ram in [1000u64, 3800, 5500, 9000] {
        assert!(rank(DeviceTier::get(&small, ram)) <= rank(DeviceTier::get(&big, ram)));
        assert!(rank(DeviceTier::get(&big, ram)) <= rank(DeviceTier::get(&big, ram + 1000)));
    }
}

#[test]
fn cpu_stats_take_max_and_count_big_cores() {
    let r = readings(&[Some("2000000\n"), Some("2800000"), None, Some("abc"), Some(" 2100000 ")]);
    let stats = get_cpu_stats(&r);
    assert_eq!(stats, CpuStats { max_freq_khz: 2_800_000, big_cores_count: 2 });
}

#[test]
fn cpu_stats_stop_at_missing_cpu_from_the_ninth_on() {
    let mut items: Vec<Option<&str>> = vec![None; 8];
    items.push(None);
    items.push(Some("3000000"));
    let stats = get_cpu_stats(&readings(&items));
    assert_eq!(stats, CpuStats { max_freq_khz: 2_000_000, big_cores_count: 0 });
    let mut early: Vec<Option<&str>> = vec![None; 3];
    early.push(Some("3000000"));
    let stats = get_cpu_stats(&readings(&early));
    assert_eq!(stats, CpuStats { max_freq_khz: 3_000_000, big_cores_count: 1 });
}

#[test]
fn cpu_stats_default_frequency_when_nothing_parses() {
    let stats = get_cpu_stats(&readings(&[Some("x"), Some(""), Some("-5")]));
    assert_eq!(stats, CpuStats { max_freq_khz: 2_000_000, big_cores_count: 0 });
    let stats = get_cpu_stats(&readings(&[Some("+2500000")]));
    assert_eq!(stats.max_freq_khz, 2_500_000);
}

#[test]
fn total_ram_from_meminfo() {
    let text = "MemTotal:        5839624 kB\nMemFree:          123456 kB\n";
    assert_eq!(get_total_ram_mb(Some(text)), 5702);
    assert_eq!(get_total_ram_mb(Some("Foo: 1\r\nMemTotal: 2048 kB")), 2);
    assert_eq!(get_total_ram_mb(Some("MemTotal: abc kB\n")), 0);
}

#[test]
fn total_ram_defaults() {
    assert_eq!(get_total_ram_mb(None), 3072);
    assert_eq!(get_total_ram_mb(Some("MemTotal:\nMemFree: 4 kB\n")), 3072);
    assert_eq!(get_total_ram_mb(Some("")), 3072);
}

#[test]
fn hardware_tier_from_raw_readings() {
    let r = readings(&[Some("1800000"), Some("2900000")]);
    let tier = detect_hardware_capabilities(&r, Some("MemTotal: 8000000 kB\n"));
    assert_eq!(tier, DeviceTier::Flagship);
    let tier = detect_hardware_capabilities(&r, None);
    assert_eq!(tier, DeviceTier::LowEnd);
}

#[test]
fn storage_device_first_present_candidate() {
    assert_eq!(detect_storage_device(&vec![false, true, true, true]), "sda");
    assert_eq!(detect_storage_device(&vec![true, false, false, false]), "nvme0n1");
    assert_eq!(detect_storage_device(&vec![false, false, false, false]), "mmcblk0");
    assert_eq!(detect_storage_device(&vec![]), "mmcblk0");
    assert_eq!(storage_candidate(2), "sdb");
}

#[test]
fn storage_paths() {
    assert_eq!(get_read_ahead_path("sda"), "/sys/block/sda/queue/read_ahead_kb");
    assert_eq!(get_nr_requests_path("mmcblk0"), "/sys/block/mmcblk0/queue/nr_requests");
    assert_eq!(get_diskstats_path("nvme0n1"), "/sys/block/nvme0n1/stat");
}

#[test]
fn cpu_temp_path_of_zone() {
    assert_eq!(get_cpu_temp_path("thermal_zone1"), "/sys/class/thermal/thermal_zone1/temp");
}

#[test]
fn thermal_priority_match_up_to_ascii_case() {
    let mut z = ThermalZones::new();
    z.record("thermal_zone0", Some("battery\n"));
    z.record("thermal_zone1", Some("CPU-Thermal\n"));
    z.record("cooling_device0", Some("cpu-1-0-usr"));
    z.record("thermal_zone2", None);
    assert_eq!(z.select_cpu_zone(), "thermal_zone1");
}

#[test]
fn thermal_priority_order_wins() {
    let mut z = ThermalZones::new();
    z.record("thermal_zone5", Some("tsens_tz_sensor5"));
    z.record("thermal_zone7", Some(" mtktscpu "));
    assert_eq!(z.select_cpu_zone(), "thermal_zone7");
}

#[test]
fn thermal_later_zone_of_same_type_wins() {
    let mut z = ThermalZones::new();
    z.record("thermal_zone2", Some("cpu"));
    z.record("thermal_zone9", Some("cpu"));
    assert_eq!(z.select_cpu_zone(), "thermal_zone9");
}

#[test]
fn thermal_fallback_reads_types_in_lower_case() {
    let mut z = ThermalZones::new();
    z.record("thermal_zone4", Some("gpu-cluster"));
    z.record("thermal_zone6", Some("SOC_MAX"));
    assert_eq!(z.select_cpu_zone(), "thermal_zone6");
}

#[test]
fn thermal_fallback_skips_blacklisted_and_defaults() {
    let mut z = ThermalZones::new();
    z.record("thermal_zone0", Some("battery"));
    z.record("thermal_zone1", Some("pa_therm_cpu"));
    assert_eq!(z.select_cpu_zone(), "thermal_zone3");
    assert_eq!(ThermalZones::new().select_cpu_zone(), "thermal_zone3");
}
