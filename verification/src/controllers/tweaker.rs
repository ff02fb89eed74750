use vstd::prelude::*;
use crate::daemon::runtime::PropTweak;

verus! {

/// A kernel file and the value the daemon writes to it once at start.
#[derive(Debug, Clone, Copy)]
pub struct StaticTweak {
    pub path: &'static str,
    pub value: &'static str,
}

/// The number of `true` entries of `s`.
pub open spec fn count_true(s: Seq<bool>) -> nat
    decreases s.len(),
{
    if s.len() == 0 {
        0
    } else {
        count_true(s.drop_last()) + if s.last() { 1nat } else { 0nat }
    }
}

pub proof fn lemma_count_true_bound(s: Seq<bool>)
    ensures
        count_true(s) <= s.len(),
    decreases s.len(),
{
    if s.len() > 0 {
        lemma_count_true_bound(s.drop_last());
    }
}

/// The static tweaks, as (path, value) pairs, in the order they are applied.
pub open spec fn static_tweaks() -> Seq<(Seq<char>, Seq<char>)> {
    seq![
        ("/proc/sys/vm/page-cluster"@, "1"@),
        ("/proc/sys/vm/stat_interval"@, "3"@),
        ("/proc/sys/vm/oom_dump_tasks"@, "0"@),
        ("/proc/sys/vm/watermark_scale_factor"@, "15"@),
        ("/proc/sys/vm/extfrag_threshold"@, "550"@),
        ("/proc/sys/kernel/printk"@, "0 0 0 0"@),
        ("/proc/sys/kernel/printk_devkmsg"@, "off"@),
        ("/proc/sys/kernel/core_pattern"@, "/dev/null"@),
        ("/proc/sys/kernel/dmesg_restrict"@, "1"@),
        ("/proc/sys/kernel/sched_migration_cost_ns"@, "600000"@),
        ("/proc/sys/kernel/sched_child_runs_first"@, "1"@),
        ("/proc/sys/kernel/perf_cpu_time_max_percent"@, "15"@),
        ("/proc/sys/kernel/pid_max"@, "65536"@),
        ("/proc/sys/kernel/sched_schedstats"@, "0"@),
        ("/proc/sys/kernel/perf_event_paranoid"@, "2"@),
        ("/sys/block/mmcblk0/queue/add_random"@, "0"@),
        ("/sys/block/mmcblk0/queue/iostats"@, "1"@),
        ("/sys/block/mmcblk0/queue/rq_affinity"@, "1"@),
        ("/proc/sys/fs/lease-break-time"@, "10"@),
        ("/proc/sys/fs/inotify/max_user_watches"@, "65536"@),
        ("/proc/sys/fs/file-max"@, "524288"@),
        ("/proc/sys/fs/protected_symlinks"@, "1"@),
        ("/proc/sys/fs/protected_hardlinks"@, "1"@),
        ("/sys/block/mmcblk0/queue/scheduler"@, "deadline"@),
        ("/proc/sys/net/ipv4/tcp_notsent_lowat"@, "16384"@),
        ("/proc/sys/net/core/netdev_max_backlog"@, "2000"@),
        ("/proc/sys/net/ipv4/tcp_slow_start_after_idle"@, "0"@),
        ("/proc/sys/net/ipv4/tcp_tw_reuse"@, "1"@),
        ("/proc/sys/net/core/netdev_budget"@, "300"@),
        ("/proc/sys/net/ipv4/ip_dynaddr"@, "1"@),
        ("/proc/sys/net/ipv4/tcp_keepalive_time"@, "1800"@),
        ("/proc/sys/net/ipv4/tcp_max_syn_backlog"@, "2048"@),
        ("/proc/sys/kernel/random/urandom_min_reseed_secs"@, "60"@),
        ("/proc/sys/net/ipv4/tcp_timestamps"@, "0"@),
        ("/proc/sys/net/core/somaxconn"@, "2048"@),
        ("/proc/sys/net/ipv4/tcp_fin_timeout"@, "15"@),
        ("/proc/sys/net/ipv4/tcp_retries2"@, "5"@),
        ("/proc/sys/net/ipv6/conf/all/use_tempaddr"@, "2"@),
        ("/proc/sys/net/ipv4/conf/default/rp_filter"@, "1"@),
        ("/proc/sys/net/ipv4/tcp_congestion_control"@, "westwood"@),
    ]
}

/// The properties set after the static tweaks, in order.
pub open spec fn hardening_props() -> Seq<(Seq<char>, Seq<char>)> {
    seq![
        ("persist.sys.lmk.reportkills"@, "false"@),
        ("persist.service.adb.enable"@, "0"@),
        ("persist.service.debuggable"@, "0"@),
    ]
}

pub open spec fn tweak_views(v: Seq<StaticTweak>) -> Seq<(Seq<char>, Seq<char>)> {
    v.map_values(|t: StaticTweak| (t.path@, t.value@))
}

fn tweak_list(items: &[(&'static str, &'static str)]) -> (v: Vec<StaticTweak>)
    ensures
        v.len() == items.len(),
        forall|i: int| 0 <= i < items.len() ==> (#[trigger] v@[i]).path == items@[i].0 && v@[i].value == items@[i].1,
{
    let mut v: Vec<StaticTweak> = Vec::new();
    let mut i: usize = 0;
    while i < items.len()
        invariant
            i <= items.len(),
            v.len() == i,
            forall|j: int| 0 <= j < i ==> (#[trigger] v@[j]).path == items@[j].0 && v@[j].value == items@[j].1,
        decreases items.len() - i,
    {
        let (p, val) = items[i];
        v.push(StaticTweak { path: p, value: val });
        i = i + 1;
    }
    v
}

/// The static tweak table.
pub fn static_tweak_list() -> (v: Vec<StaticTweak>)
    ensures
        tweak_views(v@) == static_tweaks(),
{
    let v = tweak_list(
        &[
            ("/proc/sys/vm/page-cluster", "1"),
            ("/proc/sys/vm/stat_interval", "3"),
            ("/proc/sys/vm/oom_dump_tasks", "0"),
            ("/proc/sys/vm/watermark_scale_factor", "15"),
            ("/proc/sys/vm/extfrag_threshold", "550"),
            ("/proc/sys/kernel/printk", "0 0 0 0"),
            ("/proc/sys/kernel/printk_devkmsg", "off"),
            ("/proc/sys/kernel/core_pattern", "/dev/null"),
            ("/proc/sys/kernel/dmesg_restrict", "1"),
            ("/proc/sys/kernel/sched_migration_cost_ns", "600000"),
            ("/proc/sys/kernel/sched_child_runs_first", "1"),
            ("/proc/sys/kernel/perf_cpu_time_max_percent", "15"),
            ("/proc/sys/kernel/pid_max", "65536"),
            ("/proc/sys/kernel/sched_schedstats", "0"),
            ("/proc/sys/kernel/perf_event_paranoid", "2"),
            ("/sys/block/mmcblk0/queue/add_random", "0"),
            ("/sys/block/mmcblk0/queue/iostats", "1"),
            ("/sys/block/mmcblk0/queue/rq_affinity", "1"),
            ("/proc/sys/fs/lease-break-time", "10"),
            ("/proc/sys/fs/inotify/max_user_watches", "65536"),
            ("/proc/sys/fs/file-max", "524288"),
            ("/proc/sys/fs/protected_symlinks", "1"),
            ("/proc/sys/fs/protected_hardlinks", "1"),
            ("/sys/block/mmcblk0/queue/scheduler", "deadline"),
            ("/proc/sys/net/ipv4/tcp_notsent_lowat", "16384"),
            ("/proc/sys/net/core/netdev_max_backlog", "2000"),
            ("/proc/sys/net/ipv4/tcp_slow_start_after_idle", "0"),
            ("/proc/sys/net/ipv4/tcp_tw_reuse", "1"),
            ("/proc/sys/net/core/netdev_budget", "300"),
            ("/proc/sys/net/ipv4/ip_dynaddr", "1"),
            ("/proc/sys/net/ipv4/tcp_keepalive_time", "1800"),
            ("/proc/sys/net/ipv4/tcp_max_syn_backlog", "2048"),
            ("/proc/sys/kernel/random/urandom_min_reseed_secs", "60"),
            ("/proc/sys/net/ipv4/tcp_timestamps", "0"),
            ("/proc/sys/net/core/somaxconn", "2048"),
            ("/proc/sys/net/ipv4/tcp_fin_timeout", "15"),
            ("/proc/sys/net/ipv4/tcp_retries2", "5"),
            ("/proc/sys/net/ipv6/conf/all/use_tempaddr", "2"),
            ("/proc/sys/net/ipv4/conf/default/rp_filter", "1"),
            ("/proc/sys/net/ipv4/tcp_congestion_control", "westwood"),
        ],
    );
    assert(tweak_views(v@) =~= static_tweaks());
    v
}

} // verus!

verus! {

/// The hardening properties as property tweaks, set only where the
/// property exists.
pub fn hardening_prop_tweaks() -> (v: Vec<PropTweak>)
    ensures
        v@.map_values(|t: PropTweak| (t.key@, t.value@)) == hardening_props(),
{
    let mut v: Vec<PropTweak> = Vec::new();
    v.push(PropTweak { key: "persist.sys.lmk.reportkills", value: "false" });
    v.push(PropTweak { key: "persist.service.adb.enable", value: "0" });
    v.push(PropTweak { key: "persist.service.debuggable", value: "0" });
    assert(v@.map_values(|t: PropTweak| (t.key@, t.value@)) =~= hardening_props());
    v
}

/// What applying a list of tweaks did: the tweaks in the order they were
/// tried, the answer of each write, and how many succeeded.
pub struct TweakReport {
    pub tweaks: Vec<StaticTweak>,
    pub outcomes: Vec<bool>,
    pub applied: usize,
}

/// Hands each tweak to `write` in order; the report says what every call
/// answered and counts the successes.
fn write_each<W: Fn(&str, &str) -> bool>(tweaks: Vec<StaticTweak>, write: &W) -> (r: TweakReport)
    requires
        forall|p: &str, v: &str| write.requires((p, v)),
    ensures
        r.tweaks@ == tweaks@,
        r.outcomes.len() == tweaks.len(),
        forall|i: int|
            0 <= i < tweaks.len() ==> write.ensures(
                (tweaks@[i].path, tweaks@[i].value),
                #[trigger] r.outcomes@[i],
            ),
        r.applied == count_true(r.outcomes@),
{
    let mut outcomes: Vec<bool> = Vec::new();
    let mut applied: usize = 0;
    let mut i: usize = 0;
    while i < tweaks.len()
        invariant
            i <= tweaks.len(),
            outcomes.len() == i,
            forall|p: &str, v: &str| write.requires((p, v)),
            forall|j: int|
                0 <= j < i ==> write.ensures((tweaks@[j].path, tweaks@[j].value), #[trigger] outcomes@[j]),
            applied == count_true(outcomes@),
        decreases tweaks.len() - i,
    {
        let ok = write(tweaks[i].path, tweaks[i].value);
        proof {
            lemma_count_true_bound(outcomes@);
            assert(outcomes@.push(ok).drop_last() =~= outcomes@);
        }
        outcomes.push(ok);
        if ok {
            applied = applied + 1;
        }
        i = i + 1;
    }
    TweakReport { tweaks, outcomes, applied }
}

/// Applies the fixed set of kernel tweaks the daemon always makes.
pub struct SystemTweaker;

impl SystemTweaker {
    /// Writes every static tweak with `write` (path, value), in table order,
    /// then sets the three hardening properties with `set_prop` (key,
    /// value). The first report covers the tweaks, the second the
    /// properties.
    pub fn apply_all<W: Fn(&str, &str) -> bool, P: Fn(&str, &str) -> bool>(write: &W, set_prop: &P) -> (r: (TweakReport, TweakReport))
        requires
            forall|p: &str, v: &str| write.requires((p, v)),
            forall|p: &str, v: &str| set_prop.requires((p, v)),
        ensures
            tweak_views(r.0.tweaks@) == static_tweaks(),
            r.0.outcomes.len() == r.0.tweaks.len(),
            forall|i: int|
                0 <= i < r.0.tweaks.len() ==> write.ensures(
                    (r.0.tweaks@[i].path, r.0.tweaks@[i].value),
                    #[trigger] r.0.outcomes@[i],
                ),
            r.0.applied == count_true(r.0.outcomes@),
            tweak_views(r.1.tweaks@) == hardening_props(),
            r.1.outcomes.len() == r.1.tweaks.len(),
            forall|i: int|
                0 <= i < r.1.tweaks.len() ==> set_prop.ensures(
                    (r.1.tweaks@[i].path, r.1.tweaks@[i].value),
                    #[trigger] r.1.outcomes@[i],
                ),
            r.1.applied == count_true(r.1.outcomes@),
    {
        let tweaks = static_tweak_list();
        let files = write_each(tweaks, write);
        let props_list = tweak_list(
            &[
                ("persist.sys.lmk.reportkills", "false"),
                ("persist.service.adb.enable", "0"),
                ("persist.service.debuggable", "0"),
            ],
        );
        assert(tweak_views(props_list@) =~= hardening_props());
        let props = write_each(props_list, set_prop);
        (files, props)
    }
}

} // verus!
