use vstd::prelude::*;

verus! {

/// The tracking and advertising components the blocker disables, in order.
pub open spec fn target_components() -> Seq<Seq<char>> {
    seq![
        "com.google.android.gms/com.google.android.gms.ads.AdRequestBrokerService"@,
        "com.google.android.gms/com.google.android.gms.ads.identifier.service.AdvertisingIdService"@,
        "com.google.android.gms/com.google.android.gms.ads.measurement.GmpConversionTrackingBrokerService"@,
        "com.google.android.gms/com.google.android.gms.ads.social.GcmSchedulerWakeupService"@,
        "com.google.android.gms/com.google.android.gms.ads.identifier.service.AdvertisingIdNotificationService"@,
        "com.google.android.gms/com.google.android.gms.ads.jams.NegotiationService"@,
        "com.google.android.gms/com.google.android.gms.growth.watchdog.GrowthWatchdogTaskService"@,
        "com.google.android.gms/com.google.android.gms.measurement.PackageMeasurementReceiver"@,
        "com.google.android.gms/com.google.android.gms.measurement.PackageMeasurementTaskService"@,
        "com.google.android.gms/com.google.android.gms.measurement.service.MeasurementBrokerService"@,
        "com.google.android.gms/com.google.android.gms.analytics.AnalyticsService"@,
        "com.google.android.gms/com.google.android.gms.analytics.AnalyticsTaskService"@,
        "com.google.android.gms/com.google.android.gms.common.stats.StatsUploadService"@,
        "com.google.android.gms/com.google.android.gms.clearcut.uploader.QosUploaderService"@,
        "com.google.android.gms/com.google.android.gms.audit.upload.AuditGcmTaskService"@,
        "com.google.android.gms/com.google.android.gms.analytics.AnalyticsReceiver"@,
        "com.google.android.gms/com.google.android.gms.feedback.LegacyBugReportService"@,
        "com.google.android.gms/com.google.android.gms.feedback.OfflineReportSendTaskService"@,
    ]
}

/// The components to disable, in order.
pub fn target_component_list() -> (v: Vec<&'static str>)
    ensures
        v@.map_values(|s: &str| s@) == target_components(),
{
    let a: [&'static str; 18] = [
        "com.google.android.gms/com.google.android.gms.ads.AdRequestBrokerService",
        "com.google.android.gms/com.google.android.gms.ads.identifier.service.AdvertisingIdService",
        "com.google.android.gms/com.google.android.gms.ads.measurement.GmpConversionTrackingBrokerService",
        "com.google.android.gms/com.google.android.gms.ads.social.GcmSchedulerWakeupService",
        "com.google.android.gms/com.google.android.gms.ads.identifier.service.AdvertisingIdNotificationService",
        "com.google.android.gms/com.google.android.gms.ads.jams.NegotiationService",
        "com.google.android.gms/com.google.android.gms.growth.watchdog.GrowthWatchdogTaskService",
        "com.google.android.gms/com.google.android.gms.measurement.PackageMeasurementReceiver",
        "com.google.android.gms/com.google.android.gms.measurement.PackageMeasurementTaskService",
        "com.google.android.gms/com.google.android.gms.measurement.service.MeasurementBrokerService",
        "com.google.android.gms/com.google.android.gms.analytics.AnalyticsService",
        "com.google.android.gms/com.google.android.gms.analytics.AnalyticsTaskService",
        "com.google.android.gms/com.google.android.gms.common.stats.StatsUploadService",
        "com.google.android.gms/com.google.android.gms.clearcut.uploader.QosUploaderService",
        "com.google.android.gms/com.google.android.gms.audit.upload.AuditGcmTaskService",
        "com.google.android.gms/com.google.android.gms.analytics.AnalyticsReceiver",
        "com.google.android.gms/com.google.android.gms.feedback.LegacyBugReportService",
        "com.google.android.gms/com.google.android.gms.feedback.OfflineReportSendTaskService",
    ];
    let mut v: Vec<&'static str> = Vec::new();
    let mut i: usize = 0;
    while i < 18
        invariant
            i <= 18,
            v@ == a@.subrange(0, i as int),
        decreases 18 - i,
    {
        v.push(a[i]);
        i = i + 1;
        assert(v@ =~= a@.subrange(0, i as int));
    }
    assert(a@.subrange(0, 18) =~= a@);
    assert(v@.map_values(|s: &str| s@) =~= target_components());
    v
}

/// The arguments of the `cmd` call that disables `component`.
pub fn disable_command_args(component: &str) -> (args: Vec<String>)
    ensures
        args.len() == 3,
        args@[0]@ == "pm"@,
        args@[1]@ == "disable"@,
        args@[2]@ == component@,
{
    let mut args: Vec<String> = Vec::new();
    args.push(String::from_str("pm"));
    args.push(String::from_str("disable"));
    args.push(String::from_str(component));
    args
}

/// When the blocker last ran, and how often it runs (monotonic ms).
#[derive(Debug, Clone, Copy, PartialEq, Eq, Structural)]
pub struct BlockerSchedule {
    pub last_run_ms: u64,
    pub interval_ms: i32,
}

/// The blocker runs once a day.
pub const BLOCKER_INTERVAL_MS: i32 = 86_400_000;

/// The run is due once the interval has passed since the last one.
pub open spec fn spec_blocker_due(s: BlockerSchedule, now: u64) -> bool {
    ((if now >= s.last_run_ms { now - s.last_run_ms } else { 0 }) as u128) >= (s.interval_ms as u128)
}

impl BlockerSchedule {
    /// The blocker runs once at start: the schedule begins at `now_ms`.
    pub fn new(now_ms: u64) -> (s: Self)
        ensures
            s.last_run_ms == now_ms,
            s.interval_ms == BLOCKER_INTERVAL_MS,
    {
        BlockerSchedule { last_run_ms: now_ms, interval_ms: BLOCKER_INTERVAL_MS }
    }

    /// On a timer tick: whether to run again; a run restarts the interval.
    pub fn on_timeout(&mut self, now_ms: u64) -> (run: bool)
        ensures
            run == spec_blocker_due(*old(self), now_ms),
            run ==> final(self).last_run_ms == now_ms,
            !run ==> *final(self) == *old(self),
            final(self).interval_ms == old(self).interval_ms,
    {
        let elapsed: u64 = if now_ms >= self.last_run_ms { now_ms - self.last_run_ms } else { 0 };
        if (elapsed as u128) >= (self.interval_ms as u128) {
            self.last_run_ms = now_ms;
            true
        } else {
            false
        }
    }

    pub fn get_timeout_ms(&self) -> (t: i32)
        ensures
            t == self.interval_ms,
    {
        self.interval_ms
    }
}

} // verus!
