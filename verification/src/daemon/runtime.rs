use vstd::prelude::*;
use crate::config::loop_settings::{BOOT_WAIT_RETRY_LIMIT, COOLDOWN_DURATION_MS, MAX_EPOLL_TIMEOUT_MS};
use crate::daemon::types::{IoErrorKind, QosError};

verus! {

/// An error that takes a running service out of the event loop for good.
pub open spec fn spec_is_fatal_runtime_error(e: QosError) -> bool {
    match e {
        QosError::IoError(k, _) => k == IoErrorKind::NotFound || k == IoErrorKind::BrokenPipe
            || k == IoErrorKind::PermissionDenied,
        QosError::SystemCheckFailed(_) => true,
        QosError::PermissionDenied(_) => true,
        _ => false,
    }
}

/// An error from a service factory that disables the service for good.
pub open spec fn spec_is_fatal_init_error(e: QosError) -> bool {
    match e {
        QosError::IoError(k, _) => k == IoErrorKind::NotFound,
        QosError::SystemCheckFailed(_) => true,
        QosError::PermissionDenied(_) => true,
        _ => false,
    }
}

/// Classifies an error raised by a running handler.
pub fn is_fatal_runtime_error(e: &QosError) -> (fatal: bool)
    ensures
        fatal == spec_is_fatal_runtime_error(*e),
{
    match e {
        QosError::IoError(k, _) => match k {
            IoErrorKind::NotFound | IoErrorKind::BrokenPipe | IoErrorKind::PermissionDenied => true,
            _ => false,
        },
        QosError::SystemCheckFailed(_) | QosError::PermissionDenied(_) => true,
        _ => false,
    }
}

/// Classifies an error raised while constructing a service.
pub fn is_fatal_init_error(e: &QosError) -> (fatal: bool)
    ensures
        fatal == spec_is_fatal_init_error(*e),
{
    match e {
        QosError::IoError(k, _) => match k {
            IoErrorKind::NotFound => true,
            _ => false,
        },
        QosError::SystemCheckFailed(_) | QosError::PermissionDenied(_) => true,
        _ => false,
    }
}

/// Which runtime errors end a service for good: an I/O error that says the
/// file is gone, the pipe broke or access is denied, a failed system check
/// and a permission refusal. Every other error, an interrupted or blocked
/// call among them, leaves the service to recover after its cooldown.
pub proof fn law_fatal_runtime_errors(kind: IoErrorKind, msg: String, s: ServiceState, now: u64)
    requires
        s.wf(),
        !s.is_permanently_disabled,
    ensures
        spec_is_fatal_runtime_error(QosError::IoError(kind, msg)) == (kind == IoErrorKind::NotFound || kind
            == IoErrorKind::BrokenPipe || kind == IoErrorKind::PermissionDenied),
        spec_is_fatal_runtime_error(QosError::SystemCheckFailed(msg)),
        spec_is_fatal_runtime_error(QosError::PermissionDenied(msg)),
        !spec_is_fatal_runtime_error(QosError::InvalidPath(msg)),
        !spec_is_fatal_runtime_error(QosError::InvalidInput(msg)),
        !spec_is_fatal_runtime_error(QosError::PsiParseError(msg)),
        !spec_is_fatal_runtime_error(QosError::FfiError(msg)),
        (kind == IoErrorKind::Interrupted || kind == IoErrorKind::WouldBlock || kind == IoErrorKind::Other) ==> {
            let t = s.after_handler_failure(QosError::IoError(kind, msg), now);
            &&& !t.is_permanently_disabled
            &&& t.cooldown_start_ms == Some(now)
        },
{
}

/// Milliseconds from `start` to `now`, zero when `start` lies after `now`.
pub open spec fn elapsed_ms(now: u64, start: u64) -> int {
    if now >= start { now - start } else { 0 }
}

/// Supervision state of one recoverable service. Times are milliseconds of a
/// monotonic clock.
#[derive(Debug, Clone, Copy, PartialEq, Eq, Structural)]
pub struct ServiceState {
    pub has_handler: bool,
    pub cooldown_start_ms: Option<u64>,
    pub last_tick_ms: u64,
    pub registered_in_epoll: bool,
    pub is_permanently_disabled: bool,
}

impl ServiceState {
    /// Only a running service is registered; a running service has no
    /// cooldown; a live service without a handler is always cooling down.
    pub open spec fn wf(self) -> bool {
        &&& self.registered_in_epoll ==> self.has_handler
        &&& self.has_handler ==> self.cooldown_start_ms is None
        &&& (!self.is_permanently_disabled && !self.has_handler) ==> self.cooldown_start_ms is Some
    }

    /// The service is due for an initialization attempt at `now`.
    pub open spec fn init_due(self, now: u64) -> bool {
        &&& !self.is_permanently_disabled
        &&& !self.has_handler
        &&& self.cooldown_start_ms matches Some(start)
        &&& elapsed_ms(now, start) >= COOLDOWN_DURATION_MS
    }

    /// The moment at which this service wants the loop to wake, if any;
    /// `timeout_ms` is what its handler reports as its interval.
    pub open spec fn wake_deadline(self, now: u64, timeout_ms: i32) -> Option<int> {
        if self.is_permanently_disabled {
            None
        } else if !self.has_handler {
            match self.cooldown_start_ms {
                Some(start) => if elapsed_ms(now, start) >= COOLDOWN_DURATION_MS {
                    None
                } else {
                    Some(now + (COOLDOWN_DURATION_MS - elapsed_ms(now, start)))
                },
                None => None,
            }
        } else if timeout_ms > 0 {
            Some(self.last_tick_ms + timeout_ms)
        } else {
            None
        }
    }

    /// A freshly registered service is due for its first attempt at once.
    pub fn new(now_ms: u64) -> (s: Self)
        ensures
            s.wf(),
            !s.has_handler && !s.registered_in_epoll && !s.is_permanently_disabled,
            s.last_tick_ms == now_ms,
            s.cooldown_start_ms == Some(
                if now_ms >= COOLDOWN_DURATION_MS { (now_ms - COOLDOWN_DURATION_MS) as u64 } else { now_ms },
            ),
    {
        let start = if now_ms >= COOLDOWN_DURATION_MS { now_ms - COOLDOWN_DURATION_MS } else { now_ms };
        ServiceState {
            has_handler: false,
            cooldown_start_ms: Some(start),
            last_tick_ms: now_ms,
            registered_in_epoll: false,
            is_permanently_disabled: false,
        }
    }

    /// The factory produced a handler.
    pub fn record_init_success(&mut self, now_ms: u64)
        ensures
            final(self).has_handler,
            final(self).cooldown_start_ms is None,
            final(self).last_tick_ms == now_ms,
            final(self).registered_in_epoll == old(self).registered_in_epoll,
            final(self).is_permanently_disabled == old(self).is_permanently_disabled,
            old(self).wf() ==> final(self).wf(),
    {
        self.has_handler = true;
        self.cooldown_start_ms = None;
        self.last_tick_ms = now_ms;
    }

    /// The factory failed with `err`: a fatal error disables the service, any
    /// other restarts its cooldown.
    pub fn record_init_failure(&mut self, err: &QosError, now_ms: u64)
        ensures
            final(self).has_handler == old(self).has_handler,
            final(self).registered_in_epoll == old(self).registered_in_epoll,
            final(self).last_tick_ms == old(self).last_tick_ms,
            spec_is_fatal_init_error(*err) ==> final(self).is_permanently_disabled
                && final(self).cooldown_start_ms == old(self).cooldown_start_ms,
            !spec_is_fatal_init_error(*err) ==> final(self).is_permanently_disabled
                == old(self).is_permanently_disabled && final(self).cooldown_start_ms == Some(now_ms),
            old(self).wf() && !old(self).has_handler ==> final(self).wf(),
    {
        if is_fatal_init_error(err) {
            self.is_permanently_disabled = true;
        } else {
            self.cooldown_start_ms = Some(now_ms);
        }
    }

    /// The new handler was (or was not) added to the epoll set.
    pub fn record_registration(&mut self, ok: bool, now_ms: u64)
        ensures
            ok ==> *final(self) == (ServiceState { registered_in_epoll: true, ..*old(self) }),
            !ok ==> *final(self) == (ServiceState {
                has_handler: false,
                cooldown_start_ms: Some(now_ms),
                ..*old(self)
            }),
            old(self).wf() && old(self).has_handler && !old(self).registered_in_epoll ==> final(self).wf(),
    {
        if ok {
            self.registered_in_epoll = true;
        } else {
            self.has_handler = false;
            self.cooldown_start_ms = Some(now_ms);
        }
    }

    /// Leaves the epoll set; the result says whether the handler's descriptor
    /// must be deleted from it.
    pub fn unregister_if_active(&mut self) -> (delete_fd: bool)
        ensures
            delete_fd == (old(self).registered_in_epoll && old(self).has_handler),
            *final(self) == (ServiceState { registered_in_epoll: false, ..*old(self) }),
            old(self).wf() ==> final(self).wf(),
    {
        let delete_fd = self.registered_in_epoll && self.has_handler;
        self.registered_in_epoll = false;
        delete_fd
    }

    /// The state after a running handler failed with `err` at `now`.
    pub open spec fn after_handler_failure(self, err: QosError, now: u64) -> ServiceState {
        if spec_is_fatal_runtime_error(err) {
            ServiceState {
                has_handler: false,
                registered_in_epoll: false,
                is_permanently_disabled: true,
                cooldown_start_ms: None,
                ..self
            }
        } else {
            ServiceState {
                has_handler: false,
                registered_in_epoll: false,
                cooldown_start_ms: Some(now),
                ..self
            }
        }
    }

    /// A running handler failed with `err`: it leaves the loop, and either is
    /// disabled for good or starts a cooldown. The result says whether its
    /// descriptor must be deleted from the epoll set.
    pub fn record_handler_failure(&mut self, err: &QosError, now_ms: u64) -> (delete_fd: bool)
        ensures
            delete_fd == (old(self).registered_in_epoll && old(self).has_handler),
            *final(self) == old(self).after_handler_failure(*err, now_ms),
            old(self).wf() ==> final(self).wf(),
    {
        let delete_fd = self.unregister_if_active();
        self.has_handler = false;
        if is_fatal_runtime_error(err) {
            self.is_permanently_disabled = true;
            self.cooldown_start_ms = None;
        } else {
            self.cooldown_start_ms = Some(now_ms);
        }
        delete_fd
    }

    /// The handler's interval has run out at `now`.
    pub fn timeout_due(&self, now_ms: u64, interval_ms: i32) -> (due: bool)
        ensures
            due == (!self.is_permanently_disabled && self.has_handler && interval_ms > 0
                && elapsed_ms(now_ms, self.last_tick_ms) >= interval_ms),
    {
        if self.is_permanently_disabled || !self.has_handler || interval_ms <= 0 {
            return false;
        }
        let elapsed = if now_ms >= self.last_tick_ms { now_ms - self.last_tick_ms } else { 0 };
        elapsed as u128 >= interval_ms as u128
    }

    /// Starts a new interval at `now`.
    pub fn record_tick(&mut self, now_ms: u64)
        ensures
            *final(self) == (ServiceState { last_tick_ms: now_ms, ..*old(self) }),
            old(self).wf() ==> final(self).wf(),
    {
        self.last_tick_ms = now_ms;
    }
}

/// A disabled service is never initialized again, whatever the clock says.
pub proof fn law_disabled_service_is_never_initialized(s: ServiceState, now: u64)
    requires
        s.is_permanently_disabled,
    ensures
        !s.init_due(now),
        s.wake_deadline(now, 0) is None,
{
}

/// A fatal handler failure disables the service; a non-fatal one brings it
/// back for initialization exactly once the cooldown has run out.
pub proof fn law_handler_failure_recovery(s: ServiceState, err: QosError, failed_at: u64, now: u64)
    requires
        s.wf(),
    ensures
        s.after_handler_failure(err, failed_at).wf(),
        spec_is_fatal_runtime_error(err) ==> !s.after_handler_failure(err, failed_at).init_due(now),
        !spec_is_fatal_runtime_error(err) && !s.is_permanently_disabled ==> (s.after_handler_failure(
            err,
            failed_at,
        ).init_due(now) <==> elapsed_ms(now, failed_at) >= COOLDOWN_DURATION_MS),
{
}

/// A live service without a handler is either due for initialization or asks
/// the loop to wake when its cooldown ends.
pub proof fn law_cooling_service_wakes_the_loop(s: ServiceState, now: u64, timeout_ms: i32)
    requires
        s.wf(),
        !s.is_permanently_disabled,
        !s.has_handler,
    ensures
        s.init_due(now) || s.wake_deadline(now, timeout_ms) == Some(
            now + (COOLDOWN_DURATION_MS - elapsed_ms(now, s.cooldown_start_ms->0)),
        ),
        !s.init_due(now) ==> now < s.wake_deadline(now, timeout_ms)->0 <= now + COOLDOWN_DURATION_MS,
{
}

/// The loop never sleeps past the earliest deadline any service asks for.
pub proof fn law_wait_respects_every_deadline(
    services: Seq<ServiceState>,
    timeouts: Seq<i32>,
    now: u64,
    i: int,
)
    requires
        0 <= i < services.len(),
    ensures
        services[i].wake_deadline(now, timeouts[i]) matches Some(d) ==> now + spec_wait_ms(
            services,
            timeouts,
            now,
        ) <= if d > now { d } else { now as int },
    decreases services.len(),
{
    if i < services.len() - 1 {
        law_wait_respects_every_deadline(services.drop_last(), timeouts, now, i);
        assert(services.drop_last()[i] == services[i]);
        lemma_next_wakeup_le_prefix(services, timeouts, now);
    }
}

proof fn lemma_next_wakeup_le_prefix(services: Seq<ServiceState>, timeouts: Seq<i32>, now: u64)
    requires
        services.len() > 0,
    ensures
        next_wakeup(services, timeouts, now) <= next_wakeup(services.drop_last(), timeouts, now),
{
}

/// The earliest wake-up the services ask for, starting from the loop's
/// ceiling of `now + MAX_EPOLL_TIMEOUT_MS`.
pub open spec fn next_wakeup(services: Seq<ServiceState>, timeouts: Seq<i32>, now: u64) -> int
    decreases services.len(),
{
    if services.len() == 0 {
        now + MAX_EPOLL_TIMEOUT_MS
    } else {
        let prev = next_wakeup(services.drop_last(), timeouts, now);
        match services.last().wake_deadline(now, timeouts[services.len() - 1]) {
            Some(d) => if d < prev { d } else { prev },
            None => prev,
        }
    }
}

/// How long the loop may sleep before the earliest wake-up.
pub open spec fn spec_wait_ms(services: Seq<ServiceState>, timeouts: Seq<i32>, now: u64) -> int {
    let w = next_wakeup(services, timeouts, now);
    if w > now { w - now } else { 0 }
}

/// What one turn of the event loop does before it waits: which services to
/// (re)initialize, and how long to wait for events.
pub struct CyclePlan {
    pub initialize: Vec<bool>,
    pub wait_ms: i32,
}

proof fn lemma_next_wakeup_bounded(services: Seq<ServiceState>, timeouts: Seq<i32>, now: u64)
    ensures
        next_wakeup(services, timeouts, now) <= now + MAX_EPOLL_TIMEOUT_MS,
    decreases services.len(),
{
    if services.len() > 0 {
        lemma_next_wakeup_bounded(services.drop_last(), timeouts, now);
    }
}

/// Plans one turn of the event loop; `timeouts[i]` is the interval that the
/// handler of service `i` reports (ignored where it has none).
pub fn plan_cycle(services: &Vec<ServiceState>, timeouts: &Vec<i32>, now_ms: u64) -> (plan: CyclePlan)
    requires
        timeouts.len() == services.len(),
    ensures
        plan.initialize.len() == services.len(),
        forall|i: int| 0 <= i < services.len() ==> plan.initialize[i] == (#[trigger] services[i]).init_due(now_ms),
        plan.wait_ms == spec_wait_ms(services@, timeouts@, now_ms),
        0 <= plan.wait_ms <= MAX_EPOLL_TIMEOUT_MS,
{
    let mut initialize: Vec<bool> = Vec::new();
    let mut wake: u128 = now_ms as u128 + MAX_EPOLL_TIMEOUT_MS as u128;
    let mut i: usize = 0;
    while i < services.len()
        invariant
            i <= services.len(),
            timeouts.len() == services.len(),
            initialize.len() == i,
            forall|j: int| 0 <= j < i ==> initialize[j] == (#[trigger] services[j]).init_due(now_ms),
            wake == next_wakeup(services@.subrange(0, i as int), timeouts@, now_ms),
        decreases services.len() - i,
    {
        let s = services[i];
        let t = timeouts[i];
        proof {
            let sub = services@.subrange(0, i as int + 1);
            assert(sub.drop_last() =~= services@.subrange(0, i as int));
            assert(sub.last() == s);
        }
        let mut due = false;
        if !s.is_permanently_disabled {
            if !s.has_handler {
                match s.cooldown_start_ms {
                    Some(start) => {
                        let elapsed = if now_ms >= start { now_ms - start } else { 0 };
                        if elapsed >= COOLDOWN_DURATION_MS {
                            due = true;
                        } else {
                            let d: u128 = now_ms as u128 + (COOLDOWN_DURATION_MS - elapsed) as u128;
                            if d < wake {
                                wake = d;
                            }
                        }
                    },
                    None => {},
                }
            } else if t > 0 {
                let d: u128 = s.last_tick_ms as u128 + t as u128;
                if d < wake {
                    wake = d;
                }
            }
        }
        initialize.push(due);
        i = i + 1;
    }
    proof {
        assert(services@.subrange(0, services.len() as int) =~= services@);
        lemma_next_wakeup_bounded(services@, timeouts@, now_ms);
    }
    let wait: u128 = if wake > now_ms as u128 { wake - now_ms as u128 } else { 0 };
    CyclePlan { initialize, wait_ms: wait as i32 }
}

} // verus!

verus! {

/// A system property the daemon sets when the property exists.
#[derive(Debug, Clone, Copy)]
pub struct PropTweak {
    pub key: &'static str,
    pub value: &'static str,
}

/// What became of one property tweak.
#[derive(Debug, Clone, Copy, PartialEq, Eq, Structural)]
pub enum PropOutcome {
    /// The property does not exist, so it was left alone.
    Missing,
    Applied,
    Failed,
}

/// The number of tweaks that were applied.
pub open spec fn count_applied(s: Seq<PropOutcome>) -> nat
    decreases s.len(),
{
    if s.len() == 0 {
        0
    } else {
        count_applied(s.drop_last()) + if s.last() == PropOutcome::Applied { 1nat } else { 0nat }
    }
}

proof fn lemma_count_applied_bound(s: Seq<PropOutcome>)
    ensures
        count_applied(s) <= s.len(),
    decreases s.len(),
{
    if s.len() > 0 {
        lemma_count_applied_bound(s.drop_last());
    }
}

/// Sets each property tweak whose property exists: `present` asks whether a
/// property is there, `set` sets it. Returns what became of each tweak, in
/// order, and how many were applied.
pub fn apply_prop_tweaks<E: Fn(&str) -> bool, S: Fn(&str, &str) -> bool>(
    tweaks: &Vec<PropTweak>,
    present: &E,
    set: &S,
) -> (r: (Vec<PropOutcome>, usize))
    requires
        forall|k: &str| present.requires((k,)),
        forall|k: &str, v: &str| set.requires((k, v)),
    ensures
        r.0.len() == tweaks.len(),
        forall|i: int|
            0 <= i < tweaks.len() ==> match #[trigger] r.0@[i] {
                PropOutcome::Missing => present.ensures((tweaks@[i].key,), false),
                PropOutcome::Applied => present.ensures((tweaks@[i].key,), true) && set.ensures(
                    (tweaks@[i].key, tweaks@[i].value),
                    true,
                ),
                PropOutcome::Failed => present.ensures((tweaks@[i].key,), true) && set.ensures(
                    (tweaks@[i].key, tweaks@[i].value),
                    false,
                ),
            },
        r.1 == count_applied(r.0@),
{
    let mut outcomes: Vec<PropOutcome> = Vec::new();
    let mut applied: usize = 0;
    let mut i: usize = 0;
    while i < tweaks.len()
        invariant
            i <= tweaks.len(),
            outcomes.len() == i,
            forall|k: &str| present.requires((k,)),
            forall|k: &str, v: &str| set.requires((k, v)),
            forall|j: int|
                0 <= j < i ==> match #[trigger] outcomes@[j] {
                    PropOutcome::Missing => present.ensures((tweaks@[j].key,), false),
                    PropOutcome::Applied => present.ensures((tweaks@[j].key,), true) && set.ensures(
                        (tweaks@[j].key, tweaks@[j].value),
                        true,
                    ),
                    PropOutcome::Failed => present.ensures((tweaks@[j].key,), true) && set.ensures(
                        (tweaks@[j].key, tweaks@[j].value),
                        false,
                    ),
                },
            applied == count_applied(outcomes@),
        decreases tweaks.len() - i,
    {
        let t = tweaks[i];
        let outcome = if present(t.key) {
            if set(t.key, t.value) {
                PropOutcome::Applied
            } else {
                PropOutcome::Failed
            }
        } else {
            PropOutcome::Missing
        };
        proof {
            lemma_count_applied_bound(outcomes@);
            assert(outcomes@.push(outcome).drop_last() =~= outcomes@);
        }
        outcomes.push(outcome);
        if outcome == PropOutcome::Applied {
            applied = applied + 1;
        }
        i = i + 1;
    }
    (outcomes, applied)
}

/// A file the daemon writes once the system has booted.
pub struct FileTweak {
    pub path: String,
    pub value: String,
}

/// `write`, called with texts `path` and `value`, may answer `ok`.
pub open spec fn write_answered<W: Fn(&str, &str) -> bool>(write: W, path: Seq<char>, value: Seq<char>, ok: bool) -> bool {
    exists|p: &str, v: &str| #![trigger write.ensures((p, v), ok)] p@ == path && v@ == value && write.ensures((p, v), ok)
}

/// Writes each file tweak with `write` (path, value), in order; returns the
/// answer of each write and how many succeeded.
pub fn apply_file_tweaks<W: Fn(&str, &str) -> bool>(tweaks: &Vec<FileTweak>, write: &W) -> (r: (Vec<bool>, usize))
    requires
        forall|p: &str, v: &str| write.requires((p, v)),
    ensures
        r.0.len() == tweaks.len(),
        forall|i: int|
            0 <= i < tweaks.len() ==> write_answered(*write, tweaks@[i].path@, tweaks@[i].value@, #[trigger] r.0@[i]),
        r.1 == crate::controllers::tweaker::count_true(r.0@),
{
    let mut outcomes: Vec<bool> = Vec::new();
    let mut applied: usize = 0;
    let mut i: usize = 0;
    while i < tweaks.len()
        invariant
            i <= tweaks.len(),
            outcomes.len() == i,
            forall|p: &str, v: &str| write.requires((p, v)),
            forall|j: int|
                0 <= j < i ==> write_answered(*write, tweaks@[j].path@, tweaks@[j].value@, #[trigger] outcomes@[j]),
            applied == crate::controllers::tweaker::count_true(outcomes@),
        decreases tweaks.len() - i,
    {
        let p = tweaks[i].path.as_str();
        let v = tweaks[i].value.as_str();
        let ok = write(p, v);
        assert(write_answered(*write, tweaks@[i as int].path@, tweaks@[i as int].value@, ok));
        proof {
            crate::controllers::tweaker::lemma_count_true_bound(outcomes@);
            assert(outcomes@.push(ok).drop_last() =~= outcomes@);
        }
        outcomes.push(ok);
        if ok {
            applied = applied + 1;
        }
        i = i + 1;
    }
    (outcomes, applied)
}

} // verus!

verus! {

/// The next step of waiting for `sys.boot_completed`.
#[derive(Debug, Clone, Copy, PartialEq, Eq, Structural)]
pub enum BootWaitStep {
    /// Shutdown was requested: stop at once.
    Abort,
    /// The wait is over (booted, or out of retries): stabilize, then go on.
    Stabilize,
    /// Sleep one poll interval and look again with this retry count.
    Sleep { retries: u32 },
}

/// One round of the boot wait: a shutdown request ends it; the property
/// reading `1` means the system booted; otherwise the retry count grows
/// and the wait gives up once it passes the limit.
pub open spec fn spec_boot_wait_step(shutdown: bool, booted: bool, retries: u32) -> BootWaitStep {
    if shutdown {
        BootWaitStep::Abort
    } else if booted || retries + 1 > BOOT_WAIT_RETRY_LIMIT {
        BootWaitStep::Stabilize
    } else {
        BootWaitStep::Sleep { retries: (retries + 1) as u32 }
    }
}

/// Whether a value of `sys.boot_completed` says the system booted.
pub fn is_boot_completed(value: &str) -> (b: bool)
    ensures
        b == (value@ == seq!['1']),
{
    let chars = crate::hal::text::chars_of(value);
    let b = chars.len() == 1 && chars[0] == '1';
    proof {
        if b {
            assert(value@ =~= seq!['1']);
        }
    }
    b
}

pub fn boot_wait_step(shutdown: bool, booted: bool, retries: u32) -> (step: BootWaitStep)
    requires
        retries <= BOOT_WAIT_RETRY_LIMIT,
    ensures
        step == spec_boot_wait_step(shutdown, booted, retries),
{
    if shutdown {
        BootWaitStep::Abort
    } else if booted || retries + 1 > BOOT_WAIT_RETRY_LIMIT {
        BootWaitStep::Stabilize
    } else {
        BootWaitStep::Sleep { retries: retries + 1 }
    }
}

/// The wait never sleeps more than the retry limit allows: every sleep
/// carries a retry count within it.
pub proof fn law_boot_wait_is_bounded(shutdown: bool, booted: bool, retries: u32)
    requires
        retries <= BOOT_WAIT_RETRY_LIMIT,
    ensures
        spec_boot_wait_step(shutdown, booted, retries) matches BootWaitStep::Sleep { retries: r }
            ==> r == retries + 1 && r <= BOOT_WAIT_RETRY_LIMIT,
{
}

} // verus!

verus! {

/// `EPOLLIN`: the descriptor is readable.
pub const EPOLL_IN: u32 = 0x001;
/// `EPOLLPRI`: a pressure trigger fired.
pub const EPOLL_PRI: u32 = 0x002;
/// `EPOLLERR`: the descriptor is in error.
pub const EPOLL_ERR: u32 = 0x008;

/// Services that only wait for pressure triggers.
pub open spec fn is_trigger_service(name: Seq<char>) -> bool {
    name == "Memory"@ || name == "Storage"@ || name == "CPU"@
}

/// The epoll events a service listens for: pressure-trigger services wait
/// for priority events and errors, the others for input too.
pub fn get_service_flags(name: &str) -> (flags: u32)
    ensures
        flags == (if is_trigger_service(name@) { EPOLL_PRI | EPOLL_ERR } else { EPOLL_IN | EPOLL_PRI
            | EPOLL_ERR }),
{
    let n = crate::hal::text::chars_of(name);
    let memory = crate::hal::text::chars_of("Memory");
    let storage = crate::hal::text::chars_of("Storage");
    let cpu = crate::hal::text::chars_of("CPU");
    if crate::hal::text::chars_equal(&n, &memory) || crate::hal::text::chars_equal(&n, &storage)
        || crate::hal::text::chars_equal(&n, &cpu) {
        EPOLL_PRI | EPOLL_ERR
    } else {
        EPOLL_IN | EPOLL_PRI | EPOLL_ERR
    }
}

} // verus!

verus! {

/// The epoll control operations the loop performs.
#[derive(Debug, Clone, Copy, PartialEq, Eq, Structural)]
pub enum EpollOp {
    Add,
    Delete,
    Modify,
}

/// `ENOENT`: the descriptor is not in the epoll set.
pub const ENOENT: i32 = 2;
/// `EEXIST`: the descriptor is already in the epoll set.
pub const EEXIST: i32 = 17;

/// Whether a failed epoll control call still leaves the set as intended:
/// deleting a descriptor that is not there, or adding one that already is.
pub fn epoll_error_is_benign(op: EpollOp, errno: i32) -> (ok: bool)
    ensures
        ok == ((op == EpollOp::Delete && errno == ENOENT) || (op == EpollOp::Add && errno == EEXIST)),
{
    match op {
        EpollOp::Delete => errno == ENOENT,
        EpollOp::Add => errno == EEXIST,
        EpollOp::Modify => false,
    }
}

} // verus!
