use vstd::prelude::*;

verus! {

/// The refresh rates the display is switched between.
#[derive(Debug, Clone, Copy, PartialEq, Eq, Structural)]
pub enum DisplayMode {
    Low60Hz,
    High90Hz,
}

impl DisplayMode {
    /// The code the compositor takes for this mode.
    pub fn code(&self) -> (c: i32)
        ensures
            c == (match *self {
                DisplayMode::Low60Hz => 0i32,
                DisplayMode::High90Hz => 1i32,
            }),
    {
        match self {
            DisplayMode::Low60Hz => 0,
            DisplayMode::High90Hz => 1,
        }
    }
}

/// Whether the user is touching the screen.
#[derive(Debug, Clone, Copy, PartialEq, Eq, Structural)]
pub enum DisplayState {
    Idle,
    Active,
}

/// How long the screen stays fast after the last touch, and how soon after
/// one switch another may follow.
#[derive(Debug, Clone, Copy, PartialEq, Eq, Structural)]
pub struct DisplayTunables {
    pub touch_idle_timeout_ms: i32,
    pub activity_throttle_ms: u128,
}

impl Default for DisplayTunables {
    fn default() -> (t: Self)
        ensures
            t.touch_idle_timeout_ms == 3000,
            t.activity_throttle_ms == 200,
    {
        DisplayTunables { touch_idle_timeout_ms: 3000, activity_throttle_ms: 200 }
    }
}

/// Milliseconds from `earlier` to `now` on a monotonic clock; zero when
/// `now` is not later.
pub open spec fn since(now: u64, earlier: u64) -> u64 {
    if now >= earlier { (now - earlier) as u64 } else { 0 }
}

fn since_ms(now: u64, earlier: u64) -> (d: u64)
    ensures
        d == since(now, earlier),
{
    if now >= earlier { now - earlier } else { 0 }
}

/// The display controller's decisions: it raises the refresh rate on touch
/// and lowers it once the screen has been idle long enough. Times are
/// monotonic milliseconds.
#[derive(Debug, Clone, Copy, PartialEq, Eq, Structural)]
pub struct DisplayMachine {
    pub state: DisplayState,
    pub current_mode: DisplayMode,
    pub tunables: DisplayTunables,
    pub last_activity_ms: u64,
    pub last_transition_ms: u64,
    pub next_wake_ms: i32,
}

impl DisplayMachine {
    /// The fast mode is on exactly while the screen is active.
    pub open spec fn wf(&self) -> bool {
        (self.current_mode == DisplayMode::High90Hz) == (self.state == DisplayState::Active)
    }

    /// The state after asking for `target` at `now`: nothing changes when the
    /// state is already `target` or the last switch is too recent.
    pub open spec fn after_transition(self, target: DisplayState, now: u64) -> DisplayMachine {
        if self.state == target || (since(now, self.last_transition_ms) as u128)
            < self.tunables.activity_throttle_ms {
            self
        } else if target == DisplayState::Active {
            DisplayMachine {
                state: DisplayState::Active,
                current_mode: DisplayMode::High90Hz,
                next_wake_ms: self.tunables.touch_idle_timeout_ms,
                last_transition_ms: now,
                ..self
            }
        } else {
            DisplayMachine {
                state: DisplayState::Idle,
                current_mode: DisplayMode::Low60Hz,
                next_wake_ms: -1i32,
                last_transition_ms: now,
                ..self
            }
        }
    }

    /// The mode to hand the compositor when asking for `target` at `now`.
    pub open spec fn transition_signal(self, target: DisplayState, now: u64) -> Option<DisplayMode> {
        if self.after_transition(target, now) == self {
            None
        } else {
            Some(self.after_transition(target, now).current_mode)
        }
    }

    /// A controller that starts idle at 60 Hz at time `now_ms`; the caller
    /// sends `Low60Hz` to the compositor once.
    pub fn new(tunables: DisplayTunables, now_ms: u64) -> (m: Self)
        ensures
            m.wf(),
            m.state == DisplayState::Idle,
            m.current_mode == DisplayMode::Low60Hz,
            m.tunables == tunables,
            m.last_activity_ms == now_ms,
            m.last_transition_ms == now_ms,
            m.next_wake_ms == -1,
    {
        DisplayMachine {
            state: DisplayState::Idle,
            current_mode: DisplayMode::Low60Hz,
            tunables,
            last_activity_ms: now_ms,
            last_transition_ms: now_ms,
            next_wake_ms: -1,
        }
    }

    /// Moves to `target` unless already there or the last switch was less
    /// than the throttle ago; returns the mode to send when it switched.
    pub fn transition_to(&mut self, target: DisplayState, now_ms: u64) -> (signal: Option<DisplayMode>)
        ensures
            *final(self) == old(self).after_transition(target, now_ms),
            signal == old(self).transition_signal(target, now_ms),
            old(self).wf() ==> final(self).wf(),
    {
        if self.state == target {
            return None;
        }
        let elapsed = since_ms(now_ms, self.last_transition_ms);
        if (elapsed as u128) < self.tunables.activity_throttle_ms {
            return None;
        }
        let mode = match target {
            DisplayState::Active => {
                self.current_mode = DisplayMode::High90Hz;
                self.next_wake_ms = self.tunables.touch_idle_timeout_ms;
                DisplayMode::High90Hz
            },
            DisplayState::Idle => {
                self.current_mode = DisplayMode::Low60Hz;
                self.next_wake_ms = -1;
                DisplayMode::Low60Hz
            },
        };
        self.state = target;
        self.last_transition_ms = now_ms;
        Some(mode)
    }

    /// A read from the touch device succeeded at `now_ms`: the activity time
    /// moves, and when the service is enabled the screen becomes active.
    pub fn on_touch(&mut self, now_ms: u64, enabled: bool) -> (signal: Option<DisplayMode>)
        ensures
            ({
                let touched = DisplayMachine { last_activity_ms: now_ms, ..*old(self) };
                &&& enabled ==> *final(self) == touched.after_transition(DisplayState::Active, now_ms)
                    && signal == touched.transition_signal(DisplayState::Active, now_ms)
                &&& !enabled ==> *final(self) == touched && signal is None
            }),
            old(self).wf() ==> final(self).wf(),
    {
        self.last_activity_ms = now_ms;
        if enabled {
            self.transition_to(DisplayState::Active, now_ms)
        } else {
            None
        }
    }

    /// Milliseconds since the last touch, as the controller counts them: the
    /// count wraps to 32 signed bits.
    pub open spec fn idle_ms(self, now: u64) -> i32 {
        since(now, self.last_activity_ms) as i32
    }

    /// The timer fired at `now_ms`: an active screen that has been idle for
    /// the timeout goes back to 60 Hz; otherwise the next wake-up is set to
    /// when the timeout runs out.
    pub fn on_timeout(&mut self, now_ms: u64, enabled: bool) -> (signal: Option<DisplayMode>)
        requires
            old(self).tunables.touch_idle_timeout_ms - old(self).idle_ms(now_ms) <= i32::MAX,
            old(self).tunables.touch_idle_timeout_ms - old(self).idle_ms(now_ms) >= i32::MIN,
        ensures
            !enabled || old(self).state != DisplayState::Active ==> *final(self) == *old(self) && signal is None,
            enabled && old(self).state == DisplayState::Active && old(self).idle_ms(now_ms)
                >= old(self).tunables.touch_idle_timeout_ms ==> *final(self) == old(self).after_transition(
                DisplayState::Idle,
                now_ms,
            ) && signal == old(self).transition_signal(DisplayState::Idle, now_ms),
            enabled && old(self).state == DisplayState::Active && old(self).idle_ms(now_ms)
                < old(self).tunables.touch_idle_timeout_ms ==> *final(self) == (DisplayMachine {
                next_wake_ms: (old(self).tunables.touch_idle_timeout_ms - old(self).idle_ms(
                    now_ms,
                )) as i32,
                ..*old(self)
            }) && signal is None,
            old(self).wf() ==> final(self).wf(),
    {
        if !enabled {
            return None;
        }
        if self.state != DisplayState::Active {
            return None;
        }
        let elapsed = since_ms(now_ms, self.last_activity_ms) as i32;
        if elapsed >= self.tunables.touch_idle_timeout_ms {
            self.transition_to(DisplayState::Idle, now_ms)
        } else {
            self.next_wake_ms = self.tunables.touch_idle_timeout_ms - elapsed;
            None
        }
    }

    /// How long the event loop may sleep for this controller: forever
    /// (`-1`) while idle, the pending wake-up while active.
    pub fn get_timeout_ms(&self) -> (t: i32)
        ensures
            t == (if self.state == DisplayState::Idle { -1i32 } else { self.next_wake_ms }),
    {
        match self.state {
            DisplayState::Idle => -1,
            DisplayState::Active => self.next_wake_ms,
        }
    }
}

} // verus!

verus! {

/// The machine after a touch at `now`, before it decides anything.
pub open spec fn touched(m: DisplayMachine, now: u64) -> DisplayMachine {
    DisplayMachine { last_activity_ms: now, ..m }
}

/// A touch on an idle screen, once the throttle has passed since the last
/// switch, raises the refresh rate and arms the idle timer; after the idle
/// timeout with no further touch the screen drops back to 60 Hz and stops
/// asking for wake-ups.
pub proof fn law_touch_then_idle_round_trip(m: DisplayMachine, t: u64)
    requires
        m.wf(),
        m.state == DisplayState::Idle,
        since(t, m.last_transition_ms) as u128 >= m.tunables.activity_throttle_ms,
        0 <= m.tunables.touch_idle_timeout_ms,
        m.tunables.activity_throttle_ms <= m.tunables.touch_idle_timeout_ms as u128,
        t + m.tunables.touch_idle_timeout_ms <= u64::MAX,
    ensures
        ({
            let a = touched(m, t).after_transition(DisplayState::Active, t);
            let later = (t + m.tunables.touch_idle_timeout_ms) as u64;
            let b = a.after_transition(DisplayState::Idle, later);
            &&& touched(m, t).transition_signal(DisplayState::Active, t) == Some(DisplayMode::High90Hz)
            &&& a.state == DisplayState::Active
            &&& a.next_wake_ms == m.tunables.touch_idle_timeout_ms
            &&& a.idle_ms(later) >= a.tunables.touch_idle_timeout_ms
            &&& a.transition_signal(DisplayState::Idle, later) == Some(DisplayMode::Low60Hz)
            &&& b.state == DisplayState::Idle
            &&& b.current_mode == DisplayMode::Low60Hz
            &&& b.next_wake_ms == -1
        }),
{
    let a = touched(m, t).after_transition(DisplayState::Active, t);
    let later = (t + m.tunables.touch_idle_timeout_ms) as u64;
    assert(since(later, a.last_activity_ms) == m.tunables.touch_idle_timeout_ms);
    assert(a.idle_ms(later) == m.tunables.touch_idle_timeout_ms);
}

/// No sequence of touches and timer ticks breaks the pairing of the fast
/// mode with the active state: each step keeps it.
pub proof fn law_mode_follows_state(m: DisplayMachine, target: DisplayState, now: u64)
    requires
        m.wf(),
    ensures
        m.after_transition(target, now).wf(),
        touched(m, now).wf(),
{
}

} // verus!
