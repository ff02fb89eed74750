use vstd::prelude::*;

verus! {

pub const SLEEP_TOLERANCE_MS: u64 = 500;
pub const HYSTERESIS_THRESHOLD_MS: u64 = 500;
pub const NOISE_PERCENT: u64 = 5;
pub const LCG_MULTIPLIER: u64 = 6364136223846793005;

/// The linear congruential generator that spreads the poll times: each step
/// multiplies the state by the multiplier and adds one, modulo 2^64.
#[derive(Debug, Clone, Copy, PartialEq, Eq, Structural)]
pub struct PollRng {
    pub state: u64,
}

pub open spec fn lcg_step(state: u64) -> u64 {
    (((state as nat * LCG_MULTIPLIER as nat) % 0x1_0000_0000_0000_0000nat + 1)
        % 0x1_0000_0000_0000_0000nat) as u64
}

/// The generator's state and the number drawn for `range`.
pub open spec fn spec_next_random(state: u64, range: u64) -> (u64, u64) {
    if range == 0 {
        (state, 0)
    } else {
        (lcg_step(state), (lcg_step(state) as int % (2 * range + 1)) as u64)
    }
}

impl PollRng {
    pub fn new(seed: u64) -> (r: Self)
        ensures
            r.state == seed,
    {
        PollRng { state: seed }
    }

    /// A number in `0..=2 * range`; zero, without a step, when `range` is
    /// zero.
    pub fn next_random(&mut self, range: u64) -> (n: u64)
        requires
            range <= u64::MAX / 2,
        ensures
            (final(self).state, n) == spec_next_random(old(self).state, range),
            n <= 2 * range,
    {
        if range == 0 {
            return 0;
        }
        self.state = self.state.wrapping_mul(LCG_MULTIPLIER).wrapping_add(1);
        let limit = range * 2;
        self.state % (limit + 1)
    }
}

/// The interval once the noise is applied: the noise is drawn from
/// `0..=2a` for an amplitude `a` of five percent of the interval, so the
/// interval moves by at most `a` either way, and stays within the limits.
pub open spec fn jittered(clamped: u64, noise: u64, amplitude: u64, min_limit: u64, max_limit: u64) -> u64 {
    let moved = if noise > amplitude {
        clamped + (noise - amplitude)
    } else if clamped >= amplitude - noise {
        clamped - (amplitude - noise)
    } else {
        0
    };
    if moved < min_limit {
        min_limit
    } else if moved > max_limit {
        max_limit
    } else {
        moved as u64
    }
}

/// `v` held within `lo..=hi`.
pub open spec fn clamp_to(v: u64, lo: u64, hi: u64) -> u64 {
    if v < lo { lo } else if v > hi { hi } else { v }
}

/// Spreads a quantized interval by a little noise and keeps it within the
/// limits.
pub fn apply_jitter(rng: &mut PollRng, quantized: u64, min_limit: u64, max_limit: u64) -> (v: u64)
    requires
        min_limit <= max_limit,
        max_limit <= u64::MAX / NOISE_PERCENT,
    ensures
        min_limit <= v <= max_limit,
        ({
            let clamped = clamp_to(quantized, min_limit, max_limit);
            let amplitude = (clamped * NOISE_PERCENT / 100) as u64;
            let (state, noise) = spec_next_random(old(rng).state, amplitude);
            &&& final(rng).state == state
            &&& noise <= 2 * amplitude
            &&& v == jittered(clamped, noise, amplitude, min_limit, max_limit)
        }),
{
    let clamped = if quantized < min_limit {
        min_limit
    } else if quantized > max_limit {
        max_limit
    } else {
        quantized
    };
    let amplitude = clamped * NOISE_PERCENT / 100;
    let noise = rng.next_random(amplitude);
    let moved = if noise > amplitude {
        clamped + (noise - amplitude)
    } else {
        clamped.saturating_sub(amplitude - noise)
    };
    let v = if moved < min_limit {
        min_limit
    } else if moved > max_limit {
        max_limit
    } else {
        moved
    };
    assert(clamped == clamp_to(quantized, min_limit, max_limit));
    assert(amplitude == (clamped * NOISE_PERCENT / 100) as u64);
    assert(v == jittered(clamped, noise, amplitude, min_limit, max_limit));
    v
}

/// Whether the time since the last tick shows the device slept: more than
/// the current interval plus the tolerance.
pub fn is_time_discontinuity(elapsed_ms: u64, current_interval: u64) -> (b: bool)
    requires
        current_interval + SLEEP_TOLERANCE_MS <= u64::MAX,
    ensures
        b == (elapsed_ms > current_interval + SLEEP_TOLERANCE_MS),
{
    elapsed_ms > current_interval + SLEEP_TOLERANCE_MS
}

/// The interval the poller works from: a target within the hysteresis band
/// of the current interval leaves it unchanged.
pub fn hysteresis(current_interval: u64, target_interval: u64) -> (v: u64)
    ensures
        v == (if (if target_interval >= current_interval { target_interval - current_interval } else { current_interval - target_interval }) < HYSTERESIS_THRESHOLD_MS { current_interval } else { target_interval }),
{
    let diff = if target_interval >= current_interval {
        target_interval - current_interval
    } else {
        current_interval - target_interval
    };
    if diff < HYSTERESIS_THRESHOLD_MS { current_interval } else { target_interval }
}

} // verus!
