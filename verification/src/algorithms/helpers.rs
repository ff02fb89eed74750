use vstd::prelude::*;

verus! {

/// `value` rounded to the nearest multiple of `step`, halves rounding up;
/// steps of zero and one leave it as it is.
pub open spec fn spec_round_to_step(value: u64, step: u64) -> int {
    if step == 0 || step == 1 {
        value as int
    } else if value % step >= step / 2 {
        value + step - value % step
    } else {
        value - value % step
    }
}

/// Rounds a setting to the granularity the kernel file expects.
pub fn round_to_step(value: u64, step: u64) -> (r: u64)
    requires
        spec_round_to_step(value, step) <= u64::MAX,
    ensures
        r == spec_round_to_step(value, step),
{
    if step == 0 || step == 1 {
        return value;
    }
    let remainder = value % step;
    assert(remainder <= value) by (nonlinear_arith)
        requires
            remainder == value % step,
            step >= 2,
    ;
    if remainder >= step / 2 {
        value + (step - remainder)
    } else {
        value - remainder
    }
}

/// The rounded value is a multiple of the step, less than half a step below
/// the value it was rounded from or at most half a step (rounded up) above.
pub proof fn law_round_to_step(value: u64, step: u64)
    requires
        step >= 2,
    ensures
        spec_round_to_step(value, step) % (step as int) == 0,
        spec_round_to_step(value, step) - value <= step - step / 2,
        value - spec_round_to_step(value, step) < step / 2,
{
    let r = value % step;
    let q = value / step;
    assert(value == q * step + r) by (nonlinear_arith)
        requires
            step >= 2,
            r == value % step,
            q == value / step,
    ;
    if r >= step / 2 {
        assert((q + 1) * step == value + step - r) by (nonlinear_arith)
            requires
                value == q * step + r,
        ;
        assert(((q + 1) * step) % (step as int) == 0) by (nonlinear_arith)
            requires
                step >= 2,
        ;
    } else {
        assert((q * step) % (step as int) == 0) by (nonlinear_arith)
            requires
                step >= 2,
        ;
    }
}

} // verus!
