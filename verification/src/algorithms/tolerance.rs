use vstd::prelude::*;

verus! {

/// Distance between two integers on the number line.
pub open spec fn abs_diff(a: int, b: int) -> int {
    if a >= b { a - b } else { b - a }
}

/// True when moving from `current` to `target` changes the value by at least
/// `threshold`; an unchanged value never counts as a change.
pub open spec fn spec_check_absolute(current: u64, target: u64, threshold: u64) -> bool {
    current != target && abs_diff(current as int, target as int) >= threshold
}

/// Decides whether a cached kernel value must be rewritten under an absolute
/// tolerance.
pub fn check_absolute(current: u64, target: u64, threshold: u64) -> (changed: bool)
    ensures
        changed == spec_check_absolute(current, target, threshold),
{
    if current == target {
        return false;
    }
    let diff = if current >= target { current - target } else { target - current };
    diff >= threshold
}

} // verus!
