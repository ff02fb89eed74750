use vstd::prelude::*;

verus! {

pub open spec fn wrap_i32(v: int) -> i32 {
    v as i32
}

/// Scans `bytes` from `i`: digits accumulate, a `-` before the first digit
/// makes the value negative, and the first other byte after a digit ends
/// the number; other bytes before it are passed over.
pub open spec fn scan_temp(bytes: Seq<u8>, i: int, value: i32, negative: bool, seen: bool) -> (i32, bool, bool)
    decreases bytes.len() - i,
{
    if i < 0 || i >= bytes.len() {
        (value, negative, seen)
    } else if 48 <= bytes[i] <= 57 {
        scan_temp(bytes, i + 1, wrap_i32(value as int * 10 + (bytes[i] - 48)), negative, true)
    } else if bytes[i] == 45 && !seen {
        scan_temp(bytes, i + 1, value, true, seen)
    } else if seen {
        (value, negative, seen)
    } else {
        scan_temp(bytes, i + 1, value, negative, seen)
    }
}

/// The raw reading of a thermal file: the first number in it, with its
/// sign; `None` when there is no digit.
pub open spec fn spec_raw_temperature(bytes: Seq<u8>) -> Option<i32> {
    let (v, neg, seen) = scan_temp(bytes, 0, 0, false, false);
    if !seen {
        None
    } else if neg {
        Some((-v) as i32)
    } else {
        Some(v)
    }
}

/// Whether the reading of `bytes` is the one number whose sign cannot be
/// flipped in 32 bits: a negative reading whose digits wrapped to `i32::MIN`.
pub open spec fn spec_temperature_overflows(bytes: Seq<u8>) -> bool {
    let (v, neg, seen) = scan_temp(bytes, 0, 0, false, false);
    seen && neg && v == i32::MIN
}

/// Tells whether `parse_temperature_raw` would have to negate `i32::MIN`.
pub fn temperature_overflows(bytes: &[u8]) -> (r: bool)
    ensures
        r == spec_temperature_overflows(bytes@),
{
    let mut value: i32 = 0;
    let mut negative = false;
    let mut seen = false;
    let mut i: usize = 0;
    while i < bytes.len()
        invariant
            i <= bytes.len(),
            scan_temp(bytes@, i as int, value, negative, seen) == scan_temp(bytes@, 0, 0, false, false),
        ensures
            (value, negative, seen) == scan_temp(bytes@, 0, 0, false, false),
        decreases bytes.len() - i,
    {
        let b = bytes[i];
        if b >= 48 && b <= 57 {
            let wide: i64 = value as i64 * 10 + (b - 48) as i64;
            value = wide as i32;
            seen = true;
        } else if b == 45 && !seen {
            negative = true;
        } else if seen {
            break;
        }
        i = i + 1;
    }
    seen && negative && value == i32::MIN
}

/// Reads the raw integer out of a thermal sensor file's bytes; the caller
/// scales it to degrees.
pub fn parse_temperature_raw(bytes: &[u8]) -> (r: Option<i32>)
    requires
        !spec_temperature_overflows(bytes@),
    ensures
        r == spec_raw_temperature(bytes@),
{
    let mut value: i32 = 0;
    let mut negative = false;
    let mut seen = false;
    let mut i: usize = 0;
    while i < bytes.len()
        invariant
            i <= bytes.len(),
            scan_temp(bytes@, i as int, value, negative, seen) == scan_temp(bytes@, 0, 0, false, false),
        ensures
            (value, negative, seen) == scan_temp(bytes@, 0, 0, false, false),
        decreases bytes.len() - i,
    {
        let b = bytes[i];
        if b >= 48 && b <= 57 {
            let wide: i64 = value as i64 * 10 + (b - 48) as i64;
            value = wide as i32;
            seen = true;
        } else if b == 45 && !seen {
            negative = true;
        } else if seen {
            break;
        }
        i = i + 1;
    }
    if !seen {
        return None;
    }
    if negative {
        Some(-value)
    } else {
        Some(value)
    }
}

/// The battery level sensor: the descriptor of its sysfs file, when the
/// file could be opened. Without one every reading is the full level.
#[derive(Debug, Clone, Copy, PartialEq, Eq, Structural)]
pub struct BatterySensor {
    pub fd: Option<i32>,
}

impl BatterySensor {
    /// A sensor over the file that opening its path gave, if any.
    pub fn new(opened: Option<i32>) -> (s: Self)
        ensures
            s.fd == opened,
    {
        BatterySensor { fd: opened }
    }

    /// Whether readings come from the file rather than the default.
    pub fn is_available(&self) -> (b: bool)
        ensures
            b == self.fd is Some,
    {
        self.fd.is_some()
    }
}

} // verus!
