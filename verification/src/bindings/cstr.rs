use vstd::prelude::*;
use crate::daemon::types::QosError;
use crate::hal::decimal::{append_decimal, decimal_chars};
use vstd::string::StringSliceAdditionalSpecFns;

verus! {

/// Capacity of the stack buffer that carries a string across the FFI
/// boundary, terminator included.
pub const FFI_BUFFER_LEN: usize = 256;

/// `bytes` padded with zeros to the FFI buffer: the bytes, a terminating zero,
/// then zeros up to `FFI_BUFFER_LEN`.
pub open spec fn ffi_buffer(bytes: Seq<u8>) -> Seq<u8> {
    Seq::new(FFI_BUFFER_LEN as nat, |i: int| if i < bytes.len() { bytes[i] } else { 0u8 })
}

/// The bytes of `s` fit the FFI buffer with room for the terminator.
pub open spec fn fits_ffi_buffer(s: &str) -> bool {
    s.spec_bytes().len() < FFI_BUFFER_LEN
}

pub open spec fn too_long_message() -> Seq<char> {
    "String too long for FFI boundary"@
}

/// Copies `s` into a zero-filled buffer of `FFI_BUFFER_LEN` bytes, so that the
/// buffer holds `s` followed by a terminating zero.
pub fn ffi_buffer_of(s: &str) -> (r: Result<Vec<u8>, QosError>)
    ensures
        fits_ffi_buffer(s) ==> (r matches Ok(b) && b@ == ffi_buffer(s.spec_bytes())),
        !fits_ffi_buffer(s) ==> (r matches Err(QosError::InvalidInput(m)) && m@ == too_long_message()),
{
    let bytes = s.as_bytes();
    if bytes.len() >= FFI_BUFFER_LEN {
        return Err(QosError::InvalidInput(String::from_str("String too long for FFI boundary")));
    }
    let mut buffer: Vec<u8> = Vec::new();
    let mut i: usize = 0;
    while i < FFI_BUFFER_LEN
        invariant
            i <= FFI_BUFFER_LEN,
            bytes@ == s.spec_bytes(),
            bytes.len() < FFI_BUFFER_LEN,
            buffer.len() == i,
            forall|j: int| 0 <= j < i ==> buffer[j] == ffi_buffer(bytes@)[j],
        decreases FFI_BUFFER_LEN - i,
    {
        if i < bytes.len() {
            buffer.push(bytes[i]);
        } else {
            buffer.push(0u8);
        }
        i = i + 1;
    }
    assert(buffer@ =~= ffi_buffer(bytes@));
    Ok(buffer)
}

/// Hands `s`, as a zero-terminated buffer of `FFI_BUFFER_LEN` bytes, to `f`,
/// and returns what `f` returns; strings that leave no room for the
/// terminator are refused before `f` runs.
pub fn with_cstr<F, R>(s: &str, f: F) -> (r: Result<R, QosError>)
    where
        F: FnOnce(&[u8]) -> R,
    requires
        fits_ffi_buffer(s) ==> forall|b: &[u8]| b@ == ffi_buffer(s.spec_bytes()) ==> call_requires(f, (b,)),
    ensures
        fits_ffi_buffer(s) ==> (r matches Ok(v) && exists|b: &[u8]|
            b@ == ffi_buffer(s.spec_bytes()) && call_ensures(f, (b,), v)),
        !fits_ffi_buffer(s) ==> (r matches Err(QosError::InvalidInput(m)) && m@ == too_long_message()),
{
    match ffi_buffer_of(s) {
        Ok(buffer) => {
            let b = buffer.as_slice();
            let v = f(b);
            Ok(v)
        },
        Err(e) => Err(e),
    }
}

/// A byte that may appear in a value written to the kernel: an ASCII letter
/// or digit, or one of `.`, `-`, `_`, `=` and space.
pub open spec fn is_value_byte(c: u8) -> bool {
    (48 <= c <= 57) || (65 <= c <= 90) || (97 <= c <= 122) || c == 46 || c == 45 || c == 95
        || c == 61 || c == 32
}

/// Every byte of `s` may appear in a value written to the kernel.
pub open spec fn spec_validate_value(s: &str) -> bool {
    forall|i: int| 0 <= i < s.spec_bytes().len() ==> is_value_byte(#[trigger] s.spec_bytes()[i])
}

/// Checks that `value` holds only ASCII letters and digits, `.`, `-`, `_`,
/// `=` and spaces.
pub fn validate_value(value: &str) -> (ok: bool)
    ensures
        ok == spec_validate_value(value),
{
    let bytes = value.as_bytes();
    let mut i: usize = 0;
    while i < bytes.len()
        invariant
            i <= bytes.len(),
            bytes@ == value.spec_bytes(),
            forall|j: int| 0 <= j < i ==> is_value_byte(#[trigger] bytes@[j]),
        decreases bytes.len() - i,
    {
        let c = bytes[i];
        let ok = (c >= 48 && c <= 57) || (c >= 65 && c <= 90) || (c >= 97 && c <= 122) || c == 46
            || c == 45 || c == 95 || c == 61 || c == 32;
        if !ok {
            return false;
        }
        i = i + 1;
    }
    true
}

} // verus!

verus! {

/// A string without zero bytes that fits the FFI buffer reads back whole
/// from it: its bytes come first, then the terminator.
pub proof fn law_ffi_buffer_round_trip(bytes: Seq<u8>)
    requires
        bytes.len() < FFI_BUFFER_LEN,
        forall|i: int| 0 <= i < bytes.len() ==> bytes[i] != 0,
    ensures
        ffi_buffer(bytes).subrange(0, bytes.len() as int) == bytes,
        ffi_buffer(bytes)[bytes.len() as int] == 0,
        first_zero(ffi_buffer(bytes), 0) == bytes.len(),
{
    let b = ffi_buffer(bytes);
    assert(b.subrange(0, bytes.len() as int) =~= bytes);
    lemma_first_zero(b, 0);
    assert(b[bytes.len() as int] == 0);
    let z = first_zero(b, 0);
    if z != -1 && z < bytes.len() {
        assert(bytes[z] == b[z]);
    }
}

/// The index of the first zero byte of `s` from `i` on, or -1.
pub open spec fn first_zero(s: Seq<u8>, i: int) -> int
    decreases s.len() - i,
{
    if i < 0 || i >= s.len() {
        -1
    } else if s[i] == 0 {
        i
    } else {
        first_zero(s, i + 1)
    }
}

pub proof fn lemma_first_zero(s: Seq<u8>, i: int)
    requires
        0 <= i,
    ensures
        first_zero(s, i) == -1 ==> forall|j: int| i <= j < s.len() ==> s[j] != 0,
        first_zero(s, i) != -1 ==> i <= first_zero(s, i) < s.len() && s[first_zero(s, i)] == 0,
        first_zero(s, i) != -1 ==> forall|j: int| i <= j < first_zero(s, i) ==> s[j] != 0,
    decreases s.len() - i,
{
    if i < s.len() && s[i] != 0 {
        lemma_first_zero(s, i + 1);
    }
}

/// The message for a string that cannot become a C string because of the
/// zero byte at `pos`.
pub open spec fn nul_message(pos: nat) -> Seq<char> {
    "String contains null byte: nul byte found in provided data at position: "@ + decimal_chars(pos)
}

/// The zero-terminated bytes of `s` for a C call; a string with a zero byte
/// in it is refused, naming the position of the first one.
pub fn to_cstring(s: &str) -> (r: Result<Vec<u8>, QosError>)
    ensures
        first_zero(s.spec_bytes(), 0) == -1 ==> (r matches Ok(b) && b@ == s.spec_bytes().push(0u8)),
        first_zero(s.spec_bytes(), 0) != -1 ==> (r matches Err(QosError::InvalidInput(m)) && m@
            == nul_message(first_zero(s.spec_bytes(), 0) as nat)),
{
    let bytes = s.as_bytes();
    let mut out: Vec<u8> = Vec::new();
    let mut i: usize = 0;
    while i < bytes.len()
        invariant
            i <= bytes.len(),
            bytes@ == s.spec_bytes(),
            out@ == bytes@.subrange(0, i as int),
            first_zero(bytes@, i as int) == first_zero(bytes@, 0),
        decreases bytes.len() - i,
    {
        if bytes[i] == 0 {
            let mut m = String::from_str("String contains null byte: nul byte found in provided data at position: ");
            append_decimal(&mut m, i as u64);
            return Err(QosError::InvalidInput(m));
        }
        out.push(bytes[i]);
        i = i + 1;
        assert(out@ =~= bytes@.subrange(0, i as int));
    }
    assert(out@ =~= bytes@);
    out.push(0u8);
    Ok(out)
}

} // verus!
