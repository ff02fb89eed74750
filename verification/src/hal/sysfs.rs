use vstd::prelude::*;
use vstd::string::StringSliceAdditionalSpecFns;
use crate::algorithms::tolerance::{abs_diff, check_absolute, spec_check_absolute};
use crate::bindings::cstr::{spec_validate_value, validate_value};
use crate::daemon::types::QosError;
use crate::hal::text::{chars_of, chars_start_with, seq_starts_with};
use crate::hal::decimal::{
    decimal_digits, format_i32, format_u64, lemma_i32_decimal_len, lemma_u64_digits_len,
    signed_decimal,
};

verus! {

/// Capacity of the buffer that `write_to_stream` fills.
pub const STREAM_BUFFER_LEN: usize = 32;

/// Capacity of the buffer that `write_to_file` fills.
pub const FILE_BUFFER_LEN: usize = 64;

/// Capacity of the buffer that holds `/proc/self/fd/<fd>` and its terminator.
pub const FD_PATH_BUFFER_LEN: usize = 32;

/// The bytes `write_to_stream` sends for `value`: its decimal digits, then a
/// newline when they leave room for one in the stream buffer.
pub open spec fn stream_bytes(value: u64) -> Seq<u8> {
    let d = decimal_digits(value as nat);
    if d.len() < STREAM_BUFFER_LEN { d.push(10u8) } else { d }
}

/// Renders `value` as the kernel expects it in a sysfs or procfs file.
pub fn format_stream_value(value: u64) -> (bytes: Vec<u8>)
    ensures
        bytes@ == stream_bytes(value),
        bytes@ == decimal_digits(value as nat).push(10u8),
{
    proof {
        lemma_u64_digits_len(value);
    }
    let mut bytes = format_u64(value);
    if bytes.len() < STREAM_BUFFER_LEN {
        bytes.push(10u8);
    }
    bytes
}

/// True when moving from `current` to `target` changes the value by at least
/// `tolerance_per_mille` thousandths of `current`; from zero, any change counts.
pub open spec fn spec_check_relative(current: u64, target: u64, tolerance_per_mille: u64) -> bool {
    if current == target {
        false
    } else if current == 0 {
        target != 0
    } else {
        abs_diff(current as int, target as int) * 1000 >= current * tolerance_per_mille
    }
}

/// Decides whether a cached value must be rewritten under a relative
/// tolerance given in thousandths.
pub fn check_relative(current: u64, target: u64, tolerance_per_mille: u64) -> (changed: bool)
    ensures
        changed == spec_check_relative(current, target, tolerance_per_mille),
{
    if current == target {
        return false;
    }
    if current == 0 {
        return target != 0;
    }
    let diff: u64 = if current >= target { current - target } else { target - current };
    let lhs: u128 = diff as u128 * 1000;
    assert(current as u128 * tolerance_per_mille as u128 <= u64::MAX as u128 * u64::MAX as u128) by (nonlinear_arith);
    let rhs: u128 = current as u128 * tolerance_per_mille as u128;
    lhs >= rhs
}

/// How a cached kernel value decides whether a new value is worth writing.
#[derive(Debug, Clone, Copy, PartialEq, Eq, Structural)]
pub enum CheckStrategy {
    /// Write when the value moves by at least this much.
    Absolute(u64),
    /// Write when the value moves by at least this many thousandths of itself.
    Relative(u64),
    /// Write whenever the value differs.
    Strict,
}

pub open spec fn spec_differs_enough(last: u64, new_value: u64, strategy: CheckStrategy) -> bool {
    match strategy {
        CheckStrategy::Absolute(t) => spec_check_absolute(last, new_value, t),
        CheckStrategy::Relative(t) => spec_check_relative(last, new_value, t),
        CheckStrategy::Strict => last != new_value,
    }
}

/// A kernel tunable file together with the value last written to it. The file
/// itself is held by the caller; `active` says whether it could be opened.
#[derive(Debug, Clone, Copy, PartialEq, Eq, Structural)]
pub struct CachedFile {
    pub active: bool,
    pub last_value: u64,
}

impl CachedFile {
    /// A cache over a file that is open.
    pub fn new(initial_value: u64) -> (c: Self)
        ensures
            c == (CachedFile { active: true, last_value: initial_value }),
    {
        CachedFile { active: true, last_value: initial_value }
    }

    /// A cache over a file that may have failed to open.
    pub fn new_opt(file_present: bool, initial_value: u64) -> (c: Self)
        ensures
            c == (CachedFile { active: file_present, last_value: initial_value }),
    {
        CachedFile { active: file_present, last_value: initial_value }
    }

    pub fn is_active(&self) -> (a: bool)
        ensures
            a == self.active,
    {
        self.active
    }

    /// Whether `new_value` is to be written now.
    pub open spec fn spec_needs_update(self, new_value: u64, force: bool, strategy: CheckStrategy) -> bool {
        self.active && (force || spec_differs_enough(self.last_value, new_value, strategy))
    }

    /// The bytes to write to the file for `new_value`, or `None` when the file
    /// is absent or the value has not moved enough.
    pub fn plan_update(&self, new_value: u64, force: bool, strategy: &CheckStrategy) -> (plan: Option<Vec<u8>>)
        ensures
            plan is Some <==> self.spec_needs_update(new_value, force, *strategy),
            plan matches Some(b) ==> b@ == stream_bytes(new_value),
    {
        if !self.active {
            return None;
        }
        let needs = if force {
            true
        } else {
            match strategy {
                CheckStrategy::Absolute(t) => check_absolute(self.last_value, new_value, *t),
                CheckStrategy::Relative(t) => check_relative(self.last_value, new_value, *t),
                CheckStrategy::Strict => self.last_value != new_value,
            }
        };
        if needs {
            Some(format_stream_value(new_value))
        } else {
            None
        }
    }

    /// The cache after an attempt to write `new_value`.
    pub open spec fn spec_after_commit(self, new_value: u64, written: bool) -> CachedFile {
        if written {
            CachedFile { active: self.active, last_value: new_value }
        } else {
            self
        }
    }

    /// Records the outcome of writing `new_value`: the cache follows the file
    /// only when the write went through.
    pub fn commit_update(&mut self, new_value: u64, written: bool)
        ensures
            *final(self) == old(self).spec_after_commit(new_value, written),
    {
        if written {
            self.last_value = new_value;
        }
    }
}

/// A cache whose write of a planned value fails keeps asking for that value;
/// one whose write succeeds asks for it again only when forced.
pub proof fn law_cache_follows_successful_writes(
    c: CachedFile,
    v: u64,
    force: bool,
    strategy: CheckStrategy,
)
    requires
        c.spec_needs_update(v, force, strategy),
    ensures
        c.spec_after_commit(v, false).spec_needs_update(v, force, strategy),
        !c.spec_after_commit(v, true).spec_needs_update(v, false, strategy),
        c.spec_after_commit(v, true).spec_needs_update(v, true, strategy),
{
}

/// Under an absolute tolerance a value is rewritten exactly when it moved,
/// up or down, by at least the tolerance: the decision does not depend on
/// the direction of the move.
pub proof fn law_absolute_tolerance_is_symmetric(a: u64, b: u64, t: u64)
    ensures
        (CachedFile { active: true, last_value: a }).spec_needs_update(b, false, CheckStrategy::Absolute(t))
            == (a != b && (if a >= b { a - b } else { b - a }) >= t),
        (CachedFile { active: true, last_value: a }).spec_needs_update(b, false, CheckStrategy::Absolute(t))
            == (CachedFile { active: true, last_value: b }).spec_needs_update(a, false, CheckStrategy::Absolute(t)),
{
}

/// Under a relative tolerance from a nonzero value, a move of at least the
/// given thousandths of that value, up or down, is rewritten, and a smaller
/// one is not.
pub proof fn law_relative_tolerance_by_distance(a: u64, b: u64, t: u64)
    requires
        a > 0,
    ensures
        (CachedFile { active: true, last_value: a }).spec_needs_update(b, false, CheckStrategy::Relative(t))
            == (a != b && (if a >= b { a - b } else { b - a }) * 1000 >= a * t),
{
}

/// A single quote, as a one-character text.
pub open spec fn quote_text() -> Seq<char> {
    seq![39u8 as char]
}

pub open spec fn invalid_value_message(path: Seq<char>, value: Seq<char>) -> Seq<char> {
    "Invalid characters in value for "@ + path + ": "@ + quote_text() + value + quote_text()
}

pub open spec fn value_too_long_message() -> Seq<char> {
    "Value too long for stack buffer"@
}

/// What `write_to_file` puts in a file for `value`: the value and a newline.
pub open spec fn file_write_bytes(value: &str) -> Seq<u8> {
    value.spec_bytes().push(10u8)
}

/// Checks a value bound for a kernel file and renders the bytes to write:
/// only letters, digits, `.`, `-`, `_`, `=` and spaces pass, and the value
/// with its newline must fit the write buffer.
pub fn prepare_file_write(path: &str, value: &str) -> (r: Result<Vec<u8>, QosError>)
    ensures
        !spec_validate_value(value) ==> (r matches Err(QosError::SystemCheckFailed(m)) && m@
            == invalid_value_message(path@, value@)),
        spec_validate_value(value) && value.spec_bytes().len() + 1 > FILE_BUFFER_LEN ==> (r matches Err(
            QosError::InvalidInput(m),
        ) && m@ == value_too_long_message()),
        spec_validate_value(value) && value.spec_bytes().len() + 1 <= FILE_BUFFER_LEN ==> (r matches Ok(
            b,
        ) && b@ == file_write_bytes(value)),
{
    if !validate_value(value) {
        let mut m = String::from_str("Invalid characters in value for ");
        m.append(path);
        m.append(": ");
        m.append(quote());
        m.append(value);
        m.append(quote());
        return Err(QosError::SystemCheckFailed(m));
    }
    let bytes = value.as_bytes();
    if bytes.len() >= FILE_BUFFER_LEN {
        return Err(QosError::InvalidInput(String::from_str("Value too long for stack buffer")));
    }
    let mut out: Vec<u8> = Vec::new();
    let mut i: usize = 0;
    while i < bytes.len()
        invariant
            i <= bytes.len(),
            bytes@ == value.spec_bytes(),
            out@ == bytes@.subrange(0, i as int),
        decreases bytes.len() - i,
    {
        out.push(bytes[i]);
        i = i + 1;
    }
    assert(out@ =~= bytes@);
    out.push(10u8);
    Ok(out)
}

/// A single quote.
pub(crate) fn quote() -> (q: &'static str)
    ensures
        q@ == quote_text(),
{
    proof {
        reveal_strlit("\x27");
    }
    let q = "\x27";
    assert(q@ =~= quote_text());
    q
}

pub const PROC_SELF_FD_PREFIX_LEN: usize = 14;

/// `/proc/self/fd/` as bytes.
pub open spec fn proc_self_fd_prefix() -> Seq<u8> {
    seq![47u8, 112u8, 114u8, 111u8, 99u8, 47u8, 115u8, 101u8, 108u8, 102u8, 47u8, 102u8, 100u8, 47u8]
}

/// The zero-terminated path under which the kernel shows descriptor `fd`.
pub open spec fn fd_link_bytes(fd: i32) -> Seq<u8> {
    proc_self_fd_prefix() + signed_decimal(fd as int) + seq![0u8]
}

/// Builds the zero-terminated `/proc/self/fd/<fd>` path used to resolve a
/// descriptor; every `i32` fits the path buffer.
pub fn fd_link_path(fd: i32) -> (r: Result<Vec<u8>, QosError>)
    ensures
        r matches Ok(b) && b@ == fd_link_bytes(fd),
{
    proof {
        lemma_i32_decimal_len(fd);
    }
    let digits = format_i32(fd);
    let end = PROC_SELF_FD_PREFIX_LEN + digits.len();
    if end >= FD_PATH_BUFFER_LEN {
        return Err(QosError::InvalidPath(String::from_str("FD too large")));
    }
    let mut path: Vec<u8> = Vec::new();
    path.push(47u8);
    path.push(112u8);
    path.push(114u8);
    path.push(111u8);
    path.push(99u8);
    path.push(47u8);
    path.push(115u8);
    path.push(101u8);
    path.push(108u8);
    path.push(102u8);
    path.push(47u8);
    path.push(102u8);
    path.push(100u8);
    path.push(47u8);
    assert(path@ =~= proc_self_fd_prefix());
    let mut i: usize = 0;
    while i < digits.len()
        invariant
            i <= digits.len(),
            path@ == proc_self_fd_prefix() + digits@.subrange(0, i as int),
        decreases digits.len() - i,
    {
        path.push(digits[i]);
        proof {
            assert(digits@.subrange(0, i as int + 1) =~= digits@.subrange(0, i as int).push(digits@[i as int]));
        }
        i = i + 1;
    }
    assert(digits@.subrange(0, digits.len() as int) =~= digits@);
    path.push(0u8);
    Ok(path)
}

/// `s` begins with `prefix`.
pub open spec fn starts_with(s: Seq<u8>, prefix: Seq<u8>) -> bool {
    prefix.len() <= s.len() && s.subrange(0, prefix.len() as int) =~= prefix
}

/// Whether `s` begins with `prefix`.
pub fn bytes_start_with(s: &[u8], prefix: &[u8]) -> (r: bool)
    ensures
        r == starts_with(s@, prefix@),
{
    if prefix.len() > s.len() {
        return false;
    }
    let mut i: usize = 0;
    while i < prefix.len()
        invariant
            i <= prefix.len() <= s.len(),
            forall|j: int| 0 <= j < i ==> s@[j] == prefix@[j],
        decreases prefix.len() - i,
    {
        if s[i] != prefix[i] {
            assert(s@.subrange(0, prefix.len() as int)[i as int] != prefix@[i as int]);
            return false;
        }
        i = i + 1;
    }
    assert(s@.subrange(0, prefix.len() as int) =~= prefix@);
    true
}

/// `/proc/` as bytes.
pub open spec fn proc_prefix() -> Seq<u8> {
    seq![47u8, 112u8, 114u8, 111u8, 99u8, 47u8]
}

/// `/sys/` as bytes.
pub open spec fn sys_prefix() -> Seq<u8> {
    seq![47u8, 115u8, 121u8, 115u8, 47u8]
}

/// Judges where an opened descriptor really points: `link_len` is what
/// `readlink` returned and `target` the bytes it wrote. Only files under
/// `/proc/` and `/sys/` may be touched.
pub fn validate_fd_target(link_len: isize, target: &[u8]) -> (r: Result<(), QosError>)
    ensures
        link_len < 0 ==> (r matches Err(QosError::InvalidPath(m)) && m@ == "FD resolution failed"@),
        link_len >= 0 && (starts_with(target@, proc_prefix()) || starts_with(target@, sys_prefix()))
            ==> r is Ok,
        link_len >= 0 && !(starts_with(target@, proc_prefix()) || starts_with(target@, sys_prefix()))
            ==> (r matches Err(QosError::PermissionDenied(m)) && m@ == "Access denied"@),
{
    if link_len < 0 {
        return Err(QosError::InvalidPath(String::from_str("FD resolution failed")));
    }
    let proc_p: [u8; 6] = [47u8, 112u8, 114u8, 111u8, 99u8, 47u8];
    let sys_p: [u8; 5] = [47u8, 115u8, 121u8, 115u8, 47u8];
    assert(proc_p@ =~= proc_prefix());
    assert(sys_p@ =~= sys_prefix());
    if bytes_start_with(target, &proc_p) || bytes_start_with(target, &sys_p) {
        Ok(())
    } else {
        Err(QosError::PermissionDenied(String::from_str("Access denied")))
    }
}

} // verus!

verus! {

/// `/proc/` as text.
pub open spec fn proc_dir_text() -> Seq<char> {
    "/proc/"@
}

/// `/sys/` as text.
pub open spec fn sys_dir_text() -> Seq<char> {
    "/sys/"@
}

pub open spec fn access_denied_message(path: Seq<char>) -> Seq<char> {
    "Access denied: "@ + path
}

/// Checks a path, already resolved to its canonical form, against the
/// places the daemon may write: only paths under `/proc/` or `/sys/` pass.
pub fn check_canonical_path(canonical: &str) -> (r: Result<(), QosError>)
    ensures
        (seq_starts_with(canonical@, proc_dir_text()) || seq_starts_with(canonical@, sys_dir_text()))
            ==> r is Ok,
        !(seq_starts_with(canonical@, proc_dir_text()) || seq_starts_with(canonical@, sys_dir_text()))
            ==> (r matches Err(QosError::PermissionDenied(m)) && m@ == access_denied_message(
            canonical@,
        )),
{
    let path = chars_of(canonical);
    let proc_dir = chars_of("/proc/");
    let sys_dir = chars_of("/sys/");
    if chars_start_with(&path, &proc_dir) || chars_start_with(&path, &sys_dir) {
        Ok(())
    } else {
        let mut m = String::from_str("Access denied: ");
        m.append(canonical);
        Err(QosError::PermissionDenied(m))
    }
}

} // verus!
