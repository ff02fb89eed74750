use vstd::prelude::*;
use crate::bindings::cstr::first_zero;
use crate::daemon::types::QosError;
use crate::hal::sysfs::{quote, quote_text};
use crate::hal::text::chars_of;
use vstd::string::StringSliceAdditionalSpecFns;

verus! {

/// What `char::is_alphanumeric` says of `c`: whether it has the Unicode
/// `Alphabetic` or `Numeric` property.
pub uninterp spec fn unicode_alphanumeric(c: char) -> bool;

/// An ASCII letter or digit.
pub open spec fn ascii_alphanumeric(c: char) -> bool {
    ('0' <= c <= '9') || ('A' <= c <= 'Z') || ('a' <= c <= 'z')
}

/// Tests `c` with `char::is_alphanumeric`; among ASCII characters exactly
/// the letters and digits pass, as the documentation of `is_alphabetic` and
/// `is_numeric` says. Of other characters the contract only names the
/// answer.
#[verifier::external_body]
fn is_alphanumeric(c: char) -> (r: bool)
    ensures
        r == unicode_alphanumeric(c),
        (c as u32) < 128 ==> r == ascii_alphanumeric(c),
{
    c.is_alphanumeric()
}

/// A character allowed in a property key.
pub open spec fn is_key_char(c: char) -> bool {
    unicode_alphanumeric(c) || c == '.' || c == '_' || c == '-'
}

/// A character allowed in a property value.
pub open spec fn is_value_char(c: char) -> bool {
    unicode_alphanumeric(c) || c == '.' || c == '-' || c == '_' || c == '=' || c == ' '
}

pub open spec fn all_key_chars(s: Seq<char>) -> bool {
    forall|i: int| 0 <= i < s.len() ==> is_key_char(#[trigger] s[i])
}

pub open spec fn all_value_chars(s: Seq<char>) -> bool {
    forall|i: int| 0 <= i < s.len() ==> is_value_char(#[trigger] s[i])
}

/// Whether every character of `value` is a letter or digit (in the Unicode
/// sense) or one of `.`, `-`, `_`, `=` and space.
pub fn validate_value(value: &str) -> (ok: bool)
    ensures
        ok == all_value_chars(value@),
{
    let chars = chars_of(value);
    let mut i: usize = 0;
    while i < chars.len()
        invariant
            i <= chars.len(),
            chars@ == value@,
            forall|j: int| 0 <= j < i ==> is_value_char(#[trigger] chars@[j]),
        decreases chars.len() - i,
    {
        let c = chars[i];
        if !(is_alphanumeric(c) || c == '.' || c == '-' || c == '_' || c == '=' || c == ' ') {
            return false;
        }
        i = i + 1;
    }
    true
}

fn validate_key(key: &str) -> (ok: bool)
    ensures
        ok == all_key_chars(key@),
{
    let chars = chars_of(key);
    let mut i: usize = 0;
    while i < chars.len()
        invariant
            i <= chars.len(),
            chars@ == key@,
            forall|j: int| 0 <= j < i ==> is_key_char(#[trigger] chars@[j]),
        decreases chars.len() - i,
    {
        let c = chars[i];
        if !(is_alphanumeric(c) || c == '.' || c == '_' || c == '-') {
            return false;
        }
        i = i + 1;
    }
    true
}

pub open spec fn invalid_key_message(key: Seq<char>) -> Seq<char> {
    "Invalid characters in key: "@ + quote_text() + key + quote_text()
}

pub open spec fn invalid_property_value_message(value: Seq<char>) -> Seq<char> {
    "Invalid characters in value: "@ + quote_text() + value + quote_text()
}

/// Checks a property write and prepares its zero-terminated key and value
/// for the property service: keys may hold letters, digits, `.`, `_` and
/// `-`; values what `validate_value` allows.
pub fn property_write_request(key: &str, value: &str) -> (r: Result<(Vec<u8>, Vec<u8>), QosError>)
    ensures
        !all_key_chars(key@) ==> (r matches Err(QosError::InvalidInput(m)) && m@ == invalid_key_message(key@)),
        all_key_chars(key@) && !all_value_chars(value@) ==> (r matches Err(QosError::InvalidInput(m))
            && m@ == invalid_property_value_message(value@)),
        all_key_chars(key@) && all_value_chars(value@) ==> (r matches Ok((k, v)) && k@
            == key.spec_bytes().push(0u8) && v@ == value.spec_bytes().push(0u8)),
{
    if !validate_key(key) {
        let mut m = String::from_str("Invalid characters in key: ");
        m.append(quote());
        m.append(key);
        m.append(quote());
        return Err(QosError::InvalidInput(m));
    }
    if !validate_value(value) {
        let mut m = String::from_str("Invalid characters in value: ");
        m.append(quote());
        m.append(value);
        m.append(quote());
        return Err(QosError::InvalidInput(m));
    }
    Ok((terminated(key.as_bytes()), terminated(value.as_bytes())))
}

/// `bytes` followed by a terminating zero. A key or value that passed the
/// character checks holds no NUL character, and UTF-8 writes a zero byte for
/// NUL alone, so the result is a well-formed C string.
fn terminated(bytes: &[u8]) -> (t: Vec<u8>)
    ensures
        t@ == bytes@.push(0u8),
{
    let mut t: Vec<u8> = Vec::new();
    let mut i: usize = 0;
    while i < bytes.len()
        invariant
            i <= bytes.len(),
            t@ == bytes@.subrange(0, i as int),
        decreases bytes.len() - i,
    {
        t.push(bytes[i]);
        i = i + 1;
        assert(t@ =~= bytes@.subrange(0, i as int));
    }
    assert(t@ =~= bytes@);
    t.push(0u8);
    t
}

} // verus!

verus! {

/// What `String::from_utf8_lossy` makes of `bytes`: their UTF-8 decoding,
/// with each invalid sequence replaced by U+FFFD.
pub uninterp spec fn utf8_lossy(bytes: Seq<u8>) -> Seq<char>;

/// Bytes that are all ASCII.
pub open spec fn all_ascii(bytes: Seq<u8>) -> bool {
    forall|i: int| 0 <= i < bytes.len() ==> #[trigger] bytes[i] < 128
}

/// Decodes bytes with `String::from_utf8_lossy`; ASCII decodes to itself,
/// as UTF-8 is a superset of ASCII. Of other bytes the contract names the
/// result only.
#[verifier::external_body]
fn decode_lossy(bytes: &[u8]) -> (s: String)
    ensures
        s@ == utf8_lossy(bytes@),
        all_ascii(bytes@) ==> s@ == bytes@.map_values(|b: u8| b as char),
{
    String::from_utf8_lossy(bytes).into_owned()
}

/// The bytes of a C string in `buffer`: up to the first zero byte, or all
/// of them when there is none.
pub open spec fn c_string_bytes(buffer: Seq<u8>) -> Seq<u8> {
    if first_zero(buffer, 0) == -1 {
        buffer
    } else {
        buffer.subrange(0, first_zero(buffer, 0))
    }
}

/// The value the property service wrote into `buffer`, given the length it
/// answered: empty on failure (a negative length), else the C string in the
/// buffer, decoded.
pub fn property_value(len: i32, buffer: &[u8]) -> (v: String)
    ensures
        len < 0 ==> v@ == Seq::<char>::empty(),
        len >= 0 ==> v@ == utf8_lossy(c_string_bytes(buffer@)),
{
    if len < 0 {
        return String::new();
    }
    let mut text: Vec<u8> = Vec::new();
    let mut i: usize = 0;
    proof {
        crate::bindings::cstr::lemma_first_zero(buffer@, 0);
    }
    while i < buffer.len() && buffer[i] != 0
        invariant
            i <= buffer.len(),
            text@ == buffer@.subrange(0, i as int),
            first_zero(buffer@, i as int) == first_zero(buffer@, 0),
        decreases buffer.len() - i,
    {
        text.push(buffer[i]);
        i = i + 1;
        assert(text@ =~= buffer@.subrange(0, i as int));
    }
    if i == buffer.len() {
        assert(text@ =~= buffer@);
    }
    decode_lossy(text.as_slice())
}

} // verus!
