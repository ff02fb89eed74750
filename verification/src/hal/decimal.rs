use vstd::prelude::*;

verus! {

/// The decimal digits of `n`, most significant first, with no leading zero
/// (zero itself is the single digit `0`), as ASCII bytes.
pub open spec fn decimal_digits(n: nat) -> Seq<u8>
    decreases n,
{
    if n < 10 {
        seq![(48 + n) as u8]
    } else {
        decimal_digits(n / 10).push((48 + n % 10) as u8)
    }
}

/// The decimal form of a signed integer: a `-` before the digits of its
/// magnitude when it is negative.
pub open spec fn signed_decimal(v: int) -> Seq<u8> {
    if v < 0 {
        seq![45u8] + decimal_digits((-v) as nat)
    } else {
        decimal_digits(v as nat)
    }
}

pub open spec fn pow10(k: nat) -> nat
    decreases k,
{
    if k == 0 { 1 } else { 10 * pow10((k - 1) as nat) }
}

/// A number below `10^k` has at most `k` digits.
pub proof fn lemma_decimal_digits_len(n: nat, k: nat)
    requires
        k >= 1,
        n < pow10(k),
    ensures
        1 <= decimal_digits(n).len() <= k,
    decreases n,
{
    if n >= 10 {
        assert(k >= 2) by {
            if k == 1 {
                assert(pow10(1) == 10 * pow10(0));
            }
        }
        let k1 = (k - 1) as nat;
        assert(pow10(k) == 10 * pow10(k1));
        assert(n / 10 < pow10(k1)) by (nonlinear_arith)
            requires
                n < 10 * pow10(k1),
        ;
        lemma_decimal_digits_len(n / 10, k1);
    }
}

/// Every `u64` has at most twenty decimal digits.
pub proof fn lemma_u64_digits_len(n: u64)
    ensures
        1 <= decimal_digits(n as nat).len() <= 20,
{
    reveal_with_fuel(pow10, 21);
    assert(pow10(20) == 100000000000000000000nat);
    lemma_decimal_digits_len(n as nat, 20);
}

/// Every `i32` has at most eleven characters in decimal, sign included.
pub proof fn lemma_i32_decimal_len(v: i32)
    ensures
        1 <= signed_decimal(v as int).len() <= 11,
{
    reveal_with_fuel(pow10, 11);
    assert(pow10(10) == 10000000000nat);
    if v < 0 {
        lemma_decimal_digits_len((-(v as int)) as nat, 10);
    } else {
        lemma_decimal_digits_len(v as nat, 10);
    }
}

/// Renders an unsigned integer in decimal with `itoa::Buffer::format`.
#[verifier::external_body]
pub(crate) fn format_u64(value: u64) -> (text: Vec<u8>)
    ensures
        text@ == decimal_digits(value as nat),
{
    let mut buffer = itoa::Buffer::new();
    buffer.format(value).as_bytes().to_vec()
}

/// Renders a signed integer in decimal with `itoa::Buffer::format`.
#[verifier::external_body]
pub(crate) fn format_i32(value: i32) -> (text: Vec<u8>)
    ensures
        text@ == signed_decimal(value as int),
{
    let mut buffer = itoa::Buffer::new();
    buffer.format(value).as_bytes().to_vec()
}

} // verus!

verus! {

/// The decimal digits of `n` as text.
pub open spec fn decimal_chars(n: nat) -> Seq<char> {
    decimal_digits(n).map_values(|b: u8| b as char)
}

pub proof fn lemma_decimal_digits_are_digits(n: nat)
    ensures
        forall|i: int| 0 <= i < decimal_digits(n).len() ==> 48 <= #[trigger] decimal_digits(n)[i] <= 57,
    decreases n,
{
    if n >= 10 {
        lemma_decimal_digits_are_digits(n / 10);
        let p = decimal_digits(n / 10);
        assert(decimal_digits(n) == p.push((48 + n % 10) as u8));
        assert forall|i: int| 0 <= i < decimal_digits(n).len() implies 48 <= #[trigger] decimal_digits(n)[i] <= 57 by {
            if i < p.len() {
                assert(decimal_digits(n)[i] == p[i]);
            }
        }
    }
}

/// A one-character text for an ASCII digit.
fn digit_text(d: u8) -> (t: &'static str)
    requires
        48 <= d <= 57,
    ensures
        t@ == seq![d as char],
{
    proof {
        reveal_strlit("0");
        reveal_strlit("1");
        reveal_strlit("2");
        reveal_strlit("3");
        reveal_strlit("4");
        reveal_strlit("5");
        reveal_strlit("6");
        reveal_strlit("7");
        reveal_strlit("8");
        reveal_strlit("9");
    }
    let t = if d == 48 {
        "0"
    } else if d == 49 {
        "1"
    } else if d == 50 {
        "2"
    } else if d == 51 {
        "3"
    } else if d == 52 {
        "4"
    } else if d == 53 {
        "5"
    } else if d == 54 {
        "6"
    } else if d == 55 {
        "7"
    } else if d == 56 {
        "8"
    } else {
        "9"
    };
    assert(t@ =~= seq![d as char]);
    t
}

/// Appends the decimal form of `value` to `text`.
pub fn append_decimal(text: &mut String, value: u64)
    ensures
        final(text)@ == old(text)@ + decimal_chars(value as nat),
{
    let digits = format_u64(value);
    proof {
        lemma_decimal_digits_are_digits(value as nat);
    }
    let mut i: usize = 0;
    while i < digits.len()
        invariant
            i <= digits.len(),
            digits@ == decimal_digits(value as nat),
            forall|j: int| 0 <= j < digits.len() ==> 48 <= #[trigger] digits@[j] <= 57,
            text@ == old(text)@ + digits@.subrange(0, i as int).map_values(|b: u8| b as char),
        decreases digits.len() - i,
    {
        let t = digit_text(digits[i]);
        text.append(t);
        i = i + 1;
        assert(digits@.subrange(0, i as int).map_values(|b: u8| b as char) =~= digits@.subrange(
            0,
            i - 1,
        ).map_values(|b: u8| b as char).push(digits@[i - 1] as char));
    }
    assert(digits@.subrange(0, digits.len() as int) =~= digits@);
}

} // verus!
