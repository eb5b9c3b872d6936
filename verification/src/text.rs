//! Rendering of integers as text: decimal numbers for messages and
//! fixed-width upper-case hexadecimal for model codes.
use vstd::prelude::*;

verus! {

/// The digit alphabet shared by decimal and hexadecimal rendering.
pub open spec fn digit_char(d: int) -> char {
    "0123456789ABCDEF"@[d]
}

/// Decimal digits of a natural number, most significant first, no padding.
pub open spec fn decimal_digits(n: nat) -> Seq<char>
    decreases n,
{
    if n < 10 {
        seq![digit_char(n as int)]
    } else {
        decimal_digits(n / 10) + seq![digit_char((n % 10) as int)]
    }
}

/// Decimal rendering of an integer, with a leading `-` for negative values.
pub open spec fn decimal_text(i: int) -> Seq<char> {
    if i < 0 {
        "-"@ + decimal_digits((-i) as nat)
    } else {
        decimal_digits(i as nat)
    }
}

/// Four upper-case hexadecimal digits of a 16-bit value, zero-padded.
pub open spec fn hex4_text(v: u16) -> Seq<char> {
    seq![
        digit_char((v / 4096) as int),
        digit_char(((v / 256) % 16) as int),
        digit_char(((v / 16) % 16) as int),
        digit_char((v % 16) as int),
    ]
}

/// One digit of the alphabet as a string.
fn digit_string(d: u64) -> (s: String)
    requires
        d < 16,
    ensures
        s@ == seq![digit_char(d as int)],
{
    let alphabet = "0123456789ABCDEF";
    proof {
        reveal_strlit("0123456789ABCDEF");
    }
    let piece = alphabet.substring_char(d as usize, d as usize + 1);
    assert(piece@ =~= seq![digit_char(d as int)]);
    String::from_str(piece)
}

/// Decimal digits of `n`.
pub fn natural_decimal(n: u64) -> (s: String)
    ensures
        s@ == decimal_digits(n as nat),
    decreases n,
{
    if n < 10 {
        digit_string(n)
    } else {
        let mut s = natural_decimal(n / 10);
        let last = digit_string(n % 10);
        s.append(last.as_str());
        s
    }
}

/// Decimal rendering of a signed integer, as `{}` prints it.
pub fn integer_decimal(i: i64) -> (s: String)
    ensures
        s@ == decimal_text(i as int),
{
    if i < 0 {
        let magnitude: u64 = ((-(i + 1)) as u64) + 1;
        let digits = natural_decimal(magnitude);
        let mut s = String::from_str("-");
        s.append(digits.as_str());
        s
    } else {
        natural_decimal(i as u64)
    }
}

/// Four-digit upper-case hexadecimal rendering, as `{:04X}` prints a `u16`.
pub fn hex4(v: u16) -> (s: String)
    ensures
        s@ == hex4_text(v),
{
    let mut s = digit_string((v / 4096) as u64);
    let d1 = digit_string(((v / 256) % 16) as u64);
    let d2 = digit_string(((v / 16) % 16) as u64);
    let d3 = digit_string((v % 16) as u64);
    s.append(d1.as_str());
    s.append(d2.as_str());
    s.append(d3.as_str());
    assert(s@ =~= hex4_text(v));
    s
}

} // verus!
