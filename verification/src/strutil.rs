//! Small verified string-building helpers: appending single characters and
//! decimal renderings of integers.

use vstd::prelude::*;

verus! {

/// Relies on `String::push`: appends the given character to the end of the
/// string.
#[verifier::external_body]
pub fn push_char(s: &mut String, c: char)
    ensures
        final(s)@ == old(s)@ + seq![c],
{
    s.push(c);
}

/// The character for a decimal digit value.
pub open spec fn spec_digit_char(d: int) -> char {
    ((0x30 + d) as u8) as char
}

/// The character for a hex digit value, lowercase.
pub open spec fn spec_hex_char(d: int) -> char {
    if d < 10 {
        spec_digit_char(d)
    } else {
        ((0x57 + d) as u8) as char
    }
}

/// Decimal digits of a non-negative integer, most significant first, no
/// leading zeros (a lone zero for 0).
pub open spec fn spec_dec_digits(n: int) -> Seq<char>
    decreases n,
{
    if n < 10 {
        seq![spec_digit_char(n)]
    } else {
        spec_dec_digits(n / 10) + seq![spec_digit_char(n % 10)]
    }
}

/// Exactly three decimal digits of a value below 1000, zero-padded.
pub open spec fn spec_frac3(m: int) -> Seq<char> {
    seq![spec_digit_char(m / 100 % 10), spec_digit_char(m / 10 % 10), spec_digit_char(m % 10)]
}

/// The character for a decimal digit value.
pub fn digit_char(d: u8) -> (c: char)
    requires
        d < 10,
    ensures
        c == spec_digit_char(d as int),
{
    (0x30 + d) as char
}

/// The character for a hex digit value, lowercase.
pub fn hex_char(d: u8) -> (c: char)
    requires
        d < 16,
    ensures
        c == spec_hex_char(d as int),
{
    if d < 10 {
        (0x30 + d) as char
    } else {
        (0x57 + d) as char
    }
}

/// Appends the decimal rendering of `n`.
pub fn push_u64_dec(out: &mut String, n: u64)
    ensures
        final(out)@ == old(out)@ + spec_dec_digits(n as int),
    decreases n,
{
    if n < 10 {
        push_char(out, digit_char(n as u8));
    } else {
        push_u64_dec(out, n / 10);
        push_char(out, digit_char((n % 10) as u8));
        proof {
            assert(out@ =~= old(out)@ + spec_dec_digits(n as int));
        }
    }
}

/// Appends exactly three decimal digits of a value below 1000, zero-padded.
pub fn push_frac3(out: &mut String, m: u64)
    requires
        m < 1000,
    ensures
        final(out)@ == old(out)@ + spec_frac3(m as int),
{
    push_char(out, digit_char((m / 100 % 10) as u8));
    push_char(out, digit_char((m / 10 % 10) as u8));
    push_char(out, digit_char((m % 10) as u8));
    proof {
        assert(out@ =~= old(out)@ + spec_frac3(m as int));
    }
}

} // verus!
