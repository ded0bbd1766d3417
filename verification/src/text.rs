use vstd::prelude::*;
use crate::unicode::string_from_chars;

verus! {

/// The decimal digits of a number, most significant first.
pub open spec fn decimal_string(n: nat) -> Seq<char>
    decreases n,
{
    if n < 10 {
        seq![(('0' as nat) + n) as char]
    } else {
        decimal_string(n / 10).push((('0' as nat) + n % 10) as char)
    }
}

/// The lower-case hexadecimal digit of a value below 16.
pub open spec fn hex_digit(d: nat) -> char {
    if d < 10 {
        (('0' as nat) + d) as char
    } else {
        (('a' as nat) + (d - 10)) as char
    }
}

/// The lower-case hexadecimal digits of a number, most significant first.
pub open spec fn hex_string(n: nat) -> Seq<char>
    decreases n,
{
    if n < 16 {
        seq![hex_digit(n)]
    } else {
        hex_string(n / 16).push(hex_digit(n % 16))
    }
}

/// The lower-case hexadecimal digit of a value below 16, which for values below 10 is the
/// decimal digit.
fn digit_char(d: u8) -> (c: char)
    requires
        d < 16,
    ensures
        c == hex_digit(d as nat),
{
    if d < 10 {
        (48u8 + d) as char
    } else {
        (97u8 + (d - 10)) as char
    }
}

/// Appends the decimal digits of `v`.
fn push_decimal(digits: &mut Vec<char>, v: u64)
    ensures
        final(digits)@ == old(digits)@ + decimal_string(v as nat),
    decreases v,
{
    if v >= 10 {
        push_decimal(digits, v / 10);
    }
    let c = digit_char((v % 10) as u8);
    digits.push(c);
    proof {
        assert(hex_digit((v % 10) as nat) == (('0' as nat) + (v % 10) as nat) as char);
        if v >= 10 {
            assert(old(digits)@ + decimal_string(v as nat) =~= old(digits)@ + decimal_string(
                (v / 10) as nat,
            ) + seq![c]);
        } else {
            assert(old(digits)@ + decimal_string(v as nat) =~= old(digits)@ + seq![c]);
        }
    }
}

/// Appends the lower-case hexadecimal digits of `v`.
fn push_hex(digits: &mut Vec<char>, v: u32)
    ensures
        final(digits)@ == old(digits)@ + hex_string(v as nat),
    decreases v,
{
    if v >= 16 {
        push_hex(digits, v / 16);
    }
    let c = digit_char((v % 16) as u8);
    digits.push(c);
    proof {
        if v >= 16 {
            assert(old(digits)@ + hex_string(v as nat) =~= old(digits)@ + hex_string(
                (v / 16) as nat,
            ) + seq![c]);
        } else {
            assert(old(digits)@ + hex_string(v as nat) =~= old(digits)@ + seq![c]);
        }
    }
}

/// The decimal digits of `v`, as `Display` writes a `u64`.
pub(crate) fn u64_to_decimal(v: u64) -> (r: String)
    ensures
        r@ == decimal_string(v as nat),
{
    let mut digits: Vec<char> = Vec::new();
    push_decimal(&mut digits, v);
    proof {
        assert(digits@ =~= decimal_string(v as nat));
    }
    string_from_chars(&digits)
}

/// The lower-case hexadecimal digits of `v` without prefix, as `LowerHex` writes a `u32`.
pub(crate) fn u32_to_lower_hex(v: u32) -> (r: String)
    ensures
        r@ == hex_string(v as nat),
{
    let mut digits: Vec<char> = Vec::new();
    push_hex(&mut digits, v);
    proof {
        assert(digits@ =~= hex_string(v as nat));
    }
    string_from_chars(&digits)
}

} // verus!
