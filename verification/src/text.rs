//! Decimal and hexadecimal text of integers.
use crate::arm7tdmi::instructions::alu::signed32;
use vstd::prelude::*;
use vstd::string::StringExecFns;

verus! {

/// The character of a digit value below 16 (`0`-`9`, then `A`-`F`).
pub open spec fn digit_char(d: nat) -> char {
    if d < 10 {
        (48 + d) as char
    } else {
        (55 + d) as char
    }
}

/// Decimal digits of a value, without leading zeros.
pub open spec fn decimal_digits(n: nat) -> Seq<char>
    decreases n,
{
    if n < 10 {
        seq![digit_char(n)]
    } else {
        decimal_digits(n / 10).push(digit_char(n % 10))
    }
}

/// Upper-case hexadecimal digits of a value, without leading zeros.
pub open spec fn hex_digits(n: nat) -> Seq<char>
    decreases n,
{
    if n < 16 {
        seq![digit_char(n)]
    } else {
        hex_digits(n / 16).push(digit_char(n % 16))
    }
}

/// Decimal text of an integer, with a leading `-` when negative.
pub open spec fn signed_decimal(n: int) -> Seq<char> {
    if n < 0 {
        seq!['-'] + decimal_digits((-n) as nat)
    } else {
        decimal_digits(n as nat)
    }
}

/// Appends the character of one digit value below 16.
fn push_digit(out: &mut String, d: u64)
    requires
        d < 16,
    ensures
        final(out)@ == old(out)@.push(digit_char(d as nat)),
{
    proof {
        reveal_strlit("0");
        reveal_strlit("1");
        reveal_strlit("2");
        reveal_strlit("3");
        reveal_strlit("4");
        reveal_strlit("5");
        reveal_strlit("6");
        reveal_strlit("7");
        reveal_strlit("8");
        reveal_strlit("9");
        reveal_strlit("A");
        reveal_strlit("B");
        reveal_strlit("C");
        reveal_strlit("D");
        reveal_strlit("E");
        reveal_strlit("F");
    }
    match d {
        0 => out.append("0"),
        1 => out.append("1"),
        2 => out.append("2"),
        3 => out.append("3"),
        4 => out.append("4"),
        5 => out.append("5"),
        6 => out.append("6"),
        7 => out.append("7"),
        8 => out.append("8"),
        9 => out.append("9"),
        10 => out.append("A"),
        11 => out.append("B"),
        12 => out.append("C"),
        13 => out.append("D"),
        14 => out.append("E"),
        _ => out.append("F"),
    }
}

/// Appends the decimal digits of a value.
pub(crate) fn push_decimal_u64(out: &mut String, n: u64)
    ensures
        final(out)@ == old(out)@ + decimal_digits(n as nat),
    decreases n,
{
    let ghost start = out@;
    if n >= 10 {
        push_decimal_u64(out, n / 10);
    }
    push_digit(out, n % 10);
    proof {
        if n < 10 {
            assert(out@ =~= start + decimal_digits(n as nat));
        } else {
            assert(out@ =~= start + decimal_digits(n as nat));
        }
    }
}

/// Appends the upper-case hexadecimal digits of a value.
fn push_hex_u64(out: &mut String, n: u64)
    ensures
        final(out)@ == old(out)@ + hex_digits(n as nat),
    decreases n,
{
    let ghost start = out@;
    if n >= 16 {
        push_hex_u64(out, n / 16);
    }
    push_digit(out, n % 16);
    proof {
        assert(out@ =~= start + hex_digits(n as nat));
    }
}

/// Decimal text of an unsigned value.
pub(crate) fn decimal_string(value: u32) -> (r: String)
    ensures
        r@ == decimal_digits(value as nat),
{
    let mut r = String::new();
    push_decimal_u64(&mut r, value as u64);
    proof {
        assert(r@ =~= decimal_digits(value as nat));
    }
    r
}

/// Upper-case hexadecimal text of an unsigned value.
pub(crate) fn hex_string(value: u32) -> (r: String)
    ensures
        r@ == hex_digits(value as nat),
{
    let mut r = String::new();
    push_hex_u64(&mut r, value as u64);
    proof {
        assert(r@ =~= hex_digits(value as nat));
    }
    r
}

pub(crate) fn push_decimal(out: &mut String, n: u32)
    ensures
        final(out)@ == old(out)@ + decimal_digits(n as nat),
{
    push_decimal_u64(out, n as u64);
}

pub(crate) fn push_hex(out: &mut String, n: u32)
    ensures
        final(out)@ == old(out)@ + hex_digits(n as nat),
{
    push_hex_u64(out, n as u64);
}

/// Appends the decimal text of a 32-bit two's complement value read as signed.
pub(crate) fn push_signed(out: &mut String, n: u32)
    ensures
        final(out)@ == old(out)@ + signed_decimal(signed32(n)),
{
    let ghost start = out@;
    if n >= 0x8000_0000 {
        proof {
            reveal_strlit("-");
        }
        out.append("-");
        push_decimal_u64(out, 0x1_0000_0000u64 - n as u64);
        proof {
            assert(out@ =~= start + signed_decimal(signed32(n)));
        }
    } else {
        push_decimal_u64(out, n as u64);
    }
}


} // verus!
