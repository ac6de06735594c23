//! Sony SPC700 (SNES audio CPU): the program status word and the results that the arithmetic,
//! shift and bit instructions compute from register and memory values.
use vstd::prelude::*;

verus! {

/// The flags of the program status word that instructions read and write.
#[derive(Debug, Clone, Copy, PartialEq, Eq, Structural)]
pub struct StatusRegister {
    pub negative: bool,
    pub overflow: bool,
    pub direct_page: bool,
    pub half_carry: bool,
    pub interrupt_enabled: bool,
    pub zero: bool,
    pub carry: bool,
}

/// A byte read as a two's complement value.
pub open spec fn signed8(v: int) -> int {
    if v >= 0x80 {
        v - 0x100
    } else {
        v
    }
}

/// A word read as a two's complement value.
pub open spec fn signed16(v: int) -> int {
    if v >= 0x8000 {
        v - 0x10000
    } else {
        v
    }
}

pub open spec fn bit_value(flag: bool) -> int {
    if flag {
        1
    } else {
        0
    }
}

/// Z and N set from a byte result, the other flags as they were.
pub open spec fn with_nz(psw: StatusRegister, result: u8) -> StatusRegister {
    StatusRegister { zero: result == 0, negative: result >= 0x80, ..psw }
}

/// Z and N set from a word result.
pub open spec fn with_nz16(psw: StatusRegister, result: u16) -> StatusRegister {
    StatusRegister { zero: result == 0, negative: result >= 0x8000, ..psw }
}

fn set_nz(psw: &mut StatusRegister, result: u8)
    ensures
        *final(psw) == with_nz(*old(psw), result),
{
    psw.zero = result == 0;
    psw.negative = result >= 0x80;
}

/// ADC: the sum of the operands and the carry modulo 256; C is the unsigned carry out, H the
/// carry out of the low nibble, V the signed overflow; Z and N from the sum.
pub open spec fn adc_spec(operand_l: u8, operand_r: u8, psw: StatusRegister) -> (u8, StatusRegister) {
    let c = bit_value(psw.carry);
    let sum = operand_l + operand_r + c;
    let result = (sum % 0x100) as u8;
    (
        result,
        StatusRegister {
            zero: result == 0,
            negative: result >= 0x80,
            carry: sum > 0xFF,
            half_carry: operand_l % 0x10 + operand_r % 0x10 + c >= 0x10,
            overflow: !(-0x80 <= signed8(operand_l as int) + signed8(operand_r as int) + c <= 0x7F),
            ..psw
        },
    )
}

pub fn adc(operand_l: u8, operand_r: u8, psw: &mut StatusRegister) -> (r: u8)
    ensures
        (r, *final(psw)) == adc_spec(operand_l, operand_r, *old(psw)),
{
    let existing_carry: u8 = if psw.carry {
        1
    } else {
        0
    };

    proof {
        lemma_add_flags(operand_l as int, operand_r as int, existing_carry as int);
    }
    let full_sum: u16 = operand_l as u16 + operand_r as u16 + existing_carry as u16;
    let sum = (full_sum % 0x100) as u8;
    let carry = full_sum > 0xFF;

    let bit_6_carry = (operand_l % 0x80) + (operand_r % 0x80) + existing_carry >= 0x80;
    let overflow = bit_6_carry != carry;

    let half_carry = (operand_l % 0x10) + (operand_r % 0x10) + existing_carry >= 0x10;

    psw.zero = sum == 0;
    psw.negative = sum >= 0x80;
    psw.carry = carry;
    psw.half_carry = half_carry;
    psw.overflow = overflow;

    sum
}

proof fn lemma_add_flags(l: int, r: int, c: int)
    requires
        0 <= l < 0x100,
        0 <= r < 0x100,
        0 <= c <= 1,
    ensures
        ((l % 0x80 + r % 0x80 + c >= 0x80) != (l + r + c > 0xFF)) == !(-0x80 <= signed8(l)
            + signed8(r) + c <= 0x7F),
{
}

proof fn lemma_subtract_flags(l: int, r: int, b: int)
    requires
        0 <= l < 0x100,
        0 <= r < 0x100,
        0 <= b <= 1,
    ensures
        ((l % 0x80 < r % 0x80 + b) != (l < r + b)) == !(-0x80 <= signed8(l) - signed8(r) - b
            <= 0x7F),
        (l + 0x100 - r - b) % 0x100 == (l - r - b) % 0x100,
{
}

/// SBC: the difference of the operands less the borrow (the complement of C) modulo 256; C is
/// set when no borrow occurs, H when the low nibble needs none, V on signed overflow; Z and N
/// from the difference.
pub open spec fn sbc_spec(operand_l: u8, operand_r: u8, psw: StatusRegister) -> (u8, StatusRegister) {
    let b = 1 - bit_value(psw.carry);
    let difference = operand_l - operand_r - b;
    let result = (difference % 0x100) as u8;
    (
        result,
        StatusRegister {
            zero: result == 0,
            negative: result >= 0x80,
            carry: difference >= 0,
            half_carry: operand_l % 0x10 - operand_r % 0x10 - b >= 0,
            overflow: !(-0x80 <= signed8(operand_l as int) - signed8(operand_r as int) - b <= 0x7F),
            ..psw
        },
    )
}

pub fn sbc(operand_l: u8, operand_r: u8, psw: &mut StatusRegister) -> (r: u8)
    ensures
        (r, *final(psw)) == sbc_spec(operand_l, operand_r, *old(psw)),
{
    let existing_borrow: u8 = if psw.carry {
        0
    } else {
        1
    };

    proof {
        lemma_subtract_flags(operand_l as int, operand_r as int, existing_borrow as int);
    }
    let wrapped: u16 = operand_l as u16 + 0x100 - operand_r as u16 - existing_borrow as u16;
    let difference = (wrapped % 0x100) as u8;
    let borrow = (operand_l as u16) < operand_r as u16 + existing_borrow as u16;

    let bit_6_borrow = operand_l % 0x80 < (operand_r % 0x80) + existing_borrow;
    let overflow = bit_6_borrow != borrow;

    let half_borrow = operand_l % 0x10 < (operand_r % 0x10) + existing_borrow;

    psw.zero = difference == 0;
    psw.negative = difference >= 0x80;
    psw.carry = !borrow;
    psw.half_carry = !half_borrow;
    psw.overflow = overflow;

    difference
}

/// CMP: Z, N and C as the subtraction of the operands sets them (C: no borrow).
pub fn cmp(operand_l: u8, operand_r: u8, psw: &mut StatusRegister)
    ensures
        *final(psw) == (StatusRegister {
            zero: operand_l == operand_r,
            negative: (operand_l - operand_r) % 0x100 >= 0x80,
            carry: operand_l >= operand_r,
            ..*old(psw)
        }),
{
    let difference = operand_l.wrapping_sub(operand_r);
    psw.zero = difference == 0;
    psw.negative = difference >= 0x80;
    psw.carry = operand_l >= operand_r;
}

/// ADDW: YA plus a word, modulo 2^16; C is the carry out, H the carry out of bit 11, V the signed
/// overflow. There is no carry in.
pub fn addw(ya: u16, operand: u16, psw: &mut StatusRegister) -> (r: u16)
    ensures
        ({
            let sum = ya + operand;
            &&& r == sum % 0x10000
            &&& *final(psw) == (StatusRegister {
                zero: r == 0,
                negative: r >= 0x8000,
                carry: sum > 0xFFFF,
                half_carry: ya % 0x1000 + operand % 0x1000 >= 0x1000,
                overflow: !(-0x8000 <= signed16(ya as int) + signed16(operand as int) <= 0x7FFF),
                ..*old(psw)
            })
        }),
{
    let full_sum: u32 = ya as u32 + operand as u32;
    let sum = (full_sum % 0x10000) as u16;
    let carry = full_sum > 0xFFFF;

    let bit_14_carry = (ya % 0x8000) + (operand % 0x8000) >= 0x8000;
    let overflow = bit_14_carry != carry;

    let half_carry = (ya % 0x1000) + (operand % 0x1000) >= 0x1000;

    psw.zero = sum == 0;
    psw.negative = sum >= 0x8000;
    psw.carry = carry;
    psw.half_carry = half_carry;
    psw.overflow = overflow;
    sum
}

/// SUBW: YA less a word, modulo 2^16; C is set when no borrow occurs, H when bits 11-0 need
/// none, V on signed overflow. There is no borrow in.
pub fn subw(ya: u16, operand: u16, psw: &mut StatusRegister) -> (r: u16)
    ensures
        ({
            let difference = ya - operand;
            &&& r == difference % 0x10000
            &&& *final(psw) == (StatusRegister {
                zero: r == 0,
                negative: r >= 0x8000,
                carry: difference >= 0,
                half_carry: ya % 0x1000 >= operand % 0x1000,
                overflow: !(-0x8000 <= signed16(ya as int) - signed16(operand as int) <= 0x7FFF),
                ..*old(psw)
            })
        }),
{
    let difference = ya.wrapping_sub(operand);
    let borrow = ya < operand;

    let bit_14_borrow = ya % 0x8000 < operand % 0x8000;
    let overflow = bit_14_borrow != borrow;

    let half_borrow = ya % 0x1000 < operand % 0x1000;

    psw.zero = difference == 0;
    psw.negative = difference >= 0x8000;
    psw.carry = !borrow;
    psw.half_carry = !half_borrow;
    psw.overflow = overflow;
    difference
}

/// CMPW: Z, N and C as the subtraction of a word from YA sets them.
pub fn cmpw(ya: u16, operand: u16, psw: &mut StatusRegister)
    ensures
        *final(psw) == (StatusRegister {
            zero: ya == operand,
            negative: (ya - operand) % 0x10000 >= 0x8000,
            carry: ya >= operand,
            ..*old(psw)
        }),
{
    let difference = ya.wrapping_sub(operand);
    psw.zero = difference == 0;
    psw.negative = difference >= 0x8000;
    psw.carry = ya >= operand;
}

/// MUL: YA becomes Y times A; Z and N are set from the high byte (Y) only.
pub fn mul(y: u8, a: u8, psw: &mut StatusRegister) -> (r: u16)
    ensures
        r == y * a,
        *final(psw) == with_nz(*old(psw), (r / 0x100) as u8),
{
    proof {
        assert(y * a <= 0xFE01) by (nonlinear_arith)
            requires
                y <= 0xFF,
                a <= 0xFF,
        ;
    }
    let result = y as u16 * a as u16;
    let high = (result / 0x100) as u8;
    set_nz(psw, high);
    result
}

/// The (A, Y) that DIV leaves for YA divided by X. When Y < 2X, A is the quotient modulo 256
/// and Y the remainder; otherwise (divide by zero among them) the hardware's overflow results
/// A = 255 - (YA - 512X) / (256 - X) and Y = X + (YA - 512X) mod (256 - X).
pub open spec fn div_result(y: u8, a: u8, x: u8) -> (int, int) {
    let ya = y * 0x100 + a;
    if y < 2 * x {
        ((ya / x as int) % 0x100, ya % x as int)
    } else {
        (255 - (ya - 0x200 * x) / (0x100 - x), x + (ya - 0x200 * x) % (0x100 - x))
    }
}

/// DIV: YA divided by X, giving (A, Y) (see `div_result`). V is set when Y >= X, H when the low
/// nibble of Y is at least that of X; Z and N come from A.
pub fn div(y: u8, a: u8, x: u8, psw: &mut StatusRegister) -> (r: (u8, u8))
    ensures
        r.0 == div_result(y, a, x).0,
        r.1 == div_result(y, a, x).1,
        *final(psw) == (StatusRegister {
            overflow: y >= x,
            half_carry: y % 0x10 >= x % 0x10,
            zero: r.0 == 0,
            negative: r.0 >= 0x80,
            ..*old(psw)
        }),
{
    psw.overflow = y >= x;
    psw.half_carry = y % 0x10 >= x % 0x10;

    let x16: u16 = x as u16;
    let y16: u16 = y as u16;
    let ya: u16 = y16 * 0x100 + a as u16;
    let result = if y16 < 2 * x16 {
        // Normal division
        let quotient = ya / x16;
        let remainder = ya % x16;
        proof {
            assert(remainder < x16);
        }
        ((quotient % 0x100) as u8, remainder as u8)
    } else {
        // Overflow (including divide by zero)
        proof {
            assert(0x200 * x16 <= ya) by (nonlinear_arith)
                requires
                    y16 >= 2 * x16,
                    ya == y16 * 0x100 + a,
            ;
            assert((ya - 0x200 * x16) / (0x100 - x16) <= 0xFF) by (nonlinear_arith)
                requires
                    x16 <= 0xFF,
                    0x200 * x16 <= ya <= 0xFFFF,
            {
                let d = 0x100 - x16;
                let n = ya - 0x200 * x16;
                assert(n < 0x100 * d);
            }
        }
        let excess = ya - x16 * 0x200;
        let divisor = 0x100 - x16;
        let quotient = excess / divisor;
        let remainder = excess % divisor;
        ((0xFF - quotient) as u8, (x16 + remainder) as u8)
    };

    set_nz(psw, result.0);
    result
}

/// DAA's first step: A plus 0x60 when C is set or A > 0x99.
pub open spec fn daa_high(a: u8, carry: bool) -> u8 {
    if carry || a > 0x99 {
        ((a + 0x60) % 0x100) as u8
    } else {
        a
    }
}

/// DAA: decimal adjust after addition: add 0x60 (setting C) when C is set or A > 0x99, then add
/// 6 when H is set or the low nibble of the adjusted value exceeds 9; Z and N from the result.
pub open spec fn daa_value(a: u8, carry: bool, half_carry: bool) -> u8 {
    if half_carry || daa_high(a, carry) % 0x10 > 9 {
        ((daa_high(a, carry) + 6) % 0x100) as u8
    } else {
        daa_high(a, carry)
    }
}

pub open spec fn daa_spec(a: u8, carry: bool, half_carry: bool) -> (u8, bool) {
    (daa_value(a, carry, half_carry), carry || a > 0x99)
}

pub fn daa(a: u8, psw: &mut StatusRegister) -> (r: u8)
    ensures
        r == daa_spec(a, old(psw).carry, old(psw).half_carry).0,
        *final(psw) == with_nz(
            (StatusRegister { carry: daa_spec(a, old(psw).carry, old(psw).half_carry).1, ..*old(psw) }),
            r,
        ),
{
    let mut a = a;
    if psw.carry || a > 0x99 {
        psw.carry = true;
        a = a.wrapping_add(0x60);
    }

    if psw.half_carry || (a % 0x10) > 0x09 {
        a = a.wrapping_add(0x06);
    }

    set_nz(psw, a);
    a
}

/// DAS's first step: A minus 0x60 when C is clear or A > 0x99.
pub open spec fn das_high(a: u8, carry: bool) -> u8 {
    if !carry || a > 0x99 {
        ((a + 0x100 - 0x60) % 0x100) as u8
    } else {
        a
    }
}

/// DAS: decimal adjust after subtraction: subtract 0x60 (clearing C) when C is clear or
/// A > 0x99, then subtract 6 when H is clear or the low nibble of the adjusted value exceeds 9.
pub open spec fn das_value(a: u8, carry: bool, half_carry: bool) -> u8 {
    if !half_carry || das_high(a, carry) % 0x10 > 9 {
        ((das_high(a, carry) + 0x100 - 6) % 0x100) as u8
    } else {
        das_high(a, carry)
    }
}

pub open spec fn das_spec(a: u8, carry: bool, half_carry: bool) -> (u8, bool) {
    (das_value(a, carry, half_carry), carry && a <= 0x99)
}

pub fn das(a: u8, psw: &mut StatusRegister) -> (r: u8)
    ensures
        r == das_spec(a, old(psw).carry, old(psw).half_carry).0,
        *final(psw) == with_nz(
            (StatusRegister { carry: das_spec(a, old(psw).carry, old(psw).half_carry).1, ..*old(psw) }),
            r,
        ),
{
    let mut a = a;
    if !psw.carry || a > 0x99 {
        psw.carry = false;
        a = a.wrapping_sub(0x60);
    }

    if !psw.half_carry || (a % 0x10) > 0x09 {
        a = a.wrapping_sub(0x06);
    }

    set_nz(psw, a);
    a
}

/// XCN: exchange the nibbles of A; Z and N from the result.
pub fn xcn(a: u8, psw: &mut StatusRegister) -> (r: u8)
    ensures
        r == (a % 0x10) * 0x10 + a / 0x10,
        *final(psw) == with_nz(*old(psw), r),
{
    let result = (a % 0x10) * 0x10 + a / 0x10;
    set_nz(psw, result);
    result
}

/// ASL: shift left; C gets bit 7.
pub fn asl(value: u8, psw: &mut StatusRegister) -> (r: u8)
    ensures
        r == (value * 2) % 0x100,
        *final(psw) == with_nz((StatusRegister { carry: value >= 0x80, ..*old(psw) }), r),
{
    psw.carry = value >= 0x80;
    let result = ((value as u16 * 2) % 0x100) as u8;
    set_nz(psw, result);
    result
}

/// LSR: shift right; C gets bit 0.
pub fn lsr(value: u8, psw: &mut StatusRegister) -> (r: u8)
    ensures
        r == value / 2,
        *final(psw) == with_nz((StatusRegister { carry: value % 2 == 1, ..*old(psw) }), r),
{
    psw.carry = value % 2 == 1;
    let result = value / 2;
    set_nz(psw, result);
    result
}

/// The byte ROL leaves: the value doubled modulo 256, with the incoming carry in bit 0.
pub open spec fn rol_value(value: u8, carry: bool) -> int {
    (value * 2) % 0x100 + bit_value(carry)
}

/// The byte ROR leaves: the value halved, with the incoming carry in bit 7.
pub open spec fn ror_value(value: u8, carry: bool) -> int {
    value / 2 + 0x80 * bit_value(carry)
}

/// Rotating through the carry left then right, or right then left, gives back the byte (the
/// carry out of the first rotation being the carry into the second), and the carry comes back
/// too; ASL and LSR double and halve.
pub proof fn lemma_rotate_round_trip(value: u8, carry: bool)
    ensures
        0 <= rol_value(value, carry) < 256,
        0 <= ror_value(value, carry) < 256,
        ror_value(rol_value(value, carry) as u8, value >= 0x80) == value,
        (rol_value(value, carry) as u8) % 2 == bit_value(carry),
        rol_value(ror_value(value, carry) as u8, value % 2 == 1) == value,
        ((ror_value(value, carry) as u8) >= 0x80) == carry,
{
}

/// ROL: rotate left through C.
pub fn rol(value: u8, psw: &mut StatusRegister) -> (r: u8)
    ensures
        r == (value * 2) % 0x100 + bit_value(old(psw).carry),
        r == rol_value(value, old(psw).carry),
        *final(psw) == (StatusRegister {
            zero: r == 0,
            negative: r >= 0x80,
            carry: value >= 0x80,
            ..*old(psw)
        }),
{
    let carry_in: u16 = if psw.carry {
        1
    } else {
        0
    };
    let result = ((value as u16 * 2) % 0x100 + carry_in) as u8;
    psw.zero = result == 0;
    psw.negative = result >= 0x80;
    psw.carry = value >= 0x80;
    result
}

/// ROR: rotate right through C.
pub fn ror(value: u8, psw: &mut StatusRegister) -> (r: u8)
    ensures
        r == value / 2 + 0x80 * bit_value(old(psw).carry),
        r == ror_value(value, old(psw).carry),
        *final(psw) == (StatusRegister {
            zero: r == 0,
            negative: r >= 0x80,
            carry: value % 2 == 1,
            ..*old(psw)
        }),
{
    let carry_in: u8 = if psw.carry {
        0x80
    } else {
        0
    };
    let result = value / 2 + carry_in;
    psw.zero = result == 0;
    psw.negative = result >= 0x80;
    psw.carry = value % 2 == 1;
    result
}

/// Bit `i` of a byte.
pub open spec fn bit8(value: u8, i: u8) -> bool {
    (value >> i) & 1 == 1
}

proof fn lemma_bit_updates(
    value: u8,
    bit: u8,
    carry: bool,
    mask: u8,
    toggled: u8,
    replaced: u8,
    set: u8,
    cleared: u8,
    masked_set: u8,
    masked_clear: u8,
)
    by (bit_vector)
    requires
        bit < 8,
        toggled == value ^ (1u8 << bit),
        replaced == (value & !(1u8 << bit)) | ((if carry {
            1u8
        } else {
            0u8
        }) << bit),
        set == value | (1u8 << bit),
        cleared == value & !(1u8 << bit),
        masked_set == value | mask,
        masked_clear == value & !mask,
    ensures
        forall|i: u8|
            i < 8 ==> (#[trigger] ((toggled >> i) & 1) == 1) == (((value >> i) & 1 == 1) != (i
                == bit)),
        forall|i: u8|
            i < 8 ==> (#[trigger] ((replaced >> i) & 1) == 1) == (if i == bit {
                carry
            } else {
                (value >> i) & 1 == 1
            }),
        forall|i: u8|
            i < 8 ==> (#[trigger] ((set >> i) & 1) == 1) == (i == bit || (value >> i) & 1 == 1),
        forall|i: u8|
            i < 8 ==> (#[trigger] ((cleared >> i) & 1) == 1) == (i != bit && (value >> i) & 1
                == 1),
        forall|i: u8|
            i < 8 ==> (#[trigger] ((masked_set >> i) & 1) == 1) == ((value >> i) & 1 == 1 || (mask
                >> i) & 1 == 1),
        forall|i: u8|
            i < 8 ==> (#[trigger] ((masked_clear >> i) & 1) == 1) == ((value >> i) & 1 == 1 && !((
            mask >> i) & 1 == 1)),
{
}

/// Bit `i` of a byte updated at bit `bit`: complemented, replaced by a flag, set or cleared.
spec fn single_bit_update(value: u8, bit: u8, i: u8, op: int, carry: bool) -> bool {
    if op == 0 {
        bit8(value, i) != (i == bit)
    } else if op == 1 {
        if i == bit {
            carry
        } else {
            bit8(value, i)
        }
    } else if op == 2 {
        i == bit || bit8(value, i)
    } else {
        i != bit && bit8(value, i)
    }
}

/// The bits of the results of the single-bit and masked updates of a byte.
proof fn lemma_bit_update_results(
    value: u8,
    bit: u8,
    carry: bool,
    mask: u8,
    toggled: u8,
    replaced: u8,
    set: u8,
    cleared: u8,
    masked_set: u8,
    masked_clear: u8,
)
    requires
        bit < 8,
        toggled == value ^ (1u8 << bit),
        replaced == (value & !(1u8 << bit)) | ((if carry {
            1u8
        } else {
            0u8
        }) << bit),
        set == value | (1u8 << bit),
        cleared == value & !(1u8 << bit),
        masked_set == value | mask,
        masked_clear == value & !mask,
    ensures
        forall|i: u8| i < 8 ==> #[trigger] bit8(toggled, i) == single_bit_update(value, bit, i, 0, carry),
        forall|i: u8| i < 8 ==> #[trigger] bit8(replaced, i) == single_bit_update(value, bit, i, 1, carry),
        forall|i: u8| i < 8 ==> #[trigger] bit8(set, i) == single_bit_update(value, bit, i, 2, carry),
        forall|i: u8| i < 8 ==> #[trigger] bit8(cleared, i) == single_bit_update(value, bit, i, 3, carry),
        forall|i: u8| i < 8 ==> #[trigger] bit8(masked_set, i) == (bit8(value, i) || bit8(mask, i)),
        forall|i: u8| i < 8 ==> #[trigger] bit8(masked_clear, i) == (bit8(value, i) && !bit8(mask, i)),
{
    lemma_bit_updates(value, bit, carry, mask, toggled, replaced, set, cleared, masked_set, masked_clear);
}

/// The operand of the `mem.bit` instructions: a 13-bit address (the low byte, then the low 5 bits
/// of the high byte) and a bit number (the top 3 bits of the high byte).
pub fn absolute_bit_operand(address_lsb: u8, high: u8) -> (r: (u16, u8))
    ensures
        r.0 == (high % 0x20) * 0x100 + address_lsb,
        r.1 == high / 0x20,
        r.1 < 8,
{
    ((high % 0x20) as u16 * 0x100 + address_lsb as u16, high / 0x20)
}

/// NOT1: the value with one bit complemented.
pub fn not1(value: u8, bit: u8) -> (r: u8)
    requires
        bit < 8,
    ensures
        forall|i: u8| i < 8 ==> bit8(r, i) == (bit8(value, i) != (i == bit)),
{
    let r = value ^ (1 << bit);
    proof {
        lemma_bit_update_results(value, bit, false, 0u8, r, (value & !(1u8 << bit)) | ((if false { 1u8 } else { 0u8 }) << bit), value | (1u8 << bit), value & !(1u8 << bit), value | 0u8, value & !0u8);
    }
    r
}

/// MOV1 C, mem.bit: C becomes one bit of the value.
pub fn mov1_c_bit(value: u8, bit: u8, psw: &mut StatusRegister)
    requires
        bit < 8,
    ensures
        *final(psw) == (StatusRegister { carry: bit8(value, bit), ..*old(psw) }),
{
    psw.carry = (value >> bit) & 1 == 1;
}

/// MOV1 mem.bit, C: the value with one bit replaced by C.
pub fn mov1_bit_c(value: u8, bit: u8, carry: bool) -> (r: u8)
    requires
        bit < 8,
    ensures
        forall|i: u8|
            i < 8 ==> bit8(r, i) == if i == bit {
                carry
            } else {
                bit8(value, i)
            },
{
    let carry_bit: u8 = if carry {
        1
    } else {
        0
    };
    let r = (value & !(1 << bit)) | (carry_bit << bit);
    proof {
        lemma_bit_update_results(value, bit, carry, 0u8, value ^ (1u8 << bit), r, value | (1u8 << bit), value & !(1u8 << bit), value | 0u8, value & !0u8);
    }
    r
}

/// SET1: the value with one bit set.
pub fn set1(value: u8, bit: u8) -> (r: u8)
    requires
        bit < 8,
    ensures
        forall|i: u8| i < 8 ==> bit8(r, i) == (i == bit || bit8(value, i)),
{
    let r = value | (1 << bit);
    proof {
        lemma_bit_update_results(value, bit, false, 0u8, value ^ (1u8 << bit), (value & !(1u8 << bit)) | ((if false { 1u8 } else { 0u8 }) << bit), r, value & !(1u8 << bit), value | 0u8, value & !0u8);
    }
    r
}

/// CLR1: the value with one bit cleared.
pub fn clr1(value: u8, bit: u8) -> (r: u8)
    requires
        bit < 8,
    ensures
        forall|i: u8| i < 8 ==> bit8(r, i) == (i != bit && bit8(value, i)),
{
    let r = value & !(1 << bit);
    proof {
        lemma_bit_update_results(value, bit, false, 0u8, value ^ (1u8 << bit), (value & !(1u8 << bit)) | ((if false { 1u8 } else { 0u8 }) << bit), value | (1u8 << bit), r, value | 0u8, value & !0u8);
    }
    r
}

/// TSET1: Z and N as A minus the value sets them; the value with the bits of A set.
pub fn tset1(a: u8, value: u8, psw: &mut StatusRegister) -> (r: u8)
    ensures
        forall|i: u8| i < 8 ==> bit8(r, i) == (bit8(value, i) || bit8(a, i)),
        *final(psw) == with_nz(*old(psw), ((a - value) % 0x100) as u8),
{
    set_nz(psw, a.wrapping_sub(value));
    let r = value | a;
    proof {
        lemma_bit_update_results(value, 0u8, false, a, value ^ (1u8 << 0u8), (value & !(1u8 << 0u8)) | ((if false { 1u8 } else { 0u8 }) << 0u8), value | (1u8 << 0u8), value & !(1u8 << 0u8), r, value & !a);
    }
    r
}

/// TCLR1: Z and N as A minus the value sets them; the value with the bits of A cleared.
pub fn tclr1(a: u8, value: u8, psw: &mut StatusRegister) -> (r: u8)
    ensures
        forall|i: u8| i < 8 ==> bit8(r, i) == (bit8(value, i) && !bit8(a, i)),
        *final(psw) == with_nz(*old(psw), ((a - value) % 0x100) as u8),
{
    set_nz(psw, a.wrapping_sub(value));
    let r = value & !a;
    proof {
        lemma_bit_update_results(value, 0u8, false, a, value ^ (1u8 << 0u8), (value & !(1u8 << 0u8)) | ((if false { 1u8 } else { 0u8 }) << 0u8), value | (1u8 << 0u8), value & !(1u8 << 0u8), value | a, r);
    }
    r
}

/// When Y < X the quotient fits in A, and DIV divides exactly: A * X + Y gives back YA, with
/// Y below X.
pub proof fn lemma_div_exact(y: u8, a: u8, x: u8)
    requires
        y < x,
    ensures
        div_result(y, a, x).0 * x + div_result(y, a, x).1 == y * 0x100 + a,
        0 <= div_result(y, a, x).1 < x,
{
    let ya = y * 0x100 + a;
    assert(ya < x * 0x100) by (nonlinear_arith)
        requires
            y < x,
            a < 0x100,
            ya == y * 0x100 + a,
    ;
    assert(ya / (x as int) < 0x100) by (nonlinear_arith)
        requires
            0 <= ya < x * 0x100,
            x > 0,
    ;
    assert((ya / (x as int)) * x + ya % (x as int) == ya) by (nonlinear_arith)
        requires
            x > 0,
    ;
}

/// A byte whose two nibbles are decimal digits.
pub open spec fn is_bcd(b: u8) -> bool {
    b % 0x10 <= 9 && b / 0x10 <= 9
}

/// The number that a BCD byte writes.
pub open spec fn bcd_value(b: u8) -> int {
    (b / 0x10) * 10 + b % 0x10
}

/// DAA on the binary sum of two BCD bytes: `hi` is the sum of their tens digits, `lo` of their
/// units digits and the carry.
proof fn lemma_daa_digits(sum: u8, carry: bool, half_carry: bool, hi: int, lo: int)
    requires
        0 <= hi <= 18,
        0 <= lo <= 19,
        sum == (0x10 * hi + lo) % 0x100,
        carry == (0x10 * hi + lo > 0xFF),
        half_carry == (lo >= 0x10),
    ensures
        daa_value(sum, carry, half_carry) % 0x10 <= 9,
        daa_value(sum, carry, half_carry) / 0x10 <= 9,
        (daa_value(sum, carry, half_carry) / 0x10) * 10 + daa_value(sum, carry, half_carry) % 0x10
            == (10 * hi + lo) % 100,
        (carry || sum > 0x99) == (10 * hi + lo >= 100),
{
    let s = 0x10 * hi + lo;
    let a1 = daa_high(sum, carry);
    let a2 = daa_value(sum, carry, half_carry);
    if lo < 10 {
        if hi < 10 {
            assert(sum == s && a1 == s && a2 == s);
            assert(a2 % 0x10 == lo && a2 / 0x10 == hi);
        } else {
            assert(a1 == 0x10 * (hi - 10) + lo);
            assert(a2 == a1);
            assert(a2 % 0x10 == lo && a2 / 0x10 == hi - 10);
        }
    } else if lo < 0x10 {
        if hi < 9 {
            assert(sum == s && a1 == s && a2 == s + 6);
            assert(a2 % 0x10 == lo - 10 && a2 / 0x10 == hi + 1);
        } else if hi == 9 {
            assert(sum == s && a1 == 0xF0 + lo && a2 == lo - 10);
        } else {
            assert(a1 == 0x10 * (hi - 10) + lo);
            assert(a2 == a1 + 6);
            assert(a2 % 0x10 == lo - 10 && a2 / 0x10 == hi - 9);
        }
    } else {
        if hi < 9 {
            assert(sum == s && a1 == s && a2 == s + 6);
            assert(a2 % 0x10 == lo - 10 && a2 / 0x10 == hi + 1);
        } else if hi == 9 {
            assert(sum == s && a1 == lo - 0x10 && a2 == lo - 10);
        } else {
            assert(a1 == 0x10 * (hi - 9) + lo - 0x10);
            assert(a2 == a1 + 6);
            assert(a2 % 0x10 == lo - 10 && a2 / 0x10 == hi - 9);
        }
    }
}

/// DAS on the binary difference of two BCD bytes: `hi` is the difference of their tens digits,
/// `lo` of their units digits less the borrow.
proof fn lemma_das_digits(difference: u8, carry: bool, half_carry: bool, hi: int, lo: int)
    requires
        -9 <= hi <= 9,
        -10 <= lo <= 9,
        difference == (0x10 * hi + lo) % 0x100,
        carry == (0x10 * hi + lo >= 0),
        half_carry == (lo >= 0),
    ensures
        das_value(difference, carry, half_carry) % 0x10 <= 9,
        das_value(difference, carry, half_carry) / 0x10 <= 9,
        (das_value(difference, carry, half_carry) / 0x10) * 10 + das_value(difference, carry, half_carry)
            % 0x10 == (10 * hi + lo) % 100,
        (carry && difference <= 0x99) == (10 * hi + lo >= 0),
{
    let d = 0x10 * hi + lo;
    let a1 = das_high(difference, carry);
    let a2 = das_value(difference, carry, half_carry);
    if lo >= 0 {
        if hi >= 0 {
            assert(difference == d && a1 == d && a2 == d);
            assert(a2 % 0x10 == lo && a2 / 0x10 == hi);
        } else {
            assert(difference == d + 0x100);
            assert(a1 == 0x10 * (hi + 10) + lo && a2 == a1);
            assert(a2 % 0x10 == lo && a2 / 0x10 == hi + 10);
        }
    } else {
        if hi >= 1 {
            assert(difference == d && a1 == d && a2 == d - 6);
            assert(a2 % 0x10 == lo + 10 && a2 / 0x10 == hi - 1);
        } else {
            assert(difference == d + 0x100);
            assert(a1 == 0x10 * (hi + 9) + lo + 0x10 && a2 == a1 - 6);
            assert(a2 % 0x10 == lo + 10 && a2 / 0x10 == hi + 9);
        }
    }
}

/// ADC then DAA adds in decimal: on BCD operands the result is the BCD form of the decimal sum
/// with the carry, modulo 100, and C is set exactly when that sum reaches 100.
pub proof fn lemma_adc_daa_decimal(operand_l: u8, operand_r: u8, psw: StatusRegister)
    requires
        is_bcd(operand_l),
        is_bcd(operand_r),
    ensures
        ({
            let (sum, flags) = adc_spec(operand_l, operand_r, psw);
            let (adjusted, carry) = daa_spec(sum, flags.carry, flags.half_carry);
            let decimal = bcd_value(operand_l) + bcd_value(operand_r) + bit_value(psw.carry);
            &&& is_bcd(adjusted)
            &&& bcd_value(adjusted) == decimal % 100
            &&& carry == (decimal >= 100)
        }),
{
    let c = bit_value(psw.carry);
    let lo = operand_l % 0x10 + operand_r % 0x10 + c;
    let hi = operand_l / 0x10 + operand_r / 0x10;
    assert(operand_l + operand_r + c == 0x10 * hi + lo);
    let (sum, flags) = adc_spec(operand_l, operand_r, psw);
    lemma_daa_digits(sum, flags.carry, flags.half_carry, hi, lo);
}

/// SBC then DAS subtracts in decimal: on BCD operands the result is the BCD form of the decimal
/// difference less the borrow, modulo 100, and C is set exactly when no borrow occurs.
pub proof fn lemma_sbc_das_decimal(operand_l: u8, operand_r: u8, psw: StatusRegister)
    requires
        is_bcd(operand_l),
        is_bcd(operand_r),
    ensures
        ({
            let (difference, flags) = sbc_spec(operand_l, operand_r, psw);
            let (adjusted, carry) = das_spec(difference, flags.carry, flags.half_carry);
            let decimal = bcd_value(operand_l) - bcd_value(operand_r) - (1 - bit_value(psw.carry));
            &&& is_bcd(adjusted)
            &&& bcd_value(adjusted) == decimal % 100
            &&& carry == (decimal >= 0)
        }),
{
    let b = 1 - bit_value(psw.carry);
    let lo = operand_l % 0x10 - operand_r % 0x10 - b;
    let hi = operand_l / 0x10 - operand_r / 0x10;
    assert(operand_l - operand_r - b == 0x10 * hi + lo);
    let (difference, flags) = sbc_spec(operand_l, operand_r, psw);
    lemma_das_digits(difference, flags.carry, flags.half_carry, hi, lo);
}
} // verus!
