//! HuC6280 instruction implementations. Each instruction is a method on the CPU that takes the
//! bus; addressing-mode helpers return the operand they read and the operation is applied by the
//! instruction method.
use crate::huc6280::bus::{BusAccess, BusInterface, ClockSpeed, InterruptLines};
use crate::huc6280::{
    flags_byte, flags_from_byte, map_address_spec, step_spec, BlockTransferState, BlockTransferStep,
    Flags, Huc6280, Registers,
};
use vstd::prelude::*;

verus! {

/// HuC6280 "zero" page is at logical $2000-$20FF, not $0000-$00FF like on 6502
pub const ZERO_PAGE_BASE: u16 = 0x2000;

/// And stack is at logical $2100-$21FF
pub const STACK_BASE: u16 = 0x2100;

#[derive(Debug, Clone, Copy, PartialEq, Eq, Structural)]
pub enum InterruptType {
    Irq1,
    Irq2,
    Tiq,
    Brk,
}

pub open spec fn vector_address_spec(interrupt: InterruptType) -> u16 {
    match interrupt {
        InterruptType::Irq2 | InterruptType::Brk => 0xFFF6,
        InterruptType::Irq1 => 0xFFF8,
        InterruptType::Tiq => 0xFFFA,
    }
}

impl InterruptType {
    fn vector_address(self) -> (r: u16)
        ensures
            r == vector_address_spec(self),
    {
        match self {
            Self::Irq2 | Self::Brk => 0xFFF6,
            Self::Irq1 => 0xFFF8,
            Self::Tiq => 0xFFFA,
        }
    }
}

#[derive(Debug, Clone, Copy, PartialEq, Eq, Structural)]
pub enum ReadRegister {
    A,
    X,
    Y,
    S,
    /// Zero; for STZ instructions
    Z,
}

pub open spec fn read_register_spec(register: ReadRegister, r: Registers) -> u8 {
    match register {
        ReadRegister::A => r.a,
        ReadRegister::X => r.x,
        ReadRegister::Y => r.y,
        ReadRegister::S => r.s,
        ReadRegister::Z => 0,
    }
}

impl ReadRegister {
    fn get(self, registers: &Registers) -> (r: u8)
        ensures
            r == read_register_spec(self, *registers),
    {
        match self {
            Self::A => registers.a,
            Self::X => registers.x,
            Self::Y => registers.y,
            Self::S => registers.s,
            Self::Z => 0,
        }
    }
}

#[derive(Debug, Clone, Copy, PartialEq, Eq, Structural)]
pub enum RwRegister {
    A,
    X,
    Y,
    S,
}

pub open spec fn set_register_spec(register: RwRegister, r: Registers, value: u8) -> Registers {
    match register {
        RwRegister::A => Registers { a: value, ..r },
        RwRegister::X => Registers { x: value, ..r },
        RwRegister::Y => Registers { y: value, ..r },
        RwRegister::S => Registers { s: value, ..r },
    }
}

impl RwRegister {
    fn set(self, registers: &mut Registers, value: u8)
        ensures
            *final(registers) == set_register_spec(self, *old(registers), value),
    {
        match self {
            Self::A => registers.a = value,
            Self::X => registers.x = value,
            Self::Y => registers.y = value,
            Self::S => registers.s = value,
        }
    }
}

#[derive(Debug, Clone, Copy, PartialEq, Eq, Structural)]
pub enum IndexRegister {
    X,
    Y,
}

pub open spec fn index_spec(index: Option<IndexRegister>, r: Registers) -> u8 {
    match index {
        Some(IndexRegister::X) => r.x,
        Some(IndexRegister::Y) => r.y,
        None => 0,
    }
}

impl IndexRegister {
    fn get(self, registers: &Registers) -> (r: u8)
        ensures
            r == index_spec(Some(self), *registers),
    {
        match self {
            Self::X => registers.x,
            Self::Y => registers.y,
        }
    }
}

fn index_offset(index: Option<IndexRegister>, registers: &Registers) -> (r: u8)
    ensures
        r == index_spec(index, *registers),
{
    match index {
        Some(index) => index.get(registers),
        None => 0,
    }
}

/// Operations that read an operand and update registers and flags.
#[derive(Debug, Clone, Copy, PartialEq, Eq, Structural)]
pub enum ReadOp {
    Lda,
    Ldx,
    Ldy,
    Adc,
    Sbc,
    And,
    Eor,
    Ora,
    Bit,
    Cmp,
    Cpx,
    Cpy,
}

/// Operations that read, modify, and write back a value.
#[derive(Debug, Clone, Copy, PartialEq, Eq, Structural)]
pub enum ModifyOp {
    Asl,
    Lsr,
    Rol,
    Ror,
    Inc,
    Dec,
    Trb,
    Tsb,
}

/// Zero and negative flags set from a value.
pub open spec fn nz(p: Flags, v: u8) -> Flags {
    Flags { zero: v == 0, negative: v >= 0x80, ..p }
}

pub open spec fn with_pc(r: Registers, pc: u16) -> Registers {
    Registers { pc, ..r }
}

/// Registers after the PC moved past `len` operand bytes.
pub open spec fn advance(r: Registers, len: u16) -> Registers {
    with_pc(r, r.pc.wrapping_add(len))
}

/// Binary-mode ADC: result and flags.
pub open spec fn add_binary_spec(accumulator: u8, operand: u8, f: Flags) -> (u8, Flags) {
    let c: int = if f.carry { 1 } else { 0 };
    let sum: int = accumulator + operand + c;
    let result = (sum % 256) as u8;
    let carry = sum >= 256;
    let bit_6_carry = (accumulator % 128) + (operand % 128) + c >= 128;
    (result, Flags { negative: result >= 0x80, overflow: carry != bit_6_carry, zero: result == 0, carry, ..f })
}

/// Decimal-mode ADC (65C02 formulas); V is not affected on the HuC6280.
pub open spec fn add_decimal_spec(accumulator: u8, operand: u8, f: Flags) -> (u8, Flags) {
    let c: int = if f.carry { 1 } else { 0 };
    let al0: int = accumulator % 16 + operand % 16 + c;
    let al: int = if al0 >= 10 { 16 + (al0 + 6) % 16 } else { al0 };
    let a0: int = (accumulator - accumulator % 16) + (operand - operand % 16) + al;
    let a: int = if a0 >= 0xA0 { a0 + 0x60 } else { a0 };
    let result = (a % 256) as u8;
    (result, Flags { zero: result == 0, carry: a >= 0x100, negative: result >= 0x80, ..f })
}

/// Decimal-mode SBC (65C02 formulas); carry comes from the binary subtraction.
pub open spec fn sub_decimal_spec(accumulator: u8, operand: u8, f: Flags) -> (u8, Flags) {
    let c: int = if f.carry { 1 } else { 0 };
    let al: int = accumulator % 16 - operand % 16 + c - 1;
    let a0: int = accumulator - operand + c - 1;
    let a1: int = if a0 < 0 { a0 - 0x60 } else { a0 };
    let a: int = if al < 0 { a1 - 0x06 } else { a1 };
    let binary_borrow = accumulator < operand + (1 - c);
    let result = ((a + 512) % 256) as u8;
    (result, Flags { zero: result == 0, negative: result >= 0x80, carry: !binary_borrow, ..f })
}

/// Flags set by CMP/CPX/CPY.
pub open spec fn compare_spec(source: u8, operand: u8, f: Flags) -> Flags {
    Flags {
        negative: source.wrapping_sub(operand) >= 0x80,
        zero: source == operand,
        carry: source >= operand,
        ..f
    }
}

/// Registers after a read operation with operand `v`; `t` is the T flag at fetch and `m` the
/// value read from zero page [X] when the T flag redirects the accumulator to memory.
pub open spec fn read_op_spec(op: ReadOp, t: bool, r: Registers, v: u8, m: u8) -> Registers {
    match op {
        ReadOp::Lda => Registers { a: v, p: nz(r.p, v), ..r },
        ReadOp::Ldx => Registers { x: v, p: nz(r.p, v), ..r },
        ReadOp::Ldy => Registers { y: v, p: nz(r.p, v), ..r },
        ReadOp::Adc => {
            let acc = if t { m } else { r.a };
            let res = if r.p.decimal {
                add_decimal_spec(acc, v, r.p)
            } else {
                add_binary_spec(acc, v, r.p)
            };
            Registers { a: if t { r.a } else { res.0 }, p: res.1, ..r }
        },
        ReadOp::Sbc => {
            let res = if r.p.decimal {
                sub_decimal_spec(r.a, v, r.p)
            } else {
                add_binary_spec(r.a, !v, r.p)
            };
            Registers { a: res.0, p: res.1, ..r }
        },
        ReadOp::And => {
            let acc = if t { m } else { r.a };
            let res = acc & v;
            Registers { a: if t { r.a } else { res }, p: nz(r.p, res), ..r }
        },
        ReadOp::Eor => {
            let acc = if t { m } else { r.a };
            let res = acc ^ v;
            Registers { a: if t { r.a } else { res }, p: nz(r.p, res), ..r }
        },
        ReadOp::Ora => {
            let acc = if t { m } else { r.a };
            let res = acc | v;
            Registers { a: if t { r.a } else { res }, p: nz(r.p, res), ..r }
        },
        ReadOp::Bit => Registers {
            p: Flags { zero: r.a & v == 0, overflow: v & 0x40 != 0, negative: v >= 0x80, ..r.p },
            ..r
        },
        ReadOp::Cmp => Registers { p: compare_spec(r.a, v, r.p), ..r },
        ReadOp::Cpx => Registers { p: compare_spec(r.x, v, r.p), ..r },
        ReadOp::Cpy => Registers { p: compare_spec(r.y, v, r.p), ..r },
    }
}

/// Result and flags of a read-modify-write operation on value `v`.
pub open spec fn modify_spec(op: ModifyOp, r: Registers, v: u8) -> (u8, Flags) {
    match op {
        ModifyOp::Asl => {
            let res = v << 1;
            (res, Flags { carry: v >= 0x80, ..nz(r.p, res) })
        },
        ModifyOp::Lsr => {
            let res = v >> 1;
            (res, Flags { zero: res == 0, negative: false, carry: v & 1 == 1, ..r.p })
        },
        ModifyOp::Rol => {
            let res = (v << 1) | (if r.p.carry { 1u8 } else { 0u8 });
            (res, Flags { carry: v >= 0x80, ..nz(r.p, res) })
        },
        ModifyOp::Ror => {
            let res = (v >> 1) | (if r.p.carry { 0x80u8 } else { 0u8 });
            (res, Flags { carry: v & 1 == 1, ..nz(r.p, res) })
        },
        ModifyOp::Inc => {
            let res = v.wrapping_add(1);
            (res, nz(r.p, res))
        },
        ModifyOp::Dec => {
            let res = v.wrapping_sub(1);
            (res, nz(r.p, res))
        },
        ModifyOp::Trb => {
            let res = v & !r.a;
            (res, Flags { zero: res == 0, overflow: v & 0x40 != 0, negative: v >= 0x80, ..r.p })
        },
        ModifyOp::Tsb => {
            let res = v | r.a;
            (res, Flags { zero: res == 0, overflow: v & 0x40 != 0, negative: v >= 0x80, ..r.p })
        },
    }
}

/// Byte shifts and rotates as arithmetic: halving, doubling modulo 256, the incoming bit, and
/// rotating left then right through the carry (or right then left) giving back the byte.
pub proof fn lemma_byte_shift_arithmetic(v: u8, c: bool)
    ensures
        (v >> 1u8) == v / 2,
        ((v >> 1u8) | 0x80u8) == v / 2 + 128,
        (v << 1u8) == (2 * v) % 256,
        ((v << 1u8) | 1u8) == (2 * v) % 256 + 1,
        (v & 1u8 == 1u8) == (v % 2 == 1),
        ((v << 1u8) | 0u8) == (v << 1u8),
        ((v >> 1u8) | 0u8) == (v >> 1u8),
        (((((v << 1u8) | (if c { 1u8 } else { 0u8 })) >> 1u8) | (if v >= 0x80u8 { 0x80u8 } else { 0u8 })) == v),
        (((((v >> 1u8) | (if c { 0x80u8 } else { 0u8 })) << 1u8) | (if v & 1u8 == 1u8 { 1u8 } else { 0u8 })) == v),
{
    assert(
        (v >> 1u8) == v / 2
        && ((v >> 1u8) | 0x80u8) == v / 2 + 128
        && (v << 1u8) == (2 * v) % 256
        && ((v << 1u8) | 1u8) == (2 * v) % 256 + 1
        && (v & 1u8 == 1u8) == (v % 2 == 1)
        && ((v << 1u8) | 0u8) == (v << 1u8)
        && ((v >> 1u8) | 0u8) == (v >> 1u8)
        && ((((v << 1u8) | 1u8) >> 1u8) | (if v >= 0x80u8 { 0x80u8 } else { 0u8 })) == v
        && ((((v << 1u8) | 0u8) >> 1u8) | (if v >= 0x80u8 { 0x80u8 } else { 0u8 })) == v
        && ((((v >> 1u8) | 0x80u8) << 1u8) | (if v & 1u8 == 1u8 { 1u8 } else { 0u8 })) == v
        && ((((v >> 1u8) | 0u8) << 1u8) | (if v & 1u8 == 1u8 { 1u8 } else { 0u8 })) == v
    ) by (bit_vector);
}

/// The shifts and rotates as arithmetic on the operand byte `v`: ASL doubles (modulo 256) and
/// shifts bit 7 into the carry; LSR halves and shifts bit 0 into the carry; ROL doubles and
/// brings the carry it started with into bit 0; ROR halves and brings the carry it started with
/// into bit 7, whatever the other flags.
pub proof fn lemma_shift_arithmetic(r: Registers, v: u8)
    ensures
        modify_spec(ModifyOp::Asl, r, v).0 == (2 * v) % 256,
        modify_spec(ModifyOp::Asl, r, v).1.carry == (v >= 128),
        modify_spec(ModifyOp::Lsr, r, v).0 == v / 2,
        modify_spec(ModifyOp::Lsr, r, v).1.carry == (v % 2 == 1),
        modify_spec(ModifyOp::Rol, r, v).0 == (2 * v) % 256 + (if r.p.carry { 1int } else { 0int }),
        modify_spec(ModifyOp::Rol, r, v).1.carry == (v >= 128),
        modify_spec(ModifyOp::Ror, r, v).0 == v / 2 + (if r.p.carry { 128int } else { 0int }),
        modify_spec(ModifyOp::Ror, r, v).1.carry == (v % 2 == 1),
{
    lemma_byte_shift_arithmetic(v, r.p.carry);
}

/// INC and DEC add and subtract one modulo 256.
pub proof fn lemma_increment_arithmetic(r: Registers, v: u8)
    ensures
        modify_spec(ModifyOp::Inc, r, v).0 == (v + 1) % 256,
        modify_spec(ModifyOp::Dec, r, v).0 == (v + 255) % 256,
{
}

/// After ASL, ROL, ROR, INC and DEC, N is bit 7 of the result and Z says whether it is zero;
/// LSR clears N.
pub proof fn lemma_modify_sets_nz(r: Registers, v: u8)
    ensures
        modify_spec(ModifyOp::Asl, r, v).1.negative == (modify_spec(ModifyOp::Asl, r, v).0 >= 128),
        modify_spec(ModifyOp::Asl, r, v).1.zero == (modify_spec(ModifyOp::Asl, r, v).0 == 0),
        modify_spec(ModifyOp::Rol, r, v).1.negative == (modify_spec(ModifyOp::Rol, r, v).0 >= 128),
        modify_spec(ModifyOp::Rol, r, v).1.zero == (modify_spec(ModifyOp::Rol, r, v).0 == 0),
        modify_spec(ModifyOp::Ror, r, v).1.negative == (modify_spec(ModifyOp::Ror, r, v).0 >= 128),
        modify_spec(ModifyOp::Ror, r, v).1.zero == (modify_spec(ModifyOp::Ror, r, v).0 == 0),
        modify_spec(ModifyOp::Inc, r, v).1.negative == (modify_spec(ModifyOp::Inc, r, v).0 >= 128),
        modify_spec(ModifyOp::Inc, r, v).1.zero == (modify_spec(ModifyOp::Inc, r, v).0 == 0),
        modify_spec(ModifyOp::Dec, r, v).1.negative == (modify_spec(ModifyOp::Dec, r, v).0 >= 128),
        modify_spec(ModifyOp::Dec, r, v).1.zero == (modify_spec(ModifyOp::Dec, r, v).0 == 0),
        modify_spec(ModifyOp::Lsr, r, v).1.zero == (modify_spec(ModifyOp::Lsr, r, v).0 == 0),
        !modify_spec(ModifyOp::Lsr, r, v).1.negative,
{
}

/// Rotating left then right through the carry, or right then left, gives back the byte and the
/// carry.
pub proof fn lemma_rotate_round_trip(r: Registers, v: u8)
    ensures
        ({
            let (rol, f) = modify_spec(ModifyOp::Rol, r, v);
            let back = modify_spec(ModifyOp::Ror, Registers { p: f, ..r }, rol);
            back.0 == v && back.1.carry == r.p.carry
        }),
        ({
            let (ror, f) = modify_spec(ModifyOp::Ror, r, v);
            let back = modify_spec(ModifyOp::Rol, Registers { p: f, ..r }, ror);
            back.0 == v && back.1.carry == r.p.carry
        }),
{
    lemma_byte_shift_arithmetic(v, r.p.carry);
    let rol = modify_spec(ModifyOp::Rol, r, v).0;
    let ror = modify_spec(ModifyOp::Ror, r, v).0;
    lemma_byte_shift_arithmetic(rol, v >= 128);
    lemma_byte_shift_arithmetic(ror, v & 1 == 1);
}

/// Bitwise facts about two bytes: complement as subtraction from 255, clearing or setting the
/// bits of `a` in `v`, and cancelling an exclusive or.
pub proof fn lemma_byte_bitwise(a: u8, v: u8)
    ensures
        !v == 255 - v,
        (v & !a) & a == 0,
        ((v & !a) | (v & a)) == v,
        (v | a) & a == a,
        ((v | a) & !a) == (v & !a),
        (a ^ v) ^ v == a,
        (a & v) & v == (a & v),
        (a | v) & v == v,
{
    assert(!v == 255 - v && (v & !a) & a == 0 && ((v & !a) | (v & a)) == v && (v | a) & a == a && ((v
        | a) & !a) == (v & !a) && (a ^ v) ^ v == a && (a & v) & v == (a & v) && (a | v) & v == v)
        by (bit_vector);
}

/// Binary ADC adds with carry: the result and the carry out make up the sum of the accumulator,
/// the operand and the carry in; V is set exactly when both inputs have the same sign and the
/// result has the other; N and Z describe the result.
pub proof fn lemma_add_binary(accumulator: u8, operand: u8, f: Flags)
    ensures
        ({
            let (res, g) = add_binary_spec(accumulator, operand, f);
            &&& res + (if g.carry { 256int } else { 0 }) == accumulator + operand + (if f.carry { 1int } else { 0 })
            &&& g.overflow == ((accumulator >= 128) == (operand >= 128) && (res >= 128) != (accumulator >= 128))
            &&& g.negative == (res >= 128)
            &&& g.zero == (res == 0)
        }),
{
    let c: int = if f.carry { 1 } else { 0 };
    let sum: int = accumulator + operand + c;
    assert(accumulator % 128 == (if accumulator >= 128 { accumulator - 128 } else { accumulator as int }));
    assert(operand % 128 == (if operand >= 128 { operand - 128 } else { operand as int }));
    assert(sum % 256 == (if sum >= 256 { sum - 256 } else { sum }));
}

/// Binary SBC subtracts with borrow: the result is the accumulator minus the operand minus the
/// borrow (the clear carry), modulo 256, and the carry out is set exactly when no borrow occurs.
pub proof fn lemma_subtract_binary(t: bool, r: Registers, v: u8, m: u8)
    requires
        !r.p.decimal,
    ensures
        ({
            let after = read_op_spec(ReadOp::Sbc, t, r, v, m);
            let borrow: int = if r.p.carry { 0 } else { 1 };
            &&& after.a + (if after.p.carry { 256int } else { 0 }) == r.a - v - borrow + 256
            &&& after.p.carry == (r.a >= v + borrow)
        }),
{
    lemma_byte_bitwise(r.a, v);
    lemma_add_binary(r.a, !v, r.p);
}

/// TRB clears in memory the bits set in A and keeps the others; TSB sets them and keeps the
/// others. Both set V and N from bits 6 and 7 of the memory byte, and Z when the result is zero.
pub proof fn lemma_test_bits(r: Registers, v: u8)
    ensures
        modify_spec(ModifyOp::Trb, r, v).0 & r.a == 0,
        (modify_spec(ModifyOp::Trb, r, v).0 | (v & r.a)) == v,
        modify_spec(ModifyOp::Tsb, r, v).0 & r.a == r.a,
        (modify_spec(ModifyOp::Tsb, r, v).0 & !r.a) == (v & !r.a),
        modify_spec(ModifyOp::Trb, r, v).1.overflow == (v & 0x40 != 0),
        modify_spec(ModifyOp::Tsb, r, v).1.overflow == (v & 0x40 != 0),
        modify_spec(ModifyOp::Trb, r, v).1.negative == (v >= 128),
        modify_spec(ModifyOp::Tsb, r, v).1.negative == (v >= 128),
        modify_spec(ModifyOp::Trb, r, v).1.zero == (modify_spec(ModifyOp::Trb, r, v).0 == 0),
        modify_spec(ModifyOp::Tsb, r, v).1.zero == (modify_spec(ModifyOp::Tsb, r, v).0 == 0),
{
    lemma_byte_bitwise(r.a, v);
}

/// Whether a byte holds two BCD digits.
pub open spec fn is_bcd(x: u8) -> bool {
    x / 16 <= 9 && x % 16 <= 9
}

/// The number two BCD digits stand for.
pub open spec fn bcd_value(x: u8) -> int {
    (x / 16) * 10 + x % 16
}

/// Decimal ADC adds BCD numbers: on two valid BCD bytes the result is the BCD form of the sum
/// with carry in, modulo 100, and the carry out is set exactly when that sum reaches 100.
pub proof fn lemma_add_decimal(accumulator: u8, operand: u8, f: Flags)
    requires
        is_bcd(accumulator),
        is_bcd(operand),
    ensures
        ({
            let (res, g) = add_decimal_spec(accumulator, operand, f);
            let total = bcd_value(accumulator) + bcd_value(operand) + (if f.carry { 1int } else { 0 });
            &&& is_bcd(res)
            &&& bcd_value(res) == total % 100
            &&& g.carry == (total >= 100)
        }),
{
    let ah: int = (accumulator / 16) as int;
    let al: int = (accumulator % 16) as int;
    let vh: int = (operand / 16) as int;
    let vl: int = (operand % 16) as int;
    assert(accumulator == 16 * ah + al);
    assert(operand == 16 * vh + vl);
    let c: int = if f.carry { 1 } else { 0 };
    let low0 = al + vl + c;
    assert(low0 >= 10 ==> (low0 + 6) % 16 == low0 - 10);
    let (res, g) = add_decimal_spec(accumulator, operand, f);
    let low: int = if low0 >= 10 { low0 + 6 } else { low0 };
    let a0: int = 16 * ah + 16 * vh + low;
    let a: int = if a0 >= 0xA0 { a0 + 0x60 } else { a0 };
    assert(res == a % 256);
    let digits_low: int = if low0 >= 10 { low0 - 10 } else { low0 };
    let carry_low: int = if low0 >= 10 { 1 } else { 0 };
    let high0: int = ah + vh + carry_low;
    let total = bcd_value(accumulator) + bcd_value(operand) + c;
    assert(total == 10 * high0 + digits_low);
    assert(a0 == 16 * high0 + digits_low);
    if high0 >= 10 {
        assert(a == 16 * (high0 - 10) + digits_low + 256);
        assert(res == 16 * (high0 - 10) + digits_low);
    } else {
        assert(res == 16 * high0 + digits_low);
    }
    assert(res / 16 == (if high0 >= 10 { high0 - 10 } else { high0 }));
    assert(res % 16 == digits_low);
}

/// Decimal SBC subtracts BCD numbers: on two valid BCD bytes the result is the BCD form of the
/// difference less the borrow (the clear carry), modulo 100, and the carry out is set exactly
/// when that difference is not negative.
pub proof fn lemma_subtract_decimal(accumulator: u8, operand: u8, f: Flags)
    requires
        is_bcd(accumulator),
        is_bcd(operand),
    ensures
        ({
            let (res, g) = sub_decimal_spec(accumulator, operand, f);
            let difference = bcd_value(accumulator) - bcd_value(operand) - (if f.carry { 0int } else { 1 });
            &&& is_bcd(res)
            &&& bcd_value(res) == (difference + 100) % 100
            &&& g.carry == (difference >= 0)
        }),
{
    let ah: int = (accumulator / 16) as int;
    let al: int = (accumulator % 16) as int;
    let vh: int = (operand / 16) as int;
    let vl: int = (operand % 16) as int;
    assert(accumulator == 16 * ah + al);
    assert(operand == 16 * vh + vl);
    let b: int = if f.carry { 0 } else { 1 };
    let lowd = al - vl - b;
    let digit: int = if lowd < 0 { lowd + 10 } else { lowd };
    let bl: int = if lowd < 0 { 1 } else { 0 };
    let highd = ah - vh - bl;
    let high_digit: int = if highd < 0 { highd + 10 } else { highd };
    let difference = bcd_value(accumulator) - bcd_value(operand) - b;
    assert(difference == 10 * highd + digit);
    let a0: int = accumulator - operand - b;
    assert(a0 == 16 * highd + digit + (if lowd < 0 { 6int } else { 0 }));
    assert((a0 < 0) == (highd < 0));
    let (res, g) = sub_decimal_spec(accumulator, operand, f);
    let a1: int = if a0 < 0 { a0 - 0x60 } else { a0 };
    let a: int = if lowd < 0 { a1 - 0x06 } else { a1 };
    assert(a == 16 * highd + digit - (if highd < 0 { 96int } else { 0 }));
    assert(res == (a + 512) % 256);
    assert(res == 16 * high_digit + digit);
    assert(res / 16 == high_digit);
    assert(res % 16 == digit);
    assert(bcd_value(res) == 10 * high_digit + digit);
    assert((difference + 100) % 100 == 10 * high_digit + digit);
}

/// The read operations without the T flag: loads copy the operand into their register; AND keeps
/// only bits of the operand, ORA sets every bit of the operand, EOR is undone by a second EOR with
/// the same operand; CMP, CPX and CPY set C when the register is at least the operand, Z when
/// they are equal and N from bit 7 of their difference; and every operation but the compares
/// and BIT sets N and Z from the value it leaves in its register.
pub proof fn lemma_read_ops(r: Registers, v: u8, m: u8)
    ensures
        read_op_spec(ReadOp::Lda, false, r, v, m).a == v,
        read_op_spec(ReadOp::Ldx, false, r, v, m).x == v,
        read_op_spec(ReadOp::Ldy, false, r, v, m).y == v,
        read_op_spec(ReadOp::And, false, r, v, m).a & v == read_op_spec(ReadOp::And, false, r, v, m).a,
        read_op_spec(ReadOp::Ora, false, r, v, m).a & v == v,
        read_op_spec(ReadOp::Eor, false, r, v, m).a ^ v == r.a,
        read_op_spec(ReadOp::Cmp, false, r, v, m).p.carry == (r.a >= v),
        read_op_spec(ReadOp::Cmp, false, r, v, m).p.zero == (r.a == v),
        read_op_spec(ReadOp::Cmp, false, r, v, m).p.negative == ((r.a - v + 256) % 256 >= 128),
        read_op_spec(ReadOp::Cpx, false, r, v, m).p.carry == (r.x >= v),
        read_op_spec(ReadOp::Cpy, false, r, v, m).p.carry == (r.y >= v),
        read_op_spec(ReadOp::Bit, false, r, v, m).p.zero == (r.a & v == 0),
        read_op_spec(ReadOp::Bit, false, r, v, m).p.negative == (v >= 128),
        forall|op: ReadOp|
            op == ReadOp::Lda || op == ReadOp::And || op == ReadOp::Ora || op == ReadOp::Eor ==> (
            #[trigger] read_op_spec(op, false, r, v, m)).p.negative == (read_op_spec(op, false, r, v, m).a
                >= 128) && read_op_spec(op, false, r, v, m).p.zero == (read_op_spec(op, false, r, v, m).a == 0),
{
    lemma_byte_bitwise(r.a, v);
}

/// Flags set by TST.
pub open spec fn tst_spec(f: Flags, memory_value: u8, operand: u8) -> Flags {
    Flags {
        zero: memory_value & operand == 0,
        overflow: memory_value & 0x40 != 0,
        negative: memory_value >= 0x80,
        ..f
    }
}


/// Registers after a register-to-register transfer; TXS does not set flags.
pub open spec fn transfer_spec(from: ReadRegister, to: RwRegister, r: Registers) -> Registers {
    let value = read_register_spec(from, r);
    let moved = set_register_spec(to, r, value);
    if to != RwRegister::S {
        Registers { p: nz(r.p, value), ..moved }
    } else {
        moved
    }
}

/// MPRs after TAM: every MPR whose bit is set in `bits` receives A.
pub open spec fn tam_spec(mpr: Seq<u8>, a: u8, bits: u8) -> Seq<u8> {
    Seq::new(8, |j: int| if (bits >> (j as u8)) & 1 == 1 { a } else { mpr[j] })
}

/// AND of the MPRs among the first `n` whose bit is set in `bits`, starting from $FF.
pub open spec fn tma_and(mpr: Seq<u8>, bits: u8, n: int) -> u8
    decreases n,
{
    if n <= 0 {
        0xFF
    } else {
        let prev = tma_and(mpr, bits, n - 1);
        if (bits >> ((n - 1) as u8)) & 1 == 1 {
            prev & mpr[n - 1]
        } else {
            prev
        }
    }
}

/// A after TMA: the MPR buffer when no bit is set, otherwise the AND of the selected MPRs.
pub open spec fn tma_spec(mpr: Seq<u8>, buffer: u8, bits: u8) -> u8 {
    if bits == 0 {
        buffer
    } else {
        tma_and(mpr, bits, 8)
    }
}

/// What executing an opcode does, as each instruction's own contract states it: `after` is the
/// CPU when the instruction is done, `before` the CPU just after the opcode byte was fetched
/// (PC past it, T latched and cleared). Values that come from the bus are left open.
pub closed spec fn instruction_post(op: u8, after: Huc6280, before: Huc6280) -> bool {
    if op < 0x40 {
        instruction_post_0(op, after, before)
    } else if op < 0x80 {
        instruction_post_1(op, after, before)
    } else if op < 0xC0 {
        instruction_post_2(op, after, before)
    } else {
        instruction_post_3(op, after, before)
    }
}

/// `instruction_post` for opcodes $00-$3F.
pub closed spec fn instruction_post_0(op: u8, after: Huc6280, before: Huc6280) -> bool {
    match op {
        0x00 => {
            &&& after.frame(before)
            &&& after.registers == (Registers {
                s: before.registers.s.wrapping_sub(3),
                pc: after.registers.pc,
                p: Flags { memory_op: false, decimal: false, irq_disable: true, ..before.registers.p },
                ..before.registers
            })
        },
        0x01 => {
            &&& after.read_post(before, ReadOp::Ora, Operand::Indirect(Some(IndexRegister::X)))
        },
        0x02 => {
            &&& after.frame(before)
            &&& after.registers == (Registers { x: before.registers.y, y: before.registers.x, ..before.registers })
        },
        0x03 => {
            &&& after.vdc_store_post(before, 0)
        },
        0x04 => {
            &&& after.modify_post(before, ModifyOp::Tsb, Operand::ZeroPage(None))
        },
        0x05 => {
            &&& after.read_post(before, ReadOp::Ora, Operand::ZeroPage(None))
        },
        0x06 => {
            &&& after.modify_post(before, ModifyOp::Asl, Operand::ZeroPage(None))
        },
        0x07 | 0x17 | 0x27 | 0x37 => {
            &&& after.bit_update_post(before, false, (op >> 4) % 8)
        },
        0x08 => {
            &&& after.frame(before)
            &&& after.registers == (Registers { s: before.registers.s.wrapping_sub(1), ..before.registers })
        },
        0x09 => {
            &&& after.read_post(before, ReadOp::Ora, Operand::Immediate)
        },
        0x0A => {
            &&& after.modify_acc_post(before, ModifyOp::Asl)
        },
        0x0B | 0x1B | 0x2B | 0x33 | 0x3B => {
            &&& after.frame(before)
            &&& after.registers == before.registers
        },
        0x0C => {
            &&& after.modify_post(before, ModifyOp::Tsb, Operand::Absolute(None))
        },
        0x0D => {
            &&& after.read_post(before, ReadOp::Ora, Operand::Absolute(None))
        },
        0x0E => {
            &&& after.modify_post(before, ModifyOp::Asl, Operand::Absolute(None))
        },
        0x0F | 0x1F | 0x2F | 0x3F => {
            &&& after.frame(before)
            &&& after.registers == advance(before.registers, 2) || exists|d: u8|
                after.registers == with_pc(
                    before.registers,
                    #[trigger] before.registers.pc.wrapping_add(2).wrapping_add_signed(d as i8 as i16),
                )
        },
        0x10 => {
            &&& after.branch_post(before, 1, !before.registers.p.negative)
        },
        0x11 => {
            &&& after.read_post(before, ReadOp::Ora, Operand::Indirect(Some(IndexRegister::Y)))
        },
        0x12 => {
            &&& after.read_post(before, ReadOp::Ora, Operand::Indirect(Some(IndexRegister::X)))
        },
        0x13 => {
            &&& after.vdc_store_post(before, 1)
        },
        0x14 => {
            &&& after.modify_post(before, ModifyOp::Trb, Operand::ZeroPage(None))
        },
        0x15 => {
            &&& after.read_post(before, ReadOp::Ora, Operand::ZeroPage(Some(IndexRegister::X)))
        },
        0x16 => {
            &&& after.modify_post(before, ModifyOp::Asl, Operand::ZeroPage(Some(IndexRegister::X)))
        },
        0x18 => {
            &&& after.frame(before)
            &&& after.registers == (Registers { p: Flags { carry: false, ..before.registers.p }, ..before.registers })
        },
        0x19 => {
            &&& after.read_post(before, ReadOp::Ora, Operand::Absolute(Some(IndexRegister::Y)))
        },
        0x1A => {
            &&& after.modify_acc_post(before, ModifyOp::Inc)
        },
        0x1C => {
            &&& after.modify_post(before, ModifyOp::Trb, Operand::Absolute(None))
        },
        0x1D => {
            &&& after.read_post(before, ReadOp::Ora, Operand::Absolute(Some(IndexRegister::X)))
        },
        0x1E => {
            &&& after.modify_post(before, ModifyOp::Asl, Operand::Absolute(Some(IndexRegister::X)))
        },
        0x20 => {
            &&& after.frame(before)
            &&& after.registers == (Registers {
                s: before.registers.s.wrapping_sub(2),
                pc: after.registers.pc,
                ..before.registers
            })
        },
        0x21 => {
            &&& after.read_post(before, ReadOp::And, Operand::Indirect(Some(IndexRegister::X)))
        },
        0x22 => {
            &&& after.frame(before)
            &&& after.registers == (Registers { a: before.registers.x, x: before.registers.a, ..before.registers })
        },
        0x23 => {
            &&& after.vdc_store_post(before, 2)
        },
        0x24 => {
            &&& after.read_post(before, ReadOp::Bit, Operand::ZeroPage(None))
        },
        0x25 => {
            &&& after.read_post(before, ReadOp::And, Operand::ZeroPage(None))
        },
        0x26 => {
            &&& after.modify_post(before, ModifyOp::Rol, Operand::ZeroPage(None))
        },
        0x28 => {
            &&& after.frame(before)
            &&& exists|status: u8|
                after.registers == (Registers {
                    s: before.registers.s.wrapping_add(1),
                    p: #[trigger] flags_from_byte(status),
                    ..before.registers
                })
        },
        0x29 => {
            &&& after.read_post(before, ReadOp::And, Operand::Immediate)
        },
        0x2A => {
            &&& after.modify_acc_post(before, ModifyOp::Rol)
        },
        0x2C => {
            &&& after.read_post(before, ReadOp::Bit, Operand::Absolute(None))
        },
        0x2D => {
            &&& after.read_post(before, ReadOp::And, Operand::Absolute(None))
        },
        0x2E => {
            &&& after.modify_post(before, ModifyOp::Rol, Operand::Absolute(None))
        },
        0x30 => {
            &&& after.branch_post(before, 1, before.registers.p.negative)
        },
        0x31 => {
            &&& after.read_post(before, ReadOp::And, Operand::Indirect(Some(IndexRegister::Y)))
        },
        0x32 => {
            &&& after.read_post(before, ReadOp::And, Operand::Indirect(Some(IndexRegister::X)))
        },
        0x34 => {
            &&& after.read_post(before, ReadOp::Bit, Operand::ZeroPage(Some(IndexRegister::X)))
        },
        0x35 => {
            &&& after.read_post(before, ReadOp::And, Operand::ZeroPage(Some(IndexRegister::X)))
        },
        0x36 => {
            &&& after.modify_post(before, ModifyOp::Rol, Operand::ZeroPage(Some(IndexRegister::X)))
        },
        0x38 => {
            &&& after.frame(before)
            &&& after.registers == (Registers { p: Flags { carry: true, ..before.registers.p }, ..before.registers })
        },
        0x39 => {
            &&& after.read_post(before, ReadOp::And, Operand::Absolute(Some(IndexRegister::Y)))
        },
        0x3A => {
            &&& after.modify_acc_post(before, ModifyOp::Dec)
        },
        0x3C => {
            &&& after.read_post(before, ReadOp::Bit, Operand::Absolute(Some(IndexRegister::X)))
        },
        0x3D => {
            &&& after.read_post(before, ReadOp::And, Operand::Absolute(Some(IndexRegister::X)))
        },
        0x3E => {
            &&& after.modify_post(before, ModifyOp::Rol, Operand::Absolute(Some(IndexRegister::X)))
        },
        _ => false,
    }
}

/// `instruction_post` for opcodes $40-$7F.
pub closed spec fn instruction_post_1(op: u8, after: Huc6280, before: Huc6280) -> bool {
    match op {
        0x40 => {
            &&& after.frame(before)
            &&& exists|status: u8|
                after.registers == (Registers {
                    s: before.registers.s.wrapping_add(3),
                    pc: after.registers.pc,
                    p: #[trigger] flags_from_byte(status),
                    ..before.registers
                })
        },
        0x41 => {
            &&& after.read_post(before, ReadOp::Eor, Operand::Indirect(Some(IndexRegister::X)))
        },
        0x42 => {
            &&& after.frame(before)
            &&& after.registers == (Registers { a: before.registers.y, y: before.registers.a, ..before.registers })
        },
        0x43 => {
            &&& after.state.memory_op_at_fetch == before.state.memory_op_at_fetch
            &&& after.state.block_transfer == before.state.block_transfer
            &&& after.registers == (Registers { a: after.registers.a, ..advance(before.registers, 1) })
            &&& after.state.mpr_buffer == after.registers.a
            &&& exists|bits: u8|
                #![trigger tma_spec(before.registers.mpr@, before.state.mpr_buffer, bits)]
                after.registers.a == tma_spec(before.registers.mpr@, before.state.mpr_buffer, bits)
        },
        0x44 => {
            &&& after.frame(before)
            &&& exists|d: u8|
                after.registers == (Registers {
                    s: before.registers.s.wrapping_sub(2),
                    pc: #[trigger] before.registers.pc.wrapping_add(1).wrapping_add_signed(d as i8 as i16),
                    ..before.registers
                })
        },
        0x45 => {
            &&& after.read_post(before, ReadOp::Eor, Operand::ZeroPage(None))
        },
        0x46 => {
            &&& after.modify_post(before, ModifyOp::Lsr, Operand::ZeroPage(None))
        },
        0x47 | 0x57 | 0x67 | 0x77 => {
            &&& after.bit_update_post(before, false, (op >> 4) % 8)
        },
        0x48 => {
            &&& after.frame(before)
            &&& after.registers == (Registers { s: before.registers.s.wrapping_sub(1), ..before.registers })
        },
        0x49 => {
            &&& after.read_post(before, ReadOp::Eor, Operand::Immediate)
        },
        0x4A => {
            &&& after.modify_acc_post(before, ModifyOp::Lsr)
        },
        0x4B | 0x5B | 0x5C | 0x63 | 0x6B | 0x7B => {
            &&& after.frame(before)
            &&& after.registers == before.registers
        },
        0x4C => {
            &&& after.frame(before)
            &&& after.registers == with_pc(before.registers, after.registers.pc)
        },
        0x4D => {
            &&& after.read_post(before, ReadOp::Eor, Operand::Absolute(None))
        },
        0x4E => {
            &&& after.modify_post(before, ModifyOp::Lsr, Operand::Absolute(None))
        },
        0x4F | 0x5F | 0x6F | 0x7F => {
            &&& after.frame(before)
            &&& after.registers == advance(before.registers, 2) || exists|d: u8|
                after.registers == with_pc(
                    before.registers,
                    #[trigger] before.registers.pc.wrapping_add(2).wrapping_add_signed(d as i8 as i16),
                )
        },
        0x50 => {
            &&& after.branch_post(before, 1, !before.registers.p.overflow)
        },
        0x51 => {
            &&& after.read_post(before, ReadOp::Eor, Operand::Indirect(Some(IndexRegister::Y)))
        },
        0x52 => {
            &&& after.read_post(before, ReadOp::Eor, Operand::Indirect(Some(IndexRegister::X)))
        },
        0x53 => {
            &&& after.state.memory_op_at_fetch == before.state.memory_op_at_fetch
            &&& after.state.block_transfer == before.state.block_transfer
            &&& after.registers == (Registers { mpr: after.registers.mpr, ..advance(before.registers, 1) })
            &&& exists|bits: u8|
                #![trigger tam_spec(before.registers.mpr@, before.registers.a, bits)]
                after.registers.mpr@ == tam_spec(before.registers.mpr@, before.registers.a, bits)
                && after.state.mpr_buffer == (if bits == 0 { before.state.mpr_buffer } else { before.registers.a })
        },
        0x54 => {
            &&& after.frame(before)
            &&& after.registers == before.registers
        },
        0x55 => {
            &&& after.read_post(before, ReadOp::Eor, Operand::ZeroPage(Some(IndexRegister::X)))
        },
        0x56 => {
            &&& after.modify_post(before, ModifyOp::Lsr, Operand::ZeroPage(Some(IndexRegister::X)))
        },
        0x58 => {
            &&& after.frame(before)
            &&& after.registers == (Registers { p: Flags { irq_disable: false, ..before.registers.p }, ..before.registers })
        },
        0x59 => {
            &&& after.read_post(before, ReadOp::Eor, Operand::Absolute(Some(IndexRegister::Y)))
        },
        0x5A => {
            &&& after.frame(before)
            &&& after.registers == (Registers { s: before.registers.s.wrapping_sub(1), ..before.registers })
        },
        0x5D => {
            &&& after.read_post(before, ReadOp::Eor, Operand::Absolute(Some(IndexRegister::X)))
        },
        0x5E => {
            &&& after.modify_post(before, ModifyOp::Lsr, Operand::Absolute(Some(IndexRegister::X)))
        },
        0x60 => {
            &&& after.frame(before)
            &&& after.registers == (Registers {
                s: before.registers.s.wrapping_add(2),
                pc: after.registers.pc,
                ..before.registers
            })
        },
        0x61 => {
            &&& after.read_post(before, ReadOp::Adc, Operand::Indirect(Some(IndexRegister::X)))
        },
        0x62 => {
            &&& after.frame(before)
            &&& after.registers == (Registers { a: 0, ..before.registers })
        },
        0x64 => {
            &&& after.store_post(before, Operand::ZeroPage(None), ReadRegister::Z)
        },
        0x65 => {
            &&& after.read_post(before, ReadOp::Adc, Operand::ZeroPage(None))
        },
        0x66 => {
            &&& after.modify_post(before, ModifyOp::Ror, Operand::ZeroPage(None))
        },
        0x68 => {
            &&& after.frame(before)
            &&& after.registers == (Registers {
                s: before.registers.s.wrapping_add(1),
                a: after.registers.a,
                ..before.registers
            })
        },
        0x69 => {
            &&& after.read_post(before, ReadOp::Adc, Operand::Immediate)
        },
        0x6A => {
            &&& after.modify_acc_post(before, ModifyOp::Ror)
        },
        0x6C => {
            &&& after.frame(before)
            &&& after.registers == with_pc(before.registers, after.registers.pc)
        },
        0x6D => {
            &&& after.read_post(before, ReadOp::Adc, Operand::Absolute(None))
        },
        0x6E => {
            &&& after.modify_post(before, ModifyOp::Ror, Operand::Absolute(None))
        },
        0x70 => {
            &&& after.branch_post(before, 1, before.registers.p.overflow)
        },
        0x71 => {
            &&& after.read_post(before, ReadOp::Adc, Operand::Indirect(Some(IndexRegister::Y)))
        },
        0x72 => {
            &&& after.read_post(before, ReadOp::Adc, Operand::Indirect(None))
        },
        0x73 => {
            &&& after.registers == (Registers { s: before.registers.s.wrapping_sub(3), ..advance(before.registers, 6) })
            &&& after.state.memory_op_at_fetch == before.state.memory_op_at_fetch
            &&& after.state.block_transfer matches Some(t) && t.source_step == BlockTransferStep::Increment
                && t.destination_step == BlockTransferStep::Increment
        },
        0x74 => {
            &&& after.store_post(before, Operand::ZeroPage(Some(IndexRegister::X)), ReadRegister::Z)
        },
        0x75 => {
            &&& after.read_post(before, ReadOp::Adc, Operand::ZeroPage(Some(IndexRegister::X)))
        },
        0x76 => {
            &&& after.modify_post(before, ModifyOp::Ror, Operand::ZeroPage(Some(IndexRegister::X)))
        },
        0x78 => {
            &&& after.frame(before)
            &&& after.registers == (Registers { p: Flags { irq_disable: true, ..before.registers.p }, ..before.registers })
        },
        0x79 => {
            &&& after.read_post(before, ReadOp::Adc, Operand::Absolute(Some(IndexRegister::Y)))
        },
        0x7A => {
            &&& after.frame(before)
            &&& after.registers == (Registers {
                s: before.registers.s.wrapping_add(1),
                y: after.registers.y,
                ..before.registers
            })
        },
        0x7C => {
            &&& after.frame(before)
            &&& after.registers == with_pc(before.registers, after.registers.pc)
        },
        0x7D => {
            &&& after.read_post(before, ReadOp::Adc, Operand::Absolute(Some(IndexRegister::X)))
        },
        0x7E => {
            &&& after.modify_post(before, ModifyOp::Ror, Operand::Absolute(Some(IndexRegister::X)))
        },
        _ => false,
    }
}

/// `instruction_post` for opcodes $80-$BF.
pub closed spec fn instruction_post_2(op: u8, after: Huc6280, before: Huc6280) -> bool {
    match op {
        0x80 => {
            &&& after.branch_post(before, 1, true)
        },
        0x81 => {
            &&& after.store_post(before, Operand::Indirect(Some(IndexRegister::X)), ReadRegister::A)
        },
        0x82 => {
            &&& after.frame(before)
            &&& after.registers == (Registers { x: 0, ..before.registers })
        },
        0x83 => {
            &&& after.frame(before)
            &&& exists|m: u8, imm: u8|
                after.registers == (Registers { p: #[trigger] tst_spec(before.registers.p, m, imm), ..advance(before.registers, 2) })
        },
        0x84 => {
            &&& after.store_post(before, Operand::ZeroPage(None), ReadRegister::Y)
        },
        0x85 => {
            &&& after.store_post(before, Operand::ZeroPage(None), ReadRegister::A)
        },
        0x86 => {
            &&& after.store_post(before, Operand::ZeroPage(None), ReadRegister::X)
        },
        0x87 | 0x97 | 0xA7 | 0xB7 => {
            &&& after.bit_update_post(before, true, (op >> 4) % 8)
        },
        0x88 => {
            &&& after.frame(before)
            &&& after.registers == (Registers {
                y: before.registers.y.wrapping_sub(1),
                p: nz(before.registers.p, before.registers.y.wrapping_sub(1)),
                ..before.registers
            })
        },
        0x89 => {
            &&& after.read_post(before, ReadOp::Bit, Operand::Immediate)
        },
        0x8A => {
            &&& after.frame(before)
            &&& after.registers == transfer_spec(ReadRegister::X, RwRegister::A, before.registers)
        },
        0x8B | 0x9B | 0xAB | 0xBB => {
            &&& after.frame(before)
            &&& after.registers == before.registers
        },
        0x8C => {
            &&& after.store_post(before, Operand::Absolute(None), ReadRegister::Y)
        },
        0x8D => {
            &&& after.store_post(before, Operand::Absolute(None), ReadRegister::A)
        },
        0x8E => {
            &&& after.store_post(before, Operand::Absolute(None), ReadRegister::X)
        },
        0x8F | 0x9F | 0xAF | 0xBF => {
            &&& after.frame(before)
            &&& after.registers == advance(before.registers, 2) || exists|d: u8|
                after.registers == with_pc(
                    before.registers,
                    #[trigger] before.registers.pc.wrapping_add(2).wrapping_add_signed(d as i8 as i16),
                )
        },
        0x90 => {
            &&& after.branch_post(before, 1, !before.registers.p.carry)
        },
        0x91 => {
            &&& after.store_post(before, Operand::Indirect(Some(IndexRegister::Y)), ReadRegister::A)
        },
        0x92 => {
            &&& after.store_post(before, Operand::Indirect(None), ReadRegister::A)
        },
        0x93 => {
            &&& after.frame(before)
            &&& exists|m: u8, imm: u8|
                after.registers == (Registers { p: #[trigger] tst_spec(before.registers.p, m, imm), ..advance(before.registers, 3) })
        },
        0x94 => {
            &&& after.store_post(before, Operand::ZeroPage(Some(IndexRegister::X)), ReadRegister::Y)
        },
        0x95 => {
            &&& after.store_post(before, Operand::ZeroPage(Some(IndexRegister::X)), ReadRegister::A)
        },
        0x96 => {
            &&& after.store_post(before, Operand::ZeroPage(Some(IndexRegister::Y)), ReadRegister::X)
        },
        0x98 => {
            &&& after.frame(before)
            &&& after.registers == transfer_spec(ReadRegister::Y, RwRegister::A, before.registers)
        },
        0x99 => {
            &&& after.store_post(before, Operand::Absolute(Some(IndexRegister::Y)), ReadRegister::A)
        },
        0x9A => {
            &&& after.frame(before)
            &&& after.registers == transfer_spec(ReadRegister::X, RwRegister::S, before.registers)
        },
        0x9C => {
            &&& after.store_post(before, Operand::Absolute(None), ReadRegister::Z)
        },
        0x9D => {
            &&& after.store_post(before, Operand::Absolute(Some(IndexRegister::X)), ReadRegister::A)
        },
        0x9E => {
            &&& after.store_post(before, Operand::Absolute(Some(IndexRegister::X)), ReadRegister::Z)
        },
        0xA0 => {
            &&& after.read_post(before, ReadOp::Ldy, Operand::Immediate)
        },
        0xA1 => {
            &&& after.read_post(before, ReadOp::Lda, Operand::Indirect(Some(IndexRegister::X)))
        },
        0xA2 => {
            &&& after.read_post(before, ReadOp::Ldx, Operand::Immediate)
        },
        0xA3 => {
            &&& after.frame(before)
            &&& exists|m: u8, imm: u8|
                after.registers == (Registers { p: #[trigger] tst_spec(before.registers.p, m, imm), ..advance(before.registers, 2) })
        },
        0xA4 => {
            &&& after.read_post(before, ReadOp::Ldy, Operand::ZeroPage(None))
        },
        0xA5 => {
            &&& after.read_post(before, ReadOp::Lda, Operand::ZeroPage(None))
        },
        0xA6 => {
            &&& after.read_post(before, ReadOp::Ldx, Operand::ZeroPage(None))
        },
        0xA8 => {
            &&& after.frame(before)
            &&& after.registers == transfer_spec(ReadRegister::A, RwRegister::Y, before.registers)
        },
        0xA9 => {
            &&& after.read_post(before, ReadOp::Lda, Operand::Immediate)
        },
        0xAA => {
            &&& after.frame(before)
            &&& after.registers == transfer_spec(ReadRegister::A, RwRegister::X, before.registers)
        },
        0xAC => {
            &&& after.read_post(before, ReadOp::Ldy, Operand::Absolute(None))
        },
        0xAD => {
            &&& after.read_post(before, ReadOp::Lda, Operand::Absolute(None))
        },
        0xAE => {
            &&& after.read_post(before, ReadOp::Ldx, Operand::Absolute(None))
        },
        0xB0 => {
            &&& after.branch_post(before, 1, before.registers.p.carry)
        },
        0xB1 => {
            &&& after.read_post(before, ReadOp::Lda, Operand::Indirect(Some(IndexRegister::Y)))
        },
        0xB2 => {
            &&& after.read_post(before, ReadOp::Lda, Operand::Indirect(None))
        },
        0xB3 => {
            &&& after.frame(before)
            &&& exists|m: u8, imm: u8|
                after.registers == (Registers { p: #[trigger] tst_spec(before.registers.p, m, imm), ..advance(before.registers, 3) })
        },
        0xB4 => {
            &&& after.read_post(before, ReadOp::Ldy, Operand::ZeroPage(Some(IndexRegister::X)))
        },
        0xB5 => {
            &&& after.read_post(before, ReadOp::Lda, Operand::ZeroPage(Some(IndexRegister::X)))
        },
        0xB6 => {
            &&& after.read_post(before, ReadOp::Ldx, Operand::ZeroPage(Some(IndexRegister::Y)))
        },
        0xB8 => {
            &&& after.frame(before)
            &&& after.registers == (Registers { p: Flags { overflow: false, ..before.registers.p }, ..before.registers })
        },
        0xB9 => {
            &&& after.read_post(before, ReadOp::Lda, Operand::Absolute(Some(IndexRegister::Y)))
        },
        0xBA => {
            &&& after.frame(before)
            &&& after.registers == transfer_spec(ReadRegister::S, RwRegister::X, before.registers)
        },
        0xBC => {
            &&& after.read_post(before, ReadOp::Ldy, Operand::Absolute(Some(IndexRegister::X)))
        },
        0xBD => {
            &&& after.read_post(before, ReadOp::Lda, Operand::Absolute(Some(IndexRegister::X)))
        },
        0xBE => {
            &&& after.read_post(before, ReadOp::Ldx, Operand::Absolute(Some(IndexRegister::Y)))
        },
        _ => false,
    }
}

/// `instruction_post` for opcodes $C0-$FF.
pub closed spec fn instruction_post_3(op: u8, after: Huc6280, before: Huc6280) -> bool {
    match op {
        0xC0 => {
            &&& after.read_post(before, ReadOp::Cpy, Operand::Immediate)
        },
        0xC1 => {
            &&& after.read_post(before, ReadOp::Cmp, Operand::Indirect(Some(IndexRegister::X)))
        },
        0xC2 => {
            &&& after.frame(before)
            &&& after.registers == (Registers { y: 0, ..before.registers })
        },
        0xC3 => {
            &&& after.registers == (Registers { s: before.registers.s.wrapping_sub(3), ..advance(before.registers, 6) })
            &&& after.state.memory_op_at_fetch == before.state.memory_op_at_fetch
            &&& after.state.block_transfer matches Some(t) && t.source_step == BlockTransferStep::Decrement
                && t.destination_step == BlockTransferStep::Decrement
        },
        0xC4 => {
            &&& after.read_post(before, ReadOp::Cpy, Operand::ZeroPage(None))
        },
        0xC5 => {
            &&& after.read_post(before, ReadOp::Cmp, Operand::ZeroPage(None))
        },
        0xC6 => {
            &&& after.modify_post(before, ModifyOp::Dec, Operand::ZeroPage(None))
        },
        0xC7 | 0xD7 | 0xE7 | 0xF7 => {
            &&& after.bit_update_post(before, true, (op >> 4) % 8)
        },
        0xC8 => {
            &&& after.frame(before)
            &&& after.registers == (Registers {
                y: before.registers.y.wrapping_add(1),
                p: nz(before.registers.p, before.registers.y.wrapping_add(1)),
                ..before.registers
            })
        },
        0xC9 => {
            &&& after.read_post(before, ReadOp::Cmp, Operand::Immediate)
        },
        0xCA => {
            &&& after.frame(before)
            &&& after.registers == (Registers {
                x: before.registers.x.wrapping_sub(1),
                p: nz(before.registers.p, before.registers.x.wrapping_sub(1)),
                ..before.registers
            })
        },
        0xCB | 0xDB | 0xDC | 0xE2 | 0xEB | 0xFB | 0xFC => {
            &&& after.frame(before)
            &&& after.registers == before.registers
        },
        0xCC => {
            &&& after.read_post(before, ReadOp::Cpy, Operand::Absolute(None))
        },
        0xCD => {
            &&& after.read_post(before, ReadOp::Cmp, Operand::Absolute(None))
        },
        0xCE => {
            &&& after.modify_post(before, ModifyOp::Dec, Operand::Absolute(None))
        },
        0xCF | 0xDF | 0xEF | 0xFF => {
            &&& after.frame(before)
            &&& after.registers == advance(before.registers, 2) || exists|d: u8|
                after.registers == with_pc(
                    before.registers,
                    #[trigger] before.registers.pc.wrapping_add(2).wrapping_add_signed(d as i8 as i16),
                )
        },
        0xD0 => {
            &&& after.branch_post(before, 1, !before.registers.p.zero)
        },
        0xD1 => {
            &&& after.read_post(before, ReadOp::Cmp, Operand::Indirect(Some(IndexRegister::Y)))
        },
        0xD2 => {
            &&& after.read_post(before, ReadOp::Cmp, Operand::Indirect(None))
        },
        0xD3 => {
            &&& after.registers == (Registers { s: before.registers.s.wrapping_sub(3), ..advance(before.registers, 6) })
            &&& after.state.memory_op_at_fetch == before.state.memory_op_at_fetch
            &&& after.state.block_transfer matches Some(t) && t.source_step == BlockTransferStep::Increment
                && t.destination_step == BlockTransferStep::Stay
        },
        0xD4 => {
            &&& after.frame(before)
            &&& after.registers == before.registers
        },
        0xD5 => {
            &&& after.read_post(before, ReadOp::Cmp, Operand::ZeroPage(Some(IndexRegister::X)))
        },
        0xD6 => {
            &&& after.modify_post(before, ModifyOp::Dec, Operand::ZeroPage(Some(IndexRegister::X)))
        },
        0xD8 => {
            &&& after.frame(before)
            &&& after.registers == (Registers { p: Flags { decimal: false, ..before.registers.p }, ..before.registers })
        },
        0xD9 => {
            &&& after.read_post(before, ReadOp::Cmp, Operand::Absolute(Some(IndexRegister::Y)))
        },
        0xDA => {
            &&& after.frame(before)
            &&& after.registers == (Registers { s: before.registers.s.wrapping_sub(1), ..before.registers })
        },
        0xDD => {
            &&& after.read_post(before, ReadOp::Cmp, Operand::Absolute(Some(IndexRegister::X)))
        },
        0xDE => {
            &&& after.modify_post(before, ModifyOp::Dec, Operand::Absolute(Some(IndexRegister::X)))
        },
        0xE0 => {
            &&& after.read_post(before, ReadOp::Cpx, Operand::Immediate)
        },
        0xE1 => {
            &&& after.read_post(before, ReadOp::Sbc, Operand::Indirect(Some(IndexRegister::X)))
        },
        0xE3 => {
            &&& after.registers == (Registers { s: before.registers.s.wrapping_sub(3), ..advance(before.registers, 6) })
            &&& after.state.memory_op_at_fetch == before.state.memory_op_at_fetch
            &&& after.state.block_transfer matches Some(t) && t.source_step == BlockTransferStep::Increment
                && t.destination_step == BlockTransferStep::Alternate
        },
        0xE4 => {
            &&& after.read_post(before, ReadOp::Cpx, Operand::ZeroPage(None))
        },
        0xE5 => {
            &&& after.read_post(before, ReadOp::Sbc, Operand::ZeroPage(None))
        },
        0xE6 => {
            &&& after.modify_post(before, ModifyOp::Inc, Operand::ZeroPage(None))
        },
        0xE8 => {
            &&& after.frame(before)
            &&& after.registers == (Registers {
                x: before.registers.x.wrapping_add(1),
                p: nz(before.registers.p, before.registers.x.wrapping_add(1)),
                ..before.registers
            })
        },
        0xE9 => {
            &&& after.read_post(before, ReadOp::Sbc, Operand::Immediate)
        },
        0xEA => {
            &&& after.frame(before)
            &&& after.registers == before.registers
        },
        0xEC => {
            &&& after.read_post(before, ReadOp::Cpx, Operand::Absolute(None))
        },
        0xED => {
            &&& after.read_post(before, ReadOp::Sbc, Operand::Absolute(None))
        },
        0xEE => {
            &&& after.modify_post(before, ModifyOp::Inc, Operand::Absolute(None))
        },
        0xF0 => {
            &&& after.branch_post(before, 1, before.registers.p.zero)
        },
        0xF1 => {
            &&& after.read_post(before, ReadOp::Sbc, Operand::Indirect(Some(IndexRegister::Y)))
        },
        0xF2 => {
            &&& after.read_post(before, ReadOp::Sbc, Operand::Indirect(None))
        },
        0xF3 => {
            &&& after.registers == (Registers { s: before.registers.s.wrapping_sub(3), ..advance(before.registers, 6) })
            &&& after.state.memory_op_at_fetch == before.state.memory_op_at_fetch
            &&& after.state.block_transfer matches Some(t) && t.source_step == BlockTransferStep::Alternate
                && t.destination_step == BlockTransferStep::Increment
        },
        0xF4 => {
            &&& after.frame(before)
            &&& after.registers == (Registers { p: Flags { memory_op: true, ..before.registers.p }, ..before.registers })
        },
        0xF5 => {
            &&& after.read_post(before, ReadOp::Sbc, Operand::ZeroPage(Some(IndexRegister::X)))
        },
        0xF6 => {
            &&& after.modify_post(before, ModifyOp::Inc, Operand::ZeroPage(Some(IndexRegister::X)))
        },
        0xF8 => {
            &&& after.frame(before)
            &&& after.registers == (Registers { p: Flags { decimal: true, ..before.registers.p }, ..before.registers })
        },
        0xF9 => {
            &&& after.read_post(before, ReadOp::Sbc, Operand::Absolute(Some(IndexRegister::Y)))
        },
        0xFA => {
            &&& after.frame(before)
            &&& after.registers == (Registers {
                s: before.registers.s.wrapping_add(1),
                x: after.registers.x,
                ..before.registers
            })
        },
        0xFD => {
            &&& after.read_post(before, ReadOp::Sbc, Operand::Absolute(Some(IndexRegister::X)))
        },
        0xFE => {
            &&& after.modify_post(before, ModifyOp::Inc, Operand::Absolute(Some(IndexRegister::X)))
        },
        _ => false,
    }
}

/// The CPU just after fetching opcode `op` from `prior`: the opcode read from the mapped PC is the
/// one bus access, PC is past it, T is latched into the fetch state and then cleared; the MPR
/// buffer and the block transfer state are kept.
pub closed spec fn fetched(mid: Huc6280, prior: Huc6280, op: u8) -> bool {
    &&& mid.log@ == prior.log@.push(
        BusAccess::Read {
            address: map_address_spec(prior.registers.mpr@, prior.registers.pc),
            value: op,
        },
    )
    &&& mid.registers == advance(
        Registers { p: Flags { memory_op: false, ..prior.registers.p }, ..prior.registers },
        1,
    )
    &&& mid.state.memory_op_at_fetch == prior.registers.p.memory_op
    &&& mid.state.mpr_buffer == prior.state.mpr_buffer
    &&& mid.state.block_transfer == prior.state.block_transfer
}

/// The physical address of stack slot `s`: page 1 of the logical space ($2100), mapped.
pub open spec fn stack_address(registers: Registers, s: u8) -> u32 {
    map_address_spec(registers.mpr@, (STACK_BASE + s) as u16)
}

/// The vector of the interrupt taken from a CPU state: TIQ before IRQ1 before IRQ2.
pub closed spec fn taken_vector(cpu: Huc6280) -> u16 {
    if cpu.state.latched_interrupt_lines.tiq {
        0xFFFA
    } else if cpu.state.latched_interrupt_lines.irq1 {
        0xFFF8
    } else {
        0xFFF6
    }
}

/// The bus cycles of entering an interrupt from `prior` through `vector`: a dummy read at PC;
/// PC (high byte, then low byte) and then `status` pushed; the vector's two bytes read, low
/// byte first; an idle cycle.
pub open spec fn interrupt_accesses(
    prior: Registers,
    status: u8,
    vector: u16,
    dummy: u8,
    lsb: u8,
    msb: u8,
) -> Seq<BusAccess> {
    seq![
        BusAccess::Read { address: map_address_spec(prior.mpr@, prior.pc), value: dummy },
        BusAccess::Write { address: stack_address(prior, prior.s), value: (prior.pc / 0x100) as u8 },
        BusAccess::Write {
            address: stack_address(prior, prior.s.wrapping_sub(1)),
            value: (prior.pc % 0x100) as u8,
        },
        BusAccess::Write { address: stack_address(prior, prior.s.wrapping_sub(2)), value: status },
        BusAccess::Read { address: map_address_spec(prior.mpr@, vector), value: lsb },
        BusAccess::Read { address: map_address_spec(prior.mpr@, vector.wrapping_add(1)), value: msb },
        BusAccess::Idle,
    ]
}

/// The bus cycles of one step of a block transfer: an idle cycle, a read of the source (none
/// from the non-VDC I/O range $1FE800-$1FF7FF, which reads as 0), an idle cycle, a write of the
/// byte to the destination, two idle cycles.
pub open spec fn block_step_accesses(registers: Registers, t: BlockTransferState, value: u8) -> Seq<
    BusAccess,
> {
    let source = map_address_spec(registers.mpr@, t.source);
    let io = 0x1FE800 <= source <= 0x1FF7FF;
    seq![BusAccess::Idle] + (if io {
        Seq::empty()
    } else {
        seq![BusAccess::Read { address: source, value }]
    }) + seq![
        BusAccess::Idle,
        BusAccess::Write {
            address: map_address_spec(registers.mpr@, t.destination),
            value: if io {
                0
            } else {
                value
            },
        },
        BusAccess::Idle,
        BusAccess::Idle,
    ]
}

/// One call during a block transfer moves one byte from the source to the destination, steps
/// both addresses, counts the byte and takes one from the length. When the length was 0 the
/// transfer ends: after an idle cycle X, A and Y are pulled from the stack, in that order.
pub closed spec fn block_transfer_progressed(
    after: Huc6280,
    before: Huc6280,
    accesses_after: Seq<BusAccess>,
    accesses_before: Seq<BusAccess>,
) -> bool {
    let t = before.state.block_transfer->Some_0;
    let r = before.registers;
    &&& after.state.memory_op_at_fetch == before.state.memory_op_at_fetch
    &&& after.state.mpr_buffer == before.state.mpr_buffer
    &&& exists|value: u8| {
        &&& if t.length == 0 {
            &&& after.state.block_transfer is None
            &&& after.registers == (Registers {
                s: r.s.wrapping_add(3),
                x: after.registers.x,
                a: after.registers.a,
                y: after.registers.y,
                ..r
            })
            &&& accesses_after == accesses_before + block_step_accesses(r, t, value) + seq![
                BusAccess::Idle,
                BusAccess::Read { address: stack_address(r, r.s.wrapping_add(1)), value: after.registers.x },
                BusAccess::Read { address: stack_address(r, r.s.wrapping_add(2)), value: after.registers.a },
                BusAccess::Read { address: stack_address(r, r.s.wrapping_add(3)), value: after.registers.y },
            ]
        } else {
            &&& after.state.block_transfer == Some(BlockTransferState {
                source: step_spec(t.source_step, t.source, t.count),
                destination: step_spec(t.destination_step, t.destination, t.count),
                count: t.count.wrapping_add(1),
                length: (t.length - 1) as u16,
                ..t
            })
            &&& after.registers == r
            &&& accesses_after == accesses_before + block_step_accesses(r, t, value)
        }
    }
}

/// An interrupt is taken instead of the next instruction: one is pending and a line is latched.
pub closed spec fn interrupt_taken(cpu: Huc6280) -> bool {
    cpu.state.pending_interrupt && (cpu.state.latched_interrupt_lines.tiq
        || cpu.state.latched_interrupt_lines.irq1 || cpu.state.latched_interrupt_lines.irq2)
}

/// Interrupt entry: PC and P pushed (S down by 3), T and D cleared, I set, PC loaded from the
/// vector; the fetch state, MPR buffer and block transfer state kept.
pub closed spec fn interrupt_entered(after: Huc6280, prior: Huc6280) -> bool {
    &&& after.frame(prior)
    &&& after.registers == (Registers {
        s: prior.registers.s.wrapping_sub(3),
        pc: after.registers.pc,
        p: Flags { memory_op: false, decimal: false, irq_disable: true, ..prior.registers.p },
        ..prior.registers
    })
}

/// An interrupt serviced from `prior`: the entry of `interrupt_entered`, no interrupt pending
/// afterwards, and the bus cycles of `interrupt_accesses` through the vector of the interrupt
/// taken (TIQ before IRQ1 before IRQ2), with P pushed as it was and PC loaded from the vector's
/// two bytes.
pub closed spec fn interrupt_serviced(
    after: Huc6280,
    prior: Huc6280,
    accesses_after: Seq<BusAccess>,
    accesses_before: Seq<BusAccess>,
) -> bool {
    &&& interrupt_entered(after, prior)
    &&& !after.state.pending_interrupt
    &&& exists|dummy: u8, lsb: u8, msb: u8|
        accesses_after == accesses_before + interrupt_accesses(
            prior.registers,
            flags_byte(prior.registers.p),
            taken_vector(prior),
            dummy,
            lsb,
            msb,
        ) && after.registers.pc == msb * 0x100 + lsb
}

/// How an instruction reaches its memory operand: an immediate byte, a zero page address, an
/// absolute address, or a zero page pointer; each optionally indexed (by X for (zp,X) and by Y
/// for (zp),Y among the pointer modes).
#[derive(Debug, Clone, Copy, PartialEq, Eq, Structural)]
pub enum Operand {
    Immediate,
    ZeroPage(Option<IndexRegister>),
    Absolute(Option<IndexRegister>),
    Indirect(Option<IndexRegister>),
}

/// Number of operand bytes that follow the opcode.
pub open spec fn operand_len(mode: Operand) -> u16 {
    match mode {
        Operand::Absolute(_) => 2,
        _ => 1,
    }
}

/// The physical address of zero page byte `zp`.
pub open spec fn zero_page_address(r: Registers, zp: u8) -> u32 {
    map_address_spec(r.mpr@, (ZERO_PAGE_BASE + zp) as u16)
}

/// The accesses of a zero page operand: the address byte fetched at PC, then an idle cycle.
pub open spec fn zero_page_prefix(r: Registers, zp: u8) -> Seq<BusAccess> {
    seq![BusAccess::Read { address: map_address_spec(r.mpr@, r.pc), value: zp }, BusAccess::Idle]
}

/// The 16-bit word of two bytes, low byte first.
pub open spec fn word16(lsb: u8, msb: u8) -> u16 {
    (msb * 0x100 + lsb) as u16
}

/// The accesses of an absolute operand: the two address bytes fetched at PC, then an idle cycle.
pub open spec fn absolute_prefix(r: Registers, lsb: u8, msb: u8) -> Seq<BusAccess> {
    seq![
        BusAccess::Read { address: map_address_spec(r.mpr@, r.pc), value: lsb },
        BusAccess::Read { address: map_address_spec(r.mpr@, r.pc.wrapping_add(1)), value: msb },
        BusAccess::Idle,
    ]
}

/// The zero page pointer of a pointer operand: indexed by X for (zp,X).
pub open spec fn pointer_spec(index: Option<IndexRegister>, r: Registers, zp: u8) -> u8 {
    if index == Some(IndexRegister::X) {
        zp.wrapping_add(r.x)
    } else {
        zp
    }
}

/// The accesses of a pointer operand: the pointer byte fetched at PC, an idle cycle, the two
/// bytes of the pointer read from zero page, then an idle cycle.
pub open spec fn indirect_prefix(index: Option<IndexRegister>, r: Registers, zp: u8, lsb: u8, msb: u8) -> Seq<BusAccess> {
    let pointer = pointer_spec(index, r, zp);
    seq![
        BusAccess::Read { address: map_address_spec(r.mpr@, r.pc), value: zp },
        BusAccess::Idle,
        BusAccess::Read { address: zero_page_address(r, pointer), value: lsb },
        BusAccess::Read { address: zero_page_address(r, pointer.wrapping_add(1)), value: msb },
        BusAccess::Idle,
    ]
}

/// The logical effective address of a pointer operand: indexed by Y for (zp),Y.
pub open spec fn indirect_target(index: Option<IndexRegister>, r: Registers, lsb: u8, msb: u8) -> u16 {
    let base = word16(lsb, msb);
    if index == Some(IndexRegister::Y) {
        base.wrapping_add(r.y as u16)
    } else {
        base
    }
}

/// The bus accesses `prefix` that fetch the operand bytes of `mode` (with PC at the first of
/// them) and compute the effective address, and the physical effective `address` they give;
/// the bytes read along the way are those recorded in `prefix`.
pub open spec fn operand_address(mode: Operand, r: Registers, prefix: Seq<BusAccess>, address: u32) -> bool {
    match mode {
        Operand::Immediate => prefix == Seq::<BusAccess>::empty() && address == map_address_spec(
            r.mpr@,
            r.pc,
        ),
        Operand::ZeroPage(index) => exists|zp: u8|
            prefix == #[trigger] zero_page_prefix(r, zp) && address == zero_page_address(
                r,
                zp.wrapping_add(index_spec(index, r)),
            ),
        Operand::Absolute(index) => exists|lsb: u8, msb: u8|
            prefix == #[trigger] absolute_prefix(r, lsb, msb) && address == map_address_spec(
                r.mpr@,
                word16(lsb, msb).wrapping_add(index_spec(index, r) as u16),
            ),
        Operand::Indirect(index) => exists|zp: u8, lsb: u8, msb: u8|
            prefix == #[trigger] indirect_prefix(index, r, zp, lsb, msb) && address
                == map_address_spec(r.mpr@, indirect_target(index, r, lsb, msb)),
    }
}

/// The accesses of ST0/ST1/ST2: the immediate byte fetched at PC, an idle cycle, and the write
/// of that byte to VDC port `i`.
pub open spec fn vdc_accesses(r: Registers, i: u8, data: u8) -> Seq<BusAccess> {
    seq![
        BusAccess::Read { address: map_address_spec(r.mpr@, r.pc), value: data },
        BusAccess::Idle,
        BusAccess::Write { address: vdc_port(i), value: data },
    ]
}

/// The physical address ST0/ST1/ST2 write to: the VDC address, low data or high data port.
pub open spec fn vdc_port(i: u8) -> u32 {
    if i == 0 {
        0x1FE000
    } else if i == 1 {
        0x1FE002
    } else {
        0x1FE003
    }
}

/// A zero page byte with bit `i` set or cleared.
pub open spec fn with_bit(v: u8, i: u8, set: bool) -> u8 {
    if set {
        v | (1u8 << i)
    } else {
        v & !(1u8 << i)
    }
}

/// Whether `longer` begins with `shorter`.
pub open spec fn log_extends(longer: Seq<BusAccess>, shorter: Seq<BusAccess>) -> bool {
    &&& shorter.len() <= longer.len()
    &&& forall|i: int| 0 <= i < shorter.len() ==> longer[i] == shorter[i]
}

/// Whether an operation may access the bus after its operand read (ADC, SBC, AND, EOR, ORA: an
/// idle cycle in decimal mode, and the zero page [X] accumulator when T was set).
pub open spec fn op_may_access_bus(op: ReadOp) -> bool {
    op == ReadOp::Adc || op == ReadOp::Sbc || op == ReadOp::And || op == ReadOp::Eor || op == ReadOp::Ora
}

impl Huc6280 {
    /// The instruction-independent state is carried over (only interrupt polling may change).
    pub(crate) open spec fn frame(self, old: Self) -> bool {
        &&& self.state.memory_op_at_fetch == old.state.memory_op_at_fetch
        &&& self.state.mpr_buffer == old.state.mpr_buffer
        &&& self.state.block_transfer == old.state.block_transfer
    }

    /// The pending interrupt agrees with the interrupt lines latched at the last bus cycle and
    /// the I flag.
    pub(crate) open spec fn interrupts_polled(self) -> bool {
        self.state.pending_interrupt == (!self.registers.p.irq_disable
            && (self.state.latched_interrupt_lines.irq1 || self.state.latched_interrupt_lines.irq2
            || self.state.latched_interrupt_lines.tiq))
    }

    /// Bus access: registers unchanged, interrupt lines latched.
    pub(crate) open spec fn polled(self, old: Self) -> bool {
        &&& self.frame(old)
        &&& self.registers == old.registers
        &&& self.state.pending_interrupt == (!self.registers.p.irq_disable
            && (self.state.latched_interrupt_lines.irq1 || self.state.latched_interrupt_lines.irq2
            || self.state.latched_interrupt_lines.tiq))
    }

    pub(crate) open spec fn op_post(self, old: Self, op: ReadOp, v: u8) -> bool {
        &&& self.frame(old)
        &&& exists|m: u8| self.registers == read_op_spec(op, old.state.memory_op_at_fetch, old.registers, v, m)
        &&& log_extends(self.log@, old.log@)
        &&& !op_may_access_bus(op) ==> self.log == old.log
    }

    /// A read instruction with operand `mode`: the operand bytes are fetched, the effective
    /// address computed, and the value read there is the one the operation uses.
    pub(crate) open spec fn read_post(self, old: Self, op: ReadOp, mode: Operand) -> bool {
        &&& self.frame(old)
        &&& exists|prefix: Seq<BusAccess>, address: u32, v: u8, m: u8|
            #![trigger operand_address(mode, old.registers, prefix, address), read_op_spec(op, old.state.memory_op_at_fetch, advance(old.registers, operand_len(mode)), v, m)]
            {
                &&& operand_address(mode, old.registers, prefix, address)
                &&& log_extends(self.log@, old.log@ + prefix.push(BusAccess::Read { address, value: v }))
                &&& !op_may_access_bus(op) ==> self.log@ == old.log@ + prefix.push(BusAccess::Read { address, value: v })
                &&& self.registers == read_op_spec(op, old.state.memory_op_at_fetch, advance(old.registers, operand_len(mode)), v, m)
            }
    }

    /// A store instruction with operand `mode`: the register is written at the effective address
    /// and only the PC moves.
    pub(crate) open spec fn store_post(self, old: Self, mode: Operand, register: ReadRegister) -> bool {
        &&& self.frame(old)
        &&& self.registers == advance(old.registers, operand_len(mode))
        &&& exists|prefix: Seq<BusAccess>, address: u32|
            #[trigger] operand_address(mode, old.registers, prefix, address) && self.log@ == old.log@ + prefix.push(
                BusAccess::Write { address, value: read_register_spec(register, old.registers) },
            )
    }

    /// A read-modify-write instruction on memory with operand `mode`: the byte at the effective
    /// address is read, and after an idle cycle the result is written back; only flags and PC
    /// change.
    pub(crate) open spec fn modify_post(self, old: Self, op: ModifyOp, mode: Operand) -> bool {
        &&& self.frame(old)
        &&& exists|prefix: Seq<BusAccess>, address: u32, v: u8|
            #![trigger operand_address(mode, old.registers, prefix, address), modify_spec(op, advance(old.registers, operand_len(mode)), v)]
            {
                let result = modify_spec(op, advance(old.registers, operand_len(mode)), v);
                &&& operand_address(mode, old.registers, prefix, address)
                &&& self.log@ == old.log@ + prefix + seq![
                    BusAccess::Read { address, value: v },
                    BusAccess::Idle,
                    BusAccess::Write { address, value: result.0 },
                ]
                &&& self.registers == Registers { p: result.1, ..advance(old.registers, operand_len(mode)) }
            }
    }

    /// RMBi/SMBi: the zero page byte is read and, after two idle cycles, written back with bit `i`
    /// cleared or set; only the PC moves.
    pub(crate) open spec fn bit_update_post(self, old: Self, set: bool, i: u8) -> bool {
        &&& self.frame(old)
        &&& self.registers == advance(old.registers, 1)
        &&& exists|prefix: Seq<BusAccess>, address: u32, v: u8|
            #![trigger operand_address(Operand::ZeroPage(None), old.registers, prefix, address), with_bit(v, i, set)]
            operand_address(Operand::ZeroPage(None), old.registers, prefix, address)
                && self.log@ == old.log@ + prefix + seq![
                BusAccess::Read { address, value: v },
                BusAccess::Idle,
                BusAccess::Idle,
                BusAccess::Write { address, value: with_bit(v, i, set) },
            ]
    }

    /// ST0/ST1/ST2: the immediate byte is written to VDC port `i`; only the PC moves.
    pub(crate) open spec fn vdc_store_post(self, old: Self, i: u8) -> bool {
        &&& self.frame(old)
        &&& self.registers == advance(old.registers, 1)
        &&& exists|data: u8| self.log@ == old.log@ + #[trigger] vdc_accesses(old.registers, i, data)
    }

    /// The operand bytes of `mode` are fetched and the value `v` is read at the effective address;
    /// only the PC moves.
    pub(crate) open spec fn operand_read(self, old: Self, mode: Operand, v: u8) -> bool {
        &&& self.frame(old)
        &&& self.registers == advance(old.registers, operand_len(mode))
        &&& exists|prefix: Seq<BusAccess>, address: u32|
            #[trigger] operand_address(mode, old.registers, prefix, address) && self.log@ == old.log@ + prefix.push(
                BusAccess::Read { address, value: v },
            )
    }

    /// A read-modify-write instruction on the accumulator.
    pub(crate) open spec fn modify_acc_post(self, old: Self, op: ModifyOp) -> bool {
        &&& self.frame(old)
        &&& self.registers == Registers {
            a: modify_spec(op, old.registers, old.registers.a).0,
            p: modify_spec(op, old.registers, old.registers.a).1,
            ..old.registers
        }
    }

    /// A conditional branch with `len` operand bytes: the PC moves past the operands and, when
    /// taken, by a signed 8-bit displacement.
    pub(crate) open spec fn branch_post(self, old: Self, len: u16, taken: bool) -> bool {
        &&& self.frame(old)
        &&& !taken ==> self.registers == advance(old.registers, len)
        &&& taken ==> exists|d: u8|
            self.registers == with_pc(
                old.registers,
                #[trigger] old.registers.pc.wrapping_add(len).wrapping_add_signed(d as i8 as i16),
            )
    }

    // Interrupt lines and the I flag are latched/polled at the beginning of the final cycle of each
    // instruction. For simplicity, latch them at the beginning of every cycle
    fn poll_interrupt_lines<B: BusInterface>(&mut self, bus: &mut B)
        ensures
            final(self).polled(*old(self)),
            final(self).log == old(self).log,
    {
        let interrupt_lines = bus.interrupt_lines();
        self.state.pending_interrupt = !self.registers.p.irq_disable && interrupt_lines.any();
        self.state.latched_interrupt_lines = interrupt_lines;
    }

    fn bus_read<B: BusInterface>(&mut self, address: u32, bus: &mut B) -> (r: u8)
        ensures
            final(self).polled(*old(self)),
            final(self).log@ == old(self).log@.push(BusAccess::Read { address, value: r }),
    {
        self.poll_interrupt_lines(bus);
        let r = bus.read(address);
        self.log = Ghost(self.log@.push(BusAccess::Read { address, value: r }));
        r
    }

    fn bus_write<B: BusInterface>(&mut self, address: u32, value: u8, bus: &mut B)
        ensures
            final(self).polled(*old(self)),
            final(self).log@ == old(self).log@.push(BusAccess::Write { address, value }),
    {
        self.poll_interrupt_lines(bus);
        bus.write(address, value);
        self.log = Ghost(self.log@.push(BusAccess::Write { address, value }));
    }

    fn bus_idle<B: BusInterface>(&mut self, bus: &mut B)
        ensures
            final(self).polled(*old(self)),
            final(self).log@ == old(self).log@.push(BusAccess::Idle),
    {
        self.poll_interrupt_lines(bus);
        bus.idle();
        self.log = Ghost(self.log@.push(BusAccess::Idle));
    }

    // NOP: No operation
    fn nop<B: BusInterface>(&mut self, bus: &mut B)
        ensures
            final(self).frame(*old(self)),
            final(self).registers == old(self).registers,
    {
        self.bus_idle(bus);
    }

    fn map_address(&self, logical_addr: u16) -> (r: u32)
        ensures
            r == map_address_spec(self.registers.mpr@, logical_addr),
    {
        self.registers.map_address(logical_addr)
    }

    fn map_zero_page(&self, zero_page_addr: u8) -> (r: u32)
        ensures
            r == map_address_spec(self.registers.mpr@, (ZERO_PAGE_BASE + zero_page_addr) as u16),
    {
        self.map_address(ZERO_PAGE_BASE + zero_page_addr as u16)
    }

    fn fetch_operand<B: BusInterface>(&mut self, bus: &mut B) -> (r: u8)
        ensures
            final(self).frame(*old(self)),
            final(self).registers == advance(old(self).registers, 1),
            final(self).log@ == old(self).log@.push(BusAccess::Read {
                address: map_address_spec(old(self).registers.mpr@, old(self).registers.pc),
                value: r,
            }),
    {
        let operand = self.bus_read(self.map_address(self.registers.pc), bus);
        self.registers.pc = self.registers.pc.wrapping_add(1);
        operand
    }

    fn fetch_operand_u16<B: BusInterface>(&mut self, bus: &mut B) -> (r: u16)
        ensures
            final(self).frame(*old(self)),
            final(self).registers == advance(old(self).registers, 2),
            exists|lsb: u8, msb: u8|
                r == (msb as u16) * 0x100 + lsb as u16 && final(self).log@ == old(self).log@ + seq![
                    BusAccess::Read { address: map_address_spec(old(self).registers.mpr@, old(self).registers.pc), value: lsb },
                    BusAccess::Read {
                        address: map_address_spec(old(self).registers.mpr@, old(self).registers.pc.wrapping_add(1)),
                        value: msb,
                    },
                ],
    {
        let operand_lsb = self.fetch_operand(bus);
        let operand_msb = self.fetch_operand(bus);
        assert(self.log@ =~= old(self).log@ + seq![
            BusAccess::Read { address: map_address_spec(old(self).registers.mpr@, old(self).registers.pc), value: operand_lsb },
            BusAccess::Read {
                address: map_address_spec(old(self).registers.mpr@, old(self).registers.pc.wrapping_add(1)),
                value: operand_msb,
            },
        ]);
        (operand_msb as u16) * 0x100 + operand_lsb as u16
    }

    fn push_stack<B: BusInterface>(&mut self, value: u8, bus: &mut B)
        ensures
            final(self).frame(*old(self)),
            final(self).registers == (Registers { s: old(self).registers.s.wrapping_sub(1), ..old(self).registers }),
            final(self).log@ == old(self).log@.push(BusAccess::Write {
                address: stack_address(old(self).registers, old(self).registers.s),
                value,
            }),
    {
        let stack_addr = STACK_BASE + self.registers.s as u16;
        self.bus_write(self.map_address(stack_addr), value, bus);
        self.registers.s = self.registers.s.wrapping_sub(1);
    }

    fn push_stack_u16<B: BusInterface>(&mut self, value: u16, bus: &mut B)
        ensures
            final(self).frame(*old(self)),
            final(self).registers == (Registers { s: old(self).registers.s.wrapping_sub(2), ..old(self).registers }),
            final(self).log@ == old(self).log@ + seq![
                BusAccess::Write {
                    address: stack_address(old(self).registers, old(self).registers.s),
                    value: (value / 0x100) as u8,
                },
                BusAccess::Write {
                    address: stack_address(old(self).registers, old(self).registers.s.wrapping_sub(1)),
                    value: (value % 0x100) as u8,
                },
            ],
    {
        let lsb = (value % 0x100) as u8;
        let msb = (value / 0x100) as u8;
        self.push_stack(msb, bus);
        self.push_stack(lsb, bus);
        assert(final(self).log@ =~= old(self).log@ + seq![
            BusAccess::Write {
                address: stack_address(old(self).registers, old(self).registers.s),
                value: (value / 0x100) as u8,
            },
            BusAccess::Write {
                address: stack_address(old(self).registers, old(self).registers.s.wrapping_sub(1)),
                value: (value % 0x100) as u8,
            },
        ]);
    }

    fn pull_stack<B: BusInterface>(&mut self, bus: &mut B) -> (r: u8)
        ensures
            final(self).frame(*old(self)),
            final(self).registers == (Registers { s: old(self).registers.s.wrapping_add(1), ..old(self).registers }),
            final(self).log@ == old(self).log@.push(BusAccess::Read {
                address: stack_address(old(self).registers, old(self).registers.s.wrapping_add(1)),
                value: r,
            }),
    {
        self.registers.s = self.registers.s.wrapping_add(1);
        let stack_addr = STACK_BASE + self.registers.s as u16;
        self.bus_read(self.map_address(stack_addr), bus)
    }

    fn pull_stack_u16<B: BusInterface>(&mut self, bus: &mut B) -> (r: u16)
        ensures
            final(self).frame(*old(self)),
            final(self).registers == (Registers { s: old(self).registers.s.wrapping_add(2), ..old(self).registers }),
    {
        let lsb = self.pull_stack(bus);
        let msb = self.pull_stack(bus);
        (msb as u16) * 0x100 + lsb as u16
    }

    fn read_immediate<B: BusInterface>(&mut self, bus: &mut B) -> (r: u8)
        ensures
            final(self).operand_read(*old(self), Operand::Immediate, r),
    {
        let r = self.fetch_operand(bus);
        assert(operand_address(Operand::Immediate, old(self).registers, Seq::<BusAccess>::empty(), map_address_spec(old(self).registers.mpr@, old(self).registers.pc)));
        assert(self.log@ =~= old(self).log@ + Seq::<BusAccess>::empty().push(BusAccess::Read { address: map_address_spec(old(self).registers.mpr@, old(self).registers.pc), value: r }));
        r
    }

    fn read_zero_page_indexed<B: BusInterface>(&mut self, index: Option<IndexRegister>, bus: &mut B) -> (r: u8)
        ensures
            final(self).operand_read(*old(self), Operand::ZeroPage(index), r),
    {
        let zero_page_addr = self.fetch_operand(bus);
        self.bus_idle(bus);

        let offset = index_offset(index, &self.registers);
        let indexed_addr = zero_page_addr.wrapping_add(offset);
        let ghost prefix = zero_page_prefix(old(self).registers, zero_page_addr);
        let ghost address = zero_page_address(old(self).registers, indexed_addr);
        assert(operand_address(Operand::ZeroPage(index), old(self).registers, prefix, address));
        assert(self.log@ =~= old(self).log@ + prefix);
        let r = self.bus_read(self.map_zero_page(indexed_addr), bus);
        assert(self.log@ =~= old(self).log@ + prefix.push(BusAccess::Read { address, value: r }));
        r
    }

    fn read_zero_page<B: BusInterface>(&mut self, bus: &mut B) -> (r: u8)
        ensures
            final(self).operand_read(*old(self), Operand::ZeroPage(None), r),
    {
        self.read_zero_page_indexed(None, bus)
    }

    fn read_zero_page_x<B: BusInterface>(&mut self, bus: &mut B) -> (r: u8)
        ensures
            final(self).operand_read(*old(self), Operand::ZeroPage(Some(IndexRegister::X)), r),
    {
        self.read_zero_page_indexed(Some(IndexRegister::X), bus)
    }

    fn read_zero_page_y<B: BusInterface>(&mut self, bus: &mut B) -> (r: u8)
        ensures
            final(self).operand_read(*old(self), Operand::ZeroPage(Some(IndexRegister::Y)), r),
    {
        self.read_zero_page_indexed(Some(IndexRegister::Y), bus)
    }

    fn read_absolute_indexed<B: BusInterface>(&mut self, index: Option<IndexRegister>, bus: &mut B) -> (r: u8)
        ensures
            final(self).operand_read(*old(self), Operand::Absolute(index), r),
    {
        let address = self.fetch_operand_u16(bus);
        let ghost lsb = choose|lsb: u8, msb: u8|
            address == (msb as u16) * 0x100 + lsb as u16 && self.log@ == old(self).log@ + seq![
                BusAccess::Read { address: map_address_spec(old(self).registers.mpr@, old(self).registers.pc), value: lsb },
                BusAccess::Read {
                    address: map_address_spec(old(self).registers.mpr@, old(self).registers.pc.wrapping_add(1)),
                    value: msb,
                },
            ];
        let ghost (lsb, msb) = lsb;
        self.bus_idle(bus);

        let offset = index_offset(index, &self.registers);
        let indexed_addr = address.wrapping_add(offset as u16);
        let ghost prefix = absolute_prefix(old(self).registers, lsb, msb);
        let ghost physical = map_address_spec(old(self).registers.mpr@, indexed_addr);
        assert(word16(lsb, msb) == address);
        assert(operand_address(Operand::Absolute(index), old(self).registers, prefix, physical));
        assert(self.log@ =~= old(self).log@ + prefix);
        let r = self.bus_read(self.map_address(indexed_addr), bus);
        assert(self.log@ =~= old(self).log@ + prefix.push(BusAccess::Read { address: physical, value: r }));
        r
    }

    fn read_absolute<B: BusInterface>(&mut self, bus: &mut B) -> (r: u8)
        ensures
            final(self).operand_read(*old(self), Operand::Absolute(None), r),
    {
        self.read_absolute_indexed(None, bus)
    }

    fn read_absolute_x<B: BusInterface>(&mut self, bus: &mut B) -> (r: u8)
        ensures
            final(self).operand_read(*old(self), Operand::Absolute(Some(IndexRegister::X)), r),
    {
        self.read_absolute_indexed(Some(IndexRegister::X), bus)
    }

    fn read_absolute_y<B: BusInterface>(&mut self, bus: &mut B) -> (r: u8)
        ensures
            final(self).operand_read(*old(self), Operand::Absolute(Some(IndexRegister::Y)), r),
    {
        self.read_absolute_indexed(Some(IndexRegister::Y), bus)
    }

    /// Zero page address of the pointer used by indirect modes ((zp), (zp,X), (zp),Y), and the
    /// final effective address
    fn indirect_address<B: BusInterface>(&mut self, index: Option<IndexRegister>, bus: &mut B) -> (r: u16)
        ensures
            final(self).frame(*old(self)),
            final(self).registers == advance(old(self).registers, 1),
            exists|zp: u8, lsb: u8, msb: u8|
                final(self).log@ == old(self).log@ + #[trigger] indirect_prefix(index, old(self).registers, zp, lsb, msb)
                    && r == indirect_target(index, old(self).registers, lsb, msb),
    {
        let mut zero_page_addr = self.fetch_operand(bus);
        let ghost zp = zero_page_addr;
        self.bus_idle(bus);

        if index == Some(IndexRegister::X) {
            // Zero page indexed indirect
            zero_page_addr = zero_page_addr.wrapping_add(self.registers.x);
        }
        assert(zero_page_addr == pointer_spec(index, old(self).registers, zp));

        let address_lsb = self.bus_read(self.map_zero_page(zero_page_addr), bus);
        let address_msb = self.bus_read(self.map_zero_page(zero_page_addr.wrapping_add(1)), bus);
        let mut address = (address_msb as u16) * 0x100 + address_lsb as u16;
        self.bus_idle(bus);

        if index == Some(IndexRegister::Y) {
            // Zero page indirect indexed
            address = address.wrapping_add(self.registers.y as u16);
        }
        assert(address == indirect_target(index, old(self).registers, address_lsb, address_msb));
        assert(self.log@ =~= old(self).log@ + indirect_prefix(index, old(self).registers, zp, address_lsb, address_msb));
        address
    }

    fn read_indirect_indexed<B: BusInterface>(&mut self, index: Option<IndexRegister>, bus: &mut B) -> (r: u8)
        ensures
            final(self).operand_read(*old(self), Operand::Indirect(index), r),
    {
        let address = self.indirect_address(index, bus);
        let ghost (zp, lsb, msb) = choose|zp: u8, lsb: u8, msb: u8|
            self.log@ == old(self).log@ + #[trigger] indirect_prefix(index, old(self).registers, zp, lsb, msb)
                && address == indirect_target(index, old(self).registers, lsb, msb);
        let ghost prefix = indirect_prefix(index, old(self).registers, zp, lsb, msb);
        let ghost physical = map_address_spec(old(self).registers.mpr@, address);
        assert(operand_address(Operand::Indirect(index), old(self).registers, prefix, physical));
        let r = self.bus_read(self.map_address(address), bus);
        assert(self.log@ =~= old(self).log@ + prefix.push(BusAccess::Read { address: physical, value: r }));
        r
    }

    fn read_zero_page_indirect<B: BusInterface>(&mut self, bus: &mut B) -> (r: u8)
        ensures
            final(self).operand_read(*old(self), Operand::Indirect(None), r),
    {
        self.read_indirect_indexed(None, bus)
    }

    fn read_zero_page_indirect_x<B: BusInterface>(&mut self, bus: &mut B) -> (r: u8)
        ensures
            final(self).operand_read(*old(self), Operand::Indirect(Some(IndexRegister::X)), r),
    {
        self.read_indirect_indexed(Some(IndexRegister::X), bus)
    }

    fn read_zero_page_indirect_y<B: BusInterface>(&mut self, bus: &mut B) -> (r: u8)
        ensures
            final(self).operand_read(*old(self), Operand::Indirect(Some(IndexRegister::Y)), r),
    {
        self.read_indirect_indexed(Some(IndexRegister::Y), bus)
    }

    fn load(&mut self, register: RwRegister, operand: u8)
        ensures
            final(self).log == old(self).log,
            final(self).frame(*old(self)),
            final(self).registers == set_register_spec(
                register,
                Registers { p: nz(old(self).registers.p, operand), ..old(self).registers },
                operand,
            ),
    {
        register.set(&mut self.registers, operand);

        self.registers.p.zero = operand == 0;
        self.registers.p.negative = operand >= 0x80;
    }

    // LDA: Load A
    fn lda(&mut self, operand: u8)
        ensures
            final(self).op_post(*old(self), ReadOp::Lda, operand),
    {
        self.load(RwRegister::A, operand);
        assert(self.registers == read_op_spec(ReadOp::Lda, old(self).state.memory_op_at_fetch, old(self).registers, operand, 0));
    }

    // LDX: Load X
    fn ldx(&mut self, operand: u8)
        ensures
            final(self).op_post(*old(self), ReadOp::Ldx, operand),
    {
        self.load(RwRegister::X, operand);
        assert(self.registers == read_op_spec(ReadOp::Ldx, old(self).state.memory_op_at_fetch, old(self).registers, operand, 0));
    }

    // LDY: Load Y
    fn ldy(&mut self, operand: u8)
        ensures
            final(self).op_post(*old(self), ReadOp::Ldy, operand),
    {
        self.load(RwRegister::Y, operand);
        assert(self.registers == read_op_spec(ReadOp::Ldy, old(self).state.memory_op_at_fetch, old(self).registers, operand, 0));
    }

    fn add_binary(accumulator: u8, operand: u8, flags: &mut Flags) -> (r: u8)
        ensures
            (r, *final(flags)) == add_binary_spec(accumulator, operand, *old(flags)),
    {
        let existing_carry: u16 = if flags.carry { 1 } else { 0 };

        let sum: u16 = accumulator as u16 + operand as u16 + existing_carry;
        let result = (sum % 256) as u8;
        let new_carry = sum >= 256;

        let bit_6_carry = (accumulator % 128) as u16 + (operand % 128) as u16 + existing_carry >= 0x80;
        let overflow = new_carry != bit_6_carry;

        flags.negative = result >= 0x80;
        flags.overflow = overflow;
        flags.zero = result == 0;
        flags.carry = new_carry;

        result
    }

    fn add_decimal(accumulator: u8, operand: u8, flags: &mut Flags) -> (r: u8)
        ensures
            (r, *final(flags)) == add_decimal_spec(accumulator, operand, *old(flags)),
    {
        // Formulas from http://www.6502.org/tutorials/decimal_mode.html#A
        // (65C02 versions)
        let existing_carry: u16 = if flags.carry { 1 } else { 0 };

        let mut al: u16 = (accumulator % 16) as u16 + (operand % 16) as u16 + existing_carry;
        if al >= 0x0A {
            al = 0x10 + (al + 0x06) % 16;
        }

        let mut a: u16 = (accumulator - accumulator % 16) as u16 + (operand - operand % 16) as u16 + al;
        if a >= 0xA0 {
            a += 0x60;
        }

        let result = (a % 256) as u8;

        flags.zero = result == 0;
        flags.carry = a >= 0x0100;
        flags.negative = result >= 0x80;
        // HuC6280 does not set V in decimal ADC/SBC

        result
    }

    fn sub_binary(accumulator: u8, operand: u8, flags: &mut Flags) -> (r: u8)
        ensures
            (r, *final(flags)) == add_binary_spec(accumulator, !operand, *old(flags)),
    {
        Self::add_binary(accumulator, !operand, flags)
    }

    fn sub_decimal(accumulator: u8, operand: u8, flags: &mut Flags) -> (r: u8)
        ensures
            (r, *final(flags)) == sub_decimal_spec(accumulator, operand, *old(flags)),
    {
        // Formulas from http://www.6502.org/tutorials/decimal_mode.html#A
        // (65C02 versions)
        let existing_carry: i16 = if flags.carry { 1 } else { 0 };

        let al: i16 = (accumulator % 16) as i16 - (operand % 16) as i16 + existing_carry - 1;
        let mut a: i16 = accumulator as i16 - operand as i16 + existing_carry - 1;

        if a < 0 {
            a -= 0x60;
        }

        if al < 0 {
            a -= 0x06;
        }

        // Carry flag is set based on binary arithmetic
        let binary_borrow = (accumulator as u16) < operand as u16 + (if flags.carry { 0u16 } else { 1u16 });

        let result = ((a + 512) % 256) as u8;

        flags.zero = result == 0;
        flags.negative = result >= 0x80;
        flags.carry = !binary_borrow;
        // HuC6280 does not set V in decimal ADC/SBC

        result
    }

    /// Accumulator for ADC/AND/EOR/ORA: A, or zero page [X] if the T flag was set at fetch
    fn accumulator_operand<B: BusInterface>(&mut self, bus: &mut B) -> (r: u8)
        ensures
            final(self).frame(*old(self)),
            final(self).registers == old(self).registers,
            !old(self).state.memory_op_at_fetch ==> r == old(self).registers.a,
            log_extends(final(self).log@, old(self).log@),
    {
        if self.state.memory_op_at_fetch {
            let value = self.bus_read(self.map_zero_page(self.registers.x), bus);
            self.bus_idle(bus);
            value
        } else {
            self.registers.a
        }
    }

    // ADC: Add with carry
    fn adc<B: BusInterface>(&mut self, operand: u8, bus: &mut B)
        ensures
            final(self).op_post(*old(self), ReadOp::Adc, operand),
    {
        let accumulator = self.accumulator_operand(bus);

        let result = if self.registers.p.decimal {
            self.bus_idle(bus);
            Self::add_decimal(accumulator, operand, &mut self.registers.p)
        } else {
            Self::add_binary(accumulator, operand, &mut self.registers.p)
        };

        if self.state.memory_op_at_fetch {
            self.bus_write(self.map_zero_page(self.registers.x), result, bus);
        } else {
            self.registers.a = result;
        }
        assert(self.registers == read_op_spec(ReadOp::Adc, old(self).state.memory_op_at_fetch, old(self).registers, operand, accumulator));
    }

    // SBC: Subtract with carry
    fn sbc<B: BusInterface>(&mut self, operand: u8, bus: &mut B)
        ensures
            final(self).op_post(*old(self), ReadOp::Sbc, operand),
    {
        if self.registers.p.decimal {
            self.bus_idle(bus);
            let a = self.registers.a;
            self.registers.a = Self::sub_decimal(a, operand, &mut self.registers.p);
        } else {
            let a = self.registers.a;
            self.registers.a = Self::sub_binary(a, operand, &mut self.registers.p);
        }
        assert(self.registers == read_op_spec(ReadOp::Sbc, old(self).state.memory_op_at_fetch, old(self).registers, operand, 0));
    }

    fn logical_op<B: BusInterface>(&mut self, op: ReadOp, operand: u8, bus: &mut B)
        requires
            op == ReadOp::And || op == ReadOp::Eor || op == ReadOp::Ora,
        ensures
            final(self).op_post(*old(self), op, operand),
    {
        let accumulator = self.accumulator_operand(bus);

        let result = match op {
            ReadOp::And => accumulator & operand,
            ReadOp::Eor => accumulator ^ operand,
            _ => accumulator | operand,
        };
        self.registers.p.zero = result == 0;
        self.registers.p.negative = result >= 0x80;

        if self.state.memory_op_at_fetch {
            self.bus_write(self.map_zero_page(self.registers.x), result, bus);
        } else {
            self.registers.a = result;
        }
        assert(self.registers == read_op_spec(op, old(self).state.memory_op_at_fetch, old(self).registers, operand, accumulator));
    }

    // AND: Logical and
    fn and<B: BusInterface>(&mut self, operand: u8, bus: &mut B)
        ensures
            final(self).op_post(*old(self), ReadOp::And, operand),
    {
        self.logical_op(ReadOp::And, operand, bus);
    }

    // EOR: Exclusive or
    fn eor<B: BusInterface>(&mut self, operand: u8, bus: &mut B)
        ensures
            final(self).op_post(*old(self), ReadOp::Eor, operand),
    {
        self.logical_op(ReadOp::Eor, operand, bus);
    }

    // ORA: Logical or
    fn ora<B: BusInterface>(&mut self, operand: u8, bus: &mut B)
        ensures
            final(self).op_post(*old(self), ReadOp::Ora, operand),
    {
        self.logical_op(ReadOp::Ora, operand, bus);
    }

    // BIT: Bit test
    fn bit(&mut self, operand: u8)
        ensures
            final(self).op_post(*old(self), ReadOp::Bit, operand),
    {
        let result = self.registers.a & operand;

        self.registers.p.zero = result == 0;
        self.registers.p.overflow = operand & 0x40 != 0;
        self.registers.p.negative = operand >= 0x80;
        assert(self.registers == read_op_spec(ReadOp::Bit, old(self).state.memory_op_at_fetch, old(self).registers, operand, 0));
    }

    fn compare(&mut self, register: ReadRegister, operand: u8)
        ensures
            final(self).log == old(self).log,
            final(self).frame(*old(self)),
            final(self).registers == (Registers {
                p: compare_spec(read_register_spec(register, old(self).registers), operand, old(self).registers.p),
                ..old(self).registers
            }),
    {
        let source = register.get(&self.registers);

        self.registers.p.negative = source.wrapping_sub(operand) >= 0x80;
        self.registers.p.zero = source == operand;
        self.registers.p.carry = source >= operand;
    }

    // CMP: Compare A with M
    fn cmp(&mut self, operand: u8)
        ensures
            final(self).op_post(*old(self), ReadOp::Cmp, operand),
    {
        self.compare(ReadRegister::A, operand);
        assert(self.registers == read_op_spec(ReadOp::Cmp, old(self).state.memory_op_at_fetch, old(self).registers, operand, 0));
    }

    // CPX: Compare X with M
    fn cpx(&mut self, operand: u8)
        ensures
            final(self).op_post(*old(self), ReadOp::Cpx, operand),
    {
        self.compare(ReadRegister::X, operand);
        assert(self.registers == read_op_spec(ReadOp::Cpx, old(self).state.memory_op_at_fetch, old(self).registers, operand, 0));
    }

    // CPY: Compare Y with M
    fn cpy(&mut self, operand: u8)
        ensures
            final(self).op_post(*old(self), ReadOp::Cpy, operand),
    {
        self.compare(ReadRegister::Y, operand);
        assert(self.registers == read_op_spec(ReadOp::Cpy, old(self).state.memory_op_at_fetch, old(self).registers, operand, 0));
    }

    fn store_zero_page_indexed<B: BusInterface>(&mut self, index: Option<IndexRegister>, register: ReadRegister, bus: &mut B)
        ensures
            final(self).store_post(*old(self), Operand::ZeroPage(index), register),
    {
        let zero_page_addr = self.fetch_operand(bus);
        self.bus_idle(bus);

        let offset = index_offset(index, &self.registers);
        let indexed_addr = zero_page_addr.wrapping_add(offset);
        let ghost prefix = zero_page_prefix(old(self).registers, zero_page_addr);
        let ghost address = zero_page_address(old(self).registers, indexed_addr);
        assert(operand_address(Operand::ZeroPage(index), old(self).registers, prefix, address));
        assert(self.log@ =~= old(self).log@ + prefix);
        let value = register.get(&self.registers);
        self.bus_write(self.map_zero_page(indexed_addr), value, bus);
        assert(self.log@ =~= old(self).log@ + prefix.push(BusAccess::Write { address, value }));
    }

    fn store_zero_page<B: BusInterface>(&mut self, register: ReadRegister, bus: &mut B)
        ensures
            final(self).store_post(*old(self), Operand::ZeroPage(None), register),
    {
        self.store_zero_page_indexed(None, register, bus);
    }

    fn store_zero_page_x<B: BusInterface>(&mut self, register: ReadRegister, bus: &mut B)
        ensures
            final(self).store_post(*old(self), Operand::ZeroPage(Some(IndexRegister::X)), register),
    {
        self.store_zero_page_indexed(Some(IndexRegister::X), register, bus);
    }

    fn store_zero_page_y<B: BusInterface>(&mut self, register: ReadRegister, bus: &mut B)
        ensures
            final(self).store_post(*old(self), Operand::ZeroPage(Some(IndexRegister::Y)), register),
    {
        self.store_zero_page_indexed(Some(IndexRegister::Y), register, bus);
    }

    fn store_absolute_indexed<B: BusInterface>(&mut self, index: Option<IndexRegister>, register: ReadRegister, bus: &mut B)
        ensures
            final(self).store_post(*old(self), Operand::Absolute(index), register),
    {
        let address = self.fetch_operand_u16(bus);
        let ghost lsb = choose|lsb: u8, msb: u8|
            address == (msb as u16) * 0x100 + lsb as u16 && self.log@ == old(self).log@ + seq![
                BusAccess::Read { address: map_address_spec(old(self).registers.mpr@, old(self).registers.pc), value: lsb },
                BusAccess::Read {
                    address: map_address_spec(old(self).registers.mpr@, old(self).registers.pc.wrapping_add(1)),
                    value: msb,
                },
            ];
        let ghost (lsb, msb) = lsb;
        self.bus_idle(bus);

        let offset = index_offset(index, &self.registers);
        let indexed_addr = address.wrapping_add(offset as u16);
        let ghost prefix = absolute_prefix(old(self).registers, lsb, msb);
        let ghost physical = map_address_spec(old(self).registers.mpr@, indexed_addr);
        assert(word16(lsb, msb) == address);
        assert(operand_address(Operand::Absolute(index), old(self).registers, prefix, physical));
        assert(self.log@ =~= old(self).log@ + prefix);
        let value = register.get(&self.registers);
        self.bus_write(self.map_address(indexed_addr), value, bus);
        assert(self.log@ =~= old(self).log@ + prefix.push(BusAccess::Write { address: physical, value }));
    }

    fn store_absolute<B: BusInterface>(&mut self, register: ReadRegister, bus: &mut B)
        ensures
            final(self).store_post(*old(self), Operand::Absolute(None), register),
    {
        self.store_absolute_indexed(None, register, bus);
    }

    fn store_absolute_x<B: BusInterface>(&mut self, register: ReadRegister, bus: &mut B)
        ensures
            final(self).store_post(*old(self), Operand::Absolute(Some(IndexRegister::X)), register),
    {
        self.store_absolute_indexed(Some(IndexRegister::X), register, bus);
    }

    fn store_absolute_y<B: BusInterface>(&mut self, register: ReadRegister, bus: &mut B)
        ensures
            final(self).store_post(*old(self), Operand::Absolute(Some(IndexRegister::Y)), register),
    {
        self.store_absolute_indexed(Some(IndexRegister::Y), register, bus);
    }

    fn store_indirect_indexed<B: BusInterface>(&mut self, index: Option<IndexRegister>, register: ReadRegister, bus: &mut B)
        ensures
            final(self).store_post(*old(self), Operand::Indirect(index), register),
    {
        let address = self.indirect_address(index, bus);
        let ghost (zp, lsb, msb) = choose|zp: u8, lsb: u8, msb: u8|
            self.log@ == old(self).log@ + #[trigger] indirect_prefix(index, old(self).registers, zp, lsb, msb)
                && address == indirect_target(index, old(self).registers, lsb, msb);
        let ghost prefix = indirect_prefix(index, old(self).registers, zp, lsb, msb);
        let ghost physical = map_address_spec(old(self).registers.mpr@, address);
        assert(operand_address(Operand::Indirect(index), old(self).registers, prefix, physical));
        let value = register.get(&self.registers);
        self.bus_write(self.map_address(address), value, bus);
        assert(self.log@ =~= old(self).log@ + prefix.push(BusAccess::Write { address: physical, value }));
    }

    fn store_zero_page_indirect<B: BusInterface>(&mut self, register: ReadRegister, bus: &mut B)
        ensures
            final(self).store_post(*old(self), Operand::Indirect(None), register),
    {
        self.store_indirect_indexed(None, register, bus);
    }

    fn store_zero_page_indirect_x<B: BusInterface>(&mut self, register: ReadRegister, bus: &mut B)
        ensures
            final(self).store_post(*old(self), Operand::Indirect(Some(IndexRegister::X)), register),
    {
        self.store_indirect_indexed(Some(IndexRegister::X), register, bus);
    }

    fn store_zero_page_indirect_y<B: BusInterface>(&mut self, register: ReadRegister, bus: &mut B)
        ensures
            final(self).store_post(*old(self), Operand::Indirect(Some(IndexRegister::Y)), register),
    {
        self.store_indirect_indexed(Some(IndexRegister::Y), register, bus);
    }

    /// Apply a read-modify-write operation to `operand`, updating flags; returns the result.
    fn modify_value(&mut self, op: ModifyOp, operand: u8) -> (r: u8)
        ensures
            final(self).log == old(self).log,
            final(self).frame(*old(self)),
            (r, final(self).registers.p) == modify_spec(op, old(self).registers, operand),
            final(self).registers == (Registers { p: final(self).registers.p, ..old(self).registers }),
    {
        match op {
            ModifyOp::Asl => self.asl(operand),
            ModifyOp::Lsr => self.lsr(operand),
            ModifyOp::Rol => self.rol(operand),
            ModifyOp::Ror => self.ror(operand),
            ModifyOp::Inc => self.inc(operand),
            ModifyOp::Dec => self.dec(operand),
            ModifyOp::Trb => self.trb(operand),
            ModifyOp::Tsb => self.tsb(operand),
        }
    }

    fn modify_accumulator<B: BusInterface>(&mut self, op: ModifyOp, bus: &mut B)
        ensures
            final(self).modify_acc_post(*old(self), op),
    {
        self.bus_idle(bus);

        let a = self.registers.a;
        self.registers.a = self.modify_value(op, a);
    }

    fn modify_zero_page_indexed<B: BusInterface>(&mut self, index: Option<IndexRegister>, op: ModifyOp, bus: &mut B)
        ensures
            final(self).modify_post(*old(self), op, Operand::ZeroPage(index)),
    {
        let zero_page_addr = self.fetch_operand(bus);
        self.bus_idle(bus);

        let offset = index_offset(index, &self.registers);
        let ghost prefix = zero_page_prefix(old(self).registers, zero_page_addr);
        let mapped_addr = self.map_zero_page(zero_page_addr.wrapping_add(offset));
        assert(operand_address(Operand::ZeroPage(index), old(self).registers, prefix, mapped_addr));
        assert(self.log@ =~= old(self).log@ + prefix);
        let operand = self.bus_read(mapped_addr, bus);
        self.bus_idle(bus);
        let ghost before_modify = self.registers;

        let result = self.modify_value(op, operand);
        self.bus_write(mapped_addr, result, bus);
        assert(before_modify == advance(old(self).registers, operand_len(Operand::ZeroPage(index))));
        assert(modify_spec(op, advance(old(self).registers, operand_len(Operand::ZeroPage(index))), operand) == (result, self.registers.p));
        assert(self.log@ =~= old(self).log@ + prefix + seq![
            BusAccess::Read { address: mapped_addr, value: operand },
            BusAccess::Idle,
            BusAccess::Write { address: mapped_addr, value: result },
        ]);
    }

    fn modify_zero_page<B: BusInterface>(&mut self, op: ModifyOp, bus: &mut B)
        ensures
            final(self).modify_post(*old(self), op, Operand::ZeroPage(None)),
    {
        self.modify_zero_page_indexed(None, op, bus);
    }

    fn modify_zero_page_x<B: BusInterface>(&mut self, op: ModifyOp, bus: &mut B)
        ensures
            final(self).modify_post(*old(self), op, Operand::ZeroPage(Some(IndexRegister::X))),
    {
        self.modify_zero_page_indexed(Some(IndexRegister::X), op, bus);
    }

    fn modify_absolute_indexed<B: BusInterface>(&mut self, index: Option<IndexRegister>, op: ModifyOp, bus: &mut B)
        ensures
            final(self).modify_post(*old(self), op, Operand::Absolute(index)),
    {
        let address = self.fetch_operand_u16(bus);
        let ghost lsb = choose|lsb: u8, msb: u8|
            address == (msb as u16) * 0x100 + lsb as u16 && self.log@ == old(self).log@ + seq![
                BusAccess::Read { address: map_address_spec(old(self).registers.mpr@, old(self).registers.pc), value: lsb },
                BusAccess::Read {
                    address: map_address_spec(old(self).registers.mpr@, old(self).registers.pc.wrapping_add(1)),
                    value: msb,
                },
            ];
        let ghost (lsb, msb) = lsb;
        self.bus_idle(bus);

        let offset = index_offset(index, &self.registers);
        let ghost prefix = absolute_prefix(old(self).registers, lsb, msb);
        let mapped_addr = self.map_address(address.wrapping_add(offset as u16));
        assert(word16(lsb, msb) == address);
        assert(operand_address(Operand::Absolute(index), old(self).registers, prefix, mapped_addr));
        assert(self.log@ =~= old(self).log@ + prefix);
        let operand = self.bus_read(mapped_addr, bus);
        self.bus_idle(bus);
        let ghost before_modify = self.registers;

        let result = self.modify_value(op, operand);
        self.bus_write(mapped_addr, result, bus);
        assert(before_modify == advance(old(self).registers, operand_len(Operand::Absolute(index))));
        assert(modify_spec(op, advance(old(self).registers, operand_len(Operand::Absolute(index))), operand) == (result, self.registers.p));
        assert(self.log@ =~= old(self).log@ + prefix + seq![
            BusAccess::Read { address: mapped_addr, value: operand },
            BusAccess::Idle,
            BusAccess::Write { address: mapped_addr, value: result },
        ]);
    }

    fn modify_absolute<B: BusInterface>(&mut self, op: ModifyOp, bus: &mut B)
        ensures
            final(self).modify_post(*old(self), op, Operand::Absolute(None)),
    {
        self.modify_absolute_indexed(None, op, bus);
    }

    fn modify_absolute_x<B: BusInterface>(&mut self, op: ModifyOp, bus: &mut B)
        ensures
            final(self).modify_post(*old(self), op, Operand::Absolute(Some(IndexRegister::X))),
    {
        self.modify_absolute_indexed(Some(IndexRegister::X), op, bus);
    }

    // ASL: Shift left
    fn asl(&mut self, operand: u8) -> (r: u8)
        ensures
            final(self).log == old(self).log,
            final(self).frame(*old(self)),
            (r, final(self).registers.p) == modify_spec(ModifyOp::Asl, old(self).registers, operand),
            final(self).registers == (Registers { p: final(self).registers.p, ..old(self).registers }),
            r == (2 * operand) % 256,
            final(self).registers.p.carry == (operand >= 128),
    {
        proof {
            lemma_shift_arithmetic(self.registers, operand);
        }
        let result = operand << 1;
        self.registers.p.zero = result == 0;
        self.registers.p.negative = result >= 0x80;
        self.registers.p.carry = operand >= 0x80;

        result
    }

    // LSR: Logical shift right
    fn lsr(&mut self, operand: u8) -> (r: u8)
        ensures
            final(self).log == old(self).log,
            final(self).frame(*old(self)),
            (r, final(self).registers.p) == modify_spec(ModifyOp::Lsr, old(self).registers, operand),
            final(self).registers == (Registers { p: final(self).registers.p, ..old(self).registers }),
            r == operand / 2,
            final(self).registers.p.carry == (operand % 2 == 1),
    {
        proof {
            lemma_shift_arithmetic(self.registers, operand);
        }
        let result = operand >> 1;
        self.registers.p.zero = result == 0;
        self.registers.p.negative = false;
        self.registers.p.carry = operand & 1 == 1;

        result
    }

    // ROL: Rotate left
    fn rol(&mut self, operand: u8) -> (r: u8)
        ensures
            final(self).log == old(self).log,
            final(self).frame(*old(self)),
            (r, final(self).registers.p) == modify_spec(ModifyOp::Rol, old(self).registers, operand),
            final(self).registers == (Registers { p: final(self).registers.p, ..old(self).registers }),
            r == (2 * operand) % 256 + (if old(self).registers.p.carry { 1int } else { 0int }),
            final(self).registers.p.carry == (operand >= 128),
    {
        proof {
            lemma_shift_arithmetic(self.registers, operand);
        }
        let result = (operand << 1) | (if self.registers.p.carry { 1u8 } else { 0u8 });
        self.registers.p.zero = result == 0;
        self.registers.p.negative = result >= 0x80;
        self.registers.p.carry = operand >= 0x80;

        result
    }

    // ROR: Rotate right
    fn ror(&mut self, operand: u8) -> (r: u8)
        ensures
            final(self).log == old(self).log,
            final(self).frame(*old(self)),
            (r, final(self).registers.p) == modify_spec(ModifyOp::Ror, old(self).registers, operand),
            final(self).registers == (Registers { p: final(self).registers.p, ..old(self).registers }),
            r == operand / 2 + (if old(self).registers.p.carry { 128int } else { 0int }),
            final(self).registers.p.carry == (operand % 2 == 1),
    {
        proof {
            lemma_shift_arithmetic(self.registers, operand);
        }
        let result = (operand >> 1) | (if self.registers.p.carry { 0x80u8 } else { 0u8 });
        self.registers.p.zero = result == 0;
        self.registers.p.negative = result >= 0x80;
        self.registers.p.carry = operand & 1 == 1;

        result
    }

    // INC: Increment
    fn inc(&mut self, operand: u8) -> (r: u8)
        ensures
            final(self).log == old(self).log,
            final(self).frame(*old(self)),
            (r, final(self).registers.p) == modify_spec(ModifyOp::Inc, old(self).registers, operand),
            final(self).registers == (Registers { p: final(self).registers.p, ..old(self).registers }),
    {
        let result = operand.wrapping_add(1);
        self.registers.p.zero = result == 0;
        self.registers.p.negative = result >= 0x80;

        result
    }

    // DEC: Decrement
    fn dec(&mut self, operand: u8) -> (r: u8)
        ensures
            final(self).log == old(self).log,
            final(self).frame(*old(self)),
            (r, final(self).registers.p) == modify_spec(ModifyOp::Dec, old(self).registers, operand),
            final(self).registers == (Registers { p: final(self).registers.p, ..old(self).registers }),
    {
        let result = operand.wrapping_sub(1);
        self.registers.p.zero = result == 0;
        self.registers.p.negative = result >= 0x80;

        result
    }

    // TRB: Test and reset bits
    fn trb(&mut self, operand: u8) -> (r: u8)
        ensures
            final(self).log == old(self).log,
            final(self).frame(*old(self)),
            (r, final(self).registers.p) == modify_spec(ModifyOp::Trb, old(self).registers, operand),
            final(self).registers == (Registers { p: final(self).registers.p, ..old(self).registers }),
    {
        let result = operand & !self.registers.a;
        self.registers.p.zero = result == 0;
        self.registers.p.overflow = operand & 0x40 != 0;
        self.registers.p.negative = operand >= 0x80;

        result
    }

    // TSB: Test and set bits
    fn tsb(&mut self, operand: u8) -> (r: u8)
        ensures
            final(self).log == old(self).log,
            final(self).frame(*old(self)),
            (r, final(self).registers.p) == modify_spec(ModifyOp::Tsb, old(self).registers, operand),
            final(self).registers == (Registers { p: final(self).registers.p, ..old(self).registers }),
    {
        let result = operand | self.registers.a;
        self.registers.p.zero = result == 0;
        self.registers.p.overflow = operand & 0x40 != 0;
        self.registers.p.negative = operand >= 0x80;

        result
    }

    // INX: Increment X
    fn inx(&mut self)
        ensures
            final(self).frame(*old(self)),
            final(self).registers == (Registers {
                x: old(self).registers.x.wrapping_add(1),
                p: nz(old(self).registers.p, old(self).registers.x.wrapping_add(1)),
                ..old(self).registers
            }),
    {
        let result = self.registers.x.wrapping_add(1);
        self.registers.x = result;

        self.registers.p.zero = result == 0;
        self.registers.p.negative = result >= 0x80;
    }

    // INY: Increment Y
    fn iny(&mut self)
        ensures
            final(self).frame(*old(self)),
            final(self).registers == (Registers {
                y: old(self).registers.y.wrapping_add(1),
                p: nz(old(self).registers.p, old(self).registers.y.wrapping_add(1)),
                ..old(self).registers
            }),
    {
        let result = self.registers.y.wrapping_add(1);
        self.registers.y = result;

        self.registers.p.zero = result == 0;
        self.registers.p.negative = result >= 0x80;
    }

    // DEX: Decrement X
    fn dex(&mut self)
        ensures
            final(self).frame(*old(self)),
            final(self).registers == (Registers {
                x: old(self).registers.x.wrapping_sub(1),
                p: nz(old(self).registers.p, old(self).registers.x.wrapping_sub(1)),
                ..old(self).registers
            }),
    {
        let result = self.registers.x.wrapping_sub(1);
        self.registers.x = result;

        self.registers.p.zero = result == 0;
        self.registers.p.negative = result >= 0x80;
    }

    // DEY: Decrement Y
    fn dey(&mut self)
        ensures
            final(self).frame(*old(self)),
            final(self).registers == (Registers {
                y: old(self).registers.y.wrapping_sub(1),
                p: nz(old(self).registers.p, old(self).registers.y.wrapping_sub(1)),
                ..old(self).registers
            }),
    {
        let result = self.registers.y.wrapping_sub(1);
        self.registers.y = result;

        self.registers.p.zero = result == 0;
        self.registers.p.negative = result >= 0x80;
    }

    fn conditional_branch<B: BusInterface>(&mut self, condition: bool, bus: &mut B)
        ensures
            final(self).branch_post(*old(self), 1, condition),
    {
        let displacement = self.fetch_operand(bus);

        if !condition {
            return;
        }

        self.bus_idle(bus);
        self.bus_idle(bus);

        self.registers.pc = self.registers.pc.wrapping_add_signed(displacement as i8 as i16);
        assert(self.registers == with_pc(
            old(self).registers,
            old(self).registers.pc.wrapping_add(1).wrapping_add_signed(displacement as i8 as i16),
        ));
    }

    // JMP: Jump to new location
    fn jmp_absolute<B: BusInterface>(&mut self, bus: &mut B)
        ensures
            final(self).frame(*old(self)),
            final(self).registers == with_pc(old(self).registers, final(self).registers.pc),
    {
        self.registers.pc = self.fetch_operand_u16(bus);

        self.bus_idle(bus);
    }

    fn jmp_indirect_indexed<B: BusInterface>(&mut self, index: Option<IndexRegister>, bus: &mut B)
        ensures
            final(self).frame(*old(self)),
            final(self).registers == with_pc(old(self).registers, final(self).registers.pc),
            final(self).interrupts_polled(),
    {
        let address = self.fetch_operand_u16(bus);
        self.bus_idle(bus);

        let offset = index_offset(index, &self.registers);
        let indexed_addr = address.wrapping_add(offset as u16);

        let pc_lsb = self.bus_read(self.map_address(indexed_addr), bus);
        let pc_msb = self.bus_read(self.map_address(indexed_addr.wrapping_add(1)), bus);
        self.registers.pc = (pc_msb as u16) * 0x100 + pc_lsb as u16;

        self.bus_idle(bus);
    }

    // JMP: Jump to new location
    fn jmp_absolute_indirect<B: BusInterface>(&mut self, bus: &mut B)
        ensures
            final(self).frame(*old(self)),
            final(self).registers == with_pc(old(self).registers, final(self).registers.pc),
    {
        self.jmp_indirect_indexed(None, bus);
    }

    // JMP: Jump to new location
    fn jmp_absolute_indirect_x<B: BusInterface>(&mut self, bus: &mut B)
        ensures
            final(self).frame(*old(self)),
            final(self).registers == with_pc(old(self).registers, final(self).registers.pc),
    {
        self.jmp_indirect_indexed(Some(IndexRegister::X), bus);
    }

    // JSR: Jump to subroutine
    fn jsr<B: BusInterface>(&mut self, bus: &mut B)
        ensures
            final(self).frame(*old(self)),
            final(self).registers == (Registers {
                s: old(self).registers.s.wrapping_sub(2),
                pc: final(self).registers.pc,
                ..old(self).registers
            }),
    {
        let pc_lsb = self.fetch_operand(bus);
        self.bus_idle(bus);

        self.push_stack_u16(self.registers.pc, bus);

        let pc_msb = self.fetch_operand(bus);
        self.registers.pc = (pc_msb as u16) * 0x100 + pc_lsb as u16;

        self.bus_idle(bus);
    }

    // BSR: Branch to subroutine
    fn bsr<B: BusInterface>(&mut self, bus: &mut B)
        ensures
            final(self).frame(*old(self)),
            exists|d: u8|
                final(self).registers == (Registers {
                    s: old(self).registers.s.wrapping_sub(2),
                    pc: #[trigger] old(self).registers.pc.wrapping_add(1).wrapping_add_signed(d as i8 as i16),
                    ..old(self).registers
                }),
    {
        let displacement = self.fetch_operand(bus);
        self.bus_idle(bus);
        self.bus_idle(bus);

        self.push_stack_u16(self.registers.pc.wrapping_sub(1), bus);
        self.bus_idle(bus);

        self.registers.pc = self.registers.pc.wrapping_add_signed(displacement as i8 as i16);

        self.bus_idle(bus);
        assert(self.registers.pc == old(self).registers.pc.wrapping_add(1).wrapping_add_signed(displacement as i8 as i16));
    }

    // RTS: Return from subroutine
    fn rts<B: BusInterface>(&mut self, bus: &mut B)
        ensures
            final(self).frame(*old(self)),
            final(self).registers == (Registers {
                s: old(self).registers.s.wrapping_add(2),
                pc: final(self).registers.pc,
                ..old(self).registers
            }),
    {
        self.bus_idle(bus);
        self.bus_idle(bus);
        self.registers.pc = self.pull_stack_u16(bus);
        self.bus_idle(bus);

        // Advance PC
        self.fetch_operand(bus);
    }

    // RTI: Return from interrupt
    fn rti<B: BusInterface>(&mut self, bus: &mut B)
        ensures
            final(self).frame(*old(self)),
            exists|status: u8|
                final(self).registers == (Registers {
                    s: old(self).registers.s.wrapping_add(3),
                    pc: final(self).registers.pc,
                    p: #[trigger] flags_from_byte(status),
                    ..old(self).registers
                }),
    {
        self.bus_idle(bus);
        let status = self.pull_stack(bus);
        self.registers.p = Flags::from_byte(status);
        self.registers.pc = self.pull_stack_u16(bus);
        self.bus_idle(bus);

        self.bus_idle(bus);
        assert(self.registers.p == flags_from_byte(status));
    }

    fn push_register<B: BusInterface>(&mut self, value: u8, bus: &mut B)
        ensures
            final(self).frame(*old(self)),
            final(self).registers == (Registers { s: old(self).registers.s.wrapping_sub(1), ..old(self).registers }),
    {
        self.bus_idle(bus);

        self.push_stack(value, bus);
    }

    // PHA: Push A
    fn pha<B: BusInterface>(&mut self, bus: &mut B)
        ensures
            final(self).frame(*old(self)),
            final(self).registers == (Registers { s: old(self).registers.s.wrapping_sub(1), ..old(self).registers }),
    {
        self.push_register(self.registers.a, bus);
    }

    // PHP: Push P
    fn php<B: BusInterface>(&mut self, bus: &mut B)
        ensures
            final(self).frame(*old(self)),
            final(self).registers == (Registers { s: old(self).registers.s.wrapping_sub(1), ..old(self).registers }),
    {
        // PHP always pushes P with the B flag set
        self.push_register(self.registers.p.to_u8_brk(), bus);
    }

    // PHX: Push X
    fn phx<B: BusInterface>(&mut self, bus: &mut B)
        ensures
            final(self).frame(*old(self)),
            final(self).registers == (Registers { s: old(self).registers.s.wrapping_sub(1), ..old(self).registers }),
    {
        self.push_register(self.registers.x, bus);
    }

    // PHY: Push Y
    fn phy<B: BusInterface>(&mut self, bus: &mut B)
        ensures
            final(self).frame(*old(self)),
            final(self).registers == (Registers { s: old(self).registers.s.wrapping_sub(1), ..old(self).registers }),
    {
        self.push_register(self.registers.y, bus);
    }

    fn pull_register<B: BusInterface>(&mut self, bus: &mut B) -> (r: u8)
        ensures
            final(self).frame(*old(self)),
            final(self).registers == (Registers { s: old(self).registers.s.wrapping_add(1), ..old(self).registers }),
    {
        self.bus_idle(bus);
        self.bus_idle(bus);

        self.pull_stack(bus)
    }

    // PLA: Pull A
    fn pla<B: BusInterface>(&mut self, bus: &mut B)
        ensures
            final(self).frame(*old(self)),
            final(self).registers == (Registers {
                s: old(self).registers.s.wrapping_add(1),
                a: final(self).registers.a,
                ..old(self).registers
            }),
    {
        self.registers.a = self.pull_register(bus);
    }

    // PLP: Pull P
    fn plp<B: BusInterface>(&mut self, bus: &mut B)
        ensures
            final(self).frame(*old(self)),
            exists|status: u8|
                final(self).registers == (Registers {
                    s: old(self).registers.s.wrapping_add(1),
                    p: #[trigger] flags_from_byte(status),
                    ..old(self).registers
                }),
    {
        let status = self.pull_register(bus);
        self.registers.p = Flags::from_byte(status);
        assert(self.registers.p == flags_from_byte(status));
    }

    // PLX: Pull X
    fn plx<B: BusInterface>(&mut self, bus: &mut B)
        ensures
            final(self).frame(*old(self)),
            final(self).registers == (Registers {
                s: old(self).registers.s.wrapping_add(1),
                x: final(self).registers.x,
                ..old(self).registers
            }),
    {
        self.registers.x = self.pull_register(bus);
    }

    // PLY: Pull Y
    fn ply<B: BusInterface>(&mut self, bus: &mut B)
        ensures
            final(self).frame(*old(self)),
            final(self).registers == (Registers {
                s: old(self).registers.s.wrapping_add(1),
                y: final(self).registers.y,
                ..old(self).registers
            }),
    {
        self.registers.y = self.pull_register(bus);
    }

    /// Set (`set`) or clear bit `i` of a zero page byte
    fn update_memory_bit<B: BusInterface>(&mut self, set: bool, i: u8, bus: &mut B)
        requires
            i < 8,
        ensures
            final(self).bit_update_post(*old(self), set, i),
    {
        let zero_page_addr = self.fetch_operand(bus);
        self.bus_idle(bus);

        let mapped_addr = self.map_zero_page(zero_page_addr);
        let ghost prefix = zero_page_prefix(old(self).registers, zero_page_addr);
        assert(zero_page_addr.wrapping_add(index_spec(None, old(self).registers)) == zero_page_addr);
        assert(operand_address(Operand::ZeroPage(None), old(self).registers, prefix, mapped_addr));
        let value = self.bus_read(mapped_addr, bus);
        self.bus_idle(bus);
        self.bus_idle(bus);

        let result = if set { value | (1u8 << i) } else { value & !(1u8 << i) };
        self.bus_write(mapped_addr, result, bus);
        assert(result == with_bit(value, i, set));
        assert(self.log@ =~= old(self).log@ + prefix + seq![
            BusAccess::Read { address: mapped_addr, value },
            BusAccess::Idle,
            BusAccess::Idle,
            BusAccess::Write { address: mapped_addr, value: with_bit(value, i, set) },
        ]);
    }

    // RMBi: Reset memory bit
    fn rmbi<B: BusInterface>(&mut self, opcode: u8, bus: &mut B)
        ensures
            final(self).bit_update_post(*old(self), false, (opcode >> 4) % 8),
    {
        let i = (opcode >> 4) % 8;
        self.update_memory_bit(false, i, bus);
    }

    // SMBi: Set memory bit
    fn smbi<B: BusInterface>(&mut self, opcode: u8, bus: &mut B)
        ensures
            final(self).bit_update_post(*old(self), true, (opcode >> 4) % 8),
    {
        let i = (opcode >> 4) % 8;
        self.update_memory_bit(true, i, bus);
    }

    /// Branch if bit `i` of a zero page byte equals `set`
    fn branch_on_bit<B: BusInterface>(&mut self, set: bool, i: u8, bus: &mut B)
        requires
            i < 8,
        ensures
            final(self).frame(*old(self)),
            final(self).registers == advance(old(self).registers, 2) || exists|d: u8|
                final(self).registers == with_pc(
                    old(self).registers,
                    #[trigger] old(self).registers.pc.wrapping_add(2).wrapping_add_signed(d as i8 as i16),
                ),
    {
        let zero_page_addr = self.fetch_operand(bus);
        let displacement = self.fetch_operand(bus);
        self.bus_idle(bus);

        let mapped_addr = self.map_zero_page(zero_page_addr);
        let value = self.bus_read(mapped_addr, bus);

        self.bus_idle(bus);

        if ((value >> i) & 1 == 1) != set {
            return;
        }

        self.bus_idle(bus);
        self.bus_idle(bus);

        self.registers.pc = self.registers.pc.wrapping_add_signed(displacement as i8 as i16);
        assert(self.registers == with_pc(
            old(self).registers,
            old(self).registers.pc.wrapping_add(2).wrapping_add_signed(displacement as i8 as i16),
        ));
    }

    // BBRi: Branch on bit reset
    fn bbri<B: BusInterface>(&mut self, opcode: u8, bus: &mut B)
        ensures
            final(self).frame(*old(self)),
            final(self).registers == advance(old(self).registers, 2) || exists|d: u8|
                final(self).registers == with_pc(
                    old(self).registers,
                    #[trigger] old(self).registers.pc.wrapping_add(2).wrapping_add_signed(d as i8 as i16),
                ),
    {
        let i = (opcode >> 4) % 8;
        self.branch_on_bit(false, i, bus);
    }

    // BBSi: Branch on bit set
    fn bbsi<B: BusInterface>(&mut self, opcode: u8, bus: &mut B)
        ensures
            final(self).frame(*old(self)),
            final(self).registers == advance(old(self).registers, 2) || exists|d: u8|
                final(self).registers == with_pc(
                    old(self).registers,
                    #[trigger] old(self).registers.pc.wrapping_add(2).wrapping_add_signed(d as i8 as i16),
                ),
    {
        let i = (opcode >> 4) % 8;
        self.branch_on_bit(true, i, bus);
    }

    // CLA: Clear A
    fn cla<B: BusInterface>(&mut self, bus: &mut B)
        ensures
            final(self).frame(*old(self)),
            final(self).registers == (Registers { a: 0, ..old(self).registers }),
    {
        self.bus_idle(bus);

        self.registers.a = 0;
    }

    // CLX: Clear X
    fn clx<B: BusInterface>(&mut self, bus: &mut B)
        ensures
            final(self).frame(*old(self)),
            final(self).registers == (Registers { x: 0, ..old(self).registers }),
    {
        self.bus_idle(bus);

        self.registers.x = 0;
    }

    // CLY: Clear Y
    fn cly<B: BusInterface>(&mut self, bus: &mut B)
        ensures
            final(self).frame(*old(self)),
            final(self).registers == (Registers { y: 0, ..old(self).registers }),
    {
        self.bus_idle(bus);

        self.registers.y = 0;
    }

    // SAX: Swap A for X
    fn sax<B: BusInterface>(&mut self, bus: &mut B)
        ensures
            final(self).frame(*old(self)),
            final(self).registers == (Registers { a: old(self).registers.x, x: old(self).registers.a, ..old(self).registers }),
    {
        self.bus_idle(bus);
        self.bus_idle(bus);

        let a = self.registers.a;
        self.registers.a = self.registers.x;
        self.registers.x = a;
    }

    // SAY: Swap A for Y
    fn say<B: BusInterface>(&mut self, bus: &mut B)
        ensures
            final(self).frame(*old(self)),
            final(self).registers == (Registers { a: old(self).registers.y, y: old(self).registers.a, ..old(self).registers }),
    {
        self.bus_idle(bus);
        self.bus_idle(bus);

        let a = self.registers.a;
        self.registers.a = self.registers.y;
        self.registers.y = a;
    }

    // SXY: Swap X for Y
    fn sxy<B: BusInterface>(&mut self, bus: &mut B)
        ensures
            final(self).frame(*old(self)),
            final(self).registers == (Registers { x: old(self).registers.y, y: old(self).registers.x, ..old(self).registers }),
    {
        self.bus_idle(bus);
        self.bus_idle(bus);

        let x = self.registers.x;
        self.registers.x = self.registers.y;
        self.registers.y = x;
    }

    fn transfer<B: BusInterface>(&mut self, from: ReadRegister, to: RwRegister, bus: &mut B)
        ensures
            final(self).frame(*old(self)),
            final(self).registers == transfer_spec(from, to, old(self).registers),
    {
        self.bus_idle(bus);

        let value = from.get(&self.registers);
        to.set(&mut self.registers, value);

        // TXS does not set flags
        if to != RwRegister::S {
            self.registers.p.zero = value == 0;
            self.registers.p.negative = value >= 0x80;
        }
    }

    // TST: Test memory
    fn tst(&mut self, memory_value: u8, operand: u8)
        ensures
            final(self).frame(*old(self)),
            final(self).registers == (Registers { p: tst_spec(old(self).registers.p, memory_value, operand), ..old(self).registers }),
    {
        self.registers.p.zero = memory_value & operand == 0;
        self.registers.p.overflow = memory_value & 0x40 != 0;
        self.registers.p.negative = memory_value >= 0x80;
    }

    fn tst_zero_page_indexed<B: BusInterface>(&mut self, index: Option<IndexRegister>, bus: &mut B)
        ensures
            final(self).frame(*old(self)),
            exists|m: u8, imm: u8|
                final(self).registers == (Registers { p: #[trigger] tst_spec(old(self).registers.p, m, imm), ..advance(old(self).registers, 2) }),
    {
        let operand = self.fetch_operand(bus);
        let zero_page_addr = self.fetch_operand(bus);
        self.bus_idle(bus);
        self.bus_idle(bus);

        let offset = index_offset(index, &self.registers);
        let indexed_addr = zero_page_addr.wrapping_add(offset);
        let memory_value = self.bus_read(self.map_zero_page(indexed_addr), bus);
        self.bus_idle(bus);

        self.tst(memory_value, operand);
        assert(self.registers.p == tst_spec(old(self).registers.p, memory_value, operand));
    }

    fn tst_absolute_indexed<B: BusInterface>(&mut self, index: Option<IndexRegister>, bus: &mut B)
        ensures
            final(self).frame(*old(self)),
            exists|m: u8, imm: u8|
                final(self).registers == (Registers { p: #[trigger] tst_spec(old(self).registers.p, m, imm), ..advance(old(self).registers, 3) }),
    {
        let operand = self.fetch_operand(bus);
        let address = self.fetch_operand_u16(bus);
        self.bus_idle(bus);
        self.bus_idle(bus);

        let offset = index_offset(index, &self.registers);
        let indexed_addr = address.wrapping_add(offset as u16);
        let memory_value = self.bus_read(self.map_address(indexed_addr), bus);
        self.bus_idle(bus);

        self.tst(memory_value, operand);
        assert(self.registers.p == tst_spec(old(self).registers.p, memory_value, operand));
    }

    fn tst_zero_page<B: BusInterface>(&mut self, bus: &mut B)
        ensures
            final(self).frame(*old(self)),
            exists|m: u8, imm: u8|
                final(self).registers == (Registers { p: #[trigger] tst_spec(old(self).registers.p, m, imm), ..advance(old(self).registers, 2) }),
    {
        self.tst_zero_page_indexed(None, bus);
    }

    fn tst_zero_page_x<B: BusInterface>(&mut self, bus: &mut B)
        ensures
            final(self).frame(*old(self)),
            exists|m: u8, imm: u8|
                final(self).registers == (Registers { p: #[trigger] tst_spec(old(self).registers.p, m, imm), ..advance(old(self).registers, 2) }),
    {
        self.tst_zero_page_indexed(Some(IndexRegister::X), bus);
    }

    fn tst_absolute<B: BusInterface>(&mut self, bus: &mut B)
        ensures
            final(self).frame(*old(self)),
            exists|m: u8, imm: u8|
                final(self).registers == (Registers { p: #[trigger] tst_spec(old(self).registers.p, m, imm), ..advance(old(self).registers, 3) }),
    {
        self.tst_absolute_indexed(None, bus);
    }

    fn tst_absolute_x<B: BusInterface>(&mut self, bus: &mut B)
        ensures
            final(self).frame(*old(self)),
            exists|m: u8, imm: u8|
                final(self).registers == (Registers { p: #[trigger] tst_spec(old(self).registers.p, m, imm), ..advance(old(self).registers, 3) }),
    {
        self.tst_absolute_indexed(Some(IndexRegister::X), bus);
    }

    /// ST0/ST1/ST2: Store HuC6270 (VDC); these always write to VDC physical addresses and do
    /// not use the MPRs
    fn sti<B: BusInterface>(&mut self, i: u8, bus: &mut B)
        requires
            i < 3,
        ensures
            final(self).vdc_store_post(*old(self), i),
    {
        let vdc_address: u32 = if i == 0 {
            0x1FE000
        } else if i == 1 {
            0x1FE002
        } else {
            0x1FE003
        };

        let data = self.fetch_operand(bus);
        self.bus_idle(bus);
        self.bus_write(vdc_address, data, bus);
        assert(self.log@ =~= old(self).log@ + vdc_accesses(old(self).registers, i, data));
    }

    fn st0<B: BusInterface>(&mut self, bus: &mut B)
        ensures
            final(self).vdc_store_post(*old(self), 0),
    {
        self.sti(0, bus);
    }

    fn st1<B: BusInterface>(&mut self, bus: &mut B)
        ensures
            final(self).vdc_store_post(*old(self), 1),
    {
        self.sti(1, bus);
    }

    fn st2<B: BusInterface>(&mut self, bus: &mut B)
        ensures
            final(self).vdc_store_post(*old(self), 2),
    {
        self.sti(2, bus);
    }

    // TAMi: Transfer A to MPR
    fn tam<B: BusInterface>(&mut self, bus: &mut B)
        ensures
            final(self).state.memory_op_at_fetch == old(self).state.memory_op_at_fetch,
            final(self).state.block_transfer == old(self).state.block_transfer,
            final(self).registers == (Registers { mpr: final(self).registers.mpr, ..advance(old(self).registers, 1) }),
            exists|bits: u8|
                #![trigger tam_spec(old(self).registers.mpr@, old(self).registers.a, bits)]
                final(self).registers.mpr@ == tam_spec(old(self).registers.mpr@, old(self).registers.a, bits)
                && final(self).state.mpr_buffer == (if bits == 0 { old(self).state.mpr_buffer } else { old(self).registers.a }),
    {
        self.bus_idle(bus);
        self.bus_idle(bus);
        self.bus_idle(bus);

        let bits = self.fetch_operand(bus);
        let ghost before = self.registers.mpr@;
        if bits != 0 {
            self.state.mpr_buffer = self.registers.a;
            let ghost pre = *self;

            // If multiple bits are set, A gets copied to each MPR whose bit is set
            let mut i: usize = 0;
            while i < 8
                invariant
                    i <= 8,
                    self.registers.a == old(self).registers.a,
                    self.registers == (Registers { mpr: self.registers.mpr, ..pre.registers }),
                    self.state == pre.state,
                    before == pre.registers.mpr@,
                    self.registers.mpr@.len() == 8,
                    forall|j: int| 0 <= j < i ==> self.registers.mpr@[j] == tam_spec(before, self.registers.a, bits)[j],
                    forall|j: int| i <= j < 8 ==> self.registers.mpr@[j] == before[j],
                decreases 8 - i,
            {
                if (bits >> (i as u8)) & 1 == 1 {
                    self.registers.mpr[i] = self.registers.a;
                }
                i += 1;
            }
        }
        if bits == 0 {
            assert forall|j: int| 0 <= j < 8 implies #[trigger] tam_spec(before, old(self).registers.a, bits)[j] == before[j] by {
                let k = j as u8;
                assert((0u8 >> k) & 1 == 0) by (bit_vector);
            }
        }
        assert(self.registers.mpr@ =~= tam_spec(before, old(self).registers.a, bits));
    }

    // TMAi: Transfer MPR to A
    fn tma<B: BusInterface>(&mut self, bus: &mut B)
        ensures
            final(self).state.memory_op_at_fetch == old(self).state.memory_op_at_fetch,
            final(self).state.block_transfer == old(self).state.block_transfer,
            final(self).registers == (Registers { a: final(self).registers.a, ..advance(old(self).registers, 1) }),
            final(self).state.mpr_buffer == final(self).registers.a,
            exists|bits: u8|
                #![trigger tma_spec(old(self).registers.mpr@, old(self).state.mpr_buffer, bits)]
                final(self).registers.a == tma_spec(old(self).registers.mpr@, old(self).state.mpr_buffer, bits),
    {
        self.bus_idle(bus);
        self.bus_idle(bus);

        let bits = self.fetch_operand(bus);
        if bits == 0 {
            self.registers.a = self.state.mpr_buffer;
        } else {
            // If multiple bits are set, the results are "combined" in some way
            // Unclear exactly how; this is probably not accurate
            let mut value: u8 = 0xFF;
            let mut i: usize = 0;
            while i < 8
                invariant
                    i <= 8,
                    self.registers.mpr@.len() == 8,
                    value == tma_and(self.registers.mpr@, bits, i as int),
                decreases 8 - i,
            {
                if (bits >> (i as u8)) & 1 == 1 {
                    value &= self.registers.mpr[i];
                }
                i += 1;
            }
            self.registers.a = value;
        }

        self.state.mpr_buffer = self.registers.a;
        assert(self.registers.a == tma_spec(old(self).registers.mpr@, old(self).state.mpr_buffer, bits));
    }

    // CSH: Clock speed high
    fn csh<B: BusInterface>(&mut self, bus: &mut B)
        ensures
            final(self).frame(*old(self)),
            final(self).registers == old(self).registers,
    {
        self.bus_idle(bus);
        bus.set_clock_speed(ClockSpeed::High);
        self.bus_idle(bus);
    }

    // CSL: Clock speed low
    fn csl<B: BusInterface>(&mut self, bus: &mut B)
        ensures
            final(self).frame(*old(self)),
            final(self).registers == old(self).registers,
    {
        self.bus_idle(bus);
        bus.set_clock_speed(ClockSpeed::Low);
        self.bus_idle(bus);
    }

    fn start_block_transfer<B: BusInterface>(&mut self, source_step: BlockTransferStep, destination_step: BlockTransferStep, bus: &mut B)
        requires
            old(self).state.block_transfer is None,
        ensures
            final(self).registers == (Registers { s: old(self).registers.s.wrapping_sub(3), ..advance(old(self).registers, 6) }),
            final(self).state.memory_op_at_fetch == old(self).state.memory_op_at_fetch,
            final(self).state.block_transfer matches Some(t) && t.source_step == source_step
                && t.destination_step == destination_step && t.count == 0,
            final(self).state.memory_op_at_fetch == old(self).state.memory_op_at_fetch,
            final(self).state.mpr_buffer == old(self).state.mpr_buffer,
    {
        self.bus_idle(bus);

        self.push_stack(self.registers.y, bus);
        self.push_stack(self.registers.a, bus);
        self.push_stack(self.registers.x, bus);

        self.bus_idle(bus);

        let source = self.fetch_operand_u16(bus);
        let destination = self.fetch_operand_u16(bus);
        let length = self.fetch_operand_u16(bus);

        self.bus_idle(bus);

        self.state.block_transfer = Some(BlockTransferState {
            source,
            destination,
            length,
            source_step,
            destination_step,
            count: 0,
        });
    }

    fn progress_block_transfer<B: BusInterface>(&mut self, bus: &mut B)
        requires
            old(self).state.block_transfer is Some,
        ensures
            block_transfer_progressed(*final(self), *old(self), final(self).log@, old(self).log@),
    {
        let mut state = match self.state.block_transfer {
            Some(state) => state,
            None => {
                return;
            },
        };

        let ghost t = state;
        let ghost r = self.registers;
        bus.idle();
        self.log = Ghost(self.log@.push(BusAccess::Idle));

        let source_addr = self.registers.map_address(state.source);
        let value = if 0x1FE800 <= source_addr && source_addr <= 0x1FF7FF {
            // Block transfer cannot read from non-VDC I/O addresses
            0
        } else {
            let v = bus.read(source_addr);
            self.log = Ghost(self.log@.push(BusAccess::Read { address: source_addr, value: v }));
            v
        };

        bus.idle();
        self.log = Ghost(self.log@.push(BusAccess::Idle));

        let dest_addr = self.registers.map_address(state.destination);
        bus.write(dest_addr, value);
        self.log = Ghost(self.log@.push(BusAccess::Write { address: dest_addr, value }));

        bus.idle();
        self.log = Ghost(self.log@.push(BusAccess::Idle));
        bus.idle();
        self.log = Ghost(self.log@.push(BusAccess::Idle));
        assert(self.log@ =~= old(self).log@ + block_step_accesses(r, t, value));
        let ghost step_accesses = self.log@;

        state.source = state.source_step.apply(state.source, state.count);
        state.destination = state.destination_step.apply(state.destination, state.count);
        state.count = state.count.wrapping_add(1);

        let length_overflow = state.length == 0;
        state.length = state.length.wrapping_sub(1);
        self.state.block_transfer = Some(state);

        if length_overflow {
            bus.idle();
            self.log = Ghost(self.log@.push(BusAccess::Idle));

            self.registers.x = self.pull_stack(bus);
            self.registers.a = self.pull_stack(bus);
            self.registers.y = self.pull_stack(bus);

            self.state.block_transfer = None;
            assert(self.log@ =~= step_accesses + seq![
                BusAccess::Idle,
                BusAccess::Read { address: stack_address(r, r.s.wrapping_add(1)), value: self.registers.x },
                BusAccess::Read { address: stack_address(r, r.s.wrapping_add(2)), value: self.registers.a },
                BusAccess::Read { address: stack_address(r, r.s.wrapping_add(3)), value: self.registers.y },
            ]);
        }
        assert(block_transfer_progressed(*self, *old(self), self.log@, old(self).log@));
    }

    // TAI: Transfer block data (source alternate, dest increment)
    fn tai<B: BusInterface>(&mut self, bus: &mut B)
        requires
            old(self).state.block_transfer is None,
        ensures
            final(self).registers == (Registers { s: old(self).registers.s.wrapping_sub(3), ..advance(old(self).registers, 6) }),
            final(self).state.memory_op_at_fetch == old(self).state.memory_op_at_fetch,
            final(self).state.block_transfer matches Some(t) && t.source_step == BlockTransferStep::Alternate
                && t.destination_step == BlockTransferStep::Increment,
    {
        self.start_block_transfer(BlockTransferStep::Alternate, BlockTransferStep::Increment, bus);
    }

    // TDD: Transfer block data (source decrement, dest decrement)
    fn tdd<B: BusInterface>(&mut self, bus: &mut B)
        requires
            old(self).state.block_transfer is None,
        ensures
            final(self).registers == (Registers { s: old(self).registers.s.wrapping_sub(3), ..advance(old(self).registers, 6) }),
            final(self).state.memory_op_at_fetch == old(self).state.memory_op_at_fetch,
            final(self).state.block_transfer matches Some(t) && t.source_step == BlockTransferStep::Decrement
                && t.destination_step == BlockTransferStep::Decrement,
    {
        self.start_block_transfer(BlockTransferStep::Decrement, BlockTransferStep::Decrement, bus);
    }

    // TIA: Transfer block data (source increment, dest alternate)
    fn tia<B: BusInterface>(&mut self, bus: &mut B)
        requires
            old(self).state.block_transfer is None,
        ensures
            final(self).registers == (Registers { s: old(self).registers.s.wrapping_sub(3), ..advance(old(self).registers, 6) }),
            final(self).state.memory_op_at_fetch == old(self).state.memory_op_at_fetch,
            final(self).state.block_transfer matches Some(t) && t.source_step == BlockTransferStep::Increment
                && t.destination_step == BlockTransferStep::Alternate,
    {
        self.start_block_transfer(BlockTransferStep::Increment, BlockTransferStep::Alternate, bus);
    }

    // TII: Transfer block data (source increment, dest increment)
    fn tii<B: BusInterface>(&mut self, bus: &mut B)
        requires
            old(self).state.block_transfer is None,
        ensures
            final(self).registers == (Registers { s: old(self).registers.s.wrapping_sub(3), ..advance(old(self).registers, 6) }),
            final(self).state.memory_op_at_fetch == old(self).state.memory_op_at_fetch,
            final(self).state.block_transfer matches Some(t) && t.source_step == BlockTransferStep::Increment
                && t.destination_step == BlockTransferStep::Increment,
    {
        self.start_block_transfer(BlockTransferStep::Increment, BlockTransferStep::Increment, bus);
    }

    // TIN: Transfer block data (source increment, dest none)
    fn tin<B: BusInterface>(&mut self, bus: &mut B)
        requires
            old(self).state.block_transfer is None,
        ensures
            final(self).registers == (Registers { s: old(self).registers.s.wrapping_sub(3), ..advance(old(self).registers, 6) }),
            final(self).state.memory_op_at_fetch == old(self).state.memory_op_at_fetch,
            final(self).state.block_transfer matches Some(t) && t.source_step == BlockTransferStep::Increment
                && t.destination_step == BlockTransferStep::Stay,
    {
        self.start_block_transfer(BlockTransferStep::Increment, BlockTransferStep::Stay, bus);
    }

    fn handle_interrupt<B: BusInterface>(&mut self, interrupt: InterruptType, bus: &mut B)
        ensures
            !final(self).state.pending_interrupt,
            interrupt != InterruptType::Brk ==> exists|dummy: u8, lsb: u8, msb: u8|
                final(self).log@ == old(self).log@ + interrupt_accesses(
                    old(self).registers,
                    flags_byte(old(self).registers.p),
                    vector_address_spec(interrupt),
                    dummy,
                    lsb,
                    msb,
                ) && final(self).registers.pc == msb * 0x100 + lsb,
            final(self).frame(*old(self)),
            final(self).registers == (Registers {
                s: old(self).registers.s.wrapping_sub(3),
                pc: final(self).registers.pc,
                p: Flags { memory_op: false, decimal: false, irq_disable: true, ..old(self).registers.p },
                ..old(self).registers
            }),
    {
        // Dummy read; BRK advances PC
        let mut dummy: u8 = 0;
        match interrupt {
            InterruptType::Brk => {
                self.fetch_operand(bus);
            },
            _ => {
                dummy = self.bus_read(self.map_address(self.registers.pc), bus);
            },
        }

        self.push_stack_u16(self.registers.pc, bus);

        let status = match interrupt {
            InterruptType::Brk => self.registers.p.to_u8_brk(),
            _ => self.registers.p.to_u8_interrupt(),
        };
        self.push_stack(status, bus);

        self.registers.p.memory_op = false;
        self.registers.p.decimal = false;
        self.registers.p.irq_disable = true;

        let vector_addr = interrupt.vector_address();
        let pc_lsb = self.bus_read(self.map_address(vector_addr), bus);
        let pc_msb = self.bus_read(self.map_address(vector_addr.wrapping_add(1)), bus);
        self.registers.pc = (pc_msb as u16) * 0x100 + pc_lsb as u16;

        self.bus_idle(bus);
        if interrupt != InterruptType::Brk {
            assert(final(self).log@ =~= old(self).log@ + interrupt_accesses(
                old(self).registers,
                flags_byte(old(self).registers.p),
                vector_address_spec(interrupt),
                dummy,
                pc_lsb,
                pc_msb,
            ));
        }
    }

    fn lda_immediate<B: BusInterface>(&mut self, bus: &mut B)
        ensures
            final(self).read_post(*old(self), ReadOp::Lda, Operand::Immediate),
    {
        let v = self.read_immediate(bus);
        self.lda(v);
    }

    fn lda_zero_page<B: BusInterface>(&mut self, bus: &mut B)
        ensures
            final(self).read_post(*old(self), ReadOp::Lda, Operand::ZeroPage(None)),
    {
        let v = self.read_zero_page(bus);
        self.lda(v);
    }

    fn lda_zero_page_x<B: BusInterface>(&mut self, bus: &mut B)
        ensures
            final(self).read_post(*old(self), ReadOp::Lda, Operand::ZeroPage(Some(IndexRegister::X))),
    {
        let v = self.read_zero_page_x(bus);
        self.lda(v);
    }

    fn lda_absolute<B: BusInterface>(&mut self, bus: &mut B)
        ensures
            final(self).read_post(*old(self), ReadOp::Lda, Operand::Absolute(None)),
    {
        let v = self.read_absolute(bus);
        self.lda(v);
    }

    fn lda_absolute_x<B: BusInterface>(&mut self, bus: &mut B)
        ensures
            final(self).read_post(*old(self), ReadOp::Lda, Operand::Absolute(Some(IndexRegister::X))),
    {
        let v = self.read_absolute_x(bus);
        self.lda(v);
    }

    fn lda_absolute_y<B: BusInterface>(&mut self, bus: &mut B)
        ensures
            final(self).read_post(*old(self), ReadOp::Lda, Operand::Absolute(Some(IndexRegister::Y))),
    {
        let v = self.read_absolute_y(bus);
        self.lda(v);
    }

    fn lda_zero_page_indirect<B: BusInterface>(&mut self, bus: &mut B)
        ensures
            final(self).read_post(*old(self), ReadOp::Lda, Operand::Indirect(None)),
    {
        let v = self.read_zero_page_indirect(bus);
        self.lda(v);
    }

    fn lda_zero_page_indirect_x<B: BusInterface>(&mut self, bus: &mut B)
        ensures
            final(self).read_post(*old(self), ReadOp::Lda, Operand::Indirect(Some(IndexRegister::X))),
    {
        let v = self.read_zero_page_indirect_x(bus);
        self.lda(v);
    }

    fn lda_zero_page_indirect_y<B: BusInterface>(&mut self, bus: &mut B)
        ensures
            final(self).read_post(*old(self), ReadOp::Lda, Operand::Indirect(Some(IndexRegister::Y))),
    {
        let v = self.read_zero_page_indirect_y(bus);
        self.lda(v);
    }

    fn ldx_immediate<B: BusInterface>(&mut self, bus: &mut B)
        ensures
            final(self).read_post(*old(self), ReadOp::Ldx, Operand::Immediate),
    {
        let v = self.read_immediate(bus);
        self.ldx(v);
    }

    fn ldx_zero_page<B: BusInterface>(&mut self, bus: &mut B)
        ensures
            final(self).read_post(*old(self), ReadOp::Ldx, Operand::ZeroPage(None)),
    {
        let v = self.read_zero_page(bus);
        self.ldx(v);
    }

    fn ldx_zero_page_y<B: BusInterface>(&mut self, bus: &mut B)
        ensures
            final(self).read_post(*old(self), ReadOp::Ldx, Operand::ZeroPage(Some(IndexRegister::Y))),
    {
        let v = self.read_zero_page_y(bus);
        self.ldx(v);
    }

    fn ldx_absolute<B: BusInterface>(&mut self, bus: &mut B)
        ensures
            final(self).read_post(*old(self), ReadOp::Ldx, Operand::Absolute(None)),
    {
        let v = self.read_absolute(bus);
        self.ldx(v);
    }

    fn ldx_absolute_y<B: BusInterface>(&mut self, bus: &mut B)
        ensures
            final(self).read_post(*old(self), ReadOp::Ldx, Operand::Absolute(Some(IndexRegister::Y))),
    {
        let v = self.read_absolute_y(bus);
        self.ldx(v);
    }

    fn ldy_immediate<B: BusInterface>(&mut self, bus: &mut B)
        ensures
            final(self).read_post(*old(self), ReadOp::Ldy, Operand::Immediate),
    {
        let v = self.read_immediate(bus);
        self.ldy(v);
    }

    fn ldy_zero_page<B: BusInterface>(&mut self, bus: &mut B)
        ensures
            final(self).read_post(*old(self), ReadOp::Ldy, Operand::ZeroPage(None)),
    {
        let v = self.read_zero_page(bus);
        self.ldy(v);
    }

    fn ldy_zero_page_x<B: BusInterface>(&mut self, bus: &mut B)
        ensures
            final(self).read_post(*old(self), ReadOp::Ldy, Operand::ZeroPage(Some(IndexRegister::X))),
    {
        let v = self.read_zero_page_x(bus);
        self.ldy(v);
    }

    fn ldy_absolute<B: BusInterface>(&mut self, bus: &mut B)
        ensures
            final(self).read_post(*old(self), ReadOp::Ldy, Operand::Absolute(None)),
    {
        let v = self.read_absolute(bus);
        self.ldy(v);
    }

    fn ldy_absolute_x<B: BusInterface>(&mut self, bus: &mut B)
        ensures
            final(self).read_post(*old(self), ReadOp::Ldy, Operand::Absolute(Some(IndexRegister::X))),
    {
        let v = self.read_absolute_x(bus);
        self.ldy(v);
    }

    fn adc_immediate<B: BusInterface>(&mut self, bus: &mut B)
        ensures
            final(self).read_post(*old(self), ReadOp::Adc, Operand::Immediate),
    {
        let v = self.read_immediate(bus);
        self.adc(v, bus);
    }

    fn adc_zero_page<B: BusInterface>(&mut self, bus: &mut B)
        ensures
            final(self).read_post(*old(self), ReadOp::Adc, Operand::ZeroPage(None)),
    {
        let v = self.read_zero_page(bus);
        self.adc(v, bus);
    }

    fn adc_zero_page_x<B: BusInterface>(&mut self, bus: &mut B)
        ensures
            final(self).read_post(*old(self), ReadOp::Adc, Operand::ZeroPage(Some(IndexRegister::X))),
    {
        let v = self.read_zero_page_x(bus);
        self.adc(v, bus);
    }

    fn adc_absolute<B: BusInterface>(&mut self, bus: &mut B)
        ensures
            final(self).read_post(*old(self), ReadOp::Adc, Operand::Absolute(None)),
    {
        let v = self.read_absolute(bus);
        self.adc(v, bus);
    }

    fn adc_absolute_x<B: BusInterface>(&mut self, bus: &mut B)
        ensures
            final(self).read_post(*old(self), ReadOp::Adc, Operand::Absolute(Some(IndexRegister::X))),
    {
        let v = self.read_absolute_x(bus);
        self.adc(v, bus);
    }

    fn adc_absolute_y<B: BusInterface>(&mut self, bus: &mut B)
        ensures
            final(self).read_post(*old(self), ReadOp::Adc, Operand::Absolute(Some(IndexRegister::Y))),
    {
        let v = self.read_absolute_y(bus);
        self.adc(v, bus);
    }

    fn adc_zero_page_indirect<B: BusInterface>(&mut self, bus: &mut B)
        ensures
            final(self).read_post(*old(self), ReadOp::Adc, Operand::Indirect(None)),
    {
        let v = self.read_zero_page_indirect(bus);
        self.adc(v, bus);
    }

    fn adc_zero_page_indirect_x<B: BusInterface>(&mut self, bus: &mut B)
        ensures
            final(self).read_post(*old(self), ReadOp::Adc, Operand::Indirect(Some(IndexRegister::X))),
    {
        let v = self.read_zero_page_indirect_x(bus);
        self.adc(v, bus);
    }

    fn adc_zero_page_indirect_y<B: BusInterface>(&mut self, bus: &mut B)
        ensures
            final(self).read_post(*old(self), ReadOp::Adc, Operand::Indirect(Some(IndexRegister::Y))),
    {
        let v = self.read_zero_page_indirect_y(bus);
        self.adc(v, bus);
    }

    fn sbc_immediate<B: BusInterface>(&mut self, bus: &mut B)
        ensures
            final(self).read_post(*old(self), ReadOp::Sbc, Operand::Immediate),
    {
        let v = self.read_immediate(bus);
        self.sbc(v, bus);
    }

    fn sbc_zero_page<B: BusInterface>(&mut self, bus: &mut B)
        ensures
            final(self).read_post(*old(self), ReadOp::Sbc, Operand::ZeroPage(None)),
    {
        let v = self.read_zero_page(bus);
        self.sbc(v, bus);
    }

    fn sbc_zero_page_x<B: BusInterface>(&mut self, bus: &mut B)
        ensures
            final(self).read_post(*old(self), ReadOp::Sbc, Operand::ZeroPage(Some(IndexRegister::X))),
    {
        let v = self.read_zero_page_x(bus);
        self.sbc(v, bus);
    }

    fn sbc_absolute<B: BusInterface>(&mut self, bus: &mut B)
        ensures
            final(self).read_post(*old(self), ReadOp::Sbc, Operand::Absolute(None)),
    {
        let v = self.read_absolute(bus);
        self.sbc(v, bus);
    }

    fn sbc_absolute_x<B: BusInterface>(&mut self, bus: &mut B)
        ensures
            final(self).read_post(*old(self), ReadOp::Sbc, Operand::Absolute(Some(IndexRegister::X))),
    {
        let v = self.read_absolute_x(bus);
        self.sbc(v, bus);
    }

    fn sbc_absolute_y<B: BusInterface>(&mut self, bus: &mut B)
        ensures
            final(self).read_post(*old(self), ReadOp::Sbc, Operand::Absolute(Some(IndexRegister::Y))),
    {
        let v = self.read_absolute_y(bus);
        self.sbc(v, bus);
    }

    fn sbc_zero_page_indirect<B: BusInterface>(&mut self, bus: &mut B)
        ensures
            final(self).read_post(*old(self), ReadOp::Sbc, Operand::Indirect(None)),
    {
        let v = self.read_zero_page_indirect(bus);
        self.sbc(v, bus);
    }

    fn sbc_zero_page_indirect_x<B: BusInterface>(&mut self, bus: &mut B)
        ensures
            final(self).read_post(*old(self), ReadOp::Sbc, Operand::Indirect(Some(IndexRegister::X))),
    {
        let v = self.read_zero_page_indirect_x(bus);
        self.sbc(v, bus);
    }

    fn sbc_zero_page_indirect_y<B: BusInterface>(&mut self, bus: &mut B)
        ensures
            final(self).read_post(*old(self), ReadOp::Sbc, Operand::Indirect(Some(IndexRegister::Y))),
    {
        let v = self.read_zero_page_indirect_y(bus);
        self.sbc(v, bus);
    }

    fn and_immediate<B: BusInterface>(&mut self, bus: &mut B)
        ensures
            final(self).read_post(*old(self), ReadOp::And, Operand::Immediate),
    {
        let v = self.read_immediate(bus);
        self.and(v, bus);
    }

    fn and_zero_page<B: BusInterface>(&mut self, bus: &mut B)
        ensures
            final(self).read_post(*old(self), ReadOp::And, Operand::ZeroPage(None)),
    {
        let v = self.read_zero_page(bus);
        self.and(v, bus);
    }

    fn and_zero_page_x<B: BusInterface>(&mut self, bus: &mut B)
        ensures
            final(self).read_post(*old(self), ReadOp::And, Operand::ZeroPage(Some(IndexRegister::X))),
    {
        let v = self.read_zero_page_x(bus);
        self.and(v, bus);
    }

    fn and_absolute<B: BusInterface>(&mut self, bus: &mut B)
        ensures
            final(self).read_post(*old(self), ReadOp::And, Operand::Absolute(None)),
    {
        let v = self.read_absolute(bus);
        self.and(v, bus);
    }

    fn and_absolute_x<B: BusInterface>(&mut self, bus: &mut B)
        ensures
            final(self).read_post(*old(self), ReadOp::And, Operand::Absolute(Some(IndexRegister::X))),
    {
        let v = self.read_absolute_x(bus);
        self.and(v, bus);
    }

    fn and_absolute_y<B: BusInterface>(&mut self, bus: &mut B)
        ensures
            final(self).read_post(*old(self), ReadOp::And, Operand::Absolute(Some(IndexRegister::Y))),
    {
        let v = self.read_absolute_y(bus);
        self.and(v, bus);
    }

    fn and_zero_page_indirect<B: BusInterface>(&mut self, bus: &mut B)
        ensures
            final(self).read_post(*old(self), ReadOp::And, Operand::Indirect(Some(IndexRegister::X))),
    {
        let v = self.read_zero_page_indirect_x(bus);
        self.and(v, bus);
    }

    fn and_zero_page_indirect_x<B: BusInterface>(&mut self, bus: &mut B)
        ensures
            final(self).read_post(*old(self), ReadOp::And, Operand::Indirect(Some(IndexRegister::X))),
    {
        let v = self.read_zero_page_indirect_x(bus);
        self.and(v, bus);
    }

    fn and_zero_page_indirect_y<B: BusInterface>(&mut self, bus: &mut B)
        ensures
            final(self).read_post(*old(self), ReadOp::And, Operand::Indirect(Some(IndexRegister::Y))),
    {
        let v = self.read_zero_page_indirect_y(bus);
        self.and(v, bus);
    }

    fn eor_immediate<B: BusInterface>(&mut self, bus: &mut B)
        ensures
            final(self).read_post(*old(self), ReadOp::Eor, Operand::Immediate),
    {
        let v = self.read_immediate(bus);
        self.eor(v, bus);
    }

    fn eor_zero_page<B: BusInterface>(&mut self, bus: &mut B)
        ensures
            final(self).read_post(*old(self), ReadOp::Eor, Operand::ZeroPage(None)),
    {
        let v = self.read_zero_page(bus);
        self.eor(v, bus);
    }

    fn eor_zero_page_x<B: BusInterface>(&mut self, bus: &mut B)
        ensures
            final(self).read_post(*old(self), ReadOp::Eor, Operand::ZeroPage(Some(IndexRegister::X))),
    {
        let v = self.read_zero_page_x(bus);
        self.eor(v, bus);
    }

    fn eor_absolute<B: BusInterface>(&mut self, bus: &mut B)
        ensures
            final(self).read_post(*old(self), ReadOp::Eor, Operand::Absolute(None)),
    {
        let v = self.read_absolute(bus);
        self.eor(v, bus);
    }

    fn eor_absolute_x<B: BusInterface>(&mut self, bus: &mut B)
        ensures
            final(self).read_post(*old(self), ReadOp::Eor, Operand::Absolute(Some(IndexRegister::X))),
    {
        let v = self.read_absolute_x(bus);
        self.eor(v, bus);
    }

    fn eor_absolute_y<B: BusInterface>(&mut self, bus: &mut B)
        ensures
            final(self).read_post(*old(self), ReadOp::Eor, Operand::Absolute(Some(IndexRegister::Y))),
    {
        let v = self.read_absolute_y(bus);
        self.eor(v, bus);
    }

    fn eor_zero_page_indirect<B: BusInterface>(&mut self, bus: &mut B)
        ensures
            final(self).read_post(*old(self), ReadOp::Eor, Operand::Indirect(Some(IndexRegister::X))),
    {
        let v = self.read_zero_page_indirect_x(bus);
        self.eor(v, bus);
    }

    fn eor_zero_page_indirect_x<B: BusInterface>(&mut self, bus: &mut B)
        ensures
            final(self).read_post(*old(self), ReadOp::Eor, Operand::Indirect(Some(IndexRegister::X))),
    {
        let v = self.read_zero_page_indirect_x(bus);
        self.eor(v, bus);
    }

    fn eor_zero_page_indirect_y<B: BusInterface>(&mut self, bus: &mut B)
        ensures
            final(self).read_post(*old(self), ReadOp::Eor, Operand::Indirect(Some(IndexRegister::Y))),
    {
        let v = self.read_zero_page_indirect_y(bus);
        self.eor(v, bus);
    }

    fn ora_immediate<B: BusInterface>(&mut self, bus: &mut B)
        ensures
            final(self).read_post(*old(self), ReadOp::Ora, Operand::Immediate),
    {
        let v = self.read_immediate(bus);
        self.ora(v, bus);
    }

    fn ora_zero_page<B: BusInterface>(&mut self, bus: &mut B)
        ensures
            final(self).read_post(*old(self), ReadOp::Ora, Operand::ZeroPage(None)),
    {
        let v = self.read_zero_page(bus);
        self.ora(v, bus);
    }

    fn ora_zero_page_x<B: BusInterface>(&mut self, bus: &mut B)
        ensures
            final(self).read_post(*old(self), ReadOp::Ora, Operand::ZeroPage(Some(IndexRegister::X))),
    {
        let v = self.read_zero_page_x(bus);
        self.ora(v, bus);
    }

    fn ora_absolute<B: BusInterface>(&mut self, bus: &mut B)
        ensures
            final(self).read_post(*old(self), ReadOp::Ora, Operand::Absolute(None)),
    {
        let v = self.read_absolute(bus);
        self.ora(v, bus);
    }

    fn ora_absolute_x<B: BusInterface>(&mut self, bus: &mut B)
        ensures
            final(self).read_post(*old(self), ReadOp::Ora, Operand::Absolute(Some(IndexRegister::X))),
    {
        let v = self.read_absolute_x(bus);
        self.ora(v, bus);
    }

    fn ora_absolute_y<B: BusInterface>(&mut self, bus: &mut B)
        ensures
            final(self).read_post(*old(self), ReadOp::Ora, Operand::Absolute(Some(IndexRegister::Y))),
    {
        let v = self.read_absolute_y(bus);
        self.ora(v, bus);
    }

    fn ora_zero_page_indirect<B: BusInterface>(&mut self, bus: &mut B)
        ensures
            final(self).read_post(*old(self), ReadOp::Ora, Operand::Indirect(Some(IndexRegister::X))),
    {
        let v = self.read_zero_page_indirect_x(bus);
        self.ora(v, bus);
    }

    fn ora_zero_page_indirect_x<B: BusInterface>(&mut self, bus: &mut B)
        ensures
            final(self).read_post(*old(self), ReadOp::Ora, Operand::Indirect(Some(IndexRegister::X))),
    {
        let v = self.read_zero_page_indirect_x(bus);
        self.ora(v, bus);
    }

    fn ora_zero_page_indirect_y<B: BusInterface>(&mut self, bus: &mut B)
        ensures
            final(self).read_post(*old(self), ReadOp::Ora, Operand::Indirect(Some(IndexRegister::Y))),
    {
        let v = self.read_zero_page_indirect_y(bus);
        self.ora(v, bus);
    }

    fn bit_immediate<B: BusInterface>(&mut self, bus: &mut B)
        ensures
            final(self).read_post(*old(self), ReadOp::Bit, Operand::Immediate),
    {
        let v = self.read_immediate(bus);
        self.bit(v);
    }

    fn bit_zero_page<B: BusInterface>(&mut self, bus: &mut B)
        ensures
            final(self).read_post(*old(self), ReadOp::Bit, Operand::ZeroPage(None)),
    {
        let v = self.read_zero_page(bus);
        self.bit(v);
    }

    fn bit_zero_page_x<B: BusInterface>(&mut self, bus: &mut B)
        ensures
            final(self).read_post(*old(self), ReadOp::Bit, Operand::ZeroPage(Some(IndexRegister::X))),
    {
        let v = self.read_zero_page_x(bus);
        self.bit(v);
    }

    fn bit_absolute<B: BusInterface>(&mut self, bus: &mut B)
        ensures
            final(self).read_post(*old(self), ReadOp::Bit, Operand::Absolute(None)),
    {
        let v = self.read_absolute(bus);
        self.bit(v);
    }

    fn bit_absolute_x<B: BusInterface>(&mut self, bus: &mut B)
        ensures
            final(self).read_post(*old(self), ReadOp::Bit, Operand::Absolute(Some(IndexRegister::X))),
    {
        let v = self.read_absolute_x(bus);
        self.bit(v);
    }

    fn cmp_immediate<B: BusInterface>(&mut self, bus: &mut B)
        ensures
            final(self).read_post(*old(self), ReadOp::Cmp, Operand::Immediate),
    {
        let v = self.read_immediate(bus);
        self.cmp(v);
    }

    fn cmp_zero_page<B: BusInterface>(&mut self, bus: &mut B)
        ensures
            final(self).read_post(*old(self), ReadOp::Cmp, Operand::ZeroPage(None)),
    {
        let v = self.read_zero_page(bus);
        self.cmp(v);
    }

    fn cmp_zero_page_x<B: BusInterface>(&mut self, bus: &mut B)
        ensures
            final(self).read_post(*old(self), ReadOp::Cmp, Operand::ZeroPage(Some(IndexRegister::X))),
    {
        let v = self.read_zero_page_x(bus);
        self.cmp(v);
    }

    fn cmp_absolute<B: BusInterface>(&mut self, bus: &mut B)
        ensures
            final(self).read_post(*old(self), ReadOp::Cmp, Operand::Absolute(None)),
    {
        let v = self.read_absolute(bus);
        self.cmp(v);
    }

    fn cmp_absolute_x<B: BusInterface>(&mut self, bus: &mut B)
        ensures
            final(self).read_post(*old(self), ReadOp::Cmp, Operand::Absolute(Some(IndexRegister::X))),
    {
        let v = self.read_absolute_x(bus);
        self.cmp(v);
    }

    fn cmp_absolute_y<B: BusInterface>(&mut self, bus: &mut B)
        ensures
            final(self).read_post(*old(self), ReadOp::Cmp, Operand::Absolute(Some(IndexRegister::Y))),
    {
        let v = self.read_absolute_y(bus);
        self.cmp(v);
    }

    fn cmp_zero_page_indirect<B: BusInterface>(&mut self, bus: &mut B)
        ensures
            final(self).read_post(*old(self), ReadOp::Cmp, Operand::Indirect(None)),
    {
        let v = self.read_zero_page_indirect(bus);
        self.cmp(v);
    }

    fn cmp_zero_page_indirect_x<B: BusInterface>(&mut self, bus: &mut B)
        ensures
            final(self).read_post(*old(self), ReadOp::Cmp, Operand::Indirect(Some(IndexRegister::X))),
    {
        let v = self.read_zero_page_indirect_x(bus);
        self.cmp(v);
    }

    fn cmp_zero_page_indirect_y<B: BusInterface>(&mut self, bus: &mut B)
        ensures
            final(self).read_post(*old(self), ReadOp::Cmp, Operand::Indirect(Some(IndexRegister::Y))),
    {
        let v = self.read_zero_page_indirect_y(bus);
        self.cmp(v);
    }

    fn cpx_immediate<B: BusInterface>(&mut self, bus: &mut B)
        ensures
            final(self).read_post(*old(self), ReadOp::Cpx, Operand::Immediate),
    {
        let v = self.read_immediate(bus);
        self.cpx(v);
    }

    fn cpx_zero_page<B: BusInterface>(&mut self, bus: &mut B)
        ensures
            final(self).read_post(*old(self), ReadOp::Cpx, Operand::ZeroPage(None)),
    {
        let v = self.read_zero_page(bus);
        self.cpx(v);
    }

    fn cpx_absolute<B: BusInterface>(&mut self, bus: &mut B)
        ensures
            final(self).read_post(*old(self), ReadOp::Cpx, Operand::Absolute(None)),
    {
        let v = self.read_absolute(bus);
        self.cpx(v);
    }

    fn cpy_immediate<B: BusInterface>(&mut self, bus: &mut B)
        ensures
            final(self).read_post(*old(self), ReadOp::Cpy, Operand::Immediate),
    {
        let v = self.read_immediate(bus);
        self.cpy(v);
    }

    fn cpy_zero_page<B: BusInterface>(&mut self, bus: &mut B)
        ensures
            final(self).read_post(*old(self), ReadOp::Cpy, Operand::ZeroPage(None)),
    {
        let v = self.read_zero_page(bus);
        self.cpy(v);
    }

    fn cpy_absolute<B: BusInterface>(&mut self, bus: &mut B)
        ensures
            final(self).read_post(*old(self), ReadOp::Cpy, Operand::Absolute(None)),
    {
        let v = self.read_absolute(bus);
        self.cpy(v);
    }

    fn sta_zero_page<B: BusInterface>(&mut self, bus: &mut B)
        ensures
            final(self).store_post(*old(self), Operand::ZeroPage(None), ReadRegister::A),
    {
        self.store_zero_page(ReadRegister::A, bus);
    }

    fn sta_zero_page_x<B: BusInterface>(&mut self, bus: &mut B)
        ensures
            final(self).store_post(*old(self), Operand::ZeroPage(Some(IndexRegister::X)), ReadRegister::A),
    {
        self.store_zero_page_x(ReadRegister::A, bus);
    }

    fn sta_absolute<B: BusInterface>(&mut self, bus: &mut B)
        ensures
            final(self).store_post(*old(self), Operand::Absolute(None), ReadRegister::A),
    {
        self.store_absolute(ReadRegister::A, bus);
    }

    fn sta_absolute_x<B: BusInterface>(&mut self, bus: &mut B)
        ensures
            final(self).store_post(*old(self), Operand::Absolute(Some(IndexRegister::X)), ReadRegister::A),
    {
        self.store_absolute_x(ReadRegister::A, bus);
    }

    fn sta_absolute_y<B: BusInterface>(&mut self, bus: &mut B)
        ensures
            final(self).store_post(*old(self), Operand::Absolute(Some(IndexRegister::Y)), ReadRegister::A),
    {
        self.store_absolute_y(ReadRegister::A, bus);
    }

    fn sta_zero_page_indirect<B: BusInterface>(&mut self, bus: &mut B)
        ensures
            final(self).store_post(*old(self), Operand::Indirect(None), ReadRegister::A),
    {
        self.store_zero_page_indirect(ReadRegister::A, bus);
    }

    fn sta_zero_page_indirect_x<B: BusInterface>(&mut self, bus: &mut B)
        ensures
            final(self).store_post(*old(self), Operand::Indirect(Some(IndexRegister::X)), ReadRegister::A),
    {
        self.store_zero_page_indirect_x(ReadRegister::A, bus);
    }

    fn sta_zero_page_indirect_y<B: BusInterface>(&mut self, bus: &mut B)
        ensures
            final(self).store_post(*old(self), Operand::Indirect(Some(IndexRegister::Y)), ReadRegister::A),
    {
        self.store_zero_page_indirect_y(ReadRegister::A, bus);
    }

    fn stx_zero_page<B: BusInterface>(&mut self, bus: &mut B)
        ensures
            final(self).store_post(*old(self), Operand::ZeroPage(None), ReadRegister::X),
    {
        self.store_zero_page(ReadRegister::X, bus);
    }

    fn stx_zero_page_y<B: BusInterface>(&mut self, bus: &mut B)
        ensures
            final(self).store_post(*old(self), Operand::ZeroPage(Some(IndexRegister::Y)), ReadRegister::X),
    {
        self.store_zero_page_y(ReadRegister::X, bus);
    }

    fn stx_absolute<B: BusInterface>(&mut self, bus: &mut B)
        ensures
            final(self).store_post(*old(self), Operand::Absolute(None), ReadRegister::X),
    {
        self.store_absolute(ReadRegister::X, bus);
    }

    fn sty_zero_page<B: BusInterface>(&mut self, bus: &mut B)
        ensures
            final(self).store_post(*old(self), Operand::ZeroPage(None), ReadRegister::Y),
    {
        self.store_zero_page(ReadRegister::Y, bus);
    }

    fn sty_zero_page_x<B: BusInterface>(&mut self, bus: &mut B)
        ensures
            final(self).store_post(*old(self), Operand::ZeroPage(Some(IndexRegister::X)), ReadRegister::Y),
    {
        self.store_zero_page_x(ReadRegister::Y, bus);
    }

    fn sty_absolute<B: BusInterface>(&mut self, bus: &mut B)
        ensures
            final(self).store_post(*old(self), Operand::Absolute(None), ReadRegister::Y),
    {
        self.store_absolute(ReadRegister::Y, bus);
    }

    fn stz_zero_page<B: BusInterface>(&mut self, bus: &mut B)
        ensures
            final(self).store_post(*old(self), Operand::ZeroPage(None), ReadRegister::Z),
    {
        self.store_zero_page(ReadRegister::Z, bus);
    }

    fn stz_zero_page_x<B: BusInterface>(&mut self, bus: &mut B)
        ensures
            final(self).store_post(*old(self), Operand::ZeroPage(Some(IndexRegister::X)), ReadRegister::Z),
    {
        self.store_zero_page_x(ReadRegister::Z, bus);
    }

    fn stz_absolute<B: BusInterface>(&mut self, bus: &mut B)
        ensures
            final(self).store_post(*old(self), Operand::Absolute(None), ReadRegister::Z),
    {
        self.store_absolute(ReadRegister::Z, bus);
    }

    fn stz_absolute_x<B: BusInterface>(&mut self, bus: &mut B)
        ensures
            final(self).store_post(*old(self), Operand::Absolute(Some(IndexRegister::X)), ReadRegister::Z),
    {
        self.store_absolute_x(ReadRegister::Z, bus);
    }

    fn asl_accumulator<B: BusInterface>(&mut self, bus: &mut B)
        ensures
            final(self).modify_acc_post(*old(self), ModifyOp::Asl),
    {
        self.modify_accumulator(ModifyOp::Asl, bus);
    }

    fn asl_zero_page<B: BusInterface>(&mut self, bus: &mut B)
        ensures
            final(self).modify_post(*old(self), ModifyOp::Asl, Operand::ZeroPage(None)),
    {
        self.modify_zero_page(ModifyOp::Asl, bus);
    }

    fn asl_zero_page_x<B: BusInterface>(&mut self, bus: &mut B)
        ensures
            final(self).modify_post(*old(self), ModifyOp::Asl, Operand::ZeroPage(Some(IndexRegister::X))),
    {
        self.modify_zero_page_x(ModifyOp::Asl, bus);
    }

    fn asl_absolute<B: BusInterface>(&mut self, bus: &mut B)
        ensures
            final(self).modify_post(*old(self), ModifyOp::Asl, Operand::Absolute(None)),
    {
        self.modify_absolute(ModifyOp::Asl, bus);
    }

    fn asl_absolute_x<B: BusInterface>(&mut self, bus: &mut B)
        ensures
            final(self).modify_post(*old(self), ModifyOp::Asl, Operand::Absolute(Some(IndexRegister::X))),
    {
        self.modify_absolute_x(ModifyOp::Asl, bus);
    }

    fn lsr_accumulator<B: BusInterface>(&mut self, bus: &mut B)
        ensures
            final(self).modify_acc_post(*old(self), ModifyOp::Lsr),
    {
        self.modify_accumulator(ModifyOp::Lsr, bus);
    }

    fn lsr_zero_page<B: BusInterface>(&mut self, bus: &mut B)
        ensures
            final(self).modify_post(*old(self), ModifyOp::Lsr, Operand::ZeroPage(None)),
    {
        self.modify_zero_page(ModifyOp::Lsr, bus);
    }

    fn lsr_zero_page_x<B: BusInterface>(&mut self, bus: &mut B)
        ensures
            final(self).modify_post(*old(self), ModifyOp::Lsr, Operand::ZeroPage(Some(IndexRegister::X))),
    {
        self.modify_zero_page_x(ModifyOp::Lsr, bus);
    }

    fn lsr_absolute<B: BusInterface>(&mut self, bus: &mut B)
        ensures
            final(self).modify_post(*old(self), ModifyOp::Lsr, Operand::Absolute(None)),
    {
        self.modify_absolute(ModifyOp::Lsr, bus);
    }

    fn lsr_absolute_x<B: BusInterface>(&mut self, bus: &mut B)
        ensures
            final(self).modify_post(*old(self), ModifyOp::Lsr, Operand::Absolute(Some(IndexRegister::X))),
    {
        self.modify_absolute_x(ModifyOp::Lsr, bus);
    }

    fn rol_accumulator<B: BusInterface>(&mut self, bus: &mut B)
        ensures
            final(self).modify_acc_post(*old(self), ModifyOp::Rol),
    {
        self.modify_accumulator(ModifyOp::Rol, bus);
    }

    fn rol_zero_page<B: BusInterface>(&mut self, bus: &mut B)
        ensures
            final(self).modify_post(*old(self), ModifyOp::Rol, Operand::ZeroPage(None)),
    {
        self.modify_zero_page(ModifyOp::Rol, bus);
    }

    fn rol_zero_page_x<B: BusInterface>(&mut self, bus: &mut B)
        ensures
            final(self).modify_post(*old(self), ModifyOp::Rol, Operand::ZeroPage(Some(IndexRegister::X))),
    {
        self.modify_zero_page_x(ModifyOp::Rol, bus);
    }

    fn rol_absolute<B: BusInterface>(&mut self, bus: &mut B)
        ensures
            final(self).modify_post(*old(self), ModifyOp::Rol, Operand::Absolute(None)),
    {
        self.modify_absolute(ModifyOp::Rol, bus);
    }

    fn rol_absolute_x<B: BusInterface>(&mut self, bus: &mut B)
        ensures
            final(self).modify_post(*old(self), ModifyOp::Rol, Operand::Absolute(Some(IndexRegister::X))),
    {
        self.modify_absolute_x(ModifyOp::Rol, bus);
    }

    fn ror_accumulator<B: BusInterface>(&mut self, bus: &mut B)
        ensures
            final(self).modify_acc_post(*old(self), ModifyOp::Ror),
    {
        self.modify_accumulator(ModifyOp::Ror, bus);
    }

    fn ror_zero_page<B: BusInterface>(&mut self, bus: &mut B)
        ensures
            final(self).modify_post(*old(self), ModifyOp::Ror, Operand::ZeroPage(None)),
    {
        self.modify_zero_page(ModifyOp::Ror, bus);
    }

    fn ror_zero_page_x<B: BusInterface>(&mut self, bus: &mut B)
        ensures
            final(self).modify_post(*old(self), ModifyOp::Ror, Operand::ZeroPage(Some(IndexRegister::X))),
    {
        self.modify_zero_page_x(ModifyOp::Ror, bus);
    }

    fn ror_absolute<B: BusInterface>(&mut self, bus: &mut B)
        ensures
            final(self).modify_post(*old(self), ModifyOp::Ror, Operand::Absolute(None)),
    {
        self.modify_absolute(ModifyOp::Ror, bus);
    }

    fn ror_absolute_x<B: BusInterface>(&mut self, bus: &mut B)
        ensures
            final(self).modify_post(*old(self), ModifyOp::Ror, Operand::Absolute(Some(IndexRegister::X))),
    {
        self.modify_absolute_x(ModifyOp::Ror, bus);
    }

    fn inc_accumulator<B: BusInterface>(&mut self, bus: &mut B)
        ensures
            final(self).modify_acc_post(*old(self), ModifyOp::Inc),
    {
        self.modify_accumulator(ModifyOp::Inc, bus);
    }

    fn inc_zero_page<B: BusInterface>(&mut self, bus: &mut B)
        ensures
            final(self).modify_post(*old(self), ModifyOp::Inc, Operand::ZeroPage(None)),
    {
        self.modify_zero_page(ModifyOp::Inc, bus);
    }

    fn inc_zero_page_x<B: BusInterface>(&mut self, bus: &mut B)
        ensures
            final(self).modify_post(*old(self), ModifyOp::Inc, Operand::ZeroPage(Some(IndexRegister::X))),
    {
        self.modify_zero_page_x(ModifyOp::Inc, bus);
    }

    fn inc_absolute<B: BusInterface>(&mut self, bus: &mut B)
        ensures
            final(self).modify_post(*old(self), ModifyOp::Inc, Operand::Absolute(None)),
    {
        self.modify_absolute(ModifyOp::Inc, bus);
    }

    fn inc_absolute_x<B: BusInterface>(&mut self, bus: &mut B)
        ensures
            final(self).modify_post(*old(self), ModifyOp::Inc, Operand::Absolute(Some(IndexRegister::X))),
    {
        self.modify_absolute_x(ModifyOp::Inc, bus);
    }

    fn dec_accumulator<B: BusInterface>(&mut self, bus: &mut B)
        ensures
            final(self).modify_acc_post(*old(self), ModifyOp::Dec),
    {
        self.modify_accumulator(ModifyOp::Dec, bus);
    }

    fn dec_zero_page<B: BusInterface>(&mut self, bus: &mut B)
        ensures
            final(self).modify_post(*old(self), ModifyOp::Dec, Operand::ZeroPage(None)),
    {
        self.modify_zero_page(ModifyOp::Dec, bus);
    }

    fn dec_zero_page_x<B: BusInterface>(&mut self, bus: &mut B)
        ensures
            final(self).modify_post(*old(self), ModifyOp::Dec, Operand::ZeroPage(Some(IndexRegister::X))),
    {
        self.modify_zero_page_x(ModifyOp::Dec, bus);
    }

    fn dec_absolute<B: BusInterface>(&mut self, bus: &mut B)
        ensures
            final(self).modify_post(*old(self), ModifyOp::Dec, Operand::Absolute(None)),
    {
        self.modify_absolute(ModifyOp::Dec, bus);
    }

    fn dec_absolute_x<B: BusInterface>(&mut self, bus: &mut B)
        ensures
            final(self).modify_post(*old(self), ModifyOp::Dec, Operand::Absolute(Some(IndexRegister::X))),
    {
        self.modify_absolute_x(ModifyOp::Dec, bus);
    }

    fn trb_zero_page<B: BusInterface>(&mut self, bus: &mut B)
        ensures
            final(self).modify_post(*old(self), ModifyOp::Trb, Operand::ZeroPage(None)),
    {
        self.modify_zero_page(ModifyOp::Trb, bus);
    }

    fn trb_absolute<B: BusInterface>(&mut self, bus: &mut B)
        ensures
            final(self).modify_post(*old(self), ModifyOp::Trb, Operand::Absolute(None)),
    {
        self.modify_absolute(ModifyOp::Trb, bus);
    }

    fn tsb_zero_page<B: BusInterface>(&mut self, bus: &mut B)
        ensures
            final(self).modify_post(*old(self), ModifyOp::Tsb, Operand::ZeroPage(None)),
    {
        self.modify_zero_page(ModifyOp::Tsb, bus);
    }

    fn tsb_absolute<B: BusInterface>(&mut self, bus: &mut B)
        ensures
            final(self).modify_post(*old(self), ModifyOp::Tsb, Operand::Absolute(None)),
    {
        self.modify_absolute(ModifyOp::Tsb, bus);
    }

    fn bra<B: BusInterface>(&mut self, bus: &mut B)
        ensures
            final(self).branch_post(*old(self), 1, true),
    {
        self.conditional_branch(true, bus);
    }

    fn bcc<B: BusInterface>(&mut self, bus: &mut B)
        ensures
            final(self).branch_post(*old(self), 1, !old(self).registers.p.carry),
    {
        self.conditional_branch(!self.registers.p.carry, bus);
    }

    fn bcs<B: BusInterface>(&mut self, bus: &mut B)
        ensures
            final(self).branch_post(*old(self), 1, old(self).registers.p.carry),
    {
        self.conditional_branch(self.registers.p.carry, bus);
    }

    fn beq<B: BusInterface>(&mut self, bus: &mut B)
        ensures
            final(self).branch_post(*old(self), 1, old(self).registers.p.zero),
    {
        self.conditional_branch(self.registers.p.zero, bus);
    }

    fn bmi<B: BusInterface>(&mut self, bus: &mut B)
        ensures
            final(self).branch_post(*old(self), 1, old(self).registers.p.negative),
    {
        self.conditional_branch(self.registers.p.negative, bus);
    }

    fn bne<B: BusInterface>(&mut self, bus: &mut B)
        ensures
            final(self).branch_post(*old(self), 1, !old(self).registers.p.zero),
    {
        self.conditional_branch(!self.registers.p.zero, bus);
    }

    fn bpl<B: BusInterface>(&mut self, bus: &mut B)
        ensures
            final(self).branch_post(*old(self), 1, !old(self).registers.p.negative),
    {
        self.conditional_branch(!self.registers.p.negative, bus);
    }

    fn bvc<B: BusInterface>(&mut self, bus: &mut B)
        ensures
            final(self).branch_post(*old(self), 1, !old(self).registers.p.overflow),
    {
        self.conditional_branch(!self.registers.p.overflow, bus);
    }

    fn bvs<B: BusInterface>(&mut self, bus: &mut B)
        ensures
            final(self).branch_post(*old(self), 1, old(self).registers.p.overflow),
    {
        self.conditional_branch(self.registers.p.overflow, bus);
    }

    fn clc<B: BusInterface>(&mut self, bus: &mut B)
        ensures
            final(self).frame(*old(self)),
            final(self).registers == (Registers { p: Flags { carry: false, ..old(self).registers.p }, ..old(self).registers }),
    {
        self.bus_idle(bus);

        self.registers.p.carry = false;
    }

    fn cld<B: BusInterface>(&mut self, bus: &mut B)
        ensures
            final(self).frame(*old(self)),
            final(self).registers == (Registers { p: Flags { decimal: false, ..old(self).registers.p }, ..old(self).registers }),
    {
        self.bus_idle(bus);

        self.registers.p.decimal = false;
    }

    fn cli<B: BusInterface>(&mut self, bus: &mut B)
        ensures
            final(self).frame(*old(self)),
            final(self).registers == (Registers { p: Flags { irq_disable: false, ..old(self).registers.p }, ..old(self).registers }),
    {
        self.bus_idle(bus);

        self.registers.p.irq_disable = false;
    }

    fn clv<B: BusInterface>(&mut self, bus: &mut B)
        ensures
            final(self).frame(*old(self)),
            final(self).registers == (Registers { p: Flags { overflow: false, ..old(self).registers.p }, ..old(self).registers }),
    {
        self.bus_idle(bus);

        self.registers.p.overflow = false;
    }

    fn sec<B: BusInterface>(&mut self, bus: &mut B)
        ensures
            final(self).frame(*old(self)),
            final(self).registers == (Registers { p: Flags { carry: true, ..old(self).registers.p }, ..old(self).registers }),
    {
        self.bus_idle(bus);

        self.registers.p.carry = true;
    }

    fn sed<B: BusInterface>(&mut self, bus: &mut B)
        ensures
            final(self).frame(*old(self)),
            final(self).registers == (Registers { p: Flags { decimal: true, ..old(self).registers.p }, ..old(self).registers }),
    {
        self.bus_idle(bus);

        self.registers.p.decimal = true;
    }

    fn sei<B: BusInterface>(&mut self, bus: &mut B)
        ensures
            final(self).frame(*old(self)),
            final(self).registers == (Registers { p: Flags { irq_disable: true, ..old(self).registers.p }, ..old(self).registers }),
    {
        self.bus_idle(bus);

        self.registers.p.irq_disable = true;
    }

    fn set<B: BusInterface>(&mut self, bus: &mut B)
        ensures
            final(self).frame(*old(self)),
            final(self).registers == (Registers { p: Flags { memory_op: true, ..old(self).registers.p }, ..old(self).registers }),
    {
        self.bus_idle(bus);

        self.registers.p.memory_op = true;
    }

    fn tax<B: BusInterface>(&mut self, bus: &mut B)
        ensures
            final(self).frame(*old(self)),
            final(self).registers == transfer_spec(ReadRegister::A, RwRegister::X, old(self).registers),
    {
        self.transfer(ReadRegister::A, RwRegister::X, bus);
    }

    fn tay<B: BusInterface>(&mut self, bus: &mut B)
        ensures
            final(self).frame(*old(self)),
            final(self).registers == transfer_spec(ReadRegister::A, RwRegister::Y, old(self).registers),
    {
        self.transfer(ReadRegister::A, RwRegister::Y, bus);
    }

    fn tsx<B: BusInterface>(&mut self, bus: &mut B)
        ensures
            final(self).frame(*old(self)),
            final(self).registers == transfer_spec(ReadRegister::S, RwRegister::X, old(self).registers),
    {
        self.transfer(ReadRegister::S, RwRegister::X, bus);
    }

    fn txa<B: BusInterface>(&mut self, bus: &mut B)
        ensures
            final(self).frame(*old(self)),
            final(self).registers == transfer_spec(ReadRegister::X, RwRegister::A, old(self).registers),
    {
        self.transfer(ReadRegister::X, RwRegister::A, bus);
    }

    fn txs<B: BusInterface>(&mut self, bus: &mut B)
        ensures
            final(self).frame(*old(self)),
            final(self).registers == transfer_spec(ReadRegister::X, RwRegister::S, old(self).registers),
    {
        self.transfer(ReadRegister::X, RwRegister::S, bus);
    }

    fn tya<B: BusInterface>(&mut self, bus: &mut B)
        ensures
            final(self).frame(*old(self)),
            final(self).registers == transfer_spec(ReadRegister::Y, RwRegister::A, old(self).registers),
    {
        self.transfer(ReadRegister::Y, RwRegister::A, bus);
    }

    /// Executes one of the opcodes $00-$3F after its fetch.
    #[verifier::rlimit(40)]
    fn execute_opcode_0<B: BusInterface>(&mut self, opcode: u8, bus: &mut B)
        requires
            opcode < 0x40,
            old(self).state.block_transfer is None,
        ensures
            instruction_post_0(opcode, *final(self), *old(self)),
    {
        match opcode {
            0x00 => self.handle_interrupt(InterruptType::Brk, bus),
            0x01 => self.ora_zero_page_indirect_x(bus),
            0x02 => self.sxy(bus),
            0x03 => self.st0(bus),
            0x04 => self.tsb_zero_page(bus),
            0x05 => self.ora_zero_page(bus),
            0x06 => self.asl_zero_page(bus),
            0x07 | 0x17 | 0x27 | 0x37 => self.rmbi(opcode, bus),
            0x08 => self.php(bus),
            0x09 => self.ora_immediate(bus),
            0x0A => self.asl_accumulator(bus),
            0x0B | 0x1B | 0x2B | 0x33 | 0x3B => self.nop(bus),
            0x0C => self.tsb_absolute(bus),
            0x0D => self.ora_absolute(bus),
            0x0E => self.asl_absolute(bus),
            0x0F | 0x1F | 0x2F | 0x3F => self.bbri(opcode, bus),
            0x10 => self.bpl(bus),
            0x11 => self.ora_zero_page_indirect_y(bus),
            0x12 => self.ora_zero_page_indirect(bus),
            0x13 => self.st1(bus),
            0x14 => self.trb_zero_page(bus),
            0x15 => self.ora_zero_page_x(bus),
            0x16 => self.asl_zero_page_x(bus),
            0x18 => self.clc(bus),
            0x19 => self.ora_absolute_y(bus),
            0x1A => self.inc_accumulator(bus),
            0x1C => self.trb_absolute(bus),
            0x1D => self.ora_absolute_x(bus),
            0x1E => self.asl_absolute_x(bus),
            0x20 => self.jsr(bus),
            0x21 => self.and_zero_page_indirect_x(bus),
            0x22 => self.sax(bus),
            0x23 => self.st2(bus),
            0x24 => self.bit_zero_page(bus),
            0x25 => self.and_zero_page(bus),
            0x26 => self.rol_zero_page(bus),
            0x28 => self.plp(bus),
            0x29 => self.and_immediate(bus),
            0x2A => self.rol_accumulator(bus),
            0x2C => self.bit_absolute(bus),
            0x2D => self.and_absolute(bus),
            0x2E => self.rol_absolute(bus),
            0x30 => self.bmi(bus),
            0x31 => self.and_zero_page_indirect_y(bus),
            0x32 => self.and_zero_page_indirect(bus),
            0x34 => self.bit_zero_page_x(bus),
            0x35 => self.and_zero_page_x(bus),
            0x36 => self.rol_zero_page_x(bus),
            0x38 => self.sec(bus),
            0x39 => self.and_absolute_y(bus),
            0x3A => self.dec_accumulator(bus),
            0x3C => self.bit_absolute_x(bus),
            0x3D => self.and_absolute_x(bus),
            0x3E => self.rol_absolute_x(bus),
            _ => {},
        }
    }

    /// Executes one of the opcodes $40-$7F after its fetch.
    #[verifier::rlimit(40)]
    fn execute_opcode_1<B: BusInterface>(&mut self, opcode: u8, bus: &mut B)
        requires
            0x40 <= opcode < 0x80,
            old(self).state.block_transfer is None,
        ensures
            instruction_post_1(opcode, *final(self), *old(self)),
    {
        match opcode {
            0x40 => self.rti(bus),
            0x41 => self.eor_zero_page_indirect_x(bus),
            0x42 => self.say(bus),
            0x43 => self.tma(bus),
            0x44 => self.bsr(bus),
            0x45 => self.eor_zero_page(bus),
            0x46 => self.lsr_zero_page(bus),
            0x47 | 0x57 | 0x67 | 0x77 => self.rmbi(opcode, bus),
            0x48 => self.pha(bus),
            0x49 => self.eor_immediate(bus),
            0x4A => self.lsr_accumulator(bus),
            0x4B | 0x5B | 0x5C | 0x63 | 0x6B | 0x7B => self.nop(bus),
            0x4C => self.jmp_absolute(bus),
            0x4D => self.eor_absolute(bus),
            0x4E => self.lsr_absolute(bus),
            0x4F | 0x5F | 0x6F | 0x7F => self.bbri(opcode, bus),
            0x50 => self.bvc(bus),
            0x51 => self.eor_zero_page_indirect_y(bus),
            0x52 => self.eor_zero_page_indirect(bus),
            0x53 => self.tam(bus),
            0x54 => self.csl(bus),
            0x55 => self.eor_zero_page_x(bus),
            0x56 => self.lsr_zero_page_x(bus),
            0x58 => self.cli(bus),
            0x59 => self.eor_absolute_y(bus),
            0x5A => self.phy(bus),
            0x5D => self.eor_absolute_x(bus),
            0x5E => self.lsr_absolute_x(bus),
            0x60 => self.rts(bus),
            0x61 => self.adc_zero_page_indirect_x(bus),
            0x62 => self.cla(bus),
            0x64 => self.stz_zero_page(bus),
            0x65 => self.adc_zero_page(bus),
            0x66 => self.ror_zero_page(bus),
            0x68 => self.pla(bus),
            0x69 => self.adc_immediate(bus),
            0x6A => self.ror_accumulator(bus),
            0x6C => self.jmp_absolute_indirect(bus),
            0x6D => self.adc_absolute(bus),
            0x6E => self.ror_absolute(bus),
            0x70 => self.bvs(bus),
            0x71 => self.adc_zero_page_indirect_y(bus),
            0x72 => self.adc_zero_page_indirect(bus),
            0x73 => self.tii(bus),
            0x74 => self.stz_zero_page_x(bus),
            0x75 => self.adc_zero_page_x(bus),
            0x76 => self.ror_zero_page_x(bus),
            0x78 => self.sei(bus),
            0x79 => self.adc_absolute_y(bus),
            0x7A => self.ply(bus),
            0x7C => self.jmp_absolute_indirect_x(bus),
            0x7D => self.adc_absolute_x(bus),
            0x7E => self.ror_absolute_x(bus),
            _ => {},
        }
    }

    /// Executes one of the opcodes $80-$BF after its fetch.
    #[verifier::rlimit(40)]
    fn execute_opcode_2<B: BusInterface>(&mut self, opcode: u8, bus: &mut B)
        requires
            0x80 <= opcode < 0xC0,
            old(self).state.block_transfer is None,
        ensures
            instruction_post_2(opcode, *final(self), *old(self)),
    {
        match opcode {
            0x80 => self.bra(bus),
            0x81 => self.sta_zero_page_indirect_x(bus),
            0x82 => self.clx(bus),
            0x83 => self.tst_zero_page(bus),
            0x84 => self.sty_zero_page(bus),
            0x85 => self.sta_zero_page(bus),
            0x86 => self.stx_zero_page(bus),
            0x87 | 0x97 | 0xA7 | 0xB7 => self.smbi(opcode, bus),
            0x88 => self.dey(),
            0x89 => self.bit_immediate(bus),
            0x8A => self.txa(bus),
            0x8B | 0x9B | 0xAB | 0xBB => self.nop(bus),
            0x8C => self.sty_absolute(bus),
            0x8D => self.sta_absolute(bus),
            0x8E => self.stx_absolute(bus),
            0x8F | 0x9F | 0xAF | 0xBF => self.bbsi(opcode, bus),
            0x90 => self.bcc(bus),
            0x91 => self.sta_zero_page_indirect_y(bus),
            0x92 => self.sta_zero_page_indirect(bus),
            0x93 => self.tst_absolute(bus),
            0x94 => self.sty_zero_page_x(bus),
            0x95 => self.sta_zero_page_x(bus),
            0x96 => self.stx_zero_page_y(bus),
            0x98 => self.tya(bus),
            0x99 => self.sta_absolute_y(bus),
            0x9A => self.txs(bus),
            0x9C => self.stz_absolute(bus),
            0x9D => self.sta_absolute_x(bus),
            0x9E => self.stz_absolute_x(bus),
            0xA0 => self.ldy_immediate(bus),
            0xA1 => self.lda_zero_page_indirect_x(bus),
            0xA2 => self.ldx_immediate(bus),
            0xA3 => self.tst_zero_page_x(bus),
            0xA4 => self.ldy_zero_page(bus),
            0xA5 => self.lda_zero_page(bus),
            0xA6 => self.ldx_zero_page(bus),
            0xA8 => self.tay(bus),
            0xA9 => self.lda_immediate(bus),
            0xAA => self.tax(bus),
            0xAC => self.ldy_absolute(bus),
            0xAD => self.lda_absolute(bus),
            0xAE => self.ldx_absolute(bus),
            0xB0 => self.bcs(bus),
            0xB1 => self.lda_zero_page_indirect_y(bus),
            0xB2 => self.lda_zero_page_indirect(bus),
            0xB3 => self.tst_absolute_x(bus),
            0xB4 => self.ldy_zero_page_x(bus),
            0xB5 => self.lda_zero_page_x(bus),
            0xB6 => self.ldx_zero_page_y(bus),
            0xB8 => self.clv(bus),
            0xB9 => self.lda_absolute_y(bus),
            0xBA => self.tsx(bus),
            0xBC => self.ldy_absolute_x(bus),
            0xBD => self.lda_absolute_x(bus),
            0xBE => self.ldx_absolute_y(bus),
            _ => {},
        }
    }

    /// Executes one of the opcodes $C0-$FF after its fetch.
    #[verifier::rlimit(40)]
    fn execute_opcode_3<B: BusInterface>(&mut self, opcode: u8, bus: &mut B)
        requires
            0xC0 <= opcode < 0x100,
            old(self).state.block_transfer is None,
        ensures
            instruction_post_3(opcode, *final(self), *old(self)),
    {
        match opcode {
            0xC0 => self.cpy_immediate(bus),
            0xC1 => self.cmp_zero_page_indirect_x(bus),
            0xC2 => self.cly(bus),
            0xC3 => self.tdd(bus),
            0xC4 => self.cpy_zero_page(bus),
            0xC5 => self.cmp_zero_page(bus),
            0xC6 => self.dec_zero_page(bus),
            0xC7 | 0xD7 | 0xE7 | 0xF7 => self.smbi(opcode, bus),
            0xC8 => self.iny(),
            0xC9 => self.cmp_immediate(bus),
            0xCA => self.dex(),
            0xCB | 0xDB | 0xDC | 0xE2 | 0xEB | 0xFB | 0xFC => self.nop(bus),
            0xCC => self.cpy_absolute(bus),
            0xCD => self.cmp_absolute(bus),
            0xCE => self.dec_absolute(bus),
            0xCF | 0xDF | 0xEF | 0xFF => self.bbsi(opcode, bus),
            0xD0 => self.bne(bus),
            0xD1 => self.cmp_zero_page_indirect_y(bus),
            0xD2 => self.cmp_zero_page_indirect(bus),
            0xD3 => self.tin(bus),
            0xD4 => self.csh(bus),
            0xD5 => self.cmp_zero_page_x(bus),
            0xD6 => self.dec_zero_page_x(bus),
            0xD8 => self.cld(bus),
            0xD9 => self.cmp_absolute_y(bus),
            0xDA => self.phx(bus),
            0xDD => self.cmp_absolute_x(bus),
            0xDE => self.dec_absolute_x(bus),
            0xE0 => self.cpx_immediate(bus),
            0xE1 => self.sbc_zero_page_indirect_x(bus),
            0xE3 => self.tia(bus),
            0xE4 => self.cpx_zero_page(bus),
            0xE5 => self.sbc_zero_page(bus),
            0xE6 => self.inc_zero_page(bus),
            0xE8 => self.inx(),
            0xE9 => self.sbc_immediate(bus),
            0xEA => self.nop(bus),
            0xEC => self.cpx_absolute(bus),
            0xED => self.sbc_absolute(bus),
            0xEE => self.inc_absolute(bus),
            0xF0 => self.beq(bus),
            0xF1 => self.sbc_zero_page_indirect_y(bus),
            0xF2 => self.sbc_zero_page_indirect(bus),
            0xF3 => self.tai(bus),
            0xF4 => self.set(bus),
            0xF5 => self.sbc_zero_page_x(bus),
            0xF6 => self.inc_zero_page_x(bus),
            0xF8 => self.sed(bus),
            0xF9 => self.sbc_absolute_y(bus),
            0xFA => self.plx(bus),
            0xFD => self.sbc_absolute_x(bus),
            0xFE => self.inc_absolute_x(bus),
            _ => {},
        }
    }

    pub(crate) fn execute_instruction_inner<B: BusInterface>(&mut self, bus: &mut B)
        ensures
            old(self).state.block_transfer is Some ==> block_transfer_progressed(
                *final(self),
                *old(self),
                final(self).log@,
                old(self).log@,
            ),
            old(self).state.block_transfer is None && interrupt_taken(*old(self)) ==> interrupt_serviced(
                *final(self),
                *old(self),
                final(self).log@,
                old(self).log@,
            ),
            old(self).state.block_transfer is None && !interrupt_taken(*old(self)) ==> exists|
                op: u8,
                mid: Huc6280,
            | #[trigger] instruction_post(op, *final(self), mid) && fetched(mid, *old(self), op),
    {
        if self.state.block_transfer.is_some() {
            // Interrupts cannot interrupt in-progress block transfers
            return self.progress_block_transfer(bus);
        }

        if self.state.pending_interrupt {
            self.state.pending_interrupt = false;

            // TIQ > IRQ1 > IRQ2 in priority
            if self.state.latched_interrupt_lines.tiq {
                self.handle_interrupt(InterruptType::Tiq, bus);
                assert(taken_vector(*old(self)) == vector_address_spec(InterruptType::Tiq));
                assert(interrupt_serviced(*self, *old(self), self.log@, old(self).log@));
                return;
            }

            if self.state.latched_interrupt_lines.irq1 {
                self.handle_interrupt(InterruptType::Irq1, bus);
                assert(taken_vector(*old(self)) == vector_address_spec(InterruptType::Irq1));
                assert(interrupt_serviced(*self, *old(self), self.log@, old(self).log@));
                return;
            }

            if self.state.latched_interrupt_lines.irq2 {
                self.handle_interrupt(InterruptType::Irq2, bus);
                assert(taken_vector(*old(self)) == vector_address_spec(InterruptType::Irq2));
                assert(interrupt_serviced(*self, *old(self), self.log@, old(self).log@));
                return;
            }
        }

        // T bit gets latched and then cleared at the start of every instruction
        // Interrupts push the T bit onto the stack intact, but it is always clear when pushed
        // using a PHP or BRK instruction
        self.state.memory_op_at_fetch = self.registers.p.memory_op;
        self.registers.p.memory_op = false;

        let opcode = self.fetch_operand(bus);
        let ghost mid = *self;
        if opcode < 0x40 {
            self.execute_opcode_0(opcode, bus);
        } else if opcode < 0x80 {
            self.execute_opcode_1(opcode, bus);
        } else if opcode < 0xC0 {
            self.execute_opcode_2(opcode, bus);
        } else {
            self.execute_opcode_3(opcode, bus);
        }
        assert(instruction_post(opcode, *self, mid));
    }
}

} // verus!
