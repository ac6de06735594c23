//! Data processing: operand shifts, the ALU and multiplication.
use crate::arm7tdmi::bus::BusInterface;
use crate::arm7tdmi::instructions::{
    alu_is_test, alu_op_from_bits, condition_holds, logical_codes, shift_type_from_bits, AluOp,
    Condition, ConditionCodes, ShiftType,
};
use crate::arm7tdmi::{
    bit32, continued, flag, read_register_spec, spsr_restore, written, Arm7Tdmi, RegistersView,
    StatusRegister,
};
use vstd::prelude::*;

verus! {

/// A value rotated right by `amount` bits (taken modulo 32).
pub open spec fn ror(value: u32, amount: u32) -> u32 {
    let a = amount % 32;
    if a == 0 {
        value
    } else {
        (value >> a) | (value << (32 - a) as u32)
    }
}

/// A value shifted right by `amount` bits with its sign bit copied in.
pub open spec fn asr(value: u32, amount: u32) -> u32 {
    if bit32(value, 31) {
        !((!value) >> amount)
    } else {
        value >> amount
    }
}

pub fn rotate_right(value: u32, amount: u32) -> (r: u32)
    ensures
        r == ror(value, amount),
{
    let a = amount % 32;
    if a == 0 {
        value
    } else {
        (value >> a) | (value << (32 - a))
    }
}

pub fn arithmetic_shift_right(value: u32, amount: u32) -> (r: u32)
    requires
        amount < 32,
    ensures
        r == asr(value, amount),
{
    if (value >> 31u32) & 1 == 1 {
        !((!value) >> amount)
    } else {
        value >> amount
    }
}

/// The 8-bit immediate and the rotation (twice the 4-bit field) of a data processing opcode.
pub open spec fn rotated_immediate_fields(opcode: u32) -> (u32, u32) {
    (opcode & 0xFF, ((opcode >> 8u32) & 0xF) << 1u32)
}

pub fn arm_parse_rotated_immediate(opcode: u32) -> (r: (u32, u32))
    ensures
        r == rotated_immediate_fields(opcode),
        r.0 <= 0xFF,
        r.1 <= 30,
{
    let immediate = opcode & 0xFF;
    let rotation = ((opcode >> 8u32) & 0xF) << 1u32;
    proof {
        crate::bit_facts::lemma_word_fields(opcode);
    }
    (immediate, rotation)
}

/// Second operand and shifter carry of a rotated immediate: a zero rotation keeps the carry.
pub open spec fn rotated_operand(immediate: u32, rotation: u32, carry: bool) -> (u32, bool) {
    if rotation != 0 {
        (ror(immediate, rotation), bit32(immediate, (rotation - 1) as u32))
    } else {
        (immediate, carry)
    }
}

/// Result and shifter carry of a shift by an immediate amount (0 to 31), where an amount of 0
/// encodes LSL #0, LSR #32, ASR #32 and RRX.
pub open spec fn immediate_shift(value: u32, shift_type: ShiftType, shift: u32, carry_in: bool) -> (u32, bool) {
    match shift_type {
        ShiftType::Left => if shift == 0 {
            (value, carry_in)
        } else {
            (value << shift, bit32(value, (32 - shift) as u32))
        },
        ShiftType::LogicalRight => if shift == 0 {
            (0, bit32(value, 31))
        } else {
            (value >> shift, bit32(value, (shift - 1) as u32))
        },
        ShiftType::ArithmeticRight => if shift == 0 {
            (asr(value, 31), bit32(value, 31))
        } else {
            (asr(value, shift), bit32(value, (shift - 1) as u32))
        },
        ShiftType::RotateRight => if shift == 0 {
            // RRX: Rotate right through carry
            ((value >> 1u32) | (flag(carry_in) << 31u32), bit32(value, 0))
        } else {
            (ror(value, shift), bit32(value, (shift - 1) as u32))
        },
    }
}

pub fn apply_immediate_shift(value: u32, shift_type: ShiftType, shift: u32, carry_in: bool) -> (r: (
    u32,
    bool,
))
    requires
        shift < 32,
    ensures
        r == immediate_shift(value, shift_type, shift, carry_in),
{
    match shift_type {
        ShiftType::Left => if shift == 0 {
            (value, carry_in)
        } else {
            (value << shift, (value >> (32 - shift)) & 1 == 1)
        },
        ShiftType::LogicalRight => if shift == 0 {
            (0, (value >> 31u32) & 1 == 1)
        } else {
            (value >> shift, (value >> (shift - 1)) & 1 == 1)
        },
        ShiftType::ArithmeticRight => if shift == 0 {
            (arithmetic_shift_right(value, 31), (value >> 31u32) & 1 == 1)
        } else {
            (arithmetic_shift_right(value, shift), (value >> (shift - 1)) & 1 == 1)
        },
        ShiftType::RotateRight => if shift == 0 {
            // RRX: Rotate right through carry
            let c: u32 = if carry_in {
                1
            } else {
                0
            };
            proof {
                lemma_bit_zero(value);
            }
            ((value >> 1u32) | (c << 31u32), value & 1 == 1)
        } else {
            (rotate_right(value, shift), (value >> (shift - 1)) & 1 == 1)
        },
    }
}

/// Amount of a register-specified rotation once reduced to 1..=32 (for a nonzero amount).
pub open spec fn rotation_amount(shift: u32) -> u32 {
    if shift % 32 == 0 {
        32
    } else {
        shift % 32
    }
}

/// Result and shifter carry of a shift by the bottom byte of a register: an amount of 0 keeps the
/// value and the carry; amounts of 32 and more shift everything out.
pub open spec fn register_shift(value: u32, shift_type: ShiftType, shift: u32, carry_in: bool) -> (u32, bool) {
    if shift == 0 {
        (value, carry_in)
    } else {
        match shift_type {
            ShiftType::Left => if shift < 32 {
                (value << shift, bit32(value, (32 - shift) as u32))
            } else if shift == 32 {
                (0, bit32(value, 0))
            } else {
                (0, false)
            },
            ShiftType::LogicalRight => if shift < 32 {
                (value >> shift, bit32(value, (shift - 1) as u32))
            } else if shift == 32 {
                (0, bit32(value, 31))
            } else {
                (0, false)
            },
            ShiftType::ArithmeticRight => if shift < 32 {
                (asr(value, shift), bit32(value, (shift - 1) as u32))
            } else {
                (asr(value, 31), bit32(value, 31))
            },
            ShiftType::RotateRight => if rotation_amount(shift) == 32 {
                (value, bit32(value, 31))
            } else {
                (
                    ror(value, rotation_amount(shift)),
                    bit32(value, (rotation_amount(shift) - 1) as u32),
                )
            },
        }
    }
}

pub fn apply_register_shift(value: u32, shift_type: ShiftType, shift: u32, carry_in: bool) -> (r: (
    u32,
    bool,
))
    requires
        shift <= 0xFF,
    ensures
        r == register_shift(value, shift_type, shift, carry_in),
{
    if shift == 0 {
        (value, carry_in)
    } else {
        match shift_type {
            ShiftType::Left => if shift < 32 {
                (value << shift, (value >> (32 - shift)) & 1 == 1)
            } else if shift == 32 {
                proof {
                    lemma_bit_zero(value);
                }
                (0, value & 1 == 1)
            } else {
                (0, false)
            },
            ShiftType::LogicalRight => if shift < 32 {
                (value >> shift, (value >> (shift - 1)) & 1 == 1)
            } else if shift == 32 {
                (0, (value >> 31u32) & 1 == 1)
            } else {
                (0, false)
            },
            ShiftType::ArithmeticRight => if shift < 32 {
                (arithmetic_shift_right(value, shift), (value >> (shift - 1)) & 1 == 1)
            } else {
                (arithmetic_shift_right(value, 31), (value >> 31u32) & 1 == 1)
            },
            ShiftType::RotateRight => {
                let ghost original = shift;
                let mut shift = shift;
                while shift > 32
                    invariant
                        1 <= shift <= 0xFF,
                        rotation_amount(shift) == rotation_amount(original),
                    decreases shift,
                {
                    shift -= 32;
                }
                if shift == 32 {
                    (value, (value >> 31u32) & 1 == 1)
                } else {
                    (rotate_right(value, shift), (value >> (shift - 1)) & 1 == 1)
                }
            },
        }
    }
}

proof fn lemma_bit_zero(value: u32)
    ensures
        bit32(value, 0) == (value & 1 == 1),
{
    crate::bit_facts::lemma_word_fields(value);
}

/// A value read as a signed 32-bit integer.
pub open spec fn signed32(value: u32) -> int {
    if value >= 0x8000_0000 {
        value - 0x1_0000_0000
    } else {
        value as int
    }
}

/// Sum and flags of `a + b + carry_in`: C is the unsigned carry out and V the signed overflow.
pub open spec fn add_with_carry(a: u32, b: u32, carry_in: bool) -> (u32, ConditionCodes) {
    let sum = a + b + flag(carry_in);
    let result = (sum % 0x1_0000_0000) as u32;
    let signed_sum = signed32(a) + signed32(b) + flag(carry_in);
    (
        result,
        ConditionCodes {
            sign: bit32(result, 31),
            zero: result == 0,
            carry: sum > 0xFFFF_FFFF,
            overflow: signed_sum > 0x7FFF_FFFF || signed_sum < -0x8000_0000,
        },
    )
}

proof fn lemma_low_bits(x: u32)
    ensures
        x & 0x7FFF_FFFF == x % 0x8000_0000,
        bit32(x, 31) == (x >= 0x8000_0000),
{
    crate::bit_facts::lemma_word_fields(x);
}

pub fn alu_add(operand1: u32, operand2: u32, carry_in: bool) -> (r: (u32, ConditionCodes))
    ensures
        r == add_with_carry(operand1, operand2, carry_in),
{
    let carry_in: u32 = if carry_in {
        1
    } else {
        0
    };
    let wide = operand1 as u64 + operand2 as u64 + carry_in as u64;
    let carry = wide > 0xFFFF_FFFF;
    let sum: u32 = if carry {
        (wide - 0x1_0000_0000) as u32
    } else {
        wide as u32
    };

    proof {
        lemma_low_bits(operand1);
        lemma_low_bits(operand2);
        lemma_low_bits(sum);
    }
    let bit_30_carry = (operand1 & 0x7FFFFFFF) + (operand2 & 0x7FFFFFFF) + carry_in >= 0x80000000;
    let overflow = bit_30_carry != carry;

    (sum, ConditionCodes { sign: (sum >> 31u32) & 1 == 1, zero: sum == 0, carry, overflow })
}

/// Subtraction is addition of the complement with a carry in: the result is the wrapped
/// difference, and C is set exactly when no borrow occurs.
pub proof fn lemma_subtract_is_difference(a: u32, b: u32)
    ensures
        add_with_carry(a, !b, true).0 == a.wrapping_sub(b),
        add_with_carry(a, !b, true).1.carry == (a >= b),
{
    lemma_word_bitwise(a, b);
}

/// Bitwise facts about two words: complement as subtraction from 2^32 - 1, cancelling an
/// exclusive or, and what AND, OR and BIC keep of each operand.
pub proof fn lemma_word_bitwise(a: u32, b: u32)
    ensures
        !b == 0xFFFF_FFFF - b,
        (a ^ b) ^ b == a,
        (a & b) & a == (a & b),
        (a & b) & b == (a & b),
        (a | b) & a == a,
        (a | b) & b == b,
        (a & !b) & b == 0,
        ((a & !b) | (a & b)) == a,
        !b ^ b == 0xFFFF_FFFF,
        a & b == b & a,
{
    assert(!b == 0xFFFF_FFFF - b && (a ^ b) ^ b == a && (a & b) & a == (a & b) && (a & b) & b == (a
        & b) && (a | b) & a == a && (a | b) & b == b && (a & !b) & b == 0 && ((a & !b) | (a & b)) == a
        && !b ^ b == 0xFFFF_FFFF && a & b == b & a) by (bit_vector);
}

/// The data processing operations as arithmetic and set operations on their operands: ADD, ADC,
/// SUB, SBC, RSB and RSC add or subtract modulo 2^32 (with the carry as carry in, or its absence
/// as borrow), setting C on a carry out or on no borrow; AND keeps only bits set in both
/// operands, ORR sets every bit of both, EOR is undone by a second EOR, BIC clears the bits of
/// operand 2 and keeps the others of operand 1, MOV copies and MVN complements operand 2. The
/// logical operations set C from the shifter and keep V; TST, TEQ, CMP and CMN compute what AND,
/// EOR, SUB and ADD compute.
pub proof fn lemma_alu_operations(a: u32, b: u32, shifter_out: bool, cpsr: StatusRegister)
    ensures
        alu_result(AluOp::Add, a, b, shifter_out, cpsr).0 == (a + b) % 0x1_0000_0000,
        alu_result(AluOp::Add, a, b, shifter_out, cpsr).1.carry == (a + b >= 0x1_0000_0000),
        alu_result(AluOp::AddCarry, a, b, shifter_out, cpsr).0 == (a + b + (if cpsr.carry { 1int } else { 0 }))
            % 0x1_0000_0000,
        alu_result(AluOp::Subtract, a, b, shifter_out, cpsr).0 == (a - b + 0x1_0000_0000) % 0x1_0000_0000,
        alu_result(AluOp::Subtract, a, b, shifter_out, cpsr).1.carry == (a >= b),
        alu_result(AluOp::ReverseSubtract, a, b, shifter_out, cpsr).0 == (b - a + 0x1_0000_0000) % 0x1_0000_0000,
        alu_result(AluOp::ReverseSubtract, a, b, shifter_out, cpsr).1.carry == (b >= a),
        alu_result(AluOp::SubtractCarry, a, b, shifter_out, cpsr).0 == (a - b - (if cpsr.carry { 0int } else { 1 })
            + 0x1_0000_0000) % 0x1_0000_0000,
        alu_result(AluOp::SubtractCarry, a, b, shifter_out, cpsr).1.carry == (a >= b + (if cpsr.carry { 0int } else { 1 })),
        alu_result(AluOp::ReverseSubtractCarry, a, b, shifter_out, cpsr).0 == (b - a - (if cpsr.carry { 0int } else { 1 })
            + 0x1_0000_0000) % 0x1_0000_0000,
        alu_result(AluOp::And, a, b, shifter_out, cpsr).0 & a == alu_result(AluOp::And, a, b, shifter_out, cpsr).0,
        alu_result(AluOp::And, a, b, shifter_out, cpsr).0 & b == alu_result(AluOp::And, a, b, shifter_out, cpsr).0,
        alu_result(AluOp::Or, a, b, shifter_out, cpsr).0 & a == a,
        alu_result(AluOp::Or, a, b, shifter_out, cpsr).0 & b == b,
        alu_result(AluOp::ExclusiveOr, a, b, shifter_out, cpsr).0 ^ b == a,
        alu_result(AluOp::BitClear, a, b, shifter_out, cpsr).0 & b == 0,
        (alu_result(AluOp::BitClear, a, b, shifter_out, cpsr).0 | (a & b)) == a,
        alu_result(AluOp::Move, a, b, shifter_out, cpsr).0 == b,
        alu_result(AluOp::MoveNegate, a, b, shifter_out, cpsr).0 ^ b == 0xFFFF_FFFF,
        forall|op: AluOp|
            op == AluOp::And || op == AluOp::Or || op == AluOp::ExclusiveOr || op == AluOp::BitClear || op
                == AluOp::Move || op == AluOp::MoveNegate ==> (#[trigger] alu_result(op, a, b, shifter_out, cpsr)).1.carry
                == shifter_out && alu_result(op, a, b, shifter_out, cpsr).1.overflow == cpsr.overflow
                && alu_result(op, a, b, shifter_out, cpsr).1.zero == (alu_result(op, a, b, shifter_out, cpsr).0 == 0),
        alu_result(AluOp::Test, a, b, shifter_out, cpsr) == alu_result(AluOp::And, a, b, shifter_out, cpsr),
        alu_result(AluOp::TestEqual, a, b, shifter_out, cpsr) == alu_result(AluOp::ExclusiveOr, a, b, shifter_out, cpsr),
        alu_result(AluOp::Compare, a, b, shifter_out, cpsr) == alu_result(AluOp::Subtract, a, b, shifter_out, cpsr),
        alu_result(AluOp::CompareNegate, a, b, shifter_out, cpsr) == alu_result(AluOp::Add, a, b, shifter_out, cpsr),
{
    lemma_word_bitwise(a, b);
    lemma_word_bitwise(b, a);
}

/// After CMP a, b (the flags of `alu_result(Compare, ..)` in the CPSR), each condition tests
/// the comparison it is named for: EQ and NE equality, CS/HS, CC/LO, HI and LS unsigned order,
/// GE, LT, GT and LE signed order; MI and PL the sign of the difference.
pub proof fn lemma_conditions_after_compare(a: u32, b: u32, shifter_out: bool, cpsr: StatusRegister)
    ensures
        ({
            let codes = alu_result(AluOp::Compare, a, b, shifter_out, cpsr).1;
            let f = StatusRegister {
                sign: codes.sign,
                zero: codes.zero,
                carry: codes.carry,
                overflow: codes.overflow,
                ..cpsr
            };
            &&& condition_holds(Condition::Equal, f) == (a == b)
            &&& condition_holds(Condition::NotEqual, f) == (a != b)
            &&& condition_holds(Condition::CarrySet, f) == (a >= b)
            &&& condition_holds(Condition::CarryClear, f) == (a < b)
            &&& condition_holds(Condition::Higher, f) == (a > b)
            &&& condition_holds(Condition::LowerOrSame, f) == (a <= b)
            &&& condition_holds(Condition::GreaterOrEqual, f) == (signed32(a) >= signed32(b))
            &&& condition_holds(Condition::Less, f) == (signed32(a) < signed32(b))
            &&& condition_holds(Condition::Greater, f) == (signed32(a) > signed32(b))
            &&& condition_holds(Condition::LessOrEqual, f) == (signed32(a) <= signed32(b))
            &&& condition_holds(Condition::Minus, f) == ((a - b + 0x1_0000_0000) % 0x1_0000_0000
                >= 0x8000_0000)
        }),
{
    lemma_word_bitwise(a, b);
    let r = alu_result(AluOp::Compare, a, b, shifter_out, cpsr).0;
    crate::bit_facts::lemma_word_fields(r);
    assert(signed32(!b) == -signed32(b) - 1);
    let sum: int = a + !b + 1;
    assert(r == sum % 0x1_0000_0000);
    assert(sum % 0x1_0000_0000 == if a >= b { a - b } else { a - b + 0x1_0000_0000 });
}

/// Result and flags of a data processing operation on its two operands.
pub open spec fn alu_result(op: AluOp, operand1: u32, operand2: u32, shifter_out: bool, cpsr: StatusRegister) -> (u32, ConditionCodes) {
    match op {
        AluOp::And | AluOp::Test => (
            operand1 & operand2,
            logical_codes(operand1 & operand2, shifter_out, cpsr.overflow),
        ),
        AluOp::ExclusiveOr | AluOp::TestEqual => (
            operand1 ^ operand2,
            logical_codes(operand1 ^ operand2, shifter_out, cpsr.overflow),
        ),
        AluOp::Subtract | AluOp::Compare => add_with_carry(operand1, !operand2, true),
        AluOp::ReverseSubtract => add_with_carry(operand2, !operand1, true),
        AluOp::Add | AluOp::CompareNegate => add_with_carry(operand1, operand2, false),
        AluOp::AddCarry => add_with_carry(operand1, operand2, cpsr.carry),
        AluOp::SubtractCarry => add_with_carry(operand1, !operand2, cpsr.carry),
        AluOp::ReverseSubtractCarry => add_with_carry(operand2, !operand1, cpsr.carry),
        AluOp::Or => (
            operand1 | operand2,
            logical_codes(operand1 | operand2, shifter_out, cpsr.overflow),
        ),
        AluOp::Move => (operand2, logical_codes(operand2, shifter_out, cpsr.overflow)),
        AluOp::BitClear => (
            operand1 & !operand2,
            logical_codes(operand1 & !operand2, shifter_out, cpsr.overflow),
        ),
        AluOp::MoveNegate => (!operand2, logical_codes(!operand2, shifter_out, cpsr.overflow)),
    }
}

/// The register file after a data processing operation: with S set, an R15 destination restores
/// CPSR from SPSR and any other takes the flags; unless the operation only tests, Rd receives
/// the result.
pub open spec fn alu_regs(v: RegistersView, op: AluOp, operand1: u32, rd: int, set_condition_codes: bool, operand2: u32, shifter_out: bool) -> RegistersView {
    let (result, codes) = alu_result(op, operand1, operand2, shifter_out, v.cpsr);
    let v1 = if set_condition_codes {
        if rd == 15 {
            spsr_restore(v)
        } else {
            RegistersView {
                cpsr: StatusRegister {
                    sign: codes.sign,
                    zero: codes.zero,
                    carry: codes.carry,
                    overflow: codes.overflow,
                    ..v.cpsr
                },
                ..v
            }
        }
    } else {
        v
    };
    if !alu_is_test(op) {
        RegistersView { r: v1.r.update(rd, result), ..v1 }
    } else {
        v1
    }
}

/// A data processing operation with the given operands: the registers become `alu_regs`, and
/// the pipeline is refilled when R15 receives the result.
pub open spec fn alu_post(new: Arm7Tdmi, old: Arm7Tdmi, op: AluOp, operand1: u32, rd: int, set_condition_codes: bool, operand: (u32, bool)) -> bool {
    written(
        new,
        old,
        alu_regs(old.registers@, op, operand1, rd, set_condition_codes, operand.0, operand.1),
        !alu_is_test(op) && rd == 15,
    )
}

/// The operand fields of a data processing opcode.
pub open spec fn dp_rn(opcode: u32) -> int {
    ((opcode >> 16u32) & 0xF) as int
}

pub open spec fn dp_rd(opcode: u32) -> int {
    ((opcode >> 12u32) & 0xF) as int
}

/// Executing a data processing opcode (immediate, register shifted by an immediate, or register
/// shifted by a register).
pub open spec fn arm_alu_post(new: Arm7Tdmi, old: Arm7Tdmi, opcode: u32, immediate: bool) -> bool {
    let op = alu_op_from_bits(opcode >> 21u32);
    let s = bit32(opcode, 20);
    let rn = dp_rn(opcode);
    let rd = dp_rd(opcode);
    let carry = old.registers.cpsr.carry;
    if immediate {
        let (imm, rotation) = rotated_immediate_fields(opcode);
        alu_post(new, old, op, read_register_spec(old, rn), rd, s, rotated_operand(imm, rotation, carry))
    } else if bit32(opcode, 4) {
        let rm = (opcode & 0xF) as int;
        let rs = ((opcode >> 8u32) & 0xF) as int;
        alu_post(
            new,
            old,
            op,
            old.registers.r[rn],
            rd,
            s,
            register_shift(
                old.registers.r[rm],
                shift_type_from_bits(opcode >> 5u32),
                old.registers.r[rs] & 0xFF,
                carry,
            ),
        )
    } else {
        let rm = (opcode & 0xF) as int;
        alu_post(
            new,
            old,
            op,
            read_register_spec(old, rn),
            rd,
            s,
            immediate_shift(
                read_register_spec(old, rm),
                shift_type_from_bits(opcode >> 5u32),
                (opcode >> 7u32) & 0x1F,
                carry,
            ),
        )
    }
}

/// `a * b` (plus `c` when accumulating), modulo 2^32.
#[verifier::opaque]
pub open spec fn mul_accumulate(a: u32, b: u32, c: u32, accumulate: bool) -> u32 {
    let product = a.wrapping_mul(b);
    if accumulate {
        product.wrapping_add(c)
    } else {
        product
    }
}

/// Product of MUL/MLA: `Rm * Rs` (plus `Rn` when accumulating), modulo 2^32.
pub open spec fn multiply_product(v: RegistersView, rm: int, rs: int, rn: int, accumulate: bool) -> u32 {
    mul_accumulate(v.r[rm], v.r[rs], v.r[rn], accumulate)
}

pub fn multiply_accumulate(a: u32, b: u32, c: u32, accumulate: bool) -> (r: u32)
    ensures
        r == mul_accumulate(a, b, c, accumulate),
{
    reveal(mul_accumulate);
    let product = a.wrapping_mul(b);
    if accumulate {
        product.wrapping_add(c)
    } else {
        product
    }
}

/// The register file after MUL/MLA: Rd receives the product and, with S set, N and Z follow it.
pub open spec fn multiply_regs(v: RegistersView, rm: int, rs: int, rn: int, rd: int, set_condition_codes: bool, accumulate: bool) -> RegistersView {
    let product = multiply_product(v, rm, rs, rn, accumulate);
    let v1 = RegistersView { r: v.r.update(rd, product), ..v };
    if set_condition_codes {
        RegistersView {
            cpsr: StatusRegister { sign: bit32(product, 31), zero: product == 0, ..v1.cpsr },
            ..v1
        }
    } else {
        v1
    }
}

/// Executing a MUL/MLA opcode.
pub open spec fn arm_multiply_post(new: Arm7Tdmi, old: Arm7Tdmi, opcode: u32) -> bool {
    continued(
        new,
        old,
        multiply_regs(
            old.registers@,
            (opcode & 0xF) as int,
            ((opcode >> 8u32) & 0xF) as int,
            ((opcode >> 12u32) & 0xF) as int,
            ((opcode >> 16u32) & 0xF) as int,
            bit32(opcode, 20),
            bit32(opcode, 21),
        ),
    )
}

/// The 64-bit result of UMULL/UMLAL/SMULL/SMLAL: `a * b` (as signed values when `signed`), plus
/// `hi:lo` when accumulating, modulo 2^64.
#[verifier::opaque]
pub open spec fn long_multiply_value(a: u32, b: u32, hi: u32, lo: u32, accumulate: bool, signed: bool) -> int {
    let product = if signed {
        signed32(a) * signed32(b)
    } else {
        a * b
    };
    let existing = if accumulate {
        hi * 0x1_0000_0000 + lo
    } else {
        0
    };
    (product + existing) % 0x1_0000_0000_0000_0000
}

/// The 64-bit result of a long multiply on the registers Rm and Rs (and RdHi:RdLo).
pub open spec fn multiply_long_result(v: RegistersView, rm: int, rs: int, rdlo: int, rdhi: int, accumulate: bool, signed: bool) -> int {
    long_multiply_value(v.r[rm], v.r[rs], v.r[rdhi], v.r[rdlo], accumulate, signed)
}

/// The register file after a long multiply: RdLo then RdHi receive the halves of the result and,
/// with S set, N and Z follow the 64-bit result.
pub open spec fn multiply_long_regs(v: RegistersView, rm: int, rs: int, rdlo: int, rdhi: int, set_condition_codes: bool, accumulate: bool, signed: bool) -> RegistersView {
    let result = multiply_long_result(v, rm, rs, rdlo, rdhi, accumulate, signed);
    let v1 = RegistersView {
        r: v.r.update(rdlo, (result % 0x1_0000_0000) as u32).update(
            rdhi,
            (result / 0x1_0000_0000) as u32,
        ),
        ..v
    };
    if set_condition_codes {
        RegistersView {
            cpsr: StatusRegister {
                sign: result >= 0x8000_0000_0000_0000,
                zero: result == 0,
                ..v1.cpsr
            },
            ..v1
        }
    } else {
        v1
    }
}

/// Executing a long multiply opcode.
pub open spec fn arm_multiply_long_post(new: Arm7Tdmi, old: Arm7Tdmi, opcode: u32) -> bool {
    continued(
        new,
        old,
        multiply_long_regs(
            old.registers@,
            (opcode & 0xF) as int,
            ((opcode >> 8u32) & 0xF) as int,
            ((opcode >> 12u32) & 0xF) as int,
            ((opcode >> 16u32) & 0xF) as int,
            bit32(opcode, 20),
            bit32(opcode, 21),
            bit32(opcode, 22),
        ),
    )
}

proof fn lemma_nibbles(opcode: u32)
    ensures
        opcode & 0xF < 16,
        (opcode >> 8u32) & 0xF < 16,
        (opcode >> 12u32) & 0xF < 16,
        (opcode >> 16u32) & 0xF < 16,
        (opcode >> 7u32) & 0x1F < 32,
        (opcode >> 8u32) & 0xFF == (opcode >> 8u32) & 0xFF,
        opcode & 0xFF <= 0xFF,
{
    crate::bit_facts::lemma_word_fields(opcode);
}

/// Result and flags of a data processing operation.
pub fn alu_compute(op: AluOp, operand1: u32, operand2: u32, shifter_out: bool, cpsr: StatusRegister) -> (r: (u32, ConditionCodes))
    ensures
        r == alu_result(op, operand1, operand2, shifter_out, cpsr),
{
    let overflow = cpsr.overflow;
    let carry = cpsr.carry;
    match op {
        AluOp::And | AluOp::Test => {
            let result = operand1 & operand2;
            (result, ConditionCodes::logical(result, shifter_out, overflow))
        },
        AluOp::ExclusiveOr | AluOp::TestEqual => {
            let result = operand1 ^ operand2;
            (result, ConditionCodes::logical(result, shifter_out, overflow))
        },
        AluOp::Subtract | AluOp::Compare => alu_add(operand1, !operand2, true),
        AluOp::ReverseSubtract => alu_add(operand2, !operand1, true),
        AluOp::Add | AluOp::CompareNegate => alu_add(operand1, operand2, false),
        AluOp::AddCarry => alu_add(operand1, operand2, carry),
        AluOp::SubtractCarry => alu_add(operand1, !operand2, carry),
        AluOp::ReverseSubtractCarry => alu_add(operand2, !operand1, carry),
        AluOp::Or => {
            let result = operand1 | operand2;
            (result, ConditionCodes::logical(result, shifter_out, overflow))
        },
        AluOp::Move => (operand2, ConditionCodes::logical(operand2, shifter_out, overflow)),
        AluOp::BitClear => {
            let result = operand1 & !operand2;
            (result, ConditionCodes::logical(result, shifter_out, overflow))
        },
        AluOp::MoveNegate => (!operand2, ConditionCodes::logical(!operand2, shifter_out, overflow)),
    }
}

impl Arm7Tdmi {
    // Data processing instructions
    //   AND: And
    //   EOR: Exclusive or
    //   SUB: Subtract
    //   RSB: Reverse subtract
    //   ADD: Add
    //   ADC: Add with carry
    //   SBC: Subtract with carry
    //   RSC: Reverse subtract with carry
    //   TST: Test bits
    //   TEQ: Test equal
    //   CMP: Compare
    //   CMN: Compare negated
    //   ORR: Or
    //   MOV: Move
    //   BIC: Bit clear
    //   MVN: Move negated
    pub fn arm_alu<B: BusInterface>(&mut self, opcode: u32, immediate: bool, bus: &mut B)
        ensures
            arm_alu_post(*final(self), *old(self), opcode, immediate),
    {
        proof {
            lemma_nibbles(opcode);
        }
        let alu_op = AluOp::from_bits(opcode >> 21u32);
        let set_condition_codes = (opcode >> 20u32) & 1 == 1;
        let rn = (opcode >> 16u32) & 0xF;
        let rd = (opcode >> 12u32) & 0xF;

        if immediate {
            let (immediate, rotation) = arm_parse_rotated_immediate(opcode);
            self.alu_rotated_immediate(
                alu_op,
                rn,
                rd,
                set_condition_codes,
                immediate,
                rotation,
                bus,
            );
        } else if (opcode >> 4u32) & 1 == 1 {
            let rm = opcode & 0xF;
            let rs = (opcode >> 8u32) & 0xF;
            let shift_type = ShiftType::from_bits(opcode >> 5u32);
            self.alu_register_shift(
                alu_op,
                rn,
                rd,
                set_condition_codes,
                rm,
                shift_type,
                rs,
                bus,
            );
        } else {
            let rm = opcode & 0xF;
            let shift_type = ShiftType::from_bits(opcode >> 5u32);
            let shift = (opcode >> 7u32) & 0x1F;
            self.alu_immediate_shift(
                alu_op,
                rn,
                rd,
                set_condition_codes,
                rm,
                shift_type,
                shift,
                bus,
            );
        }
    }

    pub fn alu_rotated_immediate<B: BusInterface>(
        &mut self,
        op: AluOp,
        rn: u32,
        rd: u32,
        set_condition_codes: bool,
        immediate: u32,
        rotation: u32,
        bus: &mut B,
    )
        requires
            rn < 16,
            rd < 16,
            rotation < 32,
        ensures
            alu_post(
                *final(self),
                *old(self),
                op,
                read_register_spec(*old(self), rn as int),
                rd as int,
                set_condition_codes,
                rotated_operand(immediate, rotation, old(self).registers.cpsr.carry),
            ),
    {
        let (operand2, shifter_out) = if rotation != 0 {
            (rotate_right(immediate, rotation), (immediate >> (rotation - 1)) & 1 == 1)
        } else {
            (immediate, self.registers.cpsr.carry)
        };

        let operand1 = self.read_register(rn);
        self.alu(op, operand1, rd, set_condition_codes, operand2, shifter_out, bus);
    }

    pub fn alu_immediate_shift<B: BusInterface>(
        &mut self,
        op: AluOp,
        rn: u32,
        rd: u32,
        set_condition_codes: bool,
        rm: u32,
        shift_type: ShiftType,
        shift: u32,
        bus: &mut B,
    )
        requires
            rn < 16,
            rd < 16,
            rm < 16,
            shift < 32,
        ensures
            alu_post(
                *final(self),
                *old(self),
                op,
                read_register_spec(*old(self), rn as int),
                rd as int,
                set_condition_codes,
                immediate_shift(
                    read_register_spec(*old(self), rm as int),
                    shift_type,
                    shift,
                    old(self).registers.cpsr.carry,
                ),
            ),
    {
        let value = self.read_register(rm);

        let (operand2, shifter_out) = apply_immediate_shift(
            value,
            shift_type,
            shift,
            self.registers.cpsr.carry,
        );

        let operand1 = self.read_register(rn);
        self.alu(op, operand1, rd, set_condition_codes, operand2, shifter_out, bus);
    }

    /// A data processing operation whose second operand is Rm shifted by the bottom byte of Rs;
    /// the shift costs one internal cycle.
    pub fn alu_register_shift<B: BusInterface>(
        &mut self,
        op: AluOp,
        rn: u32,
        rd: u32,
        set_condition_codes: bool,
        rm: u32,
        shift_type: ShiftType,
        rs: u32,
        bus: &mut B,
    )
        requires
            rn < 16,
            rd < 16,
            rm < 16,
            rs < 16,
        ensures
            alu_post(
                *final(self),
                *old(self),
                op,
                old(self).registers.r[rn as int],
                rd as int,
                set_condition_codes,
                register_shift(
                    old(self).registers.r[rm as int],
                    shift_type,
                    old(self).registers.r[rs as int] & 0xFF,
                    old(self).registers.cpsr.carry,
                ),
            ),
    {
        let value = self.registers.r[rm as usize];
        let rs_value = self.registers.r[rs as usize];
        let shift = rs_value & 0xFF;
        proof {
            crate::bit_facts::lemma_word_fields(rs_value);
        }

        let (operand2, shifter_out) = apply_register_shift(
            value,
            shift_type,
            shift,
            self.registers.cpsr.carry,
        );

        let operand1 = self.registers.r[rn as usize];

        // Register specified shift adds 1I
        bus.internal_cycles(1);

        self.alu(op, operand1, rd, set_condition_codes, operand2, shifter_out, bus);
    }

    #[verifier::rlimit(40)]
    pub fn alu<B: BusInterface>(
        &mut self,
        op: AluOp,
        operand1: u32,
        rd: u32,
        set_condition_codes: bool,
        operand2: u32,
        shifter_out: bool,
        bus: &mut B,
    )
        requires
            rd < 16,
        ensures
            alu_post(
                *final(self),
                *old(self),
                op,
                operand1,
                rd as int,
                set_condition_codes,
                (operand2, shifter_out),
            ),
    {
        let (result, codes) = alu_compute(op, operand1, operand2, shifter_out, self.registers.cpsr);

        if set_condition_codes {
            if rd == 15 {
                self.spsr_to_cpsr();
            } else {
                self.registers.cpsr = StatusRegister {
                    sign: codes.sign,
                    zero: codes.zero,
                    carry: codes.carry,
                    overflow: codes.overflow,
                    ..self.registers.cpsr
                };
            }
        }

        if !op.is_test() {
            self.registers.set_r(rd as usize, result);

            if rd == 15 {
                self.refill_prefetch(bus);
            }
        }
    }

    pub fn arm_multiply<B: BusInterface>(&mut self, opcode: u32, bus: &mut B)
        ensures
            arm_multiply_post(*final(self), *old(self), opcode),
    {
        proof {
            lemma_nibbles(opcode);
        }
        let rm = opcode & 0xF;
        let rs = (opcode >> 8u32) & 0xF;
        let rn = (opcode >> 12u32) & 0xF;
        let rd = (opcode >> 16u32) & 0xF;
        let set_condition_codes = (opcode >> 20u32) & 1 == 1;
        let accumulate = (opcode >> 21u32) & 1 == 1;

        self.multiply(rm, rs, rn, rd, set_condition_codes, accumulate, bus);
    }

    /// MUL/MLA; takes 1 to 4 internal cycles depending on how many top bytes of Rs are all zeros
    /// or all ones, plus one for accumulation.
    #[verifier::rlimit(40)]
    pub fn multiply<B: BusInterface>(
        &mut self,
        rm: u32,
        rs: u32,
        rn: u32,
        rd: u32,
        set_condition_codes: bool,
        accumulate: bool,
        bus: &mut B,
    )
        requires
            rm < 16,
            rs < 16,
            rn < 16,
            rd < 16,
        ensures
            continued(
                *final(self),
                *old(self),
                multiply_regs(
                    old(self).registers@,
                    rm as int,
                    rs as int,
                    rn as int,
                    rd as int,
                    set_condition_codes,
                    accumulate,
                ),
            ),
    {
        let operand = self.registers.r[rs as usize];
        let product = multiply_accumulate(
            self.registers.r[rm as usize],
            operand,
            self.registers.r[rn as usize],
            accumulate,
        );

        self.registers.set_r(rd as usize, product);

        if set_condition_codes {
            self.registers.cpsr = StatusRegister {
                sign: (product >> 31u32) & 1 == 1,
                zero: product == 0,
                ..self.registers.cpsr
            };
        }

        let m: u32 = if operand & 0xFFFFFF00 == 0 || operand & 0xFFFFFF00 == 0xFFFFFF00 {
            1
        } else if operand & 0xFFFF0000 == 0 || operand & 0xFFFF0000 == 0xFFFF0000 {
            2
        } else if operand & 0xFF000000 == 0 || operand & 0xFF000000 == 0xFF000000 {
            3
        } else {
            4
        };

        let i_cycles = m + if accumulate {
            1
        } else {
            0
        };
        bus.internal_cycles(i_cycles);
    }

    pub fn arm_multiply_long<B: BusInterface>(&mut self, opcode: u32, bus: &mut B)
        ensures
            arm_multiply_long_post(*final(self), *old(self), opcode),
    {
        proof {
            lemma_nibbles(opcode);
        }
        let rm = opcode & 0xF;
        let rs = (opcode >> 8u32) & 0xF;
        let rdlo = (opcode >> 12u32) & 0xF;
        let rdhi = (opcode >> 16u32) & 0xF;
        let set_condition_codes = (opcode >> 20u32) & 1 == 1;
        let accumulate = (opcode >> 21u32) & 1 == 1;
        let signed = (opcode >> 22u32) & 1 == 1;

        self.multiply_long(rm, rs, rdlo, rdhi, set_condition_codes, accumulate, signed, bus);
    }

    /// UMULL/UMLAL/SMULL/SMLAL; takes 2 to 5 internal cycles depending on Rs, plus one for
    /// accumulation.
    pub fn multiply_long<B: BusInterface>(
        &mut self,
        rm: u32,
        rs: u32,
        rdlo: u32,
        rdhi: u32,
        set_condition_codes: bool,
        accumulate: bool,
        signed: bool,
        bus: &mut B,
    )
        requires
            rm < 16,
            rs < 16,
            rdlo < 16,
            rdhi < 16,
        ensures
            continued(
                *final(self),
                *old(self),
                multiply_long_regs(
                    old(self).registers@,
                    rm as int,
                    rs as int,
                    rdlo as int,
                    rdhi as int,
                    set_condition_codes,
                    accumulate,
                    signed,
                ),
            ),
    {
        let operand = self.registers.r[rs as usize];
        let product = long_multiply(
            self.registers.r[rm as usize],
            operand,
            self.registers.r[rdhi as usize],
            self.registers.r[rdlo as usize],
            accumulate,
            signed,
        );

        let low = (product % 0x1_0000_0000) as u32;
        let high = (product / 0x1_0000_0000) as u32;
        self.registers.set_r(rdlo as usize, low);
        self.registers.set_r(rdhi as usize, high);

        if set_condition_codes {
            self.registers.cpsr = StatusRegister {
                sign: product >= 0x8000_0000_0000_0000,
                zero: product == 0,
                ..self.registers.cpsr
            };
        }

        let m: u32 = if operand & 0xFFFFFF00 == 0 || (signed && operand & 0xFFFFFF00 == 0xFFFFFF00) {
            1
        } else if operand & 0xFFFF0000 == 0 || (signed && operand & 0xFFFF0000 == 0xFFFF0000) {
            2
        } else if operand & 0xFF000000 == 0 || (signed && operand & 0xFF000000 == 0xFF000000) {
            3
        } else {
            4
        };

        let i_cycles = 1 + m + if accumulate {
            1
        } else {
            0
        };
        bus.internal_cycles(i_cycles);
    }
}

proof fn lemma_product_bound(a: u32, b: u32)
    ensures
        a * b <= 0xFFFF_FFFE_0000_0001,
{
    assert(a * b <= 0xFFFF_FFFF * 0xFFFF_FFFF) by (nonlinear_arith)
        requires
            a <= 0xFFFF_FFFF,
            b <= 0xFFFF_FFFF,
    ;
}

/// The product of two values read as signed integers, as a 64-bit two's complement value.
fn signed_product(a: u32, b: u32) -> (r: u64)
    ensures
        r == (signed32(a) * signed32(b)) % 0x1_0000_0000_0000_0000,
{
    let a_negative = a >= 0x8000_0000;
    let b_negative = b >= 0x8000_0000;
    let a_magnitude: u64 = if a_negative {
        0x1_0000_0000 - a as u64
    } else {
        a as u64
    };
    let b_magnitude: u64 = if b_negative {
        0x1_0000_0000 - b as u64
    } else {
        b as u64
    };
    proof {
        assert(a_magnitude * b_magnitude <= 0x8000_0000 * 0x8000_0000) by (nonlinear_arith)
            requires
                a_magnitude <= 0x8000_0000,
                b_magnitude <= 0x8000_0000,
        ;
    }
    let magnitude = a_magnitude * b_magnitude;
    if a_negative == b_negative || magnitude == 0 {
        proof {
            assert(signed32(a) * signed32(b) == magnitude) by (nonlinear_arith)
                requires
                    signed32(a) == (if a_negative { -(a_magnitude as int) } else { a_magnitude as int }),
                    signed32(b) == (if b_negative { -(b_magnitude as int) } else { b_magnitude as int }),
                    magnitude == a_magnitude * b_magnitude,
                    a_negative == b_negative || magnitude == 0,
            ;
        }
        magnitude
    } else {
        proof {
            assert(signed32(a) * signed32(b) == -(magnitude as int)) by (nonlinear_arith)
                requires
                    signed32(a) == (if a_negative { -(a_magnitude as int) } else { a_magnitude as int }),
                    signed32(b) == (if b_negative { -(b_magnitude as int) } else { b_magnitude as int }),
                    magnitude == a_magnitude * b_magnitude,
                    a_negative != b_negative,
            ;
        }
        0xFFFF_FFFF_FFFF_FFFF - (magnitude - 1)
    }
}

/// The 64-bit result of a long multiply.
pub fn long_multiply(a: u32, b: u32, hi: u32, lo: u32, accumulate: bool, signed: bool) -> (r: u64)
    ensures
        r == long_multiply_value(a, b, hi, lo, accumulate, signed),
{
    reveal(long_multiply_value);
    let ghost m = 0x1_0000_0000_0000_0000int;
    let product: u64 = if signed {
        signed_product(a, b)
    } else {
        proof {
            lemma_product_bound(a, b);
        }
        a as u64 * b as u64
    };
    let ghost raw = if signed {
        signed32(a) * signed32(b)
    } else {
        a * b
    };
    let ghost existing = if accumulate {
        hi * 0x1_0000_0000 + lo
    } else {
        0
    };
    proof {
        if !signed {
            lemma_product_bound(a, b);
            vstd::arithmetic::div_mod::lemma_small_mod(raw as nat, m as nat);
        }
        assert(product == raw % m);
        vstd::arithmetic::div_mod::lemma_add_mod_noop(raw, existing, m);
        vstd::arithmetic::div_mod::lemma_mod_twice(raw, m);
        vstd::arithmetic::div_mod::lemma_small_mod(existing as nat, m as nat);
    }
    if accumulate {
        let existing_value = (hi as u64) * 0x1_0000_0000 + (lo as u64);
        product.wrapping_add(existing_value)
    } else {
        product
    }
}

} // verus!
