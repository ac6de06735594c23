//! The Thumb instruction formats, each executed through the ARM operation it stands for.
use crate::arm7tdmi::bus::BusInterface;
use crate::arm7tdmi::instructions::alu::{
    alu_post, immediate_shift, multiply_regs, rotated_operand,
};
use crate::arm7tdmi::instructions::branch::{branch_regs, bx_post};
use crate::arm7tdmi::instructions::load::{
    load_halfword_post, load_multiple_post, load_word_post, sign_extend_8,
};
use crate::arm7tdmi::instructions::{
    alu_op_from_bits, condition_from_bits, condition_holds, shift_type_from_bits, AluOp, Condition,
    HalfwordLoadType, IndexOp, LoadIndexing, LoadSize, ShiftType, WriteBack, THUMB_OPCODE_LEN,
};
use crate::arm7tdmi::{
    bit32, continued, read_register_spec, refilled, Arm7Tdmi, Exception, RegistersView,
};
use vstd::prelude::*;

verus! {

/// Bit `n` of a Thumb opcode.
pub open spec fn bit16(opcode: u16, n: u16) -> bool {
    (opcode >> n) & 1 == 1
}

/// The 3-bit register field at bit `n` of a Thumb opcode.
pub open spec fn low_reg(opcode: u16, n: u16) -> int {
    ((opcode >> n) & 7) as int
}

proof fn lemma_thumb_fields(opcode: u16)
    ensures
        opcode & 7 < 8,
        (opcode >> 3u16) & 7 < 8,
        (opcode >> 6u16) & 7 < 8,
        (opcode >> 8u16) & 7 < 8,
        (opcode >> 6u16) & 0x1F < 32,
        (opcode >> 6u16) & 0xF < 16,
        (opcode >> 10u16) & 3 <= 3,
        opcode & 0xFF < 0x100,
        opcode & 0x7F < 0x80,
        opcode & 0x7FF < 0x800,
        ((opcode & 0xFF) as u32) | 0x8000 <= 0xFFFF,
        ((opcode & 0xFF) as u32) | 0x4000 <= 0xFFFF,
{
    assert(opcode & 7 < 8 && (opcode >> 3u16) & 7 < 8 && (opcode >> 6u16) & 7 < 8 && (opcode >> 8u16)
        & 7 < 8 && (opcode >> 6u16) & 0x1F < 32 && (opcode >> 6u16) & 0xF < 16 && (opcode >> 10u16) & 3 <= 3 && opcode & 0xFF
        < 0x100 && opcode & 0x7F < 0x80 && opcode & 0x7FF < 0x800 && ((opcode & 0xFF) as u32) | 0x8000
        <= 0xFFFF && ((opcode & 0xFF) as u32) | 0x4000 <= 0xFFFF) by (bit_vector);
}

/// Format 1: LSL/LSR/ASR Rd, Rs, #shift.
pub open spec fn thumb_move_shifted_register_post(new: Arm7Tdmi, old: Arm7Tdmi, opcode: u16) -> bool {
    let rd = ((opcode & 7) as int);
    alu_post(
        new,
        old,
        AluOp::Move,
        read_register_spec(old, rd),
        rd,
        true,
        immediate_shift(
            read_register_spec(old, low_reg(opcode, 3)),
            shift_type_from_bits((opcode >> 11u16) as u32),
            ((opcode >> 6u16) & 0x1F) as u32,
            old.registers.cpsr.carry,
        ),
    )
}

/// Format 2: ADD/SUB Rd, Rs, Rn or #imm3.
pub open spec fn thumb_add_sub_post(new: Arm7Tdmi, old: Arm7Tdmi, opcode: u16) -> bool {
    let op = if bit16(opcode, 9) {
        AluOp::Subtract
    } else {
        AluOp::Add
    };
    let operand = if bit16(opcode, 10) {
        rotated_operand(((opcode >> 6u16) & 7) as u32, 0, old.registers.cpsr.carry)
    } else {
        immediate_shift(
            read_register_spec(old, low_reg(opcode, 6)),
            ShiftType::Left,
            0,
            old.registers.cpsr.carry,
        )
    };
    alu_post(new, old, op, read_register_spec(old, low_reg(opcode, 3)), ((opcode & 7) as int), true, operand)
}

/// The operation of format 3 (MOV/CMP/ADD/SUB with an 8-bit immediate).
pub open spec fn thumb_immediate_op(opcode: u16) -> AluOp {
    let b = (opcode >> 11u16) & 3;
    if b == 0 {
        AluOp::Move
    } else if b == 1 {
        AluOp::Compare
    } else if b == 2 {
        AluOp::Add
    } else {
        AluOp::Subtract
    }
}

/// Format 3: MOV/CMP/ADD/SUB Rd, #imm8.
pub open spec fn thumb_alu_immediate_post(new: Arm7Tdmi, old: Arm7Tdmi, opcode: u16) -> bool {
    let rd = low_reg(opcode, 8);
    alu_post(
        new,
        old,
        thumb_immediate_op(opcode),
        read_register_spec(old, rd),
        rd,
        true,
        rotated_operand((opcode & 0xFF) as u32, 0, old.registers.cpsr.carry),
    )
}

/// The data processing operation a Thumb format 4 operation number stands for (for the ten
/// numbers that are not shifts, NEG or MUL).
pub open spec fn thumb_data_op(op: u16) -> AluOp {
    if op == 0 {
        AluOp::And
    } else if op == 1 {
        AluOp::ExclusiveOr
    } else if op == 5 {
        AluOp::AddCarry
    } else if op == 6 {
        AluOp::SubtractCarry
    } else if op == 8 {
        AluOp::Test
    } else if op == 0xA {
        AluOp::Compare
    } else if op == 0xB {
        AluOp::CompareNegate
    } else if op == 0xC {
        AluOp::Or
    } else if op == 0xE {
        AluOp::BitClear
    } else {
        AluOp::MoveNegate
    }
}

/// The ten Thumb format 4 data processing operations keep their ARM opcode numbers: each
/// executes the ARM data processing operation whose opcode field `b` holds the same number.
pub proof fn lemma_thumb_data_ops_are_arm_ops(op: u16, b: u32)
    requires
        op == 0 || op == 1 || op == 5 || op == 6 || op == 8 || op == 10 || op == 11 || op == 12 || op
            == 14 || op == 15,
        b & 0xF == op as u32,
    ensures
        thumb_data_op(op) == alu_op_from_bits(b),
{
}

/// Format 4: the sixteen register-to-register ALU operations.
pub open spec fn thumb_alu_post(new: Arm7Tdmi, old: Arm7Tdmi, opcode: u16) -> bool {
    let rd = ((opcode & 7) as int);
    let rs = low_reg(opcode, 3);
    let op = (opcode >> 6u16) & 0xF;
    let carry = old.registers.cpsr.carry;
    if op == 2 || op == 3 || op == 4 || op == 7 {
        // LSL/LSR/ASR/ROR by register
        let shift_type = if op == 2 {
            ShiftType::Left
        } else if op == 3 {
            ShiftType::LogicalRight
        } else if op == 4 {
            ShiftType::ArithmeticRight
        } else {
            ShiftType::RotateRight
        };
        alu_post(
            new,
            old,
            AluOp::Move,
            old.registers.r[rd],
            rd,
            true,
            crate::arm7tdmi::instructions::alu::register_shift(
                old.registers.r[rd],
                shift_type,
                old.registers.r[rs] & 0xFF,
                carry,
            ),
        )
    } else if op == 9 {
        // NEG
        alu_post(new, old, AluOp::ReverseSubtract, read_register_spec(old, rs), rd, true, rotated_operand(0, 0, carry))
    } else if op == 0xD {
        // MUL
        continued(new, old, multiply_regs(old.registers@, rs, rd, rd, rd, true, false))
    } else {
        let basic_op = thumb_data_op(op);
        alu_post(
            new,
            old,
            basic_op,
            read_register_spec(old, rd),
            rd,
            true,
            immediate_shift(read_register_spec(old, rs), ShiftType::Left, 0, carry),
        )
    }
}

/// The full register numbers of format 5: the high-register flags add 8.
pub open spec fn hi_rd(opcode: u16) -> int {
    (opcode & 7) as int + if bit16(opcode, 7) {
        8int
    } else {
        0int
    }
}

pub open spec fn hi_rs(opcode: u16) -> int {
    low_reg(opcode, 3) + if bit16(opcode, 6) {
        8int
    } else {
        0int
    }
}

/// Format 5: ADD/CMP/MOV with high registers, and BX.
pub open spec fn thumb_high_register_op_post(new: Arm7Tdmi, old: Arm7Tdmi, opcode: u16) -> bool {
    let b = (opcode >> 8u16) & 3;
    let rd = hi_rd(opcode);
    if b == 3 {
        bx_post(new, old, hi_rs(opcode))
    } else {
        let op = if b == 0 {
            AluOp::Add
        } else if b == 1 {
            AluOp::Compare
        } else {
            AluOp::Move
        };
        alu_post(
            new,
            old,
            op,
            read_register_spec(old, rd),
            rd,
            op == AluOp::Compare,
            immediate_shift(read_register_spec(old, hi_rs(opcode)), ShiftType::Left, 0, old.registers.cpsr.carry),
        )
    }
}

/// Format 6: LDR Rd, [PC, #imm8*4], with bit 1 of PC read as clear.
pub open spec fn thumb_pc_relative_load_post(new: Arm7Tdmi, old: Arm7Tdmi, opcode: u16) -> bool {
    let offset = (((opcode & 0xFF) as u32) << 2u32).wrapping_sub(old.prev_r15 & 2);
    load_word_post(new, old, true, 15, low_reg(opcode, 8), offset, LoadSize::Word, LoadIndexing::Pre, IndexOp::Add, WriteBack::No)
}

/// Format 7: LDR/STR/LDRB/STRB Rd, [Rb, Ro].
pub open spec fn thumb_load_register_offset_post(new: Arm7Tdmi, old: Arm7Tdmi, opcode: u16) -> bool {
    load_word_post(
        new,
        old,
        bit16(opcode, 11),
        low_reg(opcode, 3),
        ((opcode & 7) as int),
        read_register_spec(old, low_reg(opcode, 6)),
        if bit16(opcode, 10) {
            LoadSize::Byte
        } else {
            LoadSize::Word
        },
        LoadIndexing::Pre,
        IndexOp::Add,
        WriteBack::No,
    )
}

/// Format 8: STRH/LDSB/LDRH/LDSH Rd, [Rb, Ro].
pub open spec fn thumb_load_sign_extended_post(new: Arm7Tdmi, old: Arm7Tdmi, opcode: u16) -> bool {
    let sh = (opcode >> 10u16) & 3;
    let load_type = if sh == 1 {
        HalfwordLoadType::SignedByte
    } else if sh == 3 {
        HalfwordLoadType::SignedHalfword
    } else {
        HalfwordLoadType::UnsignedHalfword
    };
    load_halfword_post(
        new,
        old,
        sh != 0,
        low_reg(opcode, 3),
        ((opcode & 7) as int),
        read_register_spec(old, low_reg(opcode, 6)),
        load_type,
        LoadIndexing::Pre,
        IndexOp::Add,
        WriteBack::No,
    )
}

/// Format 9: LDR/STR/LDRB/STRB Rd, [Rb, #imm5] (scaled by 4 for words).
pub open spec fn thumb_load_immediate_offset_post(new: Arm7Tdmi, old: Arm7Tdmi, opcode: u16) -> bool {
    let byte = bit16(opcode, 12);
    let field = ((opcode >> 6u16) & 0x1F) as u32;
    load_word_post(
        new,
        old,
        bit16(opcode, 11),
        low_reg(opcode, 3),
        ((opcode & 7) as int),
        if byte {
            field
        } else {
            field << 2u32
        },
        if byte {
            LoadSize::Byte
        } else {
            LoadSize::Word
        },
        LoadIndexing::Pre,
        IndexOp::Add,
        WriteBack::No,
    )
}

/// Format 10: LDRH/STRH Rd, [Rb, #imm5*2].
pub open spec fn thumb_load_halfword_post(new: Arm7Tdmi, old: Arm7Tdmi, opcode: u16) -> bool {
    load_halfword_post(
        new,
        old,
        bit16(opcode, 11),
        low_reg(opcode, 3),
        ((opcode & 7) as int),
        (((opcode >> 6u16) & 0x1F) as u32) << 1u32,
        HalfwordLoadType::UnsignedHalfword,
        LoadIndexing::Pre,
        IndexOp::Add,
        WriteBack::No,
    )
}

/// Format 11: LDR/STR Rd, [SP, #imm8*4].
pub open spec fn thumb_load_sp_relative_post(new: Arm7Tdmi, old: Arm7Tdmi, opcode: u16) -> bool {
    load_word_post(
        new,
        old,
        bit16(opcode, 11),
        13,
        low_reg(opcode, 8),
        ((opcode & 0xFF) as u32) << 2u32,
        LoadSize::Word,
        LoadIndexing::Pre,
        IndexOp::Add,
        WriteBack::No,
    )
}

/// Format 12: ADD Rd, SP or PC, #imm8*4 (bit 1 of PC read as clear), flags untouched.
pub open spec fn thumb_load_address_post(new: Arm7Tdmi, old: Arm7Tdmi, opcode: u16) -> bool {
    let immediate = ((opcode & 0xFF) as u32) << 2u32;
    let rn: int = if bit16(opcode, 11) {
        13
    } else {
        15
    };
    let immediate = if rn == 15 {
        immediate.wrapping_sub(old.prev_r15 & 2)
    } else {
        immediate
    };
    alu_post(
        new,
        old,
        AluOp::Add,
        read_register_spec(old, rn),
        low_reg(opcode, 8),
        false,
        rotated_operand(immediate, 0, old.registers.cpsr.carry),
    )
}

/// Format 13: ADD SP, #+/-imm7*4, flags untouched.
pub open spec fn thumb_add_offset_sp_post(new: Arm7Tdmi, old: Arm7Tdmi, opcode: u16) -> bool {
    let magnitude = ((opcode & 0x7F) as u32) << 2u32;
    let offset = if bit16(opcode, 7) {
        (!magnitude).wrapping_add(1)
    } else {
        magnitude
    };
    alu_post(
        new,
        old,
        AluOp::Add,
        read_register_spec(old, 13),
        13,
        false,
        rotated_operand(offset, 0, old.registers.cpsr.carry),
    )
}

/// The register list of PUSH/POP: R0-R7, plus LR for PUSH or PC for POP when bit 8 is set.
pub open spec fn push_pop_list(opcode: u16) -> u32 {
    let low = (opcode & 0xFF) as u32;
    if bit16(opcode, 8) {
        if bit16(opcode, 11) {
            low | 0x8000
        } else {
            low | 0x4000
        }
    } else {
        low
    }
}

/// Format 14: PUSH (STMDB SP!) and POP (LDMIA SP!).
pub open spec fn thumb_push_pop_post(new: Arm7Tdmi, old: Arm7Tdmi, opcode: u16) -> bool {
    let load = bit16(opcode, 11);
    load_multiple_post(new, old, load, load, load, push_pop_list(opcode), 13, true, false)
}

/// Format 15: LDMIA/STMIA Rb!, {Rlist}.
pub open spec fn thumb_load_multiple_post(new: Arm7Tdmi, old: Arm7Tdmi, opcode: u16) -> bool {
    load_multiple_post(
        new,
        old,
        bit16(opcode, 11),
        true,
        true,
        (opcode & 0xFF) as u32,
        low_reg(opcode, 8),
        true,
        false,
    )
}

/// Format 16: conditional branch by a signed 8-bit halfword offset.
pub open spec fn thumb_conditional_branch_post(new: Arm7Tdmi, old: Arm7Tdmi, opcode: u16) -> bool {
    if !condition_holds(condition_from_bits((opcode >> 8u16) as u32), old.registers.cpsr) {
        new == old
    } else {
        refilled(
            new,
            branch_regs(old, false, THUMB_OPCODE_LEN, sign_extend_8((opcode & 0xFF) as u32) << 1u32),
        )
    }
}

/// An 11-bit value sign-extended to 32 bits.
pub open spec fn sign_extend_11(value: u32) -> u32 {
    if bit32(value, 10) {
        value | 0xFFFF_F800
    } else {
        value
    }
}

/// A 23-bit value sign-extended to 32 bits.
pub open spec fn sign_extend_23(value: u32) -> u32 {
    if bit32(value, 22) {
        value | 0xFF80_0000
    } else {
        value
    }
}

/// Format 18: unconditional branch by a signed 11-bit halfword offset.
pub open spec fn thumb_unconditional_branch_post(new: Arm7Tdmi, old: Arm7Tdmi, opcode: u16) -> bool {
    refilled(
        new,
        branch_regs(old, false, THUMB_OPCODE_LEN, sign_extend_11((opcode & 0x7FF) as u32) << 1u32),
    )
}

/// Format 19: long branch with link. The first half puts the high part of the target in LR; the
/// second adds the low part, jumps there and leaves the return address (with bit 0 set) in LR.
pub open spec fn thumb_long_branch_post(new: Arm7Tdmi, old: Arm7Tdmi, opcode: u16) -> bool {
    let v = old.registers@;
    if !bit16(opcode, 11) {
        let offset = sign_extend_23(((opcode & 0x7FF) as u32) << 12u32);
        continued(new, old, RegistersView { r: v.r.update(14, old.prev_r15.wrapping_add(offset)), ..v })
    } else {
        let jump_address = v.r[14].wrapping_add(((opcode & 0x7FF) as u32) << 1u32);
        refilled(
            new,
            RegistersView {
                r: v.r.update(14, old.prev_r15.wrapping_sub(2) | 1).update(15, jump_address),
                ..v
            },
        )
    }
}

impl Arm7Tdmi {
    // Format 1: Move shifted register
    pub fn thumb_move_shifted_register<B: BusInterface>(&mut self, opcode: u16, bus: &mut B)
        ensures
            thumb_move_shifted_register_post(*final(self), *old(self), opcode),
    {
        proof {
            lemma_thumb_fields(opcode);
        }
        let rd = (opcode & 7) as u32;
        let rs = ((opcode >> 3u16) & 7) as u32;
        let shift = ((opcode >> 6u16) & 0x1F) as u32;
        let shift_type = ShiftType::from_bits((opcode >> 11u16) as u32);

        self.alu_immediate_shift(AluOp::Move, rd, rd, true, rs, shift_type, shift, bus);
    }

    // Format 2: Add/subtract
    pub fn thumb_add_sub<B: BusInterface>(&mut self, opcode: u16, bus: &mut B)
        ensures
            thumb_add_sub_post(*final(self), *old(self), opcode),
    {
        proof {
            lemma_thumb_fields(opcode);
        }
        let rd = (opcode & 7) as u32;
        let rs = ((opcode >> 3u16) & 7) as u32;
        let rn = ((opcode >> 6u16) & 7) as u32;
        let alu_op = if (opcode >> 9u16) & 1 == 1 {
            AluOp::Subtract
        } else {
            AluOp::Add
        };

        let immediate = (opcode >> 10u16) & 1 == 1;
        if immediate {
            self.alu_rotated_immediate(alu_op, rs, rd, true, rn, 0, bus);
        } else {
            self.alu_immediate_shift(alu_op, rs, rd, true, rn, ShiftType::Left, 0, bus);
        }
    }

    // Format 3: Move/compare/add/subtract immediate
    pub fn thumb_alu_immediate<B: BusInterface>(&mut self, opcode: u16, bus: &mut B)
        ensures
            thumb_alu_immediate_post(*final(self), *old(self), opcode),
    {
        proof {
            lemma_thumb_fields(opcode);
        }
        let immediate = (opcode & 0xFF) as u32;
        let rd = ((opcode >> 8u16) & 7) as u32;
        let b = (opcode >> 11u16) & 3;
        let alu_op = if b == 0 {
            AluOp::Move
        } else if b == 1 {
            AluOp::Compare
        } else if b == 2 {
            AluOp::Add
        } else {
            AluOp::Subtract
        };

        self.alu_rotated_immediate(alu_op, rd, rd, true, immediate, 0, bus);
    }

    // Format 4: ALU operations
    pub fn thumb_alu<B: BusInterface>(&mut self, opcode: u16, bus: &mut B)
        ensures
            thumb_alu_post(*final(self), *old(self), opcode),
    {
        proof {
            lemma_thumb_fields(opcode);
        }
        let rd = (opcode & 7) as u32;
        let rs = ((opcode >> 3u16) & 7) as u32;

        let op = (opcode >> 6u16) & 0xF;
        if op == 2 || op == 3 || op == 4 || op == 7 {
            // LSL/LSR/ASR/ROR
            let shift_type = if op == 2 {
                ShiftType::Left
            } else if op == 3 {
                ShiftType::LogicalRight
            } else if op == 4 {
                ShiftType::ArithmeticRight
            } else {
                ShiftType::RotateRight
            };
            self.alu_register_shift(AluOp::Move, rd, rd, true, rd, shift_type, rs, bus);
            return;
        }
        if op == 9 {
            // NEG
            self.alu_rotated_immediate(AluOp::ReverseSubtract, rs, rd, true, 0, 0, bus);
            return;
        }
        if op == 0xD {
            // MUL
            self.multiply(rs, rd, rd, rd, true, false, bus);
            return;
        }
        let basic_op = if op == 0 {
            AluOp::And
        } else if op == 1 {
            AluOp::ExclusiveOr
        } else if op == 5 {
            AluOp::AddCarry
        } else if op == 6 {
            AluOp::SubtractCarry
        } else if op == 8 {
            AluOp::Test
        } else if op == 0xA {
            AluOp::Compare
        } else if op == 0xB {
            AluOp::CompareNegate
        } else if op == 0xC {
            AluOp::Or
        } else if op == 0xE {
            AluOp::BitClear
        } else {
            AluOp::MoveNegate
        };

        self.alu_immediate_shift(basic_op, rd, rd, true, rs, ShiftType::Left, 0, bus);
    }

    // Format 5: Hi register operations / branch exchange
    pub fn thumb_high_register_op<B: BusInterface>(&mut self, opcode: u16, bus: &mut B)
        ensures
            thumb_high_register_op_post(*final(self), *old(self), opcode),
    {
        proof {
            lemma_thumb_fields(opcode);
        }
        let mut rd = (opcode & 7) as u32;
        let mut rs = ((opcode >> 3u16) & 7) as u32;

        if (opcode >> 6u16) & 1 == 1 {
            rs += 8;
        }

        if (opcode >> 7u16) & 1 == 1 {
            rd += 8;
        }

        let b = (opcode >> 8u16) & 3;
        if b == 3 {
            self.branch_exchange(rs, bus);
            return;
        }
        let alu_op = if b == 0 {
            AluOp::Add
        } else if b == 1 {
            AluOp::Compare
        } else {
            AluOp::Move
        };

        let set_condition_codes = alu_op == AluOp::Compare;

        self.alu_immediate_shift(alu_op, rd, rd, set_condition_codes, rs, ShiftType::Left, 0, bus);
    }

    // Format 6: PC-relative load
    pub fn thumb_pc_relative_load<B: BusInterface>(&mut self, opcode: u16, bus: &mut B)
        ensures
            thumb_pc_relative_load_post(*final(self), *old(self), opcode),
    {
        proof {
            lemma_thumb_fields(opcode);
        }
        // Bit 1 of PC is forcibly cleared for PC-relative loads
        let mut offset: u32 = ((opcode & 0xFF) as u32) << 2u32;
        offset = offset.wrapping_sub(self.prev_r15 & 2);

        let rd = ((opcode >> 8u16) & 7) as u32;

        self.load_word(true, 15, rd, offset, LoadSize::Word, LoadIndexing::Pre, IndexOp::Add, WriteBack::No, bus);
    }

    // Format 7: Load/store with register offset
    pub fn thumb_load_register_offset<B: BusInterface>(&mut self, opcode: u16, bus: &mut B)
        ensures
            thumb_load_register_offset_post(*final(self), *old(self), opcode),
    {
        proof {
            lemma_thumb_fields(opcode);
        }
        let rd = (opcode & 7) as u32;
        let rb = ((opcode >> 3u16) & 7) as u32;
        let ro = ((opcode >> 6u16) & 7) as u32;
        let size = LoadSize::from_bit((opcode >> 10u16) & 1 == 1);
        let load = (opcode >> 11u16) & 1 == 1;

        let offset = self.read_register(ro);

        self.load_word(load, rb, rd, offset, size, LoadIndexing::Pre, IndexOp::Add, WriteBack::No, bus);
    }

    // Format 8: Load/store sign-extended byte/halfword
    pub fn thumb_load_sign_extended<B: BusInterface>(&mut self, opcode: u16, bus: &mut B)
        ensures
            thumb_load_sign_extended_post(*final(self), *old(self), opcode),
    {
        proof {
            lemma_thumb_fields(opcode);
        }
        let rd = (opcode & 7) as u32;
        let rb = ((opcode >> 3u16) & 7) as u32;
        let ro = ((opcode >> 6u16) & 7) as u32;

        let offset = self.read_register(ro);

        let sh_bits = (opcode >> 10u16) & 3;
        if sh_bits == 0 {
            // STRH
            self.load_halfword(
                false,
                rb,
                rd,
                offset,
                HalfwordLoadType::UnsignedHalfword,
                LoadIndexing::Pre,
                IndexOp::Add,
                WriteBack::No,
                bus,
            );
        } else {
            let load_type = if sh_bits == 1 {
                HalfwordLoadType::SignedByte
            } else if sh_bits == 2 {
                HalfwordLoadType::UnsignedHalfword
            } else {
                HalfwordLoadType::SignedHalfword
            };

            assert(load_type == (if sh_bits == 1 {
                HalfwordLoadType::SignedByte
            } else if sh_bits == 3 {
                HalfwordLoadType::SignedHalfword
            } else {
                HalfwordLoadType::UnsignedHalfword
            }));
            self.load_halfword(true, rb, rd, offset, load_type, LoadIndexing::Pre, IndexOp::Add, WriteBack::No, bus);
        }
    }

    // Format 9: Load/store with immediate offset
    pub fn thumb_load_immediate_offset<B: BusInterface>(&mut self, opcode: u16, bus: &mut B)
        ensures
            thumb_load_immediate_offset_post(*final(self), *old(self), opcode),
    {
        proof {
            lemma_thumb_fields(opcode);
        }
        let rd = (opcode & 7) as u32;
        let rb = ((opcode >> 3u16) & 7) as u32;
        let mut offset = ((opcode >> 6u16) & 0x1F) as u32;
        let load = (opcode >> 11u16) & 1 == 1;
        let size = LoadSize::from_bit((opcode >> 12u16) & 1 == 1);

        if size == LoadSize::Word {
            offset = offset << 2u32;
        }

        self.load_word(load, rb, rd, offset, size, LoadIndexing::Pre, IndexOp::Add, WriteBack::No, bus);
    }

    // Format 10: Load/store halfword
    pub fn thumb_load_halfword<B: BusInterface>(&mut self, opcode: u16, bus: &mut B)
        ensures
            thumb_load_halfword_post(*final(self), *old(self), opcode),
    {
        proof {
            lemma_thumb_fields(opcode);
        }
        let rd = (opcode & 7) as u32;
        let rb = ((opcode >> 3u16) & 7) as u32;
        let offset = (((opcode >> 6u16) & 0x1F) as u32) << 1u32;
        let load = (opcode >> 11u16) & 1 == 1;

        self.load_halfword(
            load,
            rb,
            rd,
            offset,
            HalfwordLoadType::UnsignedHalfword,
            LoadIndexing::Pre,
            IndexOp::Add,
            WriteBack::No,
            bus,
        );
    }

    // Format 11: SP-relative load/store
    pub fn thumb_load_sp_relative<B: BusInterface>(&mut self, opcode: u16, bus: &mut B)
        ensures
            thumb_load_sp_relative_post(*final(self), *old(self), opcode),
    {
        proof {
            lemma_thumb_fields(opcode);
        }
        let offset = ((opcode & 0xFF) as u32) << 2u32;
        let rd = ((opcode >> 8u16) & 7) as u32;
        let load = (opcode >> 11u16) & 1 == 1;

        self.load_word(load, 13, rd, offset, LoadSize::Word, LoadIndexing::Pre, IndexOp::Add, WriteBack::No, bus);
    }

    // Format 12: Load address
    pub fn thumb_load_address<B: BusInterface>(&mut self, opcode: u16, bus: &mut B)
        ensures
            thumb_load_address_post(*final(self), *old(self), opcode),
    {
        proof {
            lemma_thumb_fields(opcode);
        }
        let mut immediate: u32 = ((opcode & 0xFF) as u32) << 2u32;
        let rd = ((opcode >> 8u16) & 7) as u32;

        // Bit 11 selects between SP (R13) and PC (R15)
        let rn: u32 = if (opcode >> 11u16) & 1 == 1 {
            13
        } else {
            15
        };

        // Bit 1 is forced clear when PC is used as Rn
        if rn == 15 {
            immediate = immediate.wrapping_sub(self.prev_r15 & 2);
        }

        self.alu_rotated_immediate(AluOp::Add, rn, rd, false, immediate, 0, bus);
    }

    // Format 13: Add offset to stack pointer
    pub fn thumb_add_offset_sp<B: BusInterface>(&mut self, opcode: u16, bus: &mut B)
        ensures
            thumb_add_offset_sp_post(*final(self), *old(self), opcode),
    {
        proof {
            lemma_thumb_fields(opcode);
        }
        let mut offset: u32 = ((opcode & 0x7F) as u32) << 2u32;
        if (opcode >> 7u16) & 1 == 1 {
            offset = (!offset).wrapping_add(1);
        }

        self.alu_rotated_immediate(AluOp::Add, 13, 13, false, offset, 0, bus);
    }

    // Format 14: Push/pop registers
    pub fn thumb_push_pop<B: BusInterface>(&mut self, opcode: u16, bus: &mut B)
        ensures
            thumb_push_pop_post(*final(self), *old(self), opcode),
    {
        proof {
            lemma_thumb_fields(opcode);
        }
        let lr_pc_bit = (opcode >> 8u16) & 1 == 1;
        let load = (opcode >> 11u16) & 1 == 1;

        let mut register_bits = (opcode & 0xFF) as u32;
        if lr_pc_bit {
            // Store LR, load PC
            register_bits = register_bits | if load {
                0x8000u32
            } else {
                0x4000u32
            };
        }

        if load {
            self.load_multiple(true, true, true, register_bits, 13, true, false, bus);
        } else {
            self.load_multiple(false, false, false, register_bits, 13, true, false, bus);
        }
    }

    // Format 15: Multiple load/store
    pub fn thumb_load_multiple<B: BusInterface>(&mut self, opcode: u16, bus: &mut B)
        ensures
            thumb_load_multiple_post(*final(self), *old(self), opcode),
    {
        proof {
            lemma_thumb_fields(opcode);
        }
        let register_bits = (opcode & 0xFF) as u32;
        let rb = ((opcode >> 8u16) & 7) as u32;
        let load = (opcode >> 11u16) & 1 == 1;

        if load {
            self.load_multiple(true, true, true, register_bits, rb, true, false, bus);
        } else {
            self.load_multiple(false, true, true, register_bits, rb, true, false, bus);
        }
    }

    // Format 16: Conditional branch
    pub fn thumb_conditional_branch<B: BusInterface>(&mut self, opcode: u16, bus: &mut B)
        ensures
            thumb_conditional_branch_post(*final(self), *old(self), opcode),
    {
        let condition = Condition::from_bits((opcode >> 8u16) as u32);
        if !condition.check(self.registers.cpsr) {
            return;
        }

        let low = (opcode & 0xFF) as u32;
        let extended = if low >= 0x80 {
            low | 0xFFFF_FF00
        } else {
            low
        };
        self.branch(false, THUMB_OPCODE_LEN, extended << 1u32, bus);
    }

    // Format 17: Software interrupt
    pub fn thumb_software_interrupt<B: BusInterface>(&mut self, opcode: u16, bus: &mut B)
        ensures
            refilled(
                *final(self),
                crate::arm7tdmi::exception_entry(old(self).registers@, old(self).prev_r15, Exception::SoftwareInterrupt),
            ),
    {
        self.handle_exception(Exception::SoftwareInterrupt, bus);
    }

    // Format 18: Unconditional branch
    pub fn thumb_unconditional_branch<B: BusInterface>(&mut self, opcode: u16, bus: &mut B)
        ensures
            thumb_unconditional_branch_post(*final(self), *old(self), opcode),
    {
        let field = (opcode & 0x7FF) as u32;
        let extended = if (field >> 10u32) & 1 == 1 {
            field | 0xFFFF_F800
        } else {
            field
        };
        self.branch(false, THUMB_OPCODE_LEN, extended << 1u32, bus);
    }

    // Format 19: Long branch with link
    // This instruction has no ARM equivalent
    pub fn thumb_long_branch<B: BusInterface>(&mut self, opcode: u16, bus: &mut B)
        ensures
            thumb_long_branch_post(*final(self), *old(self), opcode),
    {
        // Offset is a signed 23-bit value split across two opcodes, with 11 bits in each
        // First opcode has H=0 and second opcode has H=1
        // It is possible to have an H=1 opcode without an H=0 opcode; Golden Sun: The Lost Age does this
        if !((opcode >> 11u16) & 1 == 1) {
            // First opcode: Write highest 11 bits of jump address to LR
            let unsigned_offset = ((opcode & 0x7FF) as u32) << 12u32;

            // Clip to signed 23-bit
            let offset = if (unsigned_offset >> 22u32) & 1 == 1 {
                unsigned_offset | 0xFF80_0000
            } else {
                unsigned_offset
            };

            let lr = self.prev_r15.wrapping_add(offset);
            self.registers.set_r(14, lr);
        } else {
            // Second opcode: Add lowest 11 bits of jump address to LR, jump, and write return address to LR
            let offset_low = ((opcode & 0x7FF) as u32) << 1u32;
            let jump_address = self.registers.r[14].wrapping_add(offset_low);

            let return_address = self.prev_r15.wrapping_sub(2);
            self.registers.set_r(14, return_address | 1);

            self.registers.set_r(15, jump_address);
            self.refill_prefetch(bus);
        }
    }
}

} // verus!
