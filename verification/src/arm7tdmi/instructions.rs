//! ARM and Thumb instruction decoding and execution.
pub mod alu;
pub mod branch;
pub mod disassemble;
pub mod load;
pub mod thumb;

pub use crate::arm7tdmi::instructions::alu::{
    alu_add, apply_immediate_shift, apply_register_shift, arm_alu_post, arm_multiply_long_post,
    arm_multiply_post, arm_parse_rotated_immediate, rotate_right,
};
pub use crate::arm7tdmi::instructions::branch::{
    arm_branch_post, arm_msr_post, arm_mrs_post, bx_post,
};
pub use crate::arm7tdmi::instructions::load::{
    arm_ldm_stm_post, arm_load_halfword_post, arm_load_word_post, arm_swap_post, register_count,
};
pub use crate::arm7tdmi::instructions::thumb::{
    thumb_add_offset_sp_post, thumb_add_sub_post, thumb_alu_immediate_post, thumb_alu_post,
    thumb_conditional_branch_post, thumb_high_register_op_post, thumb_load_address_post,
    thumb_load_halfword_post, thumb_load_immediate_offset_post, thumb_load_multiple_post,
    thumb_load_register_offset_post, thumb_load_sign_extended_post, thumb_load_sp_relative_post,
    thumb_long_branch_post, thumb_move_shifted_register_post, thumb_pc_relative_load_post,
    thumb_push_pop_post, thumb_unconditional_branch_post,
};

use crate::arm7tdmi::bus::BusInterface;
use crate::arm7tdmi::{bit32, exception_entry, refilled, Arm7Tdmi, CpuState, Exception, StatusRegister};
use vstd::prelude::*;

verus! {

pub const ARM_OPCODE_LEN: u32 = 4;

pub const THUMB_OPCODE_LEN: u32 = 2;

#[derive(Debug, Clone, Copy, PartialEq, Eq, Structural)]
pub struct ConditionCodes {
    pub sign: bool,
    pub zero: bool,
    pub carry: bool,
    pub overflow: bool,
}

/// Flags after a logical operation: N and Z from the result, C from the shifter, V kept.
pub open spec fn logical_codes(value: u32, shifter_out: bool, overflow: bool) -> ConditionCodes {
    ConditionCodes { sign: bit32(value, 31), zero: value == 0, carry: shifter_out, overflow }
}

impl ConditionCodes {
    pub fn logical(value: u32, shifter_out: bool, overflow: bool) -> (r: Self)
        ensures
            r == logical_codes(value, shifter_out, overflow),
    {
        Self { sign: (value >> 31u32) & 1 == 1, zero: value == 0, carry: shifter_out, overflow }
    }
}

#[derive(Debug, Clone, Copy, PartialEq, Eq, Structural)]
pub enum Condition {
    Equal,  // EQ (Z=1)
    NotEqual,  // NE (Z=0)
    CarrySet,  // CS (C=1)
    CarryClear,  // CC (C=0)
    Minus,  // MI (N=1)
    Plus,  // PL (N=0)
    OverflowSet,  // VS (V=1)
    OverflowClear,  // VC (V=0)
    Higher,  // HI (C=1 and Z=0)
    LowerOrSame,  // LS (C=0 or Z=1)
    GreaterOrEqual,  // GE (N=V)
    Less,  // LT (N!=V)
    Greater,  // GT (Z=0 and N=V)
    LessOrEqual,  // LE (Z=1 or N!=V)
    Always,  // AL (always true)
    Reserved,  // Reserved - treat as always false
}

/// The condition encoded by the low 4 bits of a value.
pub open spec fn condition_from_bits(bits: u32) -> Condition {
    let b = bits & 0xF;
    if b == 0 {
        Condition::Equal
    } else if b == 1 {
        Condition::NotEqual
    } else if b == 2 {
        Condition::CarrySet
    } else if b == 3 {
        Condition::CarryClear
    } else if b == 4 {
        Condition::Minus
    } else if b == 5 {
        Condition::Plus
    } else if b == 6 {
        Condition::OverflowSet
    } else if b == 7 {
        Condition::OverflowClear
    } else if b == 8 {
        Condition::Higher
    } else if b == 9 {
        Condition::LowerOrSame
    } else if b == 10 {
        Condition::GreaterOrEqual
    } else if b == 11 {
        Condition::Less
    } else if b == 12 {
        Condition::Greater
    } else if b == 13 {
        Condition::LessOrEqual
    } else if b == 14 {
        Condition::Always
    } else {
        Condition::Reserved
    }
}

/// Whether a condition holds for the flags of a status register.
pub open spec fn condition_holds(condition: Condition, cpsr: StatusRegister) -> bool {
    match condition {
        Condition::Equal => cpsr.zero,
        Condition::NotEqual => !cpsr.zero,
        Condition::CarrySet => cpsr.carry,
        Condition::CarryClear => !cpsr.carry,
        Condition::Minus => cpsr.sign,
        Condition::Plus => !cpsr.sign,
        Condition::OverflowSet => cpsr.overflow,
        Condition::OverflowClear => !cpsr.overflow,
        Condition::Higher => cpsr.carry && !cpsr.zero,
        Condition::LowerOrSame => !cpsr.carry || cpsr.zero,
        Condition::GreaterOrEqual => cpsr.sign == cpsr.overflow,
        Condition::Less => cpsr.sign != cpsr.overflow,
        Condition::Greater => !cpsr.zero && cpsr.sign == cpsr.overflow,
        Condition::LessOrEqual => cpsr.zero || cpsr.sign != cpsr.overflow,
        Condition::Always => true,
        Condition::Reserved => false,
    }
}

/// The mnemonic suffix of a condition.
pub open spec fn condition_suffix(condition: Condition) -> Seq<char> {
    match condition {
        Condition::Equal => "EQ"@,
        Condition::NotEqual => "NE"@,
        Condition::CarrySet => "CS"@,
        Condition::CarryClear => "CC"@,
        Condition::Minus => "MI"@,
        Condition::Plus => "PL"@,
        Condition::OverflowSet => "VS"@,
        Condition::OverflowClear => "VC"@,
        Condition::Higher => "HI"@,
        Condition::LowerOrSame => "LS"@,
        Condition::GreaterOrEqual => "GE"@,
        Condition::Less => "LT"@,
        Condition::Greater => "GT"@,
        Condition::LessOrEqual => "LE"@,
        Condition::Always => ""@,
        Condition::Reserved => "(invalid)"@,
    }
}

impl Condition {
    pub fn from_bits(bits: u32) -> (r: Self)
        ensures
            r == condition_from_bits(bits),
    {
        let b = bits & 0xF;
        if b == 0 {
            Self::Equal
        } else if b == 1 {
            Self::NotEqual
        } else if b == 2 {
            Self::CarrySet
        } else if b == 3 {
            Self::CarryClear
        } else if b == 4 {
            Self::Minus
        } else if b == 5 {
            Self::Plus
        } else if b == 6 {
            Self::OverflowSet
        } else if b == 7 {
            Self::OverflowClear
        } else if b == 8 {
            Self::Higher
        } else if b == 9 {
            Self::LowerOrSame
        } else if b == 10 {
            Self::GreaterOrEqual
        } else if b == 11 {
            Self::Less
        } else if b == 12 {
            Self::Greater
        } else if b == 13 {
            Self::LessOrEqual
        } else if b == 14 {
            Self::Always
        } else {
            Self::Reserved
        }
    }

    pub fn from_arm_opcode(opcode: u32) -> (r: Self)
        ensures
            r == condition_from_bits(opcode >> 28u32),
    {
        Self::from_bits(opcode >> 28u32)
    }

    pub fn check(self, cpsr: StatusRegister) -> (r: bool)
        ensures
            r == condition_holds(self, cpsr),
    {
        match self {
            Self::Equal => cpsr.zero,
            Self::NotEqual => !cpsr.zero,
            Self::CarrySet => cpsr.carry,
            Self::CarryClear => !cpsr.carry,
            Self::Minus => cpsr.sign,
            Self::Plus => !cpsr.sign,
            Self::OverflowSet => cpsr.overflow,
            Self::OverflowClear => !cpsr.overflow,
            Self::Higher => cpsr.carry && !cpsr.zero,
            Self::LowerOrSame => !cpsr.carry || cpsr.zero,
            Self::GreaterOrEqual => cpsr.sign == cpsr.overflow,
            Self::Less => cpsr.sign != cpsr.overflow,
            Self::Greater => !cpsr.zero && cpsr.sign == cpsr.overflow,
            Self::LessOrEqual => cpsr.zero || cpsr.sign != cpsr.overflow,
            Self::Always => true,
            Self::Reserved => false,
        }
    }

    pub fn suffix(self) -> (r: &'static str)
        ensures
            r@ == condition_suffix(self),
    {
        match self {
            Self::Equal => "EQ",
            Self::NotEqual => "NE",
            Self::CarrySet => "CS",
            Self::CarryClear => "CC",
            Self::Minus => "MI",
            Self::Plus => "PL",
            Self::OverflowSet => "VS",
            Self::OverflowClear => "VC",
            Self::Higher => "HI",
            Self::LowerOrSame => "LS",
            Self::GreaterOrEqual => "GE",
            Self::Less => "LT",
            Self::Greater => "GT",
            Self::LessOrEqual => "LE",
            Self::Always => "",
            Self::Reserved => "(invalid)",
        }
    }
}

#[derive(Debug, Clone, Copy, PartialEq, Eq, Structural)]
pub enum AluOp {
    And,
    ExclusiveOr,
    Subtract,
    ReverseSubtract,
    Add,
    AddCarry,
    SubtractCarry,
    ReverseSubtractCarry,
    Test,
    TestEqual,
    Compare,
    CompareNegate,
    Or,
    Move,
    BitClear,
    MoveNegate,
}

/// The data processing operation encoded by the low 4 bits of a value.
pub open spec fn alu_op_from_bits(bits: u32) -> AluOp {
    let b = bits & 0xF;
    if b == 0 {
        AluOp::And
    } else if b == 1 {
        AluOp::ExclusiveOr
    } else if b == 2 {
        AluOp::Subtract
    } else if b == 3 {
        AluOp::ReverseSubtract
    } else if b == 4 {
        AluOp::Add
    } else if b == 5 {
        AluOp::AddCarry
    } else if b == 6 {
        AluOp::SubtractCarry
    } else if b == 7 {
        AluOp::ReverseSubtractCarry
    } else if b == 8 {
        AluOp::Test
    } else if b == 9 {
        AluOp::TestEqual
    } else if b == 10 {
        AluOp::Compare
    } else if b == 11 {
        AluOp::CompareNegate
    } else if b == 12 {
        AluOp::Or
    } else if b == 13 {
        AluOp::Move
    } else if b == 14 {
        AluOp::BitClear
    } else {
        AluOp::MoveNegate
    }
}

/// TST, TEQ, CMP and CMN only set flags; they write no register.
pub open spec fn alu_is_test(op: AluOp) -> bool {
    op == AluOp::Test || op == AluOp::TestEqual || op == AluOp::Compare || op == AluOp::CompareNegate
}

impl AluOp {
    pub fn from_bits(bits: u32) -> (r: Self)
        ensures
            r == alu_op_from_bits(bits),
    {
        let b = bits & 0xF;
        if b == 0 {
            Self::And
        } else if b == 1 {
            Self::ExclusiveOr
        } else if b == 2 {
            Self::Subtract
        } else if b == 3 {
            Self::ReverseSubtract
        } else if b == 4 {
            Self::Add
        } else if b == 5 {
            Self::AddCarry
        } else if b == 6 {
            Self::SubtractCarry
        } else if b == 7 {
            Self::ReverseSubtractCarry
        } else if b == 8 {
            Self::Test
        } else if b == 9 {
            Self::TestEqual
        } else if b == 10 {
            Self::Compare
        } else if b == 11 {
            Self::CompareNegate
        } else if b == 12 {
            Self::Or
        } else if b == 13 {
            Self::Move
        } else if b == 14 {
            Self::BitClear
        } else {
            Self::MoveNegate
        }
    }

    // TST, TEQ, CMP, CMN
    pub fn is_test(self) -> (r: bool)
        ensures
            r == alu_is_test(self),
    {
        matches!(self, Self::Test | Self::TestEqual | Self::Compare | Self::CompareNegate)
    }
}

#[derive(Debug, Clone, Copy, PartialEq, Eq, Structural)]
pub enum ShiftType {
    Left,
    LogicalRight,
    ArithmeticRight,
    RotateRight,
}

/// The shift type encoded by the low 2 bits of a value.
pub open spec fn shift_type_from_bits(bits: u32) -> ShiftType {
    let b = bits & 3;
    if b == 0 {
        ShiftType::Left
    } else if b == 1 {
        ShiftType::LogicalRight
    } else if b == 2 {
        ShiftType::ArithmeticRight
    } else {
        ShiftType::RotateRight
    }
}

impl ShiftType {
    pub fn from_bits(bits: u32) -> (r: Self)
        ensures
            r == shift_type_from_bits(bits),
    {
        let b = bits & 3;
        if b == 0 {
            Self::Left
        } else if b == 1 {
            Self::LogicalRight
        } else if b == 2 {
            Self::ArithmeticRight
        } else {
            Self::RotateRight
        }
    }
}

/// Whether the base register is offset before (pre) or after (post) the transfer.
#[derive(Debug, Clone, Copy, PartialEq, Eq, Structural)]
pub enum LoadIndexing {
    Post,
    Pre,
}

impl LoadIndexing {
    pub fn from_bit(bit: bool) -> (r: Self)
        ensures
            r == (if bit { LoadIndexing::Pre } else { LoadIndexing::Post }),
    {
        if bit {
            Self::Pre
        } else {
            Self::Post
        }
    }
}

/// Whether the offset is subtracted from or added to the base register.
#[derive(Debug, Clone, Copy, PartialEq, Eq, Structural)]
pub enum IndexOp {
    Subtract,
    Add,
}

impl IndexOp {
    pub fn from_bit(bit: bool) -> (r: Self)
        ensures
            r == (if bit { IndexOp::Add } else { IndexOp::Subtract }),
    {
        if bit {
            Self::Add
        } else {
            Self::Subtract
        }
    }
}

/// Whether the computed address is written back to the base register.
#[derive(Debug, Clone, Copy, PartialEq, Eq, Structural)]
pub enum WriteBack {
    No,
    Yes,
}

impl WriteBack {
    pub fn from_bit(bit: bool) -> (r: Self)
        ensures
            r == (if bit { WriteBack::Yes } else { WriteBack::No }),
    {
        if bit {
            Self::Yes
        } else {
            Self::No
        }
    }
}

/// Size of a single data transfer.
#[derive(Debug, Clone, Copy, PartialEq, Eq, Structural)]
pub enum LoadSize {
    Word,
    Byte,
}

impl LoadSize {
    pub fn from_bit(bit: bool) -> (r: Self)
        ensures
            r == (if bit { LoadSize::Byte } else { LoadSize::Word }),
    {
        if bit {
            Self::Byte
        } else {
            Self::Word
        }
    }
}

#[derive(Debug, Clone, Copy, PartialEq, Eq, Structural)]
pub enum HalfwordLoadType {
    UnsignedHalfword,
    SignedByte,
    SignedHalfword,
}

/// The halfword transfer type encoded by the low 2 bits of a value (0 encodes SWP instead).
pub open spec fn halfword_load_type_from_bits(bits: u32) -> HalfwordLoadType {
    let b = bits & 3;
    if b == 1 {
        HalfwordLoadType::UnsignedHalfword
    } else if b == 2 {
        HalfwordLoadType::SignedByte
    } else {
        HalfwordLoadType::SignedHalfword
    }
}

impl HalfwordLoadType {
    pub fn from_bits(bits: u32) -> (r: Self)
        requires
            bits & 3 != 0,
        ensures
            r == halfword_load_type_from_bits(bits),
    {
        let b = bits & 3;
        if b == 1 {
            Self::UnsignedHalfword
        } else if b == 2 {
            Self::SignedByte
        } else {
            Self::SignedHalfword
        }
    }
}

/// An ARM instruction handler, with the variants that its opcode bits select.
#[derive(Debug, Clone, Copy, PartialEq, Eq, Structural)]
pub enum ArmOp {
    Bx,
    Multiply,
    MultiplyLong,
    Swap,
    LoadHalfword { load: bool, immediate_offset: bool },
    Mrs,
    Msr { immediate: bool },
    Alu { immediate: bool },
    LoadWord { load: bool, register_offset: bool },
    LoadMultiple { load: bool, increment: bool, after: bool },
    Branch { link: bool },
    SoftwareInterrupt,
    Undefined,
}

/// One line of the ARM decode table: opcodes whose bits 27-20 and 7-4 (as a 12-bit value) masked
/// with `mask` equal `target` go to `op`.
#[derive(Debug, Clone, Copy, PartialEq, Eq, Structural)]
pub struct ArmDecode {
    pub mask: u32,
    pub target: u32,
    pub op: ArmOp,
}

pub open spec fn arm_decode_table_spec() -> Seq<ArmDecode> {
    seq![
        ArmDecode { mask: 0xFFF, target: 0x121, op: ArmOp::Bx },
        ArmDecode { mask: 0xFCF, target: 0x009, op: ArmOp::Multiply },
        ArmDecode { mask: 0xF8F, target: 0x089, op: ArmOp::MultiplyLong },
        ArmDecode { mask: 0xFBF, target: 0x109, op: ArmOp::Swap },
        ArmDecode { mask: 0xE59, target: 0x009, op: ArmOp::LoadHalfword { load: false, immediate_offset: false } },
        ArmDecode { mask: 0xE59, target: 0x049, op: ArmOp::LoadHalfword { load: false, immediate_offset: true } },
        ArmDecode { mask: 0xE59, target: 0x019, op: ArmOp::LoadHalfword { load: true, immediate_offset: false } },
        ArmDecode { mask: 0xE59, target: 0x059, op: ArmOp::LoadHalfword { load: true, immediate_offset: true } },
        ArmDecode { mask: 0xFBF, target: 0x100, op: ArmOp::Mrs },
        ArmDecode { mask: 0xFB0, target: 0x120, op: ArmOp::Msr { immediate: false } },
        ArmDecode { mask: 0xFB0, target: 0x320, op: ArmOp::Msr { immediate: true } },
        ArmDecode { mask: 0xE00, target: 0x000, op: ArmOp::Alu { immediate: false } },
        ArmDecode { mask: 0xE00, target: 0x200, op: ArmOp::Alu { immediate: true } },
        ArmDecode { mask: 0xE10, target: 0x400, op: ArmOp::LoadWord { load: false, register_offset: false } },
        ArmDecode { mask: 0xE10, target: 0x410, op: ArmOp::LoadWord { load: true, register_offset: false } },
        ArmDecode { mask: 0xE10, target: 0x600, op: ArmOp::LoadWord { load: false, register_offset: true } },
        ArmDecode { mask: 0xE10, target: 0x610, op: ArmOp::LoadWord { load: true, register_offset: true } },
        ArmDecode { mask: 0xF90, target: 0x800, op: ArmOp::LoadMultiple { load: false, increment: false, after: true } },
        ArmDecode { mask: 0xF90, target: 0x810, op: ArmOp::LoadMultiple { load: true, increment: false, after: true } },
        ArmDecode { mask: 0xF90, target: 0x880, op: ArmOp::LoadMultiple { load: false, increment: true, after: true } },
        ArmDecode { mask: 0xF90, target: 0x890, op: ArmOp::LoadMultiple { load: true, increment: true, after: true } },
        ArmDecode { mask: 0xF90, target: 0x900, op: ArmOp::LoadMultiple { load: false, increment: false, after: false } },
        ArmDecode { mask: 0xF90, target: 0x910, op: ArmOp::LoadMultiple { load: true, increment: false, after: false } },
        ArmDecode { mask: 0xF90, target: 0x980, op: ArmOp::LoadMultiple { load: false, increment: true, after: false } },
        ArmDecode { mask: 0xF90, target: 0x990, op: ArmOp::LoadMultiple { load: true, increment: true, after: false } },
        ArmDecode { mask: 0xF00, target: 0xA00, op: ArmOp::Branch { link: false } },
        ArmDecode { mask: 0xF00, target: 0xB00, op: ArmOp::Branch { link: true } },
        ArmDecode { mask: 0xF00, target: 0xF00, op: ArmOp::SoftwareInterrupt },
    ]
}

/// The handler of the first table line, from line `i` on, that matches a 12-bit opcode mask;
/// `Undefined` when none does.
pub open spec fn arm_first_match(table: Seq<ArmDecode>, opcode_mask: u32, i: int) -> ArmOp
    decreases table.len() - i,
{
    if i < 0 || i >= table.len() {
        ArmOp::Undefined
    } else if opcode_mask & table[i].mask == table[i].target {
        table[i].op
    } else {
        arm_first_match(table, opcode_mask, i + 1)
    }
}

/// The handler that decodes a 12-bit ARM opcode mask.
pub open spec fn arm_lookup(opcode_mask: u32) -> ArmOp {
    arm_first_match(arm_decode_table_spec(), opcode_mask, 0)
}

/// Bits 27-20 and 7-4 of an ARM opcode, as the 12-bit value that selects its handler.
pub open spec fn arm_opcode_mask(opcode: u32) -> u32 {
    ((opcode >> 16u32) & 0xFF0) | ((opcode >> 4u32) & 0xF)
}

pub fn arm_decode_table() -> (r: Vec<ArmDecode>)
    ensures
        r@ == arm_decode_table_spec(),
{
    let r = vec![
        ArmDecode { mask: 0xFFF, target: 0x121, op: ArmOp::Bx },
        ArmDecode { mask: 0xFCF, target: 0x009, op: ArmOp::Multiply },
        ArmDecode { mask: 0xF8F, target: 0x089, op: ArmOp::MultiplyLong },
        ArmDecode { mask: 0xFBF, target: 0x109, op: ArmOp::Swap },
        ArmDecode { mask: 0xE59, target: 0x009, op: ArmOp::LoadHalfword { load: false, immediate_offset: false } },
        ArmDecode { mask: 0xE59, target: 0x049, op: ArmOp::LoadHalfword { load: false, immediate_offset: true } },
        ArmDecode { mask: 0xE59, target: 0x019, op: ArmOp::LoadHalfword { load: true, immediate_offset: false } },
        ArmDecode { mask: 0xE59, target: 0x059, op: ArmOp::LoadHalfword { load: true, immediate_offset: true } },
        ArmDecode { mask: 0xFBF, target: 0x100, op: ArmOp::Mrs },
        ArmDecode { mask: 0xFB0, target: 0x120, op: ArmOp::Msr { immediate: false } },
        ArmDecode { mask: 0xFB0, target: 0x320, op: ArmOp::Msr { immediate: true } },
        ArmDecode { mask: 0xE00, target: 0x000, op: ArmOp::Alu { immediate: false } },
        ArmDecode { mask: 0xE00, target: 0x200, op: ArmOp::Alu { immediate: true } },
        ArmDecode { mask: 0xE10, target: 0x400, op: ArmOp::LoadWord { load: false, register_offset: false } },
        ArmDecode { mask: 0xE10, target: 0x410, op: ArmOp::LoadWord { load: true, register_offset: false } },
        ArmDecode { mask: 0xE10, target: 0x600, op: ArmOp::LoadWord { load: false, register_offset: true } },
        ArmDecode { mask: 0xE10, target: 0x610, op: ArmOp::LoadWord { load: true, register_offset: true } },
        ArmDecode { mask: 0xF90, target: 0x800, op: ArmOp::LoadMultiple { load: false, increment: false, after: true } },
        ArmDecode { mask: 0xF90, target: 0x810, op: ArmOp::LoadMultiple { load: true, increment: false, after: true } },
        ArmDecode { mask: 0xF90, target: 0x880, op: ArmOp::LoadMultiple { load: false, increment: true, after: true } },
        ArmDecode { mask: 0xF90, target: 0x890, op: ArmOp::LoadMultiple { load: true, increment: true, after: true } },
        ArmDecode { mask: 0xF90, target: 0x900, op: ArmOp::LoadMultiple { load: false, increment: false, after: false } },
        ArmDecode { mask: 0xF90, target: 0x910, op: ArmOp::LoadMultiple { load: true, increment: false, after: false } },
        ArmDecode { mask: 0xF90, target: 0x980, op: ArmOp::LoadMultiple { load: false, increment: true, after: false } },
        ArmDecode { mask: 0xF90, target: 0x990, op: ArmOp::LoadMultiple { load: true, increment: true, after: false } },
        ArmDecode { mask: 0xF00, target: 0xA00, op: ArmOp::Branch { link: false } },
        ArmDecode { mask: 0xF00, target: 0xB00, op: ArmOp::Branch { link: true } },
        ArmDecode { mask: 0xF00, target: 0xF00, op: ArmOp::SoftwareInterrupt },
    ];
    assert(r@ =~= arm_decode_table_spec());
    r
}

/// The handler of a 12-bit ARM opcode mask: the first line of the decode table that matches.
pub fn arm_decode(opcode_mask: u32) -> (r: ArmOp)
    ensures
        r == arm_lookup(opcode_mask),
{
    let table = arm_decode_table();
    let mut i: usize = 0;
    while i < table.len()
        invariant
            0 <= i <= table@.len(),
            table@ == arm_decode_table_spec(),
            arm_first_match(table@, opcode_mask, i as int) == arm_lookup(opcode_mask),
        decreases table@.len() - i,
    {
        let entry = table[i];
        if opcode_mask & entry.mask == entry.target {
            return entry.op;
        }
        i += 1;
    }
    ArmOp::Undefined
}

/// The handler of every 12-bit ARM opcode mask, indexed by the mask.
pub fn new_arm_op_table() -> (r: Vec<ArmOp>)
    ensures
        r@.len() == 4096,
        forall|i: int| 0 <= i < 4096 ==> r@[i] == arm_lookup(i as u32),
{
    let mut table: Vec<ArmOp> = Vec::new();
    let mut opcode_mask: u32 = 0;
    while opcode_mask < 4096
        invariant
            opcode_mask <= 4096,
            table@.len() == opcode_mask,
            forall|i: int| 0 <= i < opcode_mask ==> table@[i] == arm_lookup(i as u32),
        decreases 4096 - opcode_mask,
    {
        table.push(arm_decode(opcode_mask));
        opcode_mask += 1;
    }
    table
}

/// The handler of every 12-bit ARM opcode mask.
pub struct ArmOpTable(pub Vec<ArmOp>);

impl ArmOpTable {
    pub fn new() -> (r: Self)
        ensures
            r.0@.len() == 4096,
            forall|i: int| 0 <= i < 4096 ==> r.0@[i] == arm_lookup(i as u32),
    {
        ArmOpTable(new_arm_op_table())
    }

    /// The handler of a 12-bit ARM opcode mask.
    pub fn get(&self, opcode_mask: u32) -> (r: ArmOp)
        requires
            self.0@.len() == 4096,
            forall|i: int| 0 <= i < 4096 ==> self.0@[i] == arm_lookup(i as u32),
            opcode_mask < 4096,
        ensures
            r == arm_lookup(opcode_mask),
    {
        self.0[opcode_mask as usize]
    }
}

impl Default for ArmOpTable {
    fn default() -> (r: Self)
        ensures
            r.0@.len() == 4096,
            forall|i: int| 0 <= i < 4096 ==> r.0@[i] == arm_lookup(i as u32),
    {
        Self::new()
    }
}

/// A Thumb instruction format handler.
#[derive(Debug, Clone, Copy, PartialEq, Eq, Structural)]
pub enum ThumbOp {
    AddSub,
    MoveShiftedRegister,
    AluImmediate,
    Alu,
    HighRegisterOp,
    PcRelativeLoad,
    LoadRegisterOffset,
    LoadSignExtended,
    LoadImmediateOffset,
    LoadHalfword,
    LoadSpRelative,
    LoadAddress,
    AddOffsetSp,
    PushPop,
    LoadMultiple,
    SoftwareInterrupt,
    ConditionalBranch,
    UnconditionalBranch,
    LongBranch,
    Undefined,
}

/// One line of the Thumb decode table, over the high byte of the opcode.
#[derive(Debug, Clone, Copy, PartialEq, Eq, Structural)]
pub struct ThumbDecode {
    pub mask: u16,
    pub target: u16,
    pub op: ThumbOp,
}

pub open spec fn thumb_decode_table_spec() -> Seq<ThumbDecode> {
    seq![
        ThumbDecode { mask: 0xF8, target: 0x18, op: ThumbOp::AddSub },
        ThumbDecode { mask: 0xE0, target: 0x00, op: ThumbOp::MoveShiftedRegister },
        ThumbDecode { mask: 0xE0, target: 0x20, op: ThumbOp::AluImmediate },
        ThumbDecode { mask: 0xFC, target: 0x40, op: ThumbOp::Alu },
        ThumbDecode { mask: 0xFC, target: 0x44, op: ThumbOp::HighRegisterOp },
        ThumbDecode { mask: 0xF8, target: 0x48, op: ThumbOp::PcRelativeLoad },
        ThumbDecode { mask: 0xF2, target: 0x50, op: ThumbOp::LoadRegisterOffset },
        ThumbDecode { mask: 0xF2, target: 0x52, op: ThumbOp::LoadSignExtended },
        ThumbDecode { mask: 0xE0, target: 0x60, op: ThumbOp::LoadImmediateOffset },
        ThumbDecode { mask: 0xF0, target: 0x80, op: ThumbOp::LoadHalfword },
        ThumbDecode { mask: 0xF0, target: 0x90, op: ThumbOp::LoadSpRelative },
        ThumbDecode { mask: 0xF0, target: 0xA0, op: ThumbOp::LoadAddress },
        ThumbDecode { mask: 0xFF, target: 0xB0, op: ThumbOp::AddOffsetSp },
        ThumbDecode { mask: 0xF6, target: 0xB4, op: ThumbOp::PushPop },
        ThumbDecode { mask: 0xF0, target: 0xC0, op: ThumbOp::LoadMultiple },
        ThumbDecode { mask: 0xFF, target: 0xDF, op: ThumbOp::SoftwareInterrupt },
        ThumbDecode { mask: 0xF0, target: 0xD0, op: ThumbOp::ConditionalBranch },
        ThumbDecode { mask: 0xF8, target: 0xE0, op: ThumbOp::UnconditionalBranch },
        ThumbDecode { mask: 0xF0, target: 0xF0, op: ThumbOp::LongBranch },
    ]
}

pub open spec fn thumb_first_match(table: Seq<ThumbDecode>, opcode_mask: u16, i: int) -> ThumbOp
    decreases table.len() - i,
{
    if i < 0 || i >= table.len() {
        ThumbOp::Undefined
    } else if opcode_mask & table[i].mask == table[i].target {
        table[i].op
    } else {
        thumb_first_match(table, opcode_mask, i + 1)
    }
}

/// The handler that decodes the high byte of a Thumb opcode.
pub open spec fn thumb_lookup(opcode_mask: u16) -> ThumbOp {
    thumb_first_match(thumb_decode_table_spec(), opcode_mask, 0)
}

pub fn thumb_decode_table() -> (r: Vec<ThumbDecode>)
    ensures
        r@ == thumb_decode_table_spec(),
{
    let r = vec![
        ThumbDecode { mask: 0xF8, target: 0x18, op: ThumbOp::AddSub },
        ThumbDecode { mask: 0xE0, target: 0x00, op: ThumbOp::MoveShiftedRegister },
        ThumbDecode { mask: 0xE0, target: 0x20, op: ThumbOp::AluImmediate },
        ThumbDecode { mask: 0xFC, target: 0x40, op: ThumbOp::Alu },
        ThumbDecode { mask: 0xFC, target: 0x44, op: ThumbOp::HighRegisterOp },
        ThumbDecode { mask: 0xF8, target: 0x48, op: ThumbOp::PcRelativeLoad },
        ThumbDecode { mask: 0xF2, target: 0x50, op: ThumbOp::LoadRegisterOffset },
        ThumbDecode { mask: 0xF2, target: 0x52, op: ThumbOp::LoadSignExtended },
        ThumbDecode { mask: 0xE0, target: 0x60, op: ThumbOp::LoadImmediateOffset },
        ThumbDecode { mask: 0xF0, target: 0x80, op: ThumbOp::LoadHalfword },
        ThumbDecode { mask: 0xF0, target: 0x90, op: ThumbOp::LoadSpRelative },
        ThumbDecode { mask: 0xF0, target: 0xA0, op: ThumbOp::LoadAddress },
        ThumbDecode { mask: 0xFF, target: 0xB0, op: ThumbOp::AddOffsetSp },
        ThumbDecode { mask: 0xF6, target: 0xB4, op: ThumbOp::PushPop },
        ThumbDecode { mask: 0xF0, target: 0xC0, op: ThumbOp::LoadMultiple },
        ThumbDecode { mask: 0xFF, target: 0xDF, op: ThumbOp::SoftwareInterrupt },
        ThumbDecode { mask: 0xF0, target: 0xD0, op: ThumbOp::ConditionalBranch },
        ThumbDecode { mask: 0xF8, target: 0xE0, op: ThumbOp::UnconditionalBranch },
        ThumbDecode { mask: 0xF0, target: 0xF0, op: ThumbOp::LongBranch },
    ];
    assert(r@ =~= thumb_decode_table_spec());
    r
}

pub fn thumb_decode(opcode_mask: u16) -> (r: ThumbOp)
    ensures
        r == thumb_lookup(opcode_mask),
{
    let table = thumb_decode_table();
    let mut i: usize = 0;
    while i < table.len()
        invariant
            0 <= i <= table@.len(),
            table@ == thumb_decode_table_spec(),
            thumb_first_match(table@, opcode_mask, i as int) == thumb_lookup(opcode_mask),
        decreases table@.len() - i,
    {
        let entry = table[i];
        if opcode_mask & entry.mask == entry.target {
            return entry.op;
        }
        i += 1;
    }
    ThumbOp::Undefined
}

/// The handler of every value of a Thumb opcode's high byte, indexed by it.
pub fn new_thumb_op_table() -> (r: Vec<ThumbOp>)
    ensures
        r@.len() == 256,
        forall|i: int| 0 <= i < 256 ==> r@[i] == thumb_lookup(i as u16),
{
    let mut table: Vec<ThumbOp> = Vec::new();
    let mut opcode_mask: u16 = 0;
    while opcode_mask < 256
        invariant
            opcode_mask <= 256,
            table@.len() == opcode_mask,
            forall|i: int| 0 <= i < opcode_mask ==> table@[i] == thumb_lookup(i as u16),
        decreases 256 - opcode_mask,
    {
        table.push(thumb_decode(opcode_mask));
        opcode_mask += 1;
    }
    table
}

/// The handler of every value of a Thumb opcode's high byte.
pub struct ThumbOpTable(pub Vec<ThumbOp>);

impl ThumbOpTable {
    pub fn new() -> (r: Self)
        ensures
            r.0@.len() == 256,
            forall|i: int| 0 <= i < 256 ==> r.0@[i] == thumb_lookup(i as u16),
    {
        ThumbOpTable(new_thumb_op_table())
    }

    /// The handler of the high byte of a Thumb opcode.
    pub fn get(&self, opcode_mask: u16) -> (r: ThumbOp)
        requires
            self.0@.len() == 256,
            forall|i: int| 0 <= i < 256 ==> self.0@[i] == thumb_lookup(i as u16),
            opcode_mask < 256,
        ensures
            r == thumb_lookup(opcode_mask),
    {
        self.0[opcode_mask as usize]
    }
}

impl Default for ThumbOpTable {
    fn default() -> (r: Self)
        ensures
            r.0@.len() == 256,
            forall|i: int| 0 <= i < 256 ==> r.0@[i] == thumb_lookup(i as u16),
    {
        Self::new()
    }
}

/// What executing an ARM opcode does with the handler the decode table gives it.
pub open spec fn arm_op_post(new: Arm7Tdmi, old: Arm7Tdmi, op: ArmOp, opcode: u32) -> bool {
    match op {
        ArmOp::Bx => bx_post(new, old, (opcode & 0xF) as int),
        ArmOp::Multiply => arm_multiply_post(new, old, opcode),
        ArmOp::MultiplyLong => arm_multiply_long_post(new, old, opcode),
        ArmOp::Swap => arm_swap_post(new, old, opcode),
        ArmOp::LoadHalfword { load, immediate_offset } => arm_load_halfword_post(new, old, opcode, load, immediate_offset),
        ArmOp::Mrs => arm_mrs_post(new, old, opcode),
        ArmOp::Msr { immediate } => arm_msr_post(new, old, opcode, immediate),
        ArmOp::Alu { immediate } => arm_alu_post(new, old, opcode, immediate),
        ArmOp::LoadWord { load, register_offset } => arm_load_word_post(new, old, opcode, load, register_offset),
        ArmOp::LoadMultiple { load, increment, after } => arm_ldm_stm_post(new, old, opcode, load, increment, after),
        ArmOp::Branch { link } => arm_branch_post(new, old, opcode, link),
        ArmOp::SoftwareInterrupt => refilled(new, exception_entry(old.registers@, old.prev_r15, Exception::SoftwareInterrupt)),
        ArmOp::Undefined => refilled(new, exception_entry(old.registers@, old.prev_r15, Exception::UndefinedInstruction)),
    }
}

/// An opcode that the decode table gives to the halfword transfer handler but whose bits 6-5 are
/// zero, which encode no halfword transfer; executing it is refused.
pub open spec fn arm_opcode_unsupported(opcode: u32) -> bool {
    arm_lookup(arm_opcode_mask(opcode)) is LoadHalfword && (opcode >> 5u32) & 3 == 0
}

/// Whether an ARM opcode is one whose execution is refused (`arm_opcode_unsupported`).
pub fn arm_opcode_is_unsupported(opcode: u32) -> (r: bool)
    ensures
        r == arm_opcode_unsupported(opcode),
{
    let mask = ((opcode >> 16u32) & 0xFF0) | ((opcode >> 4u32) & 0xF);
    let halfword = match arm_decode(mask) {
        ArmOp::LoadHalfword { .. } => true,
        _ => false,
    };
    halfword && (opcode >> 5u32) & 3 == 0
}

/// Executing an ARM opcode: nothing happens when its condition fails; otherwise its handler runs.
pub open spec fn arm_executed(new: Arm7Tdmi, old: Arm7Tdmi, opcode: u32) -> bool {
    if !condition_holds(condition_from_bits(opcode >> 28u32), old.registers.cpsr) {
        new == old
    } else {
        arm_op_post(new, old, arm_lookup(arm_opcode_mask(opcode)), opcode)
    }
}

/// What executing a Thumb opcode does with the handler the decode table gives it.
pub open spec fn thumb_executed(new: Arm7Tdmi, old: Arm7Tdmi, opcode: u16) -> bool {
    match thumb_lookup(opcode >> 8u16) {
        ThumbOp::AddSub => thumb_add_sub_post(new, old, opcode),
        ThumbOp::MoveShiftedRegister => thumb_move_shifted_register_post(new, old, opcode),
        ThumbOp::AluImmediate => thumb_alu_immediate_post(new, old, opcode),
        ThumbOp::Alu => thumb_alu_post(new, old, opcode),
        ThumbOp::HighRegisterOp => thumb_high_register_op_post(new, old, opcode),
        ThumbOp::PcRelativeLoad => thumb_pc_relative_load_post(new, old, opcode),
        ThumbOp::LoadRegisterOffset => thumb_load_register_offset_post(new, old, opcode),
        ThumbOp::LoadSignExtended => thumb_load_sign_extended_post(new, old, opcode),
        ThumbOp::LoadImmediateOffset => thumb_load_immediate_offset_post(new, old, opcode),
        ThumbOp::LoadHalfword => thumb_load_halfword_post(new, old, opcode),
        ThumbOp::LoadSpRelative => thumb_load_sp_relative_post(new, old, opcode),
        ThumbOp::LoadAddress => thumb_load_address_post(new, old, opcode),
        ThumbOp::AddOffsetSp => thumb_add_offset_sp_post(new, old, opcode),
        ThumbOp::PushPop => thumb_push_pop_post(new, old, opcode),
        ThumbOp::LoadMultiple => thumb_load_multiple_post(new, old, opcode),
        ThumbOp::SoftwareInterrupt => refilled(new, exception_entry(old.registers@, old.prev_r15, Exception::SoftwareInterrupt)),
        ThumbOp::ConditionalBranch => thumb_conditional_branch_post(new, old, opcode),
        ThumbOp::UnconditionalBranch => thumb_unconditional_branch_post(new, old, opcode),
        ThumbOp::LongBranch => thumb_long_branch_post(new, old, opcode),
        ThumbOp::Undefined => refilled(new, exception_entry(old.registers@, old.prev_r15, Exception::UndefinedInstruction)),
    }
}

/// Executing the opcode `opcode` taken from the pipeline, in the CPU's current state.
pub open spec fn executed(new: Arm7Tdmi, old: Arm7Tdmi, opcode: u32) -> bool {
    match old.registers.cpsr.state {
        CpuState::Arm => arm_executed(new, old, opcode),
        CpuState::Thumb => thumb_executed(new, old, (opcode & 0xFFFF) as u16),
    }
}

impl Arm7Tdmi {
    pub fn execute_arm_opcode<B: BusInterface>(&mut self, opcode: u32, bus: &mut B)
        requires
            condition_holds(condition_from_bits(opcode >> 28u32), old(self).registers.cpsr)
                ==> !arm_opcode_unsupported(opcode),
        ensures
            arm_executed(*final(self), *old(self), opcode),
    {
        let condition = Condition::from_arm_opcode(opcode);
        if !condition.check(self.registers.cpsr) {
            return;
        }

        let opcode_mask = ((opcode >> 16u32) & 0xFF0) | ((opcode >> 4u32) & 0xF);
        match arm_decode(opcode_mask) {
            ArmOp::Bx => self.arm_bx(opcode, bus),
            ArmOp::Multiply => self.arm_multiply(opcode, bus),
            ArmOp::MultiplyLong => self.arm_multiply_long(opcode, bus),
            ArmOp::Swap => self.arm_swap(opcode, bus),
            ArmOp::LoadHalfword { load, immediate_offset } => self.arm_load_halfword(opcode, load, immediate_offset, bus),
            ArmOp::Mrs => self.arm_mrs(opcode, bus),
            ArmOp::Msr { immediate } => self.arm_msr(opcode, immediate, bus),
            ArmOp::Alu { immediate } => self.arm_alu(opcode, immediate, bus),
            ArmOp::LoadWord { load, register_offset } => self.arm_load_word(opcode, load, register_offset, bus),
            ArmOp::LoadMultiple { load, increment, after } => self.arm_ldm_stm(opcode, load, increment, after, bus),
            ArmOp::Branch { link } => self.arm_branch(opcode, link, bus),
            ArmOp::SoftwareInterrupt => self.arm_swi(opcode, bus),
            ArmOp::Undefined => self.handle_exception(Exception::UndefinedInstruction, bus),
        }
    }

    pub fn execute_thumb_opcode<B: BusInterface>(&mut self, opcode: u16, bus: &mut B)
        ensures
            thumb_executed(*final(self), *old(self), opcode),
    {
        let opcode_mask = opcode >> 8u16;
        match thumb_decode(opcode_mask) {
            ThumbOp::AddSub => self.thumb_add_sub(opcode, bus),
            ThumbOp::MoveShiftedRegister => self.thumb_move_shifted_register(opcode, bus),
            ThumbOp::AluImmediate => self.thumb_alu_immediate(opcode, bus),
            ThumbOp::Alu => self.thumb_alu(opcode, bus),
            ThumbOp::HighRegisterOp => self.thumb_high_register_op(opcode, bus),
            ThumbOp::PcRelativeLoad => self.thumb_pc_relative_load(opcode, bus),
            ThumbOp::LoadRegisterOffset => self.thumb_load_register_offset(opcode, bus),
            ThumbOp::LoadSignExtended => self.thumb_load_sign_extended(opcode, bus),
            ThumbOp::LoadImmediateOffset => self.thumb_load_immediate_offset(opcode, bus),
            ThumbOp::LoadHalfword => self.thumb_load_halfword(opcode, bus),
            ThumbOp::LoadSpRelative => self.thumb_load_sp_relative(opcode, bus),
            ThumbOp::LoadAddress => self.thumb_load_address(opcode, bus),
            ThumbOp::AddOffsetSp => self.thumb_add_offset_sp(opcode, bus),
            ThumbOp::PushPop => self.thumb_push_pop(opcode, bus),
            ThumbOp::LoadMultiple => self.thumb_load_multiple(opcode, bus),
            ThumbOp::SoftwareInterrupt => self.thumb_software_interrupt(opcode, bus),
            ThumbOp::ConditionalBranch => self.thumb_conditional_branch(opcode, bus),
            ThumbOp::UnconditionalBranch => self.thumb_unconditional_branch(opcode, bus),
            ThumbOp::LongBranch => self.thumb_long_branch(opcode, bus),
            ThumbOp::Undefined => self.handle_exception(Exception::UndefinedInstruction, bus),
        }
    }
}

} // verus!
