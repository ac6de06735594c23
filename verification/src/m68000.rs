//! Motorola 68000 operand types, register transfers and disassembly helpers.
pub mod disassemble;
pub mod load;
pub mod traits;

use vstd::prelude::*;

verus! {

/// One of the data registers D0-D7.
#[derive(Debug, Clone, Copy, PartialEq, Eq, Structural)]
pub struct DataRegister(pub u8);

/// One of the address registers A0-A7.
#[derive(Debug, Clone, Copy, PartialEq, Eq, Structural)]
pub struct AddressRegister(pub u8);

/// The effective addressing modes of the 68000.
#[derive(Debug, Clone, Copy, PartialEq, Eq, Structural)]
pub enum AddressingMode {
    DataDirect(DataRegister),
    AddressDirect(AddressRegister),
    AddressIndirect(AddressRegister),
    AddressIndirectPostincrement(AddressRegister),
    AddressIndirectPredecrement(AddressRegister),
    AddressIndirectDisplacement(AddressRegister),
    AddressIndirectIndexed(AddressRegister),
    PcRelativeDisplacement,
    PcRelativeIndexed,
    AbsoluteShort,
    AbsoluteLong,
    Immediate,
    Quick(u8),
}

/// How an index register is added to an address: its low word sign-extended, or all 32 bits.
#[derive(Debug, Clone, Copy, PartialEq, Eq, Structural)]
pub enum IndexSize {
    SignExtendedWord,
    LongWord,
}

/// The size of an operation.
#[derive(Debug, Clone, Copy, PartialEq, Eq, Structural)]
pub enum OpSize {
    Byte,
    Word,
    LongWord,
}

impl OpSize {
    /// The size field of most opcodes (bits 7-6): byte 00, word 01, longword 10.
    pub fn to_bits(self) -> (r: u16)
        ensures
            r == match self {
                OpSize::Byte => 0x0000u16,
                OpSize::Word => 0x0040u16,
                OpSize::LongWord => 0x0080u16,
            },
    {
        match self {
            OpSize::Byte => 0x0000,
            OpSize::Word => 0x0040,
            OpSize::LongWord => 0x0080,
        }
    }

    /// The size field of MOVE opcodes (bits 13-12), which maps sizes differently: byte 01,
    /// word 11, longword 10.
    pub fn to_move_bits(self) -> (r: u16)
        ensures
            r == match self {
                OpSize::Byte => 0x1000u16,
                OpSize::Word => 0x3000u16,
                OpSize::LongWord => 0x2000u16,
            },
    {
        match self {
            OpSize::Byte => 0x1000,
            OpSize::Word => 0x3000,
            OpSize::LongWord => 0x2000,
        }
    }
}

/// The mode (bits 5-3) and register (bits 2-0) fields of an addressing mode in an opcode; the
/// modes without a register share mode 7 and are told apart by the register field. Quick
/// operands have no such encoding.
pub open spec fn mode_bits(mode: AddressingMode) -> int {
    match mode {
        AddressingMode::DataDirect(r) => r.0 as int,
        AddressingMode::AddressDirect(r) => 8 + r.0,
        AddressingMode::AddressIndirect(r) => 16 + r.0,
        AddressingMode::AddressIndirectPostincrement(r) => 24 + r.0,
        AddressingMode::AddressIndirectPredecrement(r) => 32 + r.0,
        AddressingMode::AddressIndirectDisplacement(r) => 40 + r.0,
        AddressingMode::AddressIndirectIndexed(r) => 48 + r.0,
        AddressingMode::AbsoluteShort => 56,
        AddressingMode::AbsoluteLong => 57,
        AddressingMode::PcRelativeDisplacement => 58,
        AddressingMode::PcRelativeIndexed => 59,
        AddressingMode::Immediate => 60,
        AddressingMode::Quick(_) => 0,
    }
}

/// An addressing mode whose registers are among the eight of their kind.
pub open spec fn mode_wf(mode: AddressingMode) -> bool {
    match mode {
        AddressingMode::DataDirect(r) => r.0 < 8,
        AddressingMode::AddressDirect(r) => r.0 < 8,
        AddressingMode::AddressIndirect(r) => r.0 < 8,
        AddressingMode::AddressIndirectPostincrement(r) => r.0 < 8,
        AddressingMode::AddressIndirectPredecrement(r) => r.0 < 8,
        AddressingMode::AddressIndirectDisplacement(r) => r.0 < 8,
        AddressingMode::AddressIndirectIndexed(r) => r.0 < 8,
        _ => true,
    }
}

impl AddressingMode {
    pub fn to_bits(self) -> (r: u16)
        requires
            !(self is Quick),
            mode_wf(self),
        ensures
            r == mode_bits(self),
    {
        proof {
            assert(forall|x: u16| x < 8 ==> (0x0008u16 | x) == 8 + x && (0x0010u16 | x) == 16 + x
                && (0x0018u16 | x) == 24 + x && (0x0020u16 | x) == 32 + x && (0x0028u16 | x) == 40
                + x && (0x0030u16 | x) == 48 + x) by (bit_vector);
        }
        match self {
            AddressingMode::DataDirect(register) => register.0 as u16,
            AddressingMode::AddressDirect(register) => 0x0008 | register.0 as u16,
            AddressingMode::AddressIndirect(register) => 0x0010 | register.0 as u16,
            AddressingMode::AddressIndirectPostincrement(register) => 0x0018 | register.0 as u16,
            AddressingMode::AddressIndirectPredecrement(register) => 0x0020 | register.0 as u16,
            AddressingMode::AddressIndirectDisplacement(register) => 0x0028 | register.0 as u16,
            AddressingMode::AddressIndirectIndexed(register) => 0x0030 | register.0 as u16,
            AddressingMode::AbsoluteShort => 0x0038,
            AddressingMode::AbsoluteLong => 0x0039,
            AddressingMode::PcRelativeDisplacement => 0x003A,
            AddressingMode::PcRelativeIndexed => 0x003B,
            AddressingMode::Immediate => 0x003C,
            // excluded by the precondition: quick operands are encoded by each instruction
            AddressingMode::Quick(_) => 0,
        }
    }
}

/// Distinct addressing modes have distinct encodings, each within the 6-bit field.
pub proof fn lemma_mode_bits_distinct(a: AddressingMode, b: AddressingMode)
    requires
        !(a is Quick),
        !(b is Quick),
        mode_wf(a),
        mode_wf(b),
    ensures
        0 <= mode_bits(a) < 64,
        mode_bits(a) == mode_bits(b) ==> a == b,
{
}

/// The condition of a conditional branch, set or decrement-and-branch.
#[derive(Debug, Clone, Copy, PartialEq, Eq, Structural)]
pub enum BranchCondition {
    True,
    False,
    Higher,
    LowerOrSame,
    CarryClear,
    CarrySet,
    NotEqual,
    Equal,
    OverflowClear,
    OverflowSet,
    Plus,
    Minus,
    GreaterOrEqual,
    LessThan,
    GreaterThan,
    LessOrEqual,
}

/// The number of a condition in the condition field.
pub open spec fn condition_number(condition: BranchCondition) -> int {
    match condition {
        BranchCondition::True => 0,
        BranchCondition::False => 1,
        BranchCondition::Higher => 2,
        BranchCondition::LowerOrSame => 3,
        BranchCondition::CarryClear => 4,
        BranchCondition::CarrySet => 5,
        BranchCondition::NotEqual => 6,
        BranchCondition::Equal => 7,
        BranchCondition::OverflowClear => 8,
        BranchCondition::OverflowSet => 9,
        BranchCondition::Plus => 10,
        BranchCondition::Minus => 11,
        BranchCondition::GreaterOrEqual => 12,
        BranchCondition::LessThan => 13,
        BranchCondition::GreaterThan => 14,
        BranchCondition::LessOrEqual => 15,
    }
}

impl BranchCondition {
    /// The condition field of an opcode (bits 11-8).
    pub fn to_bits(self) -> (r: u16)
        ensures
            r == condition_number(self) * 0x100,
    {
        match self {
            BranchCondition::True => 0x0000,
            BranchCondition::False => 0x0100,
            BranchCondition::Higher => 0x0200,
            BranchCondition::LowerOrSame => 0x0300,
            BranchCondition::CarryClear => 0x0400,
            BranchCondition::CarrySet => 0x0500,
            BranchCondition::NotEqual => 0x0600,
            BranchCondition::Equal => 0x0700,
            BranchCondition::OverflowClear => 0x0800,
            BranchCondition::OverflowSet => 0x0900,
            BranchCondition::Plus => 0x0A00,
            BranchCondition::Minus => 0x0B00,
            BranchCondition::GreaterOrEqual => 0x0C00,
            BranchCondition::LessThan => 0x0D00,
            BranchCondition::GreaterThan => 0x0E00,
            BranchCondition::LessOrEqual => 0x0F00,
        }
    }
}

/// A data or address register, as listed by a MOVEM register mask.
#[derive(Debug, Clone, Copy, PartialEq, Eq, Structural)]
pub enum Register {
    Data(DataRegister),
    Address(AddressRegister),
}

/// Register `i` of a MOVEM mask: D0-D7 for 0-7, A0-A7 for 8-15.
pub open spec fn register_of(i: int) -> Register {
    if i < 8 {
        Register::Data(DataRegister(i as u8))
    } else {
        Register::Address(AddressRegister((i - 8) as u8))
    }
}

pub fn to_register(i: u8) -> (r: Register)
    requires
        i < 16,
    ensures
        r == register_of(i as int),
{
    if i < 8 {
        Register::Data(DataRegister(i))
    } else {
        Register::Address(AddressRegister(i - 8))
    }
}

/// Bit `j` of a 16-bit mask is set.
pub open spec fn mask_bit(mask: u16, j: int) -> bool {
    (mask >> j as u16) & 1 == 1
}

/// The first set bit of a mask at or above `i`, if any below 16.
pub open spec fn first_set_from(mask: u16, i: int) -> Option<int>
    decreases 16 - i,
{
    if i >= 16 {
        None
    } else if mask_bit(mask, i) {
        Some(i)
    } else {
        first_set_from(mask, i + 1)
    }
}

/// The registers of a MOVEM mask, one at a time: bit `i` selects register `i`, or register
/// `15 - i` for the predecrement form, which stores the mask reversed.
#[derive(Debug, Clone)]
pub struct MultipleRegisterIter {
    pub mask: u16,
    pub i: u8,
    pub reverse: bool,
}

impl MultipleRegisterIter {
    pub fn new(extension: u16) -> (r: Self)
        ensures
            r.mask == extension && r.i == 0 && !r.reverse,
    {
        Self { mask: extension, i: 0, reverse: false }
    }

    pub fn new_reverse(extension: u16) -> (r: Self)
        ensures
            r.mask == extension && r.i == 0 && r.reverse,
    {
        Self { mask: extension, i: 0, reverse: true }
    }

    /// The register of the next set bit of the mask, moving past it; `None` once no bit below
    /// 16 is left.
    pub fn next(&mut self) -> (r: Option<Register>)
        ensures
            final(self).mask == old(self).mask,
            final(self).reverse == old(self).reverse,
            match first_set_from(old(self).mask, old(self).i as int) {
                Some(j) => r == Some(
                    register_of(
                        if old(self).reverse {
                            15 - j
                        } else {
                            j
                        },
                    ),
                ) && final(self).i == j + 1,
                None => r is None && final(self).i == if old(self).i < 16 {
                    16
                } else {
                    old(self).i as int
                },
            },
    {
        while self.i < 16
            invariant
                self.mask == old(self).mask,
                self.reverse == old(self).reverse,
                old(self).i <= self.i <= 16 || (old(self).i > 16 && self.i == old(self).i),
                first_set_from(self.mask, self.i as int) == first_set_from(
                    old(self).mask,
                    old(self).i as int,
                ),
            decreases 16 - self.i,
        {
            let i = self.i;
            let bit = (self.mask >> i as u16) & 1 == 1;
            self.i += 1;

            if bit {
                let i = if self.reverse {
                    15 - i
                } else {
                    i
                };
                return Some(to_register(i));
            }
        }

        None
    }
}

/// The registers that a MOVEM mask selects come out in the order of their bits: each `next`
/// gives the register of the lowest set bit not yet passed.
pub proof fn lemma_first_set_is_lowest(mask: u16, i: int)
    ensures
        first_set_from(mask, i) matches Some(j) ==> i <= j < 16 && mask_bit(mask, j) && forall|
            k: int,
        |
            i <= k < j ==> !mask_bit(mask, k),
        first_set_from(mask, i) is None ==> forall|k: int| i <= k < 16 ==> !mask_bit(mask, k),
    decreases 16 - i,
{
    if i < 16 {
        lemma_first_set_is_lowest(mask, i + 1);
    }
}

} // verus!
