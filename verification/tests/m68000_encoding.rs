use jgenesis::m68000::{
    to_register, AddressRegister, AddressingMode, BranchCondition, DataRegister,
    MultipleRegisterIter, OpSize, Register,
};

#[test]
fn size_fields() {
    assert_eq!(OpSize::Byte.to_bits(), 0x0000);
    assert_eq!(OpSize::Word.to_bits(), 0x0040);
    assert_eq!(OpSize::LongWord.to_bits(), 0x0080);
    assert_eq!(OpSize::Byte.to_move_bits(), 0x1000);
    assert_eq!(OpSize::Word.to_move_bits(), 0x3000);
    assert_eq!(OpSize::LongWord.to_move_bits(), 0x2000);
}

#[test]
fn addressing_mode_fields() {
    assert_eq!(AddressingMode::DataDirect(DataRegister(3)).to_bits(), 0x03);
    assert_eq!(AddressingMode::AddressDirect(AddressRegister(1)).to_bits(), 0x09);
    assert_eq!(AddressingMode::AddressIndirectPredecrement(AddressRegister(7)).to_bits(), 0x27);
    assert_eq!(AddressingMode::AddressIndirectIndexed(AddressRegister(2)).to_bits(), 0x32);
    assert_eq!(AddressingMode::AbsoluteLong.to_bits(), 0x39);
    assert_eq!(AddressingMode::Immediate.to_bits(), 0x3C);
}

#[test]
fn condition_fields() {
    assert_eq!(BranchCondition::True.to_bits(), 0x0000);
    assert_eq!(BranchCondition::Equal.to_bits(), 0x0700);
    assert_eq!(BranchCondition::LessOrEqual.to_bits(), 0x0F00);
}

#[test]
fn mask_registers_in_bit_order() {
    let mut iter = MultipleRegisterIter::new(0x8081);
    assert_eq!(iter.next(), Some(Register::Data(DataRegister(0))));
    assert_eq!(iter.next(), Some(Register::Data(DataRegister(7))));
    assert_eq!(iter.next(), Some(Register::Address(AddressRegister(7))));
    assert_eq!(iter.next(), None);
    assert_eq!(iter.next(), None);
}

#[test]
fn reversed_mask_registers() {
    let mut iter = MultipleRegisterIter::new_reverse(0x8002);
    assert_eq!(iter.next(), Some(Register::Address(AddressRegister(6))));
    assert_eq!(iter.next(), Some(Register::Data(DataRegister(0))));
    assert_eq!(iter.next(), None);
}

#[test]
fn register_numbers() {
    assert_eq!(to_register(0), Register::Data(DataRegister(0)));
    assert_eq!(to_register(9), Register::Address(AddressRegister(1)));
    assert_eq!(to_register(15), Register::Address(AddressRegister(7)));
}

use jgenesis::m68000::disassemble::{DisassembledIndex, DisassembledMemoryAccess, RegisterFile};
use jgenesis::m68000::IndexSize;

fn register_file() -> RegisterFile {
    let mut registers =
        RegisterFile { data_registers: [0; 8], address_registers: [0; 7], stack_pointer: 0xFF_FE00 };
    registers.data_registers[1] = 0x0001_FFFE;
    registers.address_registers[3] = 0x1000;
    registers
}

#[test]
fn index_registers_resolve() {
    let registers = register_file();
    assert_eq!(DisassembledIndex::Data(1).resolve(&registers, IndexSize::LongWord), 0x0001_FFFE);
    assert_eq!(
        DisassembledIndex::Data(1).resolve(&registers, IndexSize::SignExtendedWord),
        0xFFFF_FFFE
    );
    assert_eq!(DisassembledIndex::Address(7).resolve(&registers, IndexSize::LongWord), 0xFF_FE00);
    assert_eq!(
        DisassembledIndex::Address(7).resolve(&registers, IndexSize::SignExtendedWord),
        0xFFFF_FE00
    );
}

#[test]
fn memory_operands_resolve() {
    let registers = register_file();
    let indexed = DisassembledMemoryAccess::AddressIndirect {
        register: 3,
        displacement: -4,
        index: Some((DisassembledIndex::Data(1), IndexSize::SignExtendedWord)),
    };
    assert_eq!(indexed.resolve(&registers), 0x0FFA);

    let stack = DisassembledMemoryAccess::AddressIndirect { register: 7, displacement: 8, index: None };
    assert_eq!(stack.resolve(&registers), 0xFF_FE08);

    let pc_relative = DisassembledMemoryAccess::PcRelative {
        pc: 2,
        displacement: -4,
        index: Some((DisassembledIndex::Address(3), IndexSize::LongWord)),
    };
    assert_eq!(pc_relative.resolve(&registers), 0x0FFE);

    assert_eq!(DisassembledMemoryAccess::Absolute { address: 0xC0_0000 }.resolve(&registers), 0xC0_0000);
}
