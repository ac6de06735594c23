use jgenesis::m68000::disassemble::movem_registers_str;
use jgenesis::m68000::{AddressRegister, AddressingMode, DataRegister};

#[test]
fn movem() {
    assert_eq!(
        movem_registers_str(0x0707, AddressingMode::DataDirect(DataRegister(0))),
        "d0-d2/a0-a2"
    );
    assert_eq!(
        movem_registers_str(0x0707, AddressingMode::AddressIndirectPredecrement(AddressRegister(0))),
        "d5-d7/a5-a7"
    );
    assert_eq!(
        movem_registers_str(0xAA55, AddressingMode::DataDirect(DataRegister(0))),
        "d0/d2/d4/d6/a1/a3/a5/a7"
    );
    assert_eq!(
        movem_registers_str(0xFFFF, AddressingMode::DataDirect(DataRegister(0))),
        "d0-d7/a0-a7"
    );
}

#[test]
fn movem_empty_list() {
    assert_eq!(movem_registers_str(0, AddressingMode::AddressIndirect(AddressRegister(3))), "empty");
}

#[test]
fn movem_single_registers_and_long_runs() {
    assert_eq!(movem_registers_str(0x0001, AddressingMode::AbsoluteLong), "d0");
    assert_eq!(movem_registers_str(0x8000, AddressingMode::AbsoluteLong), "a7");
    assert_eq!(movem_registers_str(0x00FE, AddressingMode::Immediate), "d1-d7");
    // Predecrement: bit 15 is D0 and bit 0 is A7
    assert_eq!(
        movem_registers_str(0x8001, AddressingMode::AddressIndirectPredecrement(AddressRegister(7))),
        "d0/a7"
    );
    assert_eq!(
        movem_registers_str(0x00C3, AddressingMode::AddressIndirectPostincrement(AddressRegister(1))),
        "d0-d1/d6-d7"
    );
}
