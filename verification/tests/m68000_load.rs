use jgenesis::m68000::load::{
    exg_address, exg_data, exg_data_address, move_usp, movem_cycles, movem_predecrement,
    movem_to_memory, movem_to_registers, movep, moveq, ConditionCodes, Direction, Exception,
    Registers, UspDirection,
};
use jgenesis::m68000::traits::BusInterface;
use jgenesis::m68000::{AddressRegister, DataRegister, OpSize, Register};

struct TestBus {
    memory: Vec<u8>,
}

impl TestBus {
    fn new() -> Self {
        Self { memory: vec![0; 0x1_0000] }
    }
}

impl BusInterface for TestBus {
    fn read_byte(&mut self, address: u32) -> u8 {
        self.memory[(address & 0xFFFF) as usize]
    }

    fn read_word(&mut self, address: u32) -> u16 {
        u16::from_be_bytes([self.read_byte(address), self.read_byte(address.wrapping_add(1))])
    }

    fn write_byte(&mut self, address: u32, value: u8) {
        self.memory[(address & 0xFFFF) as usize] = value;
    }

    fn write_word(&mut self, address: u32, value: u16) {
        let [msb, lsb] = value.to_be_bytes();
        self.write_byte(address, msb);
        self.write_byte(address.wrapping_add(1), lsb);
    }

    fn interrupt_level(&self) -> u8 {
        0
    }

    fn acknowledge_interrupt(&mut self, _interrupt_level: u8) {}

    fn halt(&self) -> bool {
        false
    }

    fn reset(&self) -> bool {
        false
    }
}

fn flags(extend: bool) -> ConditionCodes {
    ConditionCodes { carry: true, overflow: true, zero: true, negative: true, extend }
}

fn sample_registers(supervisor_mode: bool) -> Registers {
    Registers {
        data: [0x1000_0000, 0x1111_1111, 0x2222_2222, 0x3333_3333, 0x4444_4444, 0x5555_5555, 0x6666_6666, 0x7777_7777],
        address: [0xA000_0000, 0xA111_1111, 0xA222_2222, 0xA333_3333, 0xA444_4444, 0xA555_5555, 0xA666_6666],
        usp: 0x00FF_0000,
        ssp: 0x00FF_8000,
        supervisor_mode,
        ccr: flags(true),
    }
}

#[test]
fn bus_interface_address_mask_and_longword_defaults() {
    assert_eq!(<TestBus as BusInterface>::ADDRESS_MASK, 0x00FF_FFFF);

    let mut bus = TestBus::new();
    bus.write_long_word(0x0010, 0x1234_5678);
    assert_eq!(&bus.memory[0x10..0x14], &[0x12, 0x34, 0x56, 0x78]);
    assert_eq!(bus.read_long_word(0x0010), 0x1234_5678);
    assert_eq!(bus.read_long_word(0x0012), 0x5678_0000);
}

#[test]
fn moveq_sign_extends_and_sets_flags() {
    let mut registers = sample_registers(false);
    assert_eq!(moveq(&mut registers, -1, DataRegister(3)), 4);
    assert_eq!(registers.data[3], 0xFFFF_FFFF);
    assert_eq!(
        registers.ccr,
        ConditionCodes { carry: false, overflow: false, zero: false, negative: true, extend: true }
    );

    registers.ccr = flags(false);
    moveq(&mut registers, 0, DataRegister(5));
    assert_eq!(registers.data[5], 0);
    assert_eq!(
        registers.ccr,
        ConditionCodes { carry: false, overflow: false, zero: true, negative: false, extend: false }
    );

    moveq(&mut registers, 0x7F, DataRegister(0));
    assert_eq!(registers.data[0], 0x7F);
    assert!(!registers.ccr.negative && !registers.ccr.zero);
}

#[test]
fn exg_swaps_registers_and_a7_is_the_active_stack_pointer() {
    let mut registers = sample_registers(false);
    assert_eq!(exg_data(&mut registers, DataRegister(1), DataRegister(6)), 6);
    assert_eq!(registers.data[1], 0x6666_6666);
    assert_eq!(registers.data[6], 0x1111_1111);

    exg_data(&mut registers, DataRegister(2), DataRegister(2));
    assert_eq!(registers.data[2], 0x2222_2222);

    // user mode: A7 is the user stack pointer
    exg_address(&mut registers, AddressRegister(0), AddressRegister(7));
    assert_eq!(registers.address[0], 0x00FF_0000);
    assert_eq!(registers.usp, 0xA000_0000);
    assert_eq!(registers.ssp, 0x00FF_8000);

    // supervisor mode: A7 is the supervisor stack pointer
    let mut registers = sample_registers(true);
    exg_data_address(&mut registers, DataRegister(4), AddressRegister(7));
    assert_eq!(registers.data[4], 0x00FF_8000);
    assert_eq!(registers.ssp, 0x4444_4444);
    assert_eq!(registers.usp, 0x00FF_0000);
}

#[test]
fn move_usp_is_privileged() {
    let mut registers = sample_registers(false);
    assert_eq!(
        move_usp(&mut registers, UspDirection::RegisterToUsp, AddressRegister(3)),
        Err(Exception::PrivilegeViolation)
    );
    assert_eq!(registers.usp, 0x00FF_0000);

    let mut registers = sample_registers(true);
    assert_eq!(move_usp(&mut registers, UspDirection::RegisterToUsp, AddressRegister(3)), Ok(4));
    assert_eq!(registers.usp, 0xA333_3333);

    let mut registers = sample_registers(true);
    assert_eq!(move_usp(&mut registers, UspDirection::UspToRegister, AddressRegister(7)), Ok(4));
    // in supervisor mode A7 names the supervisor stack pointer
    assert_eq!(registers.ssp, 0x00FF_0000);
    assert_eq!(registers.usp, 0x00FF_0000);
}

#[test]
fn movep_moves_every_other_byte() {
    let mut bus = TestBus::new();
    let mut registers = sample_registers(false);
    registers.address[2] = 0x0102;
    registers.data[0] = 0xAABB_CCDD;

    let cycles = movep(
        &mut registers,
        &mut bus,
        OpSize::LongWord,
        DataRegister(0),
        AddressRegister(2),
        Direction::RegisterToMemory,
        0xFFFE,
    );
    assert_eq!(cycles, 24);
    assert_eq!(&bus.memory[0x100..0x108], &[0xAA, 0, 0xBB, 0, 0xCC, 0, 0xDD, 0]);

    let cycles = movep(
        &mut registers,
        &mut bus,
        OpSize::Word,
        DataRegister(0),
        AddressRegister(2),
        Direction::RegisterToMemory,
        0x0010,
    );
    assert_eq!(cycles, 16);
    assert_eq!(&bus.memory[0x112..0x115], &[0xCC, 0, 0xDD]);

    bus.memory[0x200] = 0x12;
    bus.memory[0x202] = 0x34;
    bus.memory[0x204] = 0x56;
    bus.memory[0x206] = 0x78;
    registers.address[2] = 0x01F0;
    registers.data[1] = 0xFFFF_0000;
    movep(&mut registers, &mut bus, OpSize::Word, DataRegister(1), AddressRegister(2), Direction::MemoryToRegister, 0x0010);
    assert_eq!(registers.data[1], 0xFFFF_1234);
    movep(&mut registers, &mut bus, OpSize::LongWord, DataRegister(1), AddressRegister(2), Direction::MemoryToRegister, 0x0010);
    assert_eq!(registers.data[1], 0x1234_5678);
}

#[test]
fn movem_predecrement_stores_registers_downward_in_reverse_mask_order() {
    let mut registers = sample_registers(false);
    registers.data[0] = 0x0102_0304;
    registers.data[1] = 0x0506_0708;
    registers.address[3] = 0x1000;

    // in the -(An) form bit 15 selects D0 and bit 14 selects D1
    let transfer = movem_predecrement(OpSize::LongWord, &registers, AddressRegister(3), 0xC000);
    assert_eq!(
        transfer.writes,
        vec![(0x0FFE, 0x0708), (0x0FFC, 0x0506), (0x0FFA, 0x0304), (0x0FF8, 0x0102)]
    );
    assert_eq!(transfer.address, 0x0FF8);
    assert_eq!(transfer.cycles, 24);

    // A3 itself goes out with its value before the instruction; bit 4 selects A3
    let transfer = movem_predecrement(OpSize::Word, &registers, AddressRegister(3), 0x0010);
    assert_eq!(transfer.writes, vec![(0x0FFE, 0x1000)]);
    assert_eq!(transfer.address, 0x0FFE);
    assert_eq!(transfer.cycles, 12);

    // the address wraps below zero
    registers.address[3] = 0x0002;
    let transfer = movem_predecrement(OpSize::LongWord, &registers, AddressRegister(3), 0x8000);
    assert_eq!(transfer.writes, vec![(0x0000, 0x0304), (0xFFFF_FFFE, 0x0102)]);
    assert_eq!(transfer.address, 0xFFFF_FFFE);

    let transfer = movem_predecrement(OpSize::Word, &registers, AddressRegister(3), 0x0000);
    assert!(transfer.writes.is_empty());
    assert_eq!(transfer.address, 0x0002);
    assert_eq!(transfer.cycles, 8);
}

#[test]
fn movem_to_memory_stores_registers_upward_in_mask_order() {
    let registers = sample_registers(true);
    // bit 0 selects D0, bit 8 selects A0, bit 15 selects A7 (the supervisor stack pointer here)
    let writes = movem_to_memory(OpSize::Word, &registers, 0x8101, 0x2000);
    assert_eq!(writes, vec![(0x2000, 0x0000), (0x2002, 0x0000), (0x2004, 0x8000)]);

    let writes = movem_to_memory(OpSize::LongWord, &registers, 0x0006, 0xFFFF_FFFC);
    assert_eq!(writes, vec![(0xFFFF_FFFC, 0x1111_1111), (0x0000_0000, 0x2222_2222)]);
}

#[test]
fn movem_to_registers_sign_extends_words_and_skips_the_postincrement_register() {
    let mut registers = sample_registers(false);
    // D0 and A0, with A0 the (A0)+ register
    movem_to_registers(
        &mut registers,
        OpSize::Word,
        0x0101,
        0x3000,
        Some(AddressRegister(0)),
        &vec![0x8000, 0x1234],
    );
    assert_eq!(registers.data[0], 0xFFFF_8000);
    assert_eq!(registers.address[0], 0x3004);

    let mut registers = sample_registers(false);
    movem_to_registers(
        &mut registers,
        OpSize::LongWord,
        0x8002,
        0x3000,
        Some(AddressRegister(1)),
        &vec![0xDEAD_BEEF, 0x0000_4000],
    );
    assert_eq!(registers.data[1], 0xDEAD_BEEF);
    assert_eq!(registers.usp, 0x0000_4000);
    assert_eq!(registers.address[1], 0x3008);
    assert_eq!(registers.data[0], 0x1000_0000);
}

#[test]
fn movem_longword_round_trip_restores_registers() {
    let registers = sample_registers(false);
    let writes = movem_to_memory(OpSize::LongWord, &registers, 0xA5C3, 0x4000);
    let values: Vec<u32> = writes.iter().map(|&(_, value)| value).collect();

    let mut reloaded = sample_registers(false);
    reloaded.data = [0; 8];
    reloaded.address = [0; 7];
    reloaded.usp = 0;
    movem_to_registers(&mut reloaded, OpSize::LongWord, 0xA5C3, 0x4000, None, &values);
    for bit in 0..8 {
        if 0xA5C3 & (1 << bit) != 0 {
            assert_eq!(reloaded.data[bit], registers.data[bit]);
        }
        if 0xA5C3 & (1 << (bit + 8)) != 0 {
            let expected = if bit == 7 { registers.usp } else { registers.address[bit] };
            let actual = if bit == 7 { reloaded.usp } else { reloaded.address[bit] };
            assert_eq!(actual, expected);
        }
    }
}

#[test]
fn movem_cycle_counts() {
    assert_eq!(movem_cycles(OpSize::LongWord, Direction::MemoryToRegister, 4, 3), 36);
    assert_eq!(movem_cycles(OpSize::Word, Direction::RegisterToMemory, 8, 2), 20);
    assert_eq!(movem_cycles(OpSize::Word, Direction::MemoryToRegister, 0, 0), 8);
}

#[test]
fn register_read_and_write_follow_the_mask_numbering() {
    let mut registers = sample_registers(true);
    assert_eq!(Register::Address(AddressRegister(7)).read_from(&registers), 0x00FF_8000);
    Register::Data(DataRegister(7)).write_to(&mut registers, 0x0BAD_F00D);
    assert_eq!(registers.data[7], 0x0BAD_F00D);
    DataRegister(7).write_word_to(&mut registers, 0x1234);
    assert_eq!(registers.data[7], 0x0BAD_1234);
}

#[test]
fn movem_push_then_pop_restores_registers() {
    let original = sample_registers(false);
    let mut registers = original;
    registers.usp = 0x0000_8000;
    let original = registers;
    let mut bus = TestBus::new();

    // MOVEM.L D0-D2/A5/A7,-(A7): in the -(An) form bit 15 is D0, bit 0 is A7
    let push_mask: u16 = 0xE000 | 0x0004 | 0x0001;
    let transfer = movem_predecrement(OpSize::LongWord, &registers, AddressRegister(7), push_mask);
    for &(address, word) in &transfer.writes {
        bus.write_word(address, word);
    }
    registers.usp = transfer.address;
    assert_eq!(transfer.address, 0x0000_8000 - 5 * 4);

    registers.data = [0; 8];
    registers.address[5] = 0;

    // MOVEM.L (A7)+,D0-D2/A5/A7: the mirror image of the push mask
    let pop_mask = push_mask.reverse_bits();
    let start = registers.usp;
    let values: Vec<u32> = (0..5).map(|k| bus.read_long_word(start + 4 * k)).collect();
    movem_to_registers(&mut registers, OpSize::LongWord, pop_mask, start, Some(AddressRegister(7)), &values);

    assert_eq!(registers.data[0..3], original.data[0..3]);
    assert_eq!(registers.address[5], original.address[5]);
    assert_eq!(registers.usp, original.usp);
}
