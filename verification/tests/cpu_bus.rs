use jgenesis::huc6280::bus::{BusInterface as HucBus, ClockSpeed, InterruptLines};
use jgenesis::huc6280::{Flags, Huc6280, Registers};
use jgenesis::mos6502::bus::BusInterface as Mos6502Bus;
use jgenesis::mos6502::Mos6502;
use jgenesis::sh2::bus::{AccessContext, BusInterface as Sh2Bus};
use jgenesis::sh2::{reset_step, ResetStep, Sh2};

struct Memory6502 {
    memory: Vec<u8>,
    reads: Vec<u16>,
}

impl Mos6502Bus for Memory6502 {
    fn read(&mut self, address: u16) -> u8 {
        self.reads.push(address);
        self.memory[address as usize]
    }

    fn write(&mut self, address: u16, value: u8) {
        self.memory[address as usize] = value;
    }
}

#[test]
fn mos6502_new_and_reset_load_pc_from_reset_vector() {
    let mut memory = vec![0; 0x10000];
    memory[0xFFFC] = 0x34;
    memory[0xFFFD] = 0x12;
    memory[0xFFFE] = 0x78;
    memory[0xFFFF] = 0x56;
    let mut bus = Memory6502 { memory, reads: Vec::new() };

    let mut cpu = Mos6502::new(&mut bus);
    assert_eq!(cpu.pc(), 0x1234);
    assert_eq!(bus.reads, vec![0xFFFC, 0xFFFD]);

    bus.memory[0xFFFC] = 0xCD;
    bus.memory[0xFFFD] = 0xAB;
    let sp = cpu.registers().sp;
    cpu.reset(&mut bus);
    assert_eq!(cpu.pc(), 0xABCD);
    assert_eq!(cpu.registers().sp, sp.wrapping_sub(3));
    assert!(cpu.registers().status.interrupt_disable);
    assert_eq!(bus.reads, vec![0xFFFC, 0xFFFD, 0xFFFC, 0xFFFD]);
}

#[derive(Debug, Clone, Copy, PartialEq, Eq)]
enum Cycle {
    Read(u32),
    Write(u32, u8),
    Idle,
}

struct MemoryHuc {
    memory: Vec<u8>,
    cycles: Vec<Cycle>,
}

impl HucBus for MemoryHuc {
    fn read(&mut self, address: u32) -> u8 {
        self.cycles.push(Cycle::Read(address));
        self.memory[address as usize]
    }

    fn write(&mut self, address: u32, value: u8) {
        self.cycles.push(Cycle::Write(address, value));
        self.memory[address as usize] = value;
    }

    fn idle(&mut self) {
        self.cycles.push(Cycle::Idle);
    }

    fn interrupt_lines(&self) -> InterruptLines {
        InterruptLines { irq1: false, irq2: false, tiq: false }
    }

    fn set_clock_speed(&mut self, _speed: ClockSpeed) {}
}

#[test]
fn huc6280_reset_loads_pc_from_physical_reset_vector() {
    let mut memory = vec![0; 0x20_0000];
    memory[0x1FFE] = 0x00;
    memory[0x1FFF] = 0xE0;
    let mut bus = MemoryHuc { memory, cycles: Vec::new() };
    let mut cpu = Huc6280::new();
    cpu.reset(&mut bus);
    assert_eq!(cpu.registers().pc, 0xE000);
    assert_eq!(cpu.registers().mpr[7], 0);
    assert_eq!(bus.cycles, vec![Cycle::Read(0x1FFE), Cycle::Read(0x1FFF)]);
}

#[test]
fn huc6280_block_transfer_moves_one_byte_per_call() {
    let mut memory = vec![0; 0x20_0000];
    // TII $0010, $0020, length 1 at logical/physical $0000 (MPR0 = 0)
    memory[0..7].copy_from_slice(&[0x73, 0x10, 0x00, 0x20, 0x00, 0x01, 0x00]);
    memory[0x10] = 0xAA;
    memory[0x11] = 0xBB;
    let mut bus = MemoryHuc { memory, cycles: Vec::new() };
    let mut cpu = Huc6280::new();
    cpu.set_registers(Registers {
        a: 0x11,
        x: 0x22,
        y: 0x33,
        pc: 0x0000,
        s: 0xFF,
        p: Flags::default_flags(),
        mpr: [0x00, 0x01, 0x02, 0x03, 0x04, 0x05, 0x06, 0x07],
    });

    cpu.execute_instruction(&mut bus);
    assert!(cpu.is_mid_block_transfer());
    assert_eq!(cpu.registers().pc, 7);

    bus.cycles.clear();
    cpu.execute_instruction(&mut bus);
    assert_eq!(bus.memory[0x20], 0xAA);
    assert_eq!(
        bus.cycles,
        vec![Cycle::Idle, Cycle::Read(0x10), Cycle::Idle, Cycle::Write(0x20, 0xAA), Cycle::Idle, Cycle::Idle]
    );
    assert!(cpu.is_mid_block_transfer());
    assert_eq!(cpu.registers().pc, 7);

    cpu.execute_instruction(&mut bus);
    assert_eq!(bus.memory[0x21], 0xBB);
    assert!(!cpu.is_mid_block_transfer());
    assert_eq!((cpu.registers().x, cpu.registers().a, cpu.registers().y), (0x22, 0x11, 0x33));
    assert_eq!(cpu.registers().s, 0xFF);
}

struct MemorySh2 {
    memory: Vec<u8>,
    reset: bool,
    addresses: Vec<u32>,
}

impl MemorySh2 {
    fn byte(&self, address: u32) -> u8 {
        self.memory[(address & 0xFFFF) as usize]
    }
}

impl Sh2Bus for MemorySh2 {
    fn read_byte(&mut self, address: u32, _ctx: AccessContext) -> u8 {
        self.addresses.push(address);
        self.byte(address)
    }

    fn read_word(&mut self, address: u32, _ctx: AccessContext) -> u16 {
        self.addresses.push(address);
        u16::from_be_bytes([self.byte(address), self.byte(address + 1)])
    }

    fn read_longword(&mut self, address: u32, _ctx: AccessContext) -> u32 {
        self.addresses.push(address);
        u32::from_be_bytes([
            self.byte(address),
            self.byte(address + 1),
            self.byte(address + 2),
            self.byte(address + 3),
        ])
    }

    fn read_cache_line(&mut self, address: u32, ctx: AccessContext) -> [u32; 4] {
        [
            self.read_longword(address, ctx),
            self.read_longword(address + 4, ctx),
            self.read_longword(address + 8, ctx),
            self.read_longword(address + 12, ctx),
        ]
    }

    fn write_byte(&mut self, address: u32, value: u8, _ctx: AccessContext) {
        self.addresses.push(address);
        self.memory[(address & 0xFFFF) as usize] = value;
    }

    fn write_word(&mut self, address: u32, value: u16, _ctx: AccessContext) {
        self.addresses.push(address);
        let [a, b] = value.to_be_bytes();
        self.memory[(address & 0xFFFF) as usize] = a;
        self.memory[((address + 1) & 0xFFFF) as usize] = b;
    }

    fn write_longword(&mut self, address: u32, value: u32, ctx: AccessContext) {
        self.write_word(address, (value >> 16) as u16, ctx);
        self.write_word(address + 2, value as u16, ctx);
    }

    fn reset(&self) -> bool {
        self.reset
    }

    fn interrupt_level(&self) -> u8 {
        0
    }

    fn dma_request_0(&self) -> bool {
        false
    }

    fn dma_request_1(&self) -> bool {
        false
    }

    fn acknowledge_dreq_1(&mut self) {}

    fn serial_rx(&mut self) -> Option<u8> {
        None
    }

    fn serial_tx(&mut self, _value: u8) {}

    fn increment_cycle_counter(&mut self, _cycles: u64) {}

    fn should_stop_execution(&self) -> bool {
        false
    }
}

#[test]
fn sh2_reset_release_loads_vectors_and_bus_sees_external_addresses() {
    let mut memory = vec![0; 0x10000];
    // Reset vectors: PC in the uncached region, then SP
    memory[0..4].copy_from_slice(&0x2000_0100u32.to_be_bytes());
    memory[4..8].copy_from_slice(&0x0000_8000u32.to_be_bytes());
    // MOV.L R1,@R2 at $100, then NOP
    memory[0x100..0x102].copy_from_slice(&0x2212u16.to_be_bytes());
    memory[0x102..0x104].copy_from_slice(&0x0009u16.to_be_bytes());
    let mut bus = MemorySh2 { memory, reset: true, addresses: Vec::new() };
    let mut cpu = Sh2::new("master".to_string());

    cpu.tick(1, &mut bus);
    assert!(cpu.reset_pending);
    assert!(bus.addresses.is_empty());

    bus.reset = false;
    cpu.tick(1, &mut bus);
    assert!(!cpu.reset_pending);
    assert_eq!(cpu.registers.pc, 0x2000_0100);
    assert_eq!(cpu.registers.gpr[15], 0x0000_8000);
    assert_eq!(bus.addresses, vec![0x0000_0000, 0x0000_0004]);

    cpu.registers.gpr[1] = 0xCAFE_F00D;
    cpu.registers.gpr[2] = 0x2000_0200;
    cpu.tick(2, &mut bus);
    assert_eq!(cpu.registers.pc, 0x2000_0104);
    assert_eq!(&bus.memory[0x200..0x204], &0xCAFE_F00Du32.to_be_bytes());
    // Opcode fetch, the store, the next fetch: all with the top 3 address bits cleared
    assert_eq!(bus.addresses[2..], [0x0000_0100, 0x0000_0200, 0x0000_0202, 0x0000_0102]);
    assert!(bus.addresses.iter().all(|&address| address <= 0x1FFF_FFFF));
}

#[test]
fn sh2_reset_step_decides_from_line_and_pending_reset() {
    assert_eq!(reset_step(true, false), ResetStep::Hold);
    assert_eq!(reset_step(true, true), ResetStep::Hold);
    assert_eq!(reset_step(false, true), ResetStep::LoadVectors);
    assert_eq!(reset_step(false, false), ResetStep::Run);
}
