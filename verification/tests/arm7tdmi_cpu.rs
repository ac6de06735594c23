use jgenesis::arm7tdmi::bus::{BusInterface, MemoryCycle, OpSize};
use jgenesis::arm7tdmi::instructions::alu::{
    alu_add, apply_immediate_shift, apply_register_shift, rotate_right,
};
use jgenesis::arm7tdmi::instructions::load::register_count;
use jgenesis::arm7tdmi::instructions::{
    arm_decode, thumb_decode, ArmOp, ArmOpTable, Condition, ShiftType, ThumbOp, ThumbOpTable,
};
use jgenesis::arm7tdmi::{
    Arm7Tdmi, Arm7TdmiResetArgs, CpuMode, CpuState, Exception, StatusRegister,
};

struct TestBus {
    memory: Vec<u8>,
    irq: bool,
    internal_cycles: u32,
}

impl TestBus {
    fn new(program: &[u32]) -> Self {
        let mut memory = vec![0u8; 0x1000];
        for (i, word) in program.iter().enumerate() {
            memory[4 * i..4 * i + 4].copy_from_slice(&word.to_le_bytes());
        }
        Self { memory, irq: false, internal_cycles: 0 }
    }

    fn index(&self, address: u32) -> usize {
        (address as usize) % self.memory.len()
    }

    fn word_at(&self, address: u32) -> u32 {
        let i = self.index(address & !3);
        u32::from_le_bytes([self.memory[i], self.memory[i + 1], self.memory[i + 2], self.memory[i + 3]])
    }
}

impl BusInterface for TestBus {
    fn read_byte(&mut self, address: u32, _cycle: MemoryCycle) -> u8 {
        self.memory[self.index(address)]
    }

    fn read_halfword(&mut self, address: u32, _cycle: MemoryCycle) -> u16 {
        let i = self.index(address & !1);
        u16::from_le_bytes([self.memory[i], self.memory[i + 1]])
    }

    fn read_word(&mut self, address: u32, _cycle: MemoryCycle) -> u32 {
        self.word_at(address)
    }

    fn fetch_opcode_halfword(&mut self, address: u32, cycle: MemoryCycle) -> u16 {
        self.read_halfword(address, cycle)
    }

    fn fetch_opcode_word(&mut self, address: u32, cycle: MemoryCycle) -> u32 {
        self.read_word(address, cycle)
    }

    fn write_byte(&mut self, address: u32, value: u8, _cycle: MemoryCycle) {
        let i = self.index(address);
        self.memory[i] = value;
    }

    fn write_halfword(&mut self, address: u32, value: u16, _cycle: MemoryCycle) {
        let i = self.index(address & !1);
        self.memory[i..i + 2].copy_from_slice(&value.to_le_bytes());
    }

    fn write_word(&mut self, address: u32, value: u32, _cycle: MemoryCycle) {
        let i = self.index(address & !3);
        self.memory[i..i + 4].copy_from_slice(&value.to_le_bytes());
    }

    fn irq(&self) -> bool {
        self.irq
    }

    fn internal_cycles(&mut self, cycles: u32) {
        self.internal_cycles += cycles;
    }

    fn lock(&mut self) {}

    fn unlock(&mut self) {}
}

fn boot(program: &[u32]) -> (Arm7Tdmi, TestBus) {
    let mut bus = TestBus::new(program);
    let mut cpu = Arm7Tdmi::new();
    cpu.manual_reset(
        Arm7TdmiResetArgs {
            pc: 0,
            sp_usr: 0x800,
            sp_svc: 0x700,
            sp_irq: 0x600,
            sp_fiq: 0x500,
            mode: CpuMode::System,
        },
        &mut bus,
    );
    (cpu, bus)
}

fn run(cpu: &mut Arm7Tdmi, bus: &mut TestBus, count: usize) {
    for _ in 0..count {
        cpu.execute_instruction(bus);
    }
}

#[test]
fn manual_reset_fills_the_pipeline() {
    let (cpu, _bus) = boot(&[0xE3A00005, 0xE2801003]);
    assert_eq!(cpu.registers.r[15], 8);
    assert_eq!(cpu.prev_r15, 4);
    assert_eq!(cpu.prefetch, [0xE3A00005, 0xE2801003]);
    assert_eq!(cpu.registers.r[13], 0x800);
    assert_eq!(cpu.registers.r13_svc, 0x700);
    assert_eq!(cpu.registers.cpsr.mode, CpuMode::System);
    assert_eq!(cpu.fetch_cycle, MemoryCycle::S);
}

#[test]
fn data_processing_sets_registers_and_flags() {
    // MOV R0, #5; ADD R1, R0, #3; SUBS R2, R1, R1; CMP R0, #6
    let (mut cpu, mut bus) = boot(&[0xE3A00005, 0xE2801003, 0xE0512001, 0xE3500006]);
    run(&mut cpu, &mut bus, 3);
    assert_eq!(cpu.registers.r[0], 5);
    assert_eq!(cpu.registers.r[1], 8);
    assert_eq!(cpu.registers.r[2], 0);
    assert!(cpu.registers.cpsr.zero);
    assert!(cpu.registers.cpsr.carry);
    assert!(!cpu.registers.cpsr.sign);
    run(&mut cpu, &mut bus, 1);
    // 5 - 6 borrows and is negative
    assert!(cpu.registers.cpsr.sign);
    assert!(!cpu.registers.cpsr.carry);
    assert!(!cpu.registers.cpsr.zero);
    assert_eq!(cpu.registers.r[15], 0x18);
}

#[test]
fn condition_codes_skip_instructions() {
    // MOVS R0, #0 (Z set); MOVNE R1, #1 (skipped); MOVEQ R2, #2
    let (mut cpu, mut bus) = boot(&[0xE3B00000, 0x13A01001, 0x03A02002]);
    run(&mut cpu, &mut bus, 3);
    assert_eq!(cpu.registers.r[1], 0);
    assert_eq!(cpu.registers.r[2], 2);
}

#[test]
fn branch_with_link() {
    // BL +8 (to 0x10)
    let (mut cpu, mut bus) = boot(&[0xEB000002]);
    run(&mut cpu, &mut bus, 1);
    assert_eq!(cpu.registers.r[14], 4);
    assert_eq!(cpu.registers.r[15], 0x18);
    assert_eq!(cpu.prev_r15, 0x14);
}

#[test]
fn branch_exchange_enters_thumb_state() {
    // MOV R0, #0x21; BX R0; (at 0x20, Thumb) MOV R3, #7 = 0x2307
    let mut program = vec![0xE3A00021, 0xE12FFF10];
    program.resize(8, 0);
    program.push(0x0000_2307);
    let (mut cpu, mut bus) = boot(&program);
    run(&mut cpu, &mut bus, 2);
    assert_eq!(cpu.registers.cpsr.state, CpuState::Thumb);
    assert_eq!(cpu.registers.r[15], 0x24);
    run(&mut cpu, &mut bus, 1);
    assert_eq!(cpu.registers.r[3], 7);
}

#[test]
fn store_then_load_word_and_byte() {
    // MOV R0, #0x12; ORR R0, R0, #0x3400; MOV R1, #0x200; STR R0, [R1, #4]!; LDRB R2, [R1];
    // LDR R3, [R1], #-4
    let (mut cpu, mut bus) = boot(&[
        0xE3A00012, 0xE3800B0D, 0xE3A01C02, 0xE5A10004, 0xE5D12000, 0xE4113004,
    ]);
    run(&mut cpu, &mut bus, 6);
    assert_eq!(cpu.registers.r[0], 0x3412);
    assert_eq!(bus.word_at(0x204), 0x3412);
    assert_eq!(cpu.registers.r[2], 0x12);
    assert_eq!(cpu.registers.r[3], 0x3412);
    // Post-indexed: base written back with the offset applied after the transfer
    assert_eq!(cpu.registers.r[1], 0x200);
}

#[test]
fn store_multiple_then_load_multiple() {
    // MOV R0,#1; MOV R1,#2; MOV R2,#3; STMDB SP!, {R0-R2}; MOV R0,#0; LDMIA SP!, {R4-R6}
    let (mut cpu, mut bus) = boot(&[
        0xE3A00001, 0xE3A01002, 0xE3A02003, 0xE92D0007, 0xE3A00000, 0xE8BD0070,
    ]);
    run(&mut cpu, &mut bus, 4);
    assert_eq!(cpu.registers.r[13], 0x800 - 12);
    assert_eq!(bus.word_at(0x800 - 12), 1);
    assert_eq!(bus.word_at(0x800 - 4), 3);
    run(&mut cpu, &mut bus, 2);
    assert_eq!(cpu.registers.r[4], 1);
    assert_eq!(cpu.registers.r[5], 2);
    assert_eq!(cpu.registers.r[6], 3);
    assert_eq!(cpu.registers.r[13], 0x800);
}

#[test]
fn multiply_and_multiply_long() {
    // MOV R0, #-2 (MVN R0, #1); MOV R1, #3; MUL R2, R0, R1; SMULL R3, R4, R0, R1; UMULL R5, R6, R0, R1
    let (mut cpu, mut bus) = boot(&[
        0xE3E00001, 0xE3A01003, 0xE0020190, 0xE0C43190, 0xE0865190,
    ]);
    run(&mut cpu, &mut bus, 5);
    assert_eq!(cpu.registers.r[2], (-6i32) as u32);
    assert_eq!(cpu.registers.r[3], (-6i32) as u32);
    assert_eq!(cpu.registers.r[4], 0xFFFF_FFFF);
    let unsigned = 0xFFFF_FFFEu64 * 3;
    assert_eq!(cpu.registers.r[5], unsigned as u32);
    assert_eq!(cpu.registers.r[6], (unsigned >> 32) as u32);
}

#[test]
fn software_interrupt_enters_supervisor_mode() {
    // MSR CPSR_c, #0x10 (user mode); SWI 0
    let (mut cpu, mut bus) = boot(&[0xE321F010, 0xEF000000]);
    run(&mut cpu, &mut bus, 1);
    assert_eq!(cpu.registers.cpsr.mode, CpuMode::User);
    assert_eq!(cpu.registers.r[13], 0x800);
    run(&mut cpu, &mut bus, 1);
    assert_eq!(cpu.registers.cpsr.mode, CpuMode::Supervisor);
    assert_eq!(cpu.registers.r[14], 8);
    assert_eq!(cpu.registers.r[13], 0x700);
    assert_eq!(cpu.registers.r[15], 0x10);
    assert!(cpu.registers.cpsr.irq_disabled);
    assert_eq!(cpu.registers.spsr_svc.mode, CpuMode::User);
}

#[test]
fn irq_is_taken_when_enabled() {
    let (mut cpu, mut bus) = boot(&[0xE3A00005, 0xE3A00006]);
    bus.irq = true;
    run(&mut cpu, &mut bus, 1);
    assert_eq!(cpu.registers.cpsr.mode, CpuMode::Irq);
    assert_eq!(cpu.registers.r[15], 0x18 + 8);
    assert_eq!(cpu.registers.r[14], 4);
    assert_eq!(cpu.registers.r[13], 0x600);
    assert_eq!(cpu.registers.r[0], 0);
}

#[test]
fn reset_takes_the_reset_exception() {
    let mut bus = TestBus::new(&[]);
    let mut cpu = Arm7Tdmi::new();
    cpu.reset(&mut bus);
    assert_eq!(cpu.registers.cpsr.mode, CpuMode::Supervisor);
    assert!(cpu.registers.cpsr.irq_disabled);
    assert!(cpu.registers.cpsr.fiq_disabled);
    assert_eq!(cpu.registers.r[15], 8);
}

#[test]
fn mode_switch_and_back_restores_registers() {
    let mut cpu = Arm7Tdmi::new();
    for i in 0..16 {
        cpu.registers.r[i] = 100 + i as u32;
    }
    cpu.registers.cpsr.mode = CpuMode::System;
    let before = cpu.registers.r;
    cpu.change_mode(CpuMode::Fiq);
    assert_eq!(cpu.registers.r[8], 0);
    assert_eq!(cpu.registers.r[13], 0);
    cpu.change_mode(CpuMode::System);
    assert_eq!(cpu.registers.r, before);
    assert_eq!(cpu.registers.cpsr.mode, CpuMode::System);
}

#[test]
fn status_register_round_trips() {
    let value = 0xA000_00D3u32;
    let sr = StatusRegister::from(value);
    assert!(sr.sign && !sr.zero && sr.carry && !sr.overflow);
    assert!(sr.irq_disabled && sr.fiq_disabled);
    assert_eq!(sr.state, CpuState::Arm);
    assert_eq!(sr.mode, CpuMode::Supervisor);
    assert_eq!(u32::from(sr), value);
    assert_eq!(StatusRegister::from(0x0000_0005u32).mode, CpuMode::Illegal);
    assert_eq!(CpuMode::from_bits(0xFF), CpuMode::System);
    assert_eq!(CpuMode::Undefined.bits(), 0x1B);
}

#[test]
fn alu_add_flags() {
    let (sum, codes) = alu_add(0xFFFF_FFFF, 1, false);
    assert_eq!(sum, 0);
    assert!(codes.zero && codes.carry && !codes.overflow && !codes.sign);
    let (sum, codes) = alu_add(0x7FFF_FFFF, 0, true);
    assert_eq!(sum, 0x8000_0000);
    assert!(codes.overflow && codes.sign && !codes.carry);
    // 3 - 5 as 3 + !5 + 1
    let (sum, codes) = alu_add(3, !5, true);
    assert_eq!(sum, (-2i32) as u32);
    assert!(!codes.carry && codes.sign);
}

#[test]
fn shifter_results() {
    assert_eq!(rotate_right(0x0000_00FF, 8), 0xFF00_0000);
    assert_eq!(rotate_right(0x1234_5678, 32), 0x1234_5678);
    // LSL #0 keeps the carry; LSR #0 means LSR #32; RRX
    assert_eq!(apply_immediate_shift(0x8000_0001, ShiftType::Left, 0, true), (0x8000_0001, true));
    assert_eq!(apply_immediate_shift(0x8000_0001, ShiftType::LogicalRight, 0, false), (0, true));
    assert_eq!(apply_immediate_shift(0x8000_0001, ShiftType::ArithmeticRight, 0, false), (0xFFFF_FFFF, true));
    assert_eq!(apply_immediate_shift(0x0000_0003, ShiftType::RotateRight, 0, true), (0x8000_0001, true));
    assert_eq!(apply_immediate_shift(0x8000_0000, ShiftType::ArithmeticRight, 4, false), (0xF800_0000, false));
    // Register shifts by 32 and more
    assert_eq!(apply_register_shift(0x8000_0001, ShiftType::Left, 32, false), (0, true));
    assert_eq!(apply_register_shift(0x8000_0001, ShiftType::Left, 33, true), (0, false));
    assert_eq!(apply_register_shift(0x8000_0001, ShiftType::LogicalRight, 32, false), (0, true));
    assert_eq!(apply_register_shift(0x1234_5678, ShiftType::RotateRight, 40, false), (0x7812_3456, false));
    assert_eq!(apply_register_shift(0x8234_5678, ShiftType::RotateRight, 64, false), (0x8234_5678, true));
    assert_eq!(apply_register_shift(5, ShiftType::Left, 0, true), (5, true));
}

#[test]
fn decode_tables() {
    assert_eq!(arm_decode(0x121), ArmOp::Bx);
    assert_eq!(arm_decode(0x009), ArmOp::Multiply);
    assert_eq!(arm_decode(0x3A0), ArmOp::Alu { immediate: true });
    assert_eq!(arm_decode(0xB00), ArmOp::Branch { link: true });
    assert_eq!(arm_decode(0x611), ArmOp::LoadWord { load: true, register_offset: true });
    assert_eq!(arm_decode(0xC00), ArmOp::Undefined);
    assert_eq!(arm_decode(0x19B), ArmOp::LoadHalfword { load: true, immediate_offset: false });
    let table = ArmOpTable::new();
    assert_eq!(table.0.len(), 4096);
    assert_eq!(table.get(0xF00), ArmOp::SoftwareInterrupt);
    assert_eq!(thumb_decode(0x1C), ThumbOp::AddSub);
    assert_eq!(thumb_decode(0xDF), ThumbOp::SoftwareInterrupt);
    assert_eq!(thumb_decode(0xDE), ThumbOp::ConditionalBranch);
    assert_eq!(thumb_decode(0xB2), ThumbOp::Undefined);
    let thumb_table = ThumbOpTable::new();
    assert_eq!(thumb_table.get(0xF8), ThumbOp::LongBranch);
}

#[test]
fn conditions_and_small_helpers() {
    let mut sr = StatusRegister::from(0u32);
    sr.zero = true;
    assert!(Condition::Equal.check(sr));
    assert!(!Condition::Higher.check(sr));
    assert!(!Condition::Reserved.check(sr));
    assert_eq!(Condition::from_bits(0xB), Condition::Less);
    assert_eq!(Condition::LessOrEqual.suffix(), "LE");
    assert_eq!(register_count(0xAAAA), 8);
    assert_eq!(OpSize::display(OpSize::HALFWORD), "Halfword");
    assert_eq!(Exception::Irq.vector_address(), 0x18);
    assert_eq!(Exception::SoftwareInterrupt.return_address(CpuState::Thumb, 0x100), 0xFE);
}
