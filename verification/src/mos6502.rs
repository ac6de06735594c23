//! MOS 6502 CPU (as used in the NES): status flags, registers and reset behavior.
pub mod bus;

use crate::mos6502::bus::{BusAccess, BusInterface};
use vstd::prelude::*;

verus! {

/// Why the status register is being read, which decides the B flag's value.
#[derive(Debug, Clone, Copy, PartialEq, Eq, Structural)]
pub enum StatusReadContext {
    HardwareInterruptHandler,
    Brk,
    PushStack,
}

#[derive(Debug, Clone, Copy, PartialEq, Eq, Structural)]
pub struct StatusFlags {
    pub negative: bool,
    pub overflow: bool,
    pub decimal: bool,
    pub interrupt_disable: bool,
    pub zero: bool,
    pub carry: bool,
}

pub open spec fn bit(b: bool, value: u8) -> u8 {
    if b {
        value
    } else {
        0
    }
}

/// The status byte: N V 1 B D I Z C, with bit 5 always set and B set for BRK and PHP/PHA pushes.
pub open spec fn status_byte(f: StatusFlags, ctx: StatusReadContext) -> u8 {
    bit(f.negative, 0x80) | bit(f.overflow, 0x40) | 0x20 | bit(
        ctx == StatusReadContext::Brk || ctx == StatusReadContext::PushStack,
        0x10,
    ) | bit(f.decimal, 0x08) | bit(f.interrupt_disable, 0x04) | bit(f.zero, 0x02) | bit(
        f.carry,
        0x01,
    )
}

/// Flags decoded from a status byte; bits 5 and 4 are not stored.
pub open spec fn status_from_byte(byte: u8) -> StatusFlags {
    StatusFlags {
        negative: byte & 0x80 != 0,
        overflow: byte & 0x40 != 0,
        decimal: byte & 0x08 != 0,
        interrupt_disable: byte & 0x04 != 0,
        zero: byte & 0x02 != 0,
        carry: byte & 0x01 != 0,
    }
}

impl StatusFlags {
    pub fn new() -> (r: Self)
        ensures
            r == (StatusFlags {
                negative: false,
                overflow: false,
                decimal: false,
                interrupt_disable: true,
                zero: false,
                carry: false,
            }),
    {
        // I flag defaults to 1, others default to 0
        Self {
            negative: false,
            overflow: false,
            decimal: false,
            interrupt_disable: true,
            zero: false,
            carry: false,
        }
    }

    pub fn set_negative(&mut self, negative: bool) -> (r: &mut Self)
        ensures
            *r == (StatusFlags { negative, ..*old(self) }),
            *final(self) == *final(r),
    {
        self.negative = negative;
        self
    }

    pub fn set_overflow(&mut self, overflow: bool) -> (r: &mut Self)
        ensures
            *r == (StatusFlags { overflow, ..*old(self) }),
            *final(self) == *final(r),
    {
        self.overflow = overflow;
        self
    }

    pub fn set_zero(&mut self, zero: bool) -> (r: &mut Self)
        ensures
            *r == (StatusFlags { zero, ..*old(self) }),
            *final(self) == *final(r),
    {
        self.zero = zero;
        self
    }

    pub fn set_carry(&mut self, carry: bool) -> (r: &mut Self)
        ensures
            *r == (StatusFlags { carry, ..*old(self) }),
            *final(self) == *final(r),
    {
        self.carry = carry;
        self
    }

    pub fn to_byte(self, read_ctx: StatusReadContext) -> (r: u8)
        ensures
            r == status_byte(self, read_ctx),
    {
        // B flag is set during BRK and PHA/PHP, cleared during NMI & IRQ handlers
        let b_flag: u8 = match read_ctx {
            StatusReadContext::Brk | StatusReadContext::PushStack => 0x10,
            StatusReadContext::HardwareInterruptHandler => 0x00,
        };

        // Bit 5 is unused, always reads as 1
        (if self.negative { 0x80u8 } else { 0u8 }) | (if self.overflow { 0x40u8 } else { 0u8 }) | 0x20
            | b_flag | (if self.decimal { 0x08u8 } else { 0u8 }) | (if self.interrupt_disable {
            0x04u8
        } else {
            0u8
        }) | (if self.zero { 0x02u8 } else { 0u8 }) | (if self.carry { 0x01u8 } else { 0u8 })
    }

    pub fn from_byte(byte: u8) -> (r: Self)
        ensures
            r == status_from_byte(byte),
    {
        Self {
            negative: byte & 0x80 != 0,
            overflow: byte & 0x40 != 0,
            decimal: byte & 0x08 != 0,
            interrupt_disable: byte & 0x04 != 0,
            zero: byte & 0x02 != 0,
            carry: byte & 0x01 != 0,
        }
    }
}

impl Default for StatusFlags {
    fn default() -> (r: Self)
        ensures
            r == (StatusFlags {
                negative: false,
                overflow: false,
                decimal: false,
                interrupt_disable: true,
                zero: false,
                carry: false,
            }),
    {
        Self::new()
    }
}

/// Pushing the flags and pulling them back gives the same flags, whatever the B flag was; pulling
/// a byte and pushing it back gives the byte with bit 5 set and B as the push context has it.
pub proof fn lemma_status_roundtrip(f: StatusFlags, ctx: StatusReadContext, byte: u8)
    ensures
        status_from_byte(status_byte(f, ctx)) == f,
        status_byte(status_from_byte(byte), ctx) == (byte & 0xCF) | 0x20 | bit(
            ctx == StatusReadContext::Brk || ctx == StatusReadContext::PushStack,
            0x10,
        ),
{
    let n = bit(f.negative, 0x80);
    let v = bit(f.overflow, 0x40);
    let bf = bit(ctx == StatusReadContext::Brk || ctx == StatusReadContext::PushStack, 0x10);
    let d = bit(f.decimal, 0x08);
    let i = bit(f.interrupt_disable, 0x04);
    let z = bit(f.zero, 0x02);
    let c = bit(f.carry, 0x01);
    let n2 = bit(byte & 0x80 != 0, 0x80);
    let v2 = bit(byte & 0x40 != 0, 0x40);
    let d2 = bit(byte & 0x08 != 0, 0x08);
    let i2 = bit(byte & 0x04 != 0, 0x04);
    let z2 = bit(byte & 0x02 != 0, 0x02);
    let c2 = bit(byte & 0x01 != 0, 0x01);
    assert({
        let s = n | v | 0x20 | bf | d | i | z | c;
        &&& (s & 0x80 != 0) == (n == 0x80)
        &&& (s & 0x40 != 0) == (v == 0x40)
        &&& (s & 0x08 != 0) == (d == 0x08)
        &&& (s & 0x04 != 0) == (i == 0x04)
        &&& (s & 0x02 != 0) == (z == 0x02)
        &&& (s & 0x01 != 0) == (c == 0x01)
        &&& n2 | v2 | 0x20 | bf | d2 | i2 | z2 | c2 == (byte & 0xCF) | 0x20 | bf
    }) by (bit_vector)
        requires
            n == 0 || n == 0x80,
            v == 0 || v == 0x40,
            bf == 0 || bf == 0x10,
            d == 0 || d == 0x08,
            i == 0 || i == 0x04,
            z == 0 || z == 0x02,
            c == 0 || c == 0x01,
            n2 == (if byte & 0x80 != 0 { 0x80u8 } else { 0u8 }),
            v2 == (if byte & 0x40 != 0 { 0x40u8 } else { 0u8 }),
            d2 == (if byte & 0x08 != 0 { 0x08u8 } else { 0u8 }),
            i2 == (if byte & 0x04 != 0 { 0x04u8 } else { 0u8 }),
            z2 == (if byte & 0x02 != 0 { 0x02u8 } else { 0u8 }),
            c2 == (if byte & 0x01 != 0 { 0x01u8 } else { 0u8 }),
    ;
}

#[derive(Debug, Clone, Copy, PartialEq, Eq, Structural)]
pub struct CpuRegisters {
    pub accumulator: u8,
    pub x: u8,
    pub y: u8,
    pub status: StatusFlags,
    pub pc: u16,
    pub sp: u8,
}

impl CpuRegisters {
    pub fn new(reset_vector: u16) -> (r: Self)
        ensures
            r == (CpuRegisters {
                accumulator: 0,
                x: 0,
                y: 0,
                status: StatusFlags {
                    negative: false,
                    overflow: false,
                    decimal: false,
                    interrupt_disable: true,
                    zero: false,
                    carry: false,
                },
                pc: reset_vector,
                sp: 0xFD,
            }),
    {
        Self { accumulator: 0, x: 0, y: 0, status: StatusFlags::new(), pc: reset_vector, sp: 0xFD }
    }
}

/// Progress of the instruction being executed, cycle by cycle.
#[derive(Debug, Clone, Copy, PartialEq, Eq, Structural)]
pub struct InstructionState {
    pub opcode: u8,
    pub cycle: u8,
    pub instruction_complete: bool,
    pub pending_interrupt: bool,
    pub executing_interrupt: bool,
}

impl InstructionState {
    /// No instruction in progress: the next tick fetches an opcode.
    pub fn new() -> (r: Self)
        ensures
            r == (InstructionState {
                opcode: 0,
                cycle: 0,
                instruction_complete: true,
                pending_interrupt: false,
                executing_interrupt: false,
            }),
    {
        InstructionState {
            opcode: 0,
            cycle: 0,
            instruction_complete: true,
            pending_interrupt: false,
            executing_interrupt: false,
        }
    }
}

/// The 6502 CPU. Alongside its state it keeps a ghost record of the bus accesses it has
/// performed, in order, with the bytes the bus returned.
#[derive(Clone)]
pub struct Mos6502 {
    pub registers: CpuRegisters,
    pub state: InstructionState,
    pub frozen: bool,
    pub log: Ghost<Seq<BusAccess>>,
}

pub const NMI_VECTOR: u16 = 0xFFFA;

pub const RESET_VECTOR: u16 = 0xFFFC;

pub const IRQ_VECTOR: u16 = 0xFFFE;

/// A little-endian 16-bit value from its two bytes.
pub open spec fn le_word(lsb: u8, msb: u8) -> u16 {
    (msb as u16 * 256 + lsb as u16) as u16
}

/// The two reads of the RESET vector, low byte first.
pub open spec fn reset_vector_reads(lsb: u8, msb: u8) -> Seq<BusAccess> {
    seq![
        BusAccess::Read { address: RESET_VECTOR, value: lsb },
        BusAccess::Read { address: (RESET_VECTOR + 1) as u16, value: msb },
    ]
}

impl Mos6502 {
    /// The bus accesses performed so far.
    pub open spec fn bus_log(&self) -> Seq<BusAccess> {
        self.log@
    }

    /// Create a new 6502 with the PC pointing to the RESET vector, read from $FFFC.
    pub fn new<B: BusInterface>(bus: &mut B) -> (r: Self)
        ensures
            exists|lsb: u8, msb: u8|
                #![trigger reset_vector_reads(lsb, msb)]
                r.bus_log() == reset_vector_reads(lsb, msb) && r.registers == CpuRegisters::spec_new(
                    le_word(lsb, msb),
                ),
            r.state == InstructionState::spec_new(),
            !r.frozen,
    {
        let reset_vector_lsb = bus.read(RESET_VECTOR);
        let reset_vector_msb = bus.read(RESET_VECTOR + 1);
        let reset_vector = (reset_vector_msb as u16) * 256 + reset_vector_lsb as u16;
        assert(reset_vector == le_word(reset_vector_lsb, reset_vector_msb));
        let log = Ghost(reset_vector_reads(reset_vector_lsb, reset_vector_msb));

        Self {
            registers: CpuRegisters::new(reset_vector),
            state: InstructionState::new(),
            frozen: false,
            log,
        }
    }

    /// Reset the 6502, which does the following:
    /// * Immediately update PC to point to the RESET vector, abandoning any in-progress instruction
    /// * Subtract 3 from the stack pointer
    /// * Disable IRQs
    /// * If the CPU was frozen by an illegal KIL opcode, unfreeze it
    pub fn reset<B: BusInterface>(&mut self, bus: &mut B)
        ensures
            exists|lsb: u8, msb: u8|
                #![trigger reset_vector_reads(lsb, msb)]
                final(self).bus_log() == old(self).bus_log() + reset_vector_reads(lsb, msb)
                    && final(self).registers.pc == le_word(lsb, msb),
            final(self).registers.sp == old(self).registers.sp.wrapping_sub(3),
            final(self).registers.status == (StatusFlags {
                interrupt_disable: true,
                ..old(self).registers.status
            }),
            final(self).registers.accumulator == old(self).registers.accumulator,
            final(self).registers.x == old(self).registers.x,
            final(self).registers.y == old(self).registers.y,
            final(self).state == InstructionState::spec_new(),
            !final(self).frozen,
    {
        let reset_vector_lsb = bus.read(RESET_VECTOR);
        let reset_vector_msb = bus.read(RESET_VECTOR + 1);
        self.registers.pc = (reset_vector_msb as u16) * 256 + reset_vector_lsb as u16;
        assert(self.registers.pc == le_word(reset_vector_lsb, reset_vector_msb));
        self.log = Ghost(self.log@ + reset_vector_reads(reset_vector_lsb, reset_vector_msb));
        self.state = InstructionState::new();

        self.registers.sp = self.registers.sp.wrapping_sub(3);

        self.registers.status.interrupt_disable = true;

        self.frozen = false;
    }

    pub fn pc(&self) -> (r: u16)
        ensures
            r == self.registers.pc,
    {
        self.registers.pc
    }

    pub fn is_mid_instruction(&self) -> (r: bool)
        ensures
            r == !self.state.instruction_complete,
    {
        !self.state.instruction_complete
    }

    pub fn registers(&self) -> (r: &CpuRegisters)
        ensures
            *r == self.registers,
    {
        &self.registers
    }

    pub fn set_registers(&mut self, registers: CpuRegisters)
        ensures
            final(self).registers == registers,
            final(self).state == old(self).state,
            final(self).frozen == old(self).frozen,
    {
        self.registers = registers;
    }

    /// Return whether the CPU has frozen from a KIL instruction.
    pub fn frozen(&self) -> (r: bool)
        ensures
            r == self.frozen,
    {
        self.frozen
    }
}

impl CpuRegisters {
    pub open spec fn spec_new(reset_vector: u16) -> CpuRegisters {
        CpuRegisters {
            accumulator: 0,
            x: 0,
            y: 0,
            status: StatusFlags {
                negative: false,
                overflow: false,
                decimal: false,
                interrupt_disable: true,
                zero: false,
                carry: false,
            },
            pc: reset_vector,
            sp: 0xFD,
        }
    }
}

impl InstructionState {
    pub open spec fn spec_new() -> InstructionState {
        InstructionState {
            opcode: 0,
            cycle: 0,
            instruction_complete: true,
            pending_interrupt: false,
            executing_interrupt: false,
        }
    }
}

} // verus!
