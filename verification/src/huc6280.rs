//! HuC6280 CPU (PC Engine / TurboGrafx-16): a 65C02 derivative with memory mapping registers,
//! block transfer instructions and the T flag.
pub mod bus;
pub mod conformance;
pub mod instructions;

use crate::huc6280::bus::{BusAccess, BusInterface, InterruptLines};
use crate::huc6280::instructions::{
    block_transfer_progressed, fetched, instruction_post, interrupt_serviced, interrupt_taken,
};
use vstd::prelude::*;

verus! {

/// Processor status flags.
#[derive(Debug, Clone, Copy, PartialEq, Eq, Structural)]
pub struct Flags {
    pub negative: bool,
    pub overflow: bool,
    /// T bit; causes AND/ORA/EOR/ADC to operate on ZeroPage[X] instead of A
    pub memory_op: bool,
    pub decimal: bool,
    pub irq_disable: bool,
    pub zero: bool,
    pub carry: bool,
}

/// Byte form of the status flags as pushed by an interrupt (bit 4 clear).
pub open spec fn flags_byte(f: Flags) -> u8 {
    (if f.negative { 0x80u8 } else { 0u8 }) | (if f.overflow { 0x40u8 } else { 0u8 }) | (if f.memory_op {
        0x20u8
    } else {
        0u8
    }) | (if f.decimal { 0x08u8 } else { 0u8 }) | (if f.irq_disable { 0x04u8 } else { 0u8 }) | (if f.zero {
        0x02u8
    } else {
        0u8
    }) | (if f.carry { 0x01u8 } else { 0u8 })
}

/// Flags decoded from a status byte; bit 4 (B) is not stored.
pub open spec fn flags_from_byte(value: u8) -> Flags {
    Flags {
        negative: value & 0x80 != 0,
        overflow: value & 0x40 != 0,
        memory_op: value & 0x20 != 0,
        decimal: value & 0x08 != 0,
        irq_disable: value & 0x04 != 0,
        zero: value & 0x02 != 0,
        carry: value & 0x01 != 0,
    }
}

impl Flags {
    /// Status byte as pushed when handling a hardware interrupt (B flag clear).
    pub fn to_u8_interrupt(self) -> (r: u8)
        ensures
            r == flags_byte(self),
    {
        (if self.negative { 0x80u8 } else { 0u8 }) | (if self.overflow { 0x40u8 } else { 0u8 }) | (
        if self.memory_op {
            0x20u8
        } else {
            0u8
        }) | (if self.decimal { 0x08u8 } else { 0u8 }) | (if self.irq_disable { 0x04u8 } else { 0u8 })
            | (if self.zero { 0x02u8 } else { 0u8 }) | (if self.carry { 0x01u8 } else { 0u8 })
    }

    /// Status byte as pushed by BRK and PHP (B flag set).
    pub fn to_u8_brk(self) -> (r: u8)
        ensures
            r == flags_byte(self) | 0x10,
    {
        self.to_u8_interrupt() | 0x10
    }

    /// Decode a status byte (as pulled by PLP and RTI).
    pub fn from_byte(value: u8) -> (r: Self)
        ensures
            r == flags_from_byte(value),
    {
        Flags {
            negative: value & 0x80 != 0,
            overflow: value & 0x40 != 0,
            memory_op: value & 0x20 != 0,
            decimal: value & 0x08 != 0,
            irq_disable: value & 0x04 != 0,
            zero: value & 0x02 != 0,
            carry: value & 0x01 != 0,
        }
    }

    /// Power-on flags: only the I flag is set.
    pub fn default_flags() -> (r: Self)
        ensures
            r == (Flags {
                negative: false,
                overflow: false,
                memory_op: false,
                decimal: false,
                irq_disable: true,
                zero: false,
                carry: false,
            }),
    {
        Flags {
            negative: false,
            overflow: false,
            memory_op: false,
            decimal: false,
            irq_disable: true,
            zero: false,
            carry: false,
        }
    }
}

impl From<u8> for Flags {
    fn from(value: u8) -> (r: Self) {
        Self::from_byte(value)
    }
}

impl vstd::std_specs::convert::FromSpecImpl<u8> for Flags {
    open spec fn obeys_from_spec() -> bool {
        true
    }

    open spec fn from_spec(v: u8) -> Flags {
        flags_from_byte(v)
    }
}

impl Default for Flags {
    fn default() -> (r: Self)
        ensures
            r == (Flags {
                negative: false,
                overflow: false,
                memory_op: false,
                decimal: false,
                irq_disable: true,
                zero: false,
                carry: false,
            }),
    {
        Self::default_flags()
    }
}

/// Decoding the byte that encodes a set of flags gives the flags back, whichever byte form was
/// pushed (interrupt or BRK/PHP).
pub proof fn lemma_flags_byte_roundtrip(f: Flags)
    ensures
        flags_from_byte(flags_byte(f)) == f,
        flags_from_byte(flags_byte(f) | 0x10) == f,
{
    let n = f.negative;
    let v = f.overflow;
    let t = f.memory_op;
    let d = f.decimal;
    let i = f.irq_disable;
    let z = f.zero;
    let c = f.carry;
    let b: u8 = flags_byte(f);
    assert(b == (if n { 0x80u8 } else { 0u8 }) | (if v { 0x40u8 } else { 0u8 }) | (if t { 0x20u8 } else {
        0u8
    }) | (if d { 0x08u8 } else { 0u8 }) | (if i { 0x04u8 } else { 0u8 }) | (if z { 0x02u8 } else { 0u8 })
        | (if c { 0x01u8 } else { 0u8 }));
    assert({
        &&& (b & 0x80 != 0) == n
        &&& (b & 0x40 != 0) == v
        &&& (b & 0x20 != 0) == t
        &&& (b & 0x08 != 0) == d
        &&& (b & 0x04 != 0) == i
        &&& (b & 0x02 != 0) == z
        &&& (b & 0x01 != 0) == c
        &&& ((b | 0x10) & 0x80 != 0) == n
        &&& ((b | 0x10) & 0x40 != 0) == v
        &&& ((b | 0x10) & 0x20 != 0) == t
        &&& ((b | 0x10) & 0x08 != 0) == d
        &&& ((b | 0x10) & 0x04 != 0) == i
        &&& ((b | 0x10) & 0x02 != 0) == z
        &&& ((b | 0x10) & 0x01 != 0) == c
    }) by (bit_vector)
        requires
            b == (if n { 0x80u8 } else { 0u8 }) | (if v { 0x40u8 } else { 0u8 }) | (if t { 0x20u8 } else {
                0u8
            }) | (if d { 0x08u8 } else { 0u8 }) | (if i { 0x04u8 } else { 0u8 }) | (if z { 0x02u8 } else {
                0u8
            }) | (if c { 0x01u8 } else { 0u8 }),
    ;
}

/// CPU registers, including the eight memory mapping registers (MPR0-7).
#[derive(Debug, Clone)]
pub struct Registers {
    pub a: u8,
    pub x: u8,
    pub y: u8,
    pub pc: u16,
    pub s: u8,
    pub p: Flags,
    pub mpr: [u8; 8],
}

/// Physical 21-bit address of a logical 16-bit address: the top 3 bits select an MPR, whose
/// value becomes the top 8 bits of the physical address.
pub open spec fn map_address_spec(mpr: Seq<u8>, logical_addr: u16) -> u32 {
    ((mpr[(logical_addr / 0x2000) as int] as u32) * 0x2000 + (logical_addr % 0x2000) as u32) as u32
}

impl Registers {
    fn new() -> (r: Self)
        ensures
            r.a == 0xFF && r.x == 0xFF && r.y == 0xFF && r.pc == 0xFFFF && r.s == 0xFF,
            r.p == Flags::default_spec(),
            forall|i: int| 0 <= i < 8 ==> r.mpr[i] == 0xFF,
    {
        Self { a: 0xFF, x: 0xFF, y: 0xFF, pc: 0xFFFF, s: 0xFF, p: Flags::default_flags(), mpr: [0xFF; 8] }
    }

    pub(crate) fn map_address(&self, logical_addr: u16) -> (r: u32)
        ensures
            r == map_address_spec(self.mpr@, logical_addr),
            r < 0x20_0000,
    {
        let bank = self.mpr[(logical_addr / 0x2000) as usize];
        (bank as u32) * 0x2000 + (logical_addr % 0x2000) as u32
    }
}

impl Flags {
    pub open spec fn default_spec() -> Flags {
        Flags {
            negative: false,
            overflow: false,
            memory_op: false,
            decimal: false,
            irq_disable: true,
            zero: false,
            carry: false,
        }
    }
}

/// How a block transfer address moves after each byte.
#[derive(Debug, Clone, Copy, PartialEq, Eq, Structural)]
pub enum BlockTransferStep {
    Increment,
    Decrement,
    Alternate,
    /// The address does not move
    Stay,
}

pub open spec fn step_spec(step: BlockTransferStep, address: u16, count: u8) -> u16 {
    match step {
        BlockTransferStep::Increment => address.wrapping_add(1),
        BlockTransferStep::Decrement => address.wrapping_sub(1),
        BlockTransferStep::Alternate => if count % 2 == 0 {
            address.wrapping_add(1)
        } else {
            address.wrapping_sub(1)
        },
        BlockTransferStep::Stay => address,
    }
}

impl BlockTransferStep {
    pub fn apply(self, address: u16, count: u8) -> (r: u16)
        ensures
            r == step_spec(self, address, count),
    {
        match self {
            Self::Increment => address.wrapping_add(1),
            Self::Decrement => address.wrapping_sub(1),
            Self::Alternate => {
                if count % 2 == 0 {
                    address.wrapping_add(1)
                } else {
                    address.wrapping_sub(1)
                }
            },
            Self::Stay => address,
        }
    }
}

/// An alternating step undoes itself over two consecutive bytes: after an even and the following
/// odd byte count, the address is back where it started.
pub proof fn lemma_alternate_step_returns(address: u16, count: u8)
    requires
        count % 2 == 0,
        count < 255,
    ensures
        step_spec(
            BlockTransferStep::Alternate,
            step_spec(BlockTransferStep::Alternate, address, count),
            (count + 1) as u8,
        ) == address,
{
}

/// In-progress block transfer (TAI/TDD/TIA/TII/TIN).
#[derive(Debug, Clone, Copy, PartialEq, Eq, Structural)]
pub struct BlockTransferState {
    pub source: u16,
    pub destination: u16,
    pub length: u16,
    pub source_step: BlockTransferStep,
    pub destination_step: BlockTransferStep,
    pub count: u8,
}

#[derive(Debug, Clone)]
pub struct State {
    /// T bit at the most recent opcode fetch (before it gets cleared)
    pub memory_op_at_fetch: bool,
    /// Last MPR read or write in a TAM/TMA instruction
    pub mpr_buffer: u8,
    pub pending_interrupt: bool,
    pub latched_interrupt_lines: InterruptLines,
    pub block_transfer: Option<BlockTransferState>,
}

impl State {
    /// The state at power-on and after reset: no latched T flag, empty MPR buffer, no pending
    /// or latched interrupt, no block transfer.
    pub open spec fn new_spec() -> State {
        State {
            memory_op_at_fetch: false,
            mpr_buffer: 0,
            pending_interrupt: false,
            latched_interrupt_lines: InterruptLines { irq1: false, irq2: false, tiq: false },
            block_transfer: None,
        }
    }

    fn new() -> (r: Self)
        ensures
            r == State::new_spec(),
    {
        State {
            memory_op_at_fetch: false,
            mpr_buffer: 0,
            pending_interrupt: false,
            latched_interrupt_lines: InterruptLines { irq1: false, irq2: false, tiq: false },
            block_transfer: None,
        }
    }
}

/// The HuC6280 CPU. Alongside its state it keeps a ghost record of the bus cycles it has
/// performed, in order, with the bytes the bus returned.
#[derive(Clone)]
pub struct Huc6280 {
    pub(crate) registers: Registers,
    pub(crate) state: State,
    pub(crate) log: Ghost<Seq<BusAccess>>,
}

impl Huc6280 {
    /// Registers of the CPU.
    pub closed spec fn regs(&self) -> Registers {
        self.registers
    }

    /// State other than the registers (pending interrupts, block transfer progress).
    pub closed spec fn internal_state(&self) -> State {
        self.state
    }

    /// The bus cycles performed so far.
    pub closed spec fn bus_log(&self) -> Seq<BusAccess> {
        self.log@
    }

    /// Whether a block transfer is in progress.
    pub closed spec fn in_block_transfer(&self) -> bool {
        self.state.block_transfer is Some
    }

    /// Power-on state: A/X/Y/S/PC and all MPRs are $FF, only the I flag is set.
    pub fn new() -> (r: Self)
        ensures
            r.regs().a == 0xFF && r.regs().x == 0xFF && r.regs().y == 0xFF,
            r.regs().pc == 0xFFFF && r.regs().s == 0xFF,
            r.regs().p == Flags::default_spec(),
            forall|i: int| 0 <= i < 8 ==> r.regs().mpr[i] == 0xFF,
            !r.in_block_transfer(),
    {
        Self { registers: Registers::new(), state: State::new(), log: Ghost(Seq::empty()) }
    }

    /// The CPU's registers.
    pub fn registers(&self) -> (r: &Registers)
        ensures
            *r == self.regs(),
    {
        &self.registers
    }

    /// Replaces the CPU's registers; nothing else changes.
    pub fn set_registers(&mut self, registers: Registers)
        ensures
            final(self).regs() == registers,
            final(self).internal_state() == old(self).internal_state(),
    {
        self.registers = registers;
    }

    /// Whether a block transfer instruction is in progress.
    pub fn is_mid_block_transfer(&self) -> (r: bool)
        ensures
            r == self.in_block_transfer(),
    {
        self.state.block_transfer.is_some()
    }

    /// Reset: MPR7 is cleared, T and D are cleared, I is set, and PC is loaded from the RESET
    /// vector at physical $001FFE (little-endian); any block transfer is abandoned.
    pub fn reset<B: BusInterface>(&mut self, bus: &mut B)
        ensures
            final(self).regs().mpr[7] == 0,
            forall|i: int| 0 <= i < 7 ==> final(self).regs().mpr[i] == old(self).regs().mpr[i],
            final(self).regs().p == (Flags {
                memory_op: false,
                decimal: false,
                irq_disable: true,
                ..old(self).regs().p
            }),
            final(self).regs().a == old(self).regs().a,
            final(self).regs().x == old(self).regs().x,
            final(self).regs().y == old(self).regs().y,
            final(self).regs().s == old(self).regs().s,
            !final(self).in_block_transfer(),
            final(self).internal_state() == State::new_spec(),
            exists|lsb: u8, msb: u8|
                final(self).bus_log() == old(self).bus_log() + seq![
                    BusAccess::Read { address: 0x001FFE, value: lsb },
                    BusAccess::Read { address: 0x001FFF, value: msb },
                ] && final(self).regs().pc == msb * 0x100 + lsb,
    {
        self.registers.mpr[7] = 0x00;

        self.registers.p.memory_op = false;
        self.registers.p.decimal = false;
        self.registers.p.irq_disable = true;

        let pc_lsb = bus.read(0x001FFE);
        self.log = Ghost(self.log@.push(BusAccess::Read { address: 0x001FFE, value: pc_lsb }));
        let pc_msb = bus.read(0x001FFF);
        self.log = Ghost(self.log@.push(BusAccess::Read { address: 0x001FFF, value: pc_msb }));
        self.registers.pc = (pc_msb as u16) * 0x100 + pc_lsb as u16;

        self.state = State::new();
        assert(self.log@ =~= old(self).bus_log() + seq![
            BusAccess::Read { address: 0x001FFE, value: pc_lsb },
            BusAccess::Read { address: 0x001FFF, value: pc_msb },
        ]);
    }

    /// Execute a single instruction. Each CPU cycle makes exactly one call to `bus.read()`,
    /// `bus.write()`, or `bus.idle()`.
    ///
    /// When executing a block transfer instruction (TAI/TDD/TIA/TII/TIN), each call to this method
    /// progresses the transfer by one byte (`block_transfer_progressed`, bus cycles included).
    ///
    /// Outside a block transfer, either an interrupt is serviced (when one is pending and a line
    /// is latched; `interrupt_serviced` gives its vector, pushes and bus cycles) or one opcode is
    /// fetched and executed as `instruction_post` says.
    pub fn execute_instruction<B: BusInterface>(&mut self, bus: &mut B)
        ensures
            old(self).in_block_transfer() ==> block_transfer_progressed(
                *final(self),
                *old(self),
                final(self).bus_log(),
                old(self).bus_log(),
            ),
            !old(self).in_block_transfer() && interrupt_taken(*old(self)) ==> interrupt_serviced(
                *final(self),
                *old(self),
                final(self).bus_log(),
                old(self).bus_log(),
            ),
            !old(self).in_block_transfer() && !interrupt_taken(*old(self)) ==> exists|
                op: u8,
                mid: Huc6280,
            | #[trigger] instruction_post(op, *final(self), mid) && fetched(mid, *old(self), op),
    {
        self.execute_instruction_inner(bus);
    }
}

} // verus!
