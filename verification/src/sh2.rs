//! Hitachi SH-2 (SH7604) CPU as used in the Sega 32X: registers, on-chip peripherals (cache,
//! DMA controller, division unit, timers, serial interface) and the instruction set.
pub mod bus;
pub mod cache;
pub mod disassemble;
pub mod divu;
pub mod dma;
pub mod frt;
pub mod instructions;
pub mod memory;
pub mod registers;
pub mod sci;
pub mod wdt;

use crate::sh2::bus::{AccessContext, BusInterface};
use crate::sh2::cache::{be16, entry_index, hit_way, ram_addr_spec, CpuCache};
use crate::sh2::memory::{internal_word_spec, region};
use crate::sh2::divu::DivisionUnit;
use crate::sh2::dma::{
    channel_active, channel_steals, DmaAddressMode, DmaChannel, DmaController, DmaTransferUnit,
};
use crate::sh2::frt::FreeRunTimer;
use crate::sh2::registers::{
    sr_to_u32, InternalInterrupt, Sh2Registers, Sh7604Registers, StatusRegister,
};
use crate::sh2::sci::SerialInterface;
use crate::sh2::wdt::{WatchdogTickEffect, WatchdogTimer};
use vstd::prelude::*;

verus! {

pub const RESET_PC_VECTOR: u32 = 0x00000000;

pub const RESET_SP_VECTOR: u32 = 0x00000004;

pub const RESET_VBR: u32 = 0x00000000;

pub const BASE_IRL_VECTOR_NUMBER: u32 = 64;

// R15 is the hardware stack pointer
pub const SP: usize = 15;

/// Addresses on the external bus are the low 29 bits; the top 3 bits select the access type.
pub const EXTERNAL_ADDRESS_MASK: u32 = 0x1FFFFFFF;

#[derive(Clone)]
pub struct Sh2 {
    pub registers: Sh2Registers,
    pub cache: CpuCache,
    pub sh7604: Sh7604Registers,
    pub dmac: DmaController,
    pub free_run_timer: FreeRunTimer,
    pub watchdog_timer: WatchdogTimer,
    pub divu: DivisionUnit,
    pub serial: SerialInterface,
    pub reset_pending: bool,
    /// Context passed to the bus for data accesses of the instruction being executed
    pub data_ctx: AccessContext,
    pub name: String,
    /// Ghost record of the bus signals sampled and the reset vectors read, in order.
    pub signal_log: Ghost<Seq<Signal>>,
    /// Ghost record of the reads and writes handed to the bus, in order (cache line fills are
    /// recorded by the cache).
    pub bus_accesses: Ghost<Seq<ExternalAccess>>,
}

/// One access on the external bus: the address the bus receives, the size in bytes, whether it
/// writes, and the value written or returned (widened to 32 bits).
#[derive(Debug, Clone, Copy, PartialEq, Eq, Structural)]
pub struct ExternalAccess {
    pub address: u32,
    pub size: u8,
    pub write: bool,
    pub value: u32,
}

/// The access the bus sees for a CPU access at `address`: the low 29 bits of the address.
pub open spec fn external_access(address: u32, size: u8, write: bool, value: u32) -> ExternalAccess {
    ExternalAccess { address: address & EXTERNAL_ADDRESS_MASK, size, write, value }
}

/// A sample the CPU took of the bus: the RESET line, the external interrupt level, or the PC
/// and SP read from the reset vectors.
#[derive(Debug, Clone, Copy, PartialEq, Eq, Structural)]
pub enum Signal {
    ResetLine(bool),
    InterruptLevel(u8),
    ResetVectors { pc: u32, sp: u32 },
}

/// Everything but the CPU registers is unchanged.
pub open spec fn same_peripherals(a: Sh2, b: Sh2) -> bool {
    &&& a.cache == b.cache
    &&& a.sh7604 == b.sh7604
    &&& a.dmac == b.dmac
    &&& a.free_run_timer == b.free_run_timer
    &&& a.watchdog_timer == b.watchdog_timer
    &&& a.divu == b.divu
    &&& a.serial == b.serial
    &&& a.reset_pending == b.reset_pending
    &&& a.data_ctx == b.data_ctx
    &&& a.name == b.name
    &&& a.bus_accesses == b.bus_accesses
}

/// Every address the CPU has handed to the bus, for a read, a write or a cache line fill, lies in
/// the 29-bit external address space.
pub open spec fn bus_addresses_in_range(cpu: Sh2) -> bool {
    &&& forall|i: int|
        0 <= i < cpu.bus_accesses@.len() ==> (#[trigger] cpu.bus_accesses@[i]).address <= EXTERNAL_ADDRESS_MASK
    &&& forall|i: int|
        0 <= i < cpu.cache.line_reads@.len() ==> (#[trigger] cpu.cache.line_reads@[i]).address
            <= EXTERNAL_ADDRESS_MASK
}

/// A memory access leaves the CPU registers, the pending reset, the access context and the name
/// unchanged (it may change the cache and on-chip peripherals), and hands the bus only addresses
/// of the external address space.
pub open spec fn access_frame(a: Sh2, b: Sh2) -> bool {
    &&& a.registers == b.registers
    &&& a.reset_pending == b.reset_pending
    &&& a.data_ctx == b.data_ctx
    &&& a.name == b.name
    &&& bus_addresses_in_range(b) ==> bus_addresses_in_range(a)
}

/// The interrupt the CPU takes, as (level, vector number), given the external interrupt level,
/// the highest pending internal interrupt and the SR interrupt mask. External interrupts win ties
/// with internal ones; an interrupt is taken only when its level exceeds the mask.
pub open spec fn interrupt_to_take_spec(external_level: u8, internal: InternalInterrupt, mask: u8) -> Option<
    (u8, u32),
> {
    if external_level >= internal.priority && external_level > mask {
        Some((external_level, (BASE_IRL_VECTOR_NUMBER + external_level / 2) as u32))
    } else if internal.priority > mask {
        Some((internal.priority, internal.vector_number as u32))
    } else {
        None
    }
}

/// What a tick does after sampling the RESET line.
#[derive(Debug, Clone, Copy, PartialEq, Eq, Structural)]
pub enum ResetStep {
    /// The bus holds reset: note a pending reset and do nothing else.
    Hold,
    /// Reset was just released: load PC and SP from the reset vectors.
    LoadVectors,
    /// No reset: run DMA, interrupts and instructions.
    Run,
}

/// Decides what a tick does from the sampled RESET line and whether a reset is pending.
pub fn reset_step(held: bool, reset_pending: bool) -> (r: ResetStep)
    ensures
        r == (if held {
            ResetStep::Hold
        } else if reset_pending {
            ResetStep::LoadVectors
        } else {
            ResetStep::Run
        }),
{
    if held {
        ResetStep::Hold
    } else if reset_pending {
        ResetStep::LoadVectors
    } else {
        ResetStep::Run
    }
}

/// Decides which interrupt, if any, the CPU takes before its next instruction.
pub fn interrupt_to_take(external_level: u8, internal: InternalInterrupt, mask: u8) -> (r: Option<
    (u8, u32),
>)
    ensures
        r == interrupt_to_take_spec(external_level, internal, mask),
{
    if external_level >= internal.priority && external_level > mask {
        Some((external_level, BASE_IRL_VECTOR_NUMBER + (external_level / 2) as u32))
    } else if internal.priority > mask {
        Some((internal.priority, internal.vector_number as u32))
    } else {
        None
    }
}

/// The state after the first tick once reset is released: PC loaded from the reset vector with
/// the next PC after it and no delay slot, SP loaded, the interrupt mask at its reset level, VBR
/// cleared, the cache purged, the reset no longer pending; nothing else changed.
pub open spec fn reset_loaded(after: Sh2, before: Sh2) -> bool {
    &&& !after.reset_pending
    &&& after.registers.next_pc == after.registers.pc.wrapping_add(2)
    &&& !after.registers.next_op_in_delay_slot
    &&& after.registers.gpr@ == before.registers.gpr@.update(SP as int, after.registers.gpr[SP as int])
    &&& after.registers.sr == (StatusRegister {
        interrupt_mask: registers::RESET_INTERRUPT_MASK,
        ..before.registers.sr
    })
    &&& after.registers.vbr == RESET_VBR
    &&& after.registers.gbr == before.registers.gbr
    &&& after.registers.pr == before.registers.pr
    &&& after.registers.mach == before.registers.mach
    &&& after.registers.macl == before.registers.macl
    &&& after.cache.purged(before.cache)
    &&& after.cache.control == before.cache.control
    &&& after.name == before.name
}

/// One call of the DMA step: `r` tells whether a channel ran.
pub open spec fn dma_post(after: Sh2, before: Sh2, r: bool) -> bool {
    &&& after.registers == before.registers
    &&& bus_addresses_in_range(before) ==> bus_addresses_in_range(after)
    &&& after.name == before.name
    &&& !before.dmac.operation.dma_master_enabled || before.dmac.operation.address_error
                ==> !r && after == before
    &&& !r ==> after == (Sh2 { dmac: after.dmac, ..before })
                && after.dmac.operation == before.dmac.operation && (before.dmac.operation.dma_master_enabled && !before.dmac.operation.address_error
                ==> forall|i: int|
                0 <= i < 2 && channel_active(before.dmac.channels[i]) && !channel_steals(
                    before.dmac.channels[i],
                ) ==> !(#[trigger] before.dmac.channels[i]).control.auto_request)
    &&& r ==> before.dmac.operation.dma_master_enabled && !before.dmac.operation.address_error
                && after.data_ctx == before.data_ctx && exists|i: int|
                0 <= i < 2 && channel_active(#[trigger] before.dmac.channels[i])
                    && !channel_steals(before.dmac.channels[i])
                    && after.dmac.channels[i].control.dma_complete == (after.dmac.channels[i].transfer_count == 0)
}

/// The opcode fetched at `before`'s PC, wherever the CPU itself holds the word: a cache hit
/// (cached region with the cache enabled), the cache data array, or an on-chip register. Elsewhere
/// the word comes from the bus.
pub open spec fn opcode_fetch(before: Sh2, opcode: u16) -> bool {
    let address = before.registers.pc;
    &&& region(address) == 0 && before.cache.control.cache_enabled && hit_way(before.cache, address) is Some
        ==> opcode == be16(
        before.cache.ram@,
        ram_addr_spec(hit_way(before.cache, address)->0 as int, entry_index(address)) + (address & 0xE),
    )
    &&& region(address) == 6 ==> opcode == be16(before.cache.ram@, (address & 0xFFE) as int)
    &&& region(address) == 7 ==> opcode == internal_word_spec(before, address)
}

/// One instruction executed from `before`: the opcode at PC fetched (from the bus at the low 29
/// bits of PC in the uncached region), PC advanced (to the branch target after a delayed
/// branch), and the opcode executed as `instruction_post` says.
pub open spec fn instruction_executed(after: Sh2, before: Sh2) -> bool {
    &&& after.name == before.name
    &&& exists|opcode: u16, mid: Sh2|
                #[trigger] instructions::instruction_post(opcode, after, mid)
                    && opcode_fetch(before, opcode)
                    && (region(before.registers.pc) == 1 ==> mid.bus_accesses@
                    == before.bus_accesses@.push(external_access(before.registers.pc, 2, false, opcode as u32)))
                    && mid.registers == (Sh2Registers {
                    pc: before.registers.next_pc,
                    next_pc: before.registers.next_pc.wrapping_add(2),
                    next_op_in_delay_slot: false,
                    ..before.registers
                }) && mid.data_ctx == (AccessContext::Data { pc: before.registers.pc, opcode })
    &&& instructions::between_instructions(after)
}

/// An exception taken from `before`: SR and PC pushed, the interrupt mask raised to the level
/// of an interrupt, PC loaded from the vector table.
pub open spec fn exception_taken(after: Sh2, before: Sh2, interrupt_level: Option<u8>, vector_number: u32) -> bool {
    &&& bus_addresses_in_range(before) ==> bus_addresses_in_range(after)
    &&& after.registers.gpr@ == before.registers.gpr@.update(
                SP as int,
                before.registers.gpr[SP as int].wrapping_sub(8),
            )
    &&& after.registers.sr == (match interrupt_level {
                Some(level) => StatusRegister { interrupt_mask: level, ..before.registers.sr },
                None => before.registers.sr,
            })
    &&& after.registers.next_pc == after.registers.pc.wrapping_add(2)
    &&& !after.registers.next_op_in_delay_slot
    &&& after.registers.gbr == before.registers.gbr
    &&& after.registers.vbr == before.registers.vbr
    &&& after.registers.pr == before.registers.pr
    &&& after.registers.mach == before.registers.mach
    &&& after.registers.macl == before.registers.macl
    &&& after.name == before.name
}

/// Step `i` of a trace of DMA steps: from state `i - 1` to state `i` a channel ran.
pub open spec fn dma_link(trace: Seq<Sh2>, i: int) -> bool {
    dma_post(trace[i], trace[i - 1], true)
}

/// Step `i` of a trace of instructions: from state `i - 1` one instruction executed.
pub open spec fn instruction_link(trace: Seq<Sh2>, i: int) -> bool {
    instruction_executed(trace[i], trace[i - 1])
}

/// `n` DMA steps in a row in which a channel ran, from `before` to `after`.
pub open spec fn dma_steps(after: Sh2, before: Sh2, n: nat) -> bool {
    exists|trace: Seq<Sh2>|
        #[trigger] trace.len() == n + 1 && trace[0] == before && trace[n as int] == after && forall|
            i: int,
        |
            0 < i <= n ==> #[trigger] dma_link(trace, i)
}

/// `n` instructions executed in a row, from `before` to `after`.
pub open spec fn instruction_steps(after: Sh2, before: Sh2, n: nat) -> bool {
    exists|trace: Seq<Sh2>|
        #[trigger] trace.len() == n + 1 && trace[0] == before && trace[n as int] == after && forall|
            i: int,
        |
            0 < i <= n ==> #[trigger] instruction_link(trace, i)
}

proof fn lemma_dma_steps_extend(after: Sh2, mid: Sh2, before: Sh2, n: nat)
    requires
        dma_steps(mid, before, n),
        dma_post(after, mid, true),
    ensures
        dma_steps(after, before, n + 1),
{
    let trace = choose|trace: Seq<Sh2>|
        #[trigger] trace.len() == n + 1 && trace[0] == before && trace[n as int] == mid && forall|
            i: int,
        |
            0 < i <= n ==> #[trigger] dma_link(trace, i);
    let t2 = trace.push(after);
    assert forall|i: int| 0 < i <= n + 1 implies #[trigger] dma_link(t2, i) by {
        if i <= n {
            assert(dma_link(trace, i));
        }
    }
    assert(t2.len() == n + 2);
}

proof fn lemma_instruction_steps_extend(after: Sh2, mid: Sh2, before: Sh2, n: nat)
    requires
        instruction_steps(mid, before, n),
        instruction_executed(after, mid),
    ensures
        instruction_steps(after, before, n + 1),
{
    let trace = choose|trace: Seq<Sh2>|
        #[trigger] trace.len() == n + 1 && trace[0] == before && trace[n as int] == mid && forall|
            i: int,
        |
            0 < i <= n ==> #[trigger] instruction_link(trace, i);
    let t2 = trace.push(after);
    assert forall|i: int| 0 < i <= n + 1 implies #[trigger] instruction_link(t2, i) by {
        if i <= n {
            assert(instruction_link(trace, i));
        }
    }
    assert(t2.len() == n + 2);
}

/// No steps leave the state as it was.
proof fn lemma_no_steps(cpu: Sh2)
    ensures
        dma_steps(cpu, cpu, 0),
        instruction_steps(cpu, cpu, 0),
{
    let t = seq![cpu];
    assert(t.len() == 0 + 1);
}

/// A CPU state with a sample appended to its signal record.
pub open spec fn sampled(cpu: Sh2, signal: Signal) -> Sh2 {
    Sh2 { signal_log: Ghost(cpu.signal_log@.push(signal)), ..cpu }
}

/// A run of `ticks` cycles from `start`: DMA steps while a channel is ready (at most one per
/// cycle, the first idle step ending them), then instructions while in a delay slot; unless
/// still in a delay slot when the cycles run out, the external interrupt level is sampled and
/// either the interrupt that `interrupt_to_take_spec` picks is taken, or the remaining cycles
/// execute one instruction each.
pub open spec fn ran(after: Sh2, start: Sh2, ticks: u64) -> bool {
    exists|d: nat, t: Sh2, s1: Sh2, k: nat, s2: Sh2|
        #![trigger dma_steps(t, start, d), instruction_steps(s2, s1, k)]
        {
            &&& d <= ticks && k <= ticks
            &&& dma_steps(t, start, d)
            &&& if d < ticks {
                dma_post(s1, t, false)
            } else {
                s1 == t
            }
            &&& instruction_steps(s2, s1, k)
            &&& k < ticks ==> !s2.registers.next_op_in_delay_slot
            &&& if s2.registers.next_op_in_delay_slot {
                after == s2 && k == ticks
            } else {
                exists|level: u8|
                    #![trigger sampled(s2, Signal::InterruptLevel(level))]
                    match interrupt_to_take_spec(
                        level,
                        s2.sh7604.internal_interrupt_level,
                        s2.registers.sr.interrupt_mask,
                    ) {
                        Some((l, v)) => exception_taken(
                            after,
                            sampled(s2, Signal::InterruptLevel(level)),
                            Some(l),
                            v,
                        ),
                        None => instruction_steps(
                            after,
                            sampled(s2, Signal::InterruptLevel(level)),
                            (ticks - k) as nat,
                        ),
                    }
            }
        }
}

impl Sh2 {
    pub fn new(name: String) -> (r: Self)
        ensures
            r.name == name,
            r.registers.gpr@ == seq![0u32; 16],
            r.registers.sr == StatusRegister::spec_reset(),
            r.registers.pc == 0 && r.registers.next_pc == 0 && !r.registers.next_op_in_delay_slot,
            r.registers.gbr == 0 && r.registers.vbr == 0 && r.registers.pr == 0,
            r.registers.mach == 0 && r.registers.macl == 0,
            !r.reset_pending,
            r.serial.name == name,
            !r.cache.control.cache_enabled,
            r.bus_accesses@ == Seq::<ExternalAccess>::empty() && bus_addresses_in_range(r),
    {
        let serial_name = name.clone();
        Self {
            registers: Sh2Registers::default(),
            cache: CpuCache::new(),
            sh7604: Sh7604Registers::new(),
            dmac: DmaController::new(),
            free_run_timer: FreeRunTimer::new(),
            watchdog_timer: WatchdogTimer::new(),
            divu: DivisionUnit::new(),
            serial: SerialInterface::new(serial_name),
            reset_pending: false,
            data_ctx: AccessContext::Fetch,
            name,
            signal_log: Ghost(Seq::empty()),
            bus_accesses: Ghost(Seq::empty()),
        }
    }

    /// Runs the CPU for a number of cycles. The RESET line is sampled first (and recorded):
    /// while the bus holds reset, a pending reset is noted; on the first tick after reset is
    /// released, PC and SP are loaded from the reset vectors (recorded too); otherwise the run is
    /// as `ran` describes: DMA progress, any delay slot finished, then either the interrupt that
    /// the sampled external level and the internal interrupts call for, or one instruction per
    /// remaining cycle. Every address handed to the bus lies in the 29-bit external address space
    /// (recorded in `bus_accesses` and, for cache line fills, by the cache).
    pub fn tick<B: BusInterface>(&mut self, ticks: u64, bus: &mut B)
        ensures
            ticks == 0 ==> *final(self) == *old(self),
            bus_addresses_in_range(*old(self)) ==> bus_addresses_in_range(*final(self)),
            ticks > 0 ==> exists|held: bool|
                #![trigger sampled(*old(self), Signal::ResetLine(held))]
                {
                    let start = sampled(*old(self), Signal::ResetLine(held));
                    &&& held ==> *final(self) == (Sh2 { reset_pending: true, ..start })
                    &&& !held && old(self).reset_pending ==> reset_loaded(*final(self), *old(self))
                        && final(self).bus_accesses@ == start.bus_accesses@ + seq![
                        external_access(RESET_PC_VECTOR, 4, false, final(self).registers.pc),
                        external_access(RESET_SP_VECTOR, 4, false, final(self).registers.gpr[SP as int]),
                    ] && final(self).signal_log@ == start.signal_log@.push(
                        Signal::ResetVectors {
                            pc: final(self).registers.pc,
                            sp: final(self).registers.gpr[SP as int],
                        },
                    )
                    &&& !held && !old(self).reset_pending ==> ran(*final(self), start, ticks)
                },
    {
        if ticks == 0 {
            return ;
        }
        let held = bus.reset();
        self.signal_log = Ghost(self.signal_log@.push(Signal::ResetLine(held)));
        let ghost start = *self;
        assert(start == sampled(*old(self), Signal::ResetLine(held)));
        let step = reset_step(held, self.reset_pending);
        if step == ResetStep::Hold {
            self.reset_pending = true;
            return ;
        }
        if step == ResetStep::LoadVectors {
            self.reset_pending = false;

            // First 8 bytes of the address space contain the reset vector and the initial SP
            let pc = self.external_read_longword(RESET_PC_VECTOR, AccessContext::InterruptVector, bus);
            self.registers.pc = pc;
            self.registers.next_pc = pc.wrapping_add(2);
            self.registers.next_op_in_delay_slot = false;

            let sp = self.external_read_longword(RESET_SP_VECTOR, AccessContext::InterruptVector, bus);
            self.registers.gpr[SP] = sp;
            self.signal_log = Ghost(self.signal_log@.push(Signal::ResetVectors { pc, sp }));

            self.registers.sr.interrupt_mask = registers::RESET_INTERRUPT_MASK;
            self.registers.vbr = RESET_VBR;

            self.cache.purge_all();
            assert(self.bus_accesses@ =~= start.bus_accesses@ + seq![
                external_access(RESET_PC_VECTOR, 4, false, pc),
                external_access(RESET_SP_VECTOR, 4, false, sp),
            ]);
            return ;
        }

        let mut dma_ticks: u64 = 0;
        proof {
            lemma_no_steps(*self);
        }
        let ghost mut before_idle = *self;
        let ghost mut went_idle = false;
        while dma_ticks < ticks
            invariant_except_break
                dma_ticks <= ticks,
                dma_steps(*self, start, dma_ticks as nat),
                before_idle == *self,
                !went_idle,
                bus_addresses_in_range(*old(self)) ==> bus_addresses_in_range(*self),
            ensures
                bus_addresses_in_range(*old(self)) ==> bus_addresses_in_range(*self),
                dma_ticks <= ticks,
                dma_steps(before_idle, start, dma_ticks as nat),
                went_idle ==> dma_ticks < ticks && dma_post(*self, before_idle, false),
                !went_idle ==> dma_ticks == ticks && *self == before_idle,
            decreases ticks - dma_ticks,
        {
            let ghost prev = *self;
            if !self.try_tick_dma(bus) {
                proof {
                    before_idle = prev;
                    went_idle = true;
                }
                break ;
            }
            proof {
                lemma_dma_steps_extend(*self, prev, start, dma_ticks as nat);
            }
            dma_ticks += 1;
            proof {
                before_idle = *self;
            }
        }
        let ghost s1 = *self;
        proof {
            lemma_no_steps(*self);
        }

        // Interrupts cannot trigger in a delay slot per the SH7604 hardware manual
        // Before checking for interrupts, loop until the CPU is no longer in a delay slot
        let mut remaining = ticks;
        while self.registers.next_op_in_delay_slot && remaining != 0
            invariant
                remaining <= ticks,
                instruction_steps(*self, s1, (ticks - remaining) as nat),
                bus_addresses_in_range(*old(self)) ==> bus_addresses_in_range(*self),
            decreases remaining,
        {
            let ghost prev = *self;
            self.execute_single_instruction(bus);
            proof {
                lemma_instruction_steps_extend(*self, prev, s1, (ticks - remaining) as nat);
            }
            remaining -= 1;
        }
        let ghost s2 = *self;
        let ghost k: nat = (ticks - remaining) as nat;

        if self.registers.next_op_in_delay_slot {
            // Stuck in an infinite branch loop: every instruction is in a delay slot
            assert(ran(*self, start, ticks)) by {
                assert(dma_steps(before_idle, start, dma_ticks as nat));
                assert(instruction_steps(s2, s1, k));
            }
            return ;
        }

        let external_interrupt_level = bus.interrupt_level();
        self.signal_log = Ghost(self.signal_log@.push(Signal::InterruptLevel(external_interrupt_level)));
        let ghost s3 = *self;
        assert(s3 == sampled(s2, Signal::InterruptLevel(external_interrupt_level)));
        let internal = self.sh7604.internal_interrupt_level;
        match interrupt_to_take(external_interrupt_level, internal, self.registers.sr.interrupt_mask) {
            Some((level, vector_number)) => {
                self.handle_exception(Some(level), vector_number, bus);
                assert(ran(*self, start, ticks)) by {
                    assert(dma_steps(before_idle, start, dma_ticks as nat));
                    assert(instruction_steps(s2, s1, k));
                }
                return ;
            },
            None => {},
        }

        let mut executed: u64 = 0;
        proof {
            lemma_no_steps(*self);
        }
        while executed < remaining
            invariant
                executed <= remaining,
                instruction_steps(*self, s3, executed as nat),
                bus_addresses_in_range(*old(self)) ==> bus_addresses_in_range(*self),
            decreases remaining - executed,
        {
            let ghost prev = *self;
            self.execute_single_instruction(bus);
            proof {
                lemma_instruction_steps_extend(*self, prev, s3, executed as nat);
            }
            executed += 1;
        }
        assert(ran(*self, start, ticks)) by {
            assert(dma_steps(before_idle, start, dma_ticks as nat));
            assert(instruction_steps(s2, s1, k));
            assert(instruction_steps(*self, sampled(s2, Signal::InterruptLevel(external_interrupt_level)), (ticks - k) as nat));
        }
    }

    /// Fetches the opcode at PC, advances PC to the next instruction (the branch target if the
    /// previous instruction was a delayed branch) and executes the opcode.
    pub fn execute_single_instruction<B: BusInterface>(&mut self, bus: &mut B)
        ensures
            instruction_executed(*final(self), *old(self)),
            bus_addresses_in_range(*old(self)) ==> bus_addresses_in_range(*final(self)),
    {
        let pc = self.registers.pc;
        let opcode = self.read_opcode(pc, bus);
        self.registers.pc = self.registers.next_pc;
        self.registers.next_pc = self.registers.pc.wrapping_add(2);
        self.registers.next_op_in_delay_slot = false;
        self.data_ctx = AccessContext::Data { pc, opcode };
        let ghost mid = *self;
        instructions::execute(self, opcode, bus);
        assert(instructions::instruction_post(opcode, *self, mid));
        proof {
            instructions::lemma_instruction_ends_between(opcode, *self, mid);
            if bus_addresses_in_range(*old(self)) {
                instructions::lemma_instruction_keeps_bus_range(opcode, *self, mid);
            }
        }
    }

    /// Advances the watchdog timer by a number of system cycles and, on an overflow, re-evaluates
    /// the pending internal interrupt.
    pub fn tick_timers(&mut self, system_cycles: u64)
        requires
            old(self).watchdog_timer.enabled_spec() ==> old(self).watchdog_timer.prescaler_spec()
                + system_cycles <= u64::MAX,
        ensures
            final(self).registers == old(self).registers,
            final(self).name == old(self).name,
            final(self).dmac == old(self).dmac,
            final(self).cache == old(self).cache,
            final(self).sh7604.interrupts == old(self).sh7604.interrupts,
    {
        if self.watchdog_timer.tick(system_cycles) == WatchdogTickEffect::Overflow {
            self.update_internal_interrupt_level();
        }
    }

    /// Recomputes the highest-priority pending internal interrupt.
    pub fn update_internal_interrupt_level(&mut self)
        ensures
            final(self).registers == old(self).registers,
            final(self).sh7604.interrupts == old(self).sh7604.interrupts,
            final(self).sh7604.break_registers == old(self).sh7604.break_registers,
            registers::is_max_last(
                registers::internal_candidates(
                    old(self).sh7604.interrupts,
                    old(self).dmac.channels[0].control.interrupt_pending_spec(),
                    old(self).dmac.channels[1].control.interrupt_pending_spec(),
                    old(self).serial.rx_interrupt_pending_spec(),
                    old(self).watchdog_timer.overflow_flag_spec(),
                ),
                final(self).sh7604.internal_interrupt_level,
            ),
            final(self).cache == old(self).cache,
            final(self).dmac == old(self).dmac,
            final(self).free_run_timer == old(self).free_run_timer,
            final(self).watchdog_timer == old(self).watchdog_timer,
            final(self).divu == old(self).divu,
            final(self).serial == old(self).serial,
            final(self).reset_pending == old(self).reset_pending,
            final(self).data_ctx == old(self).data_ctx,
            final(self).name == old(self).name,
            final(self).bus_accesses == old(self).bus_accesses,
    {
        self.sh7604.update_interrupt_level(&self.dmac, &self.watchdog_timer, &self.serial);
    }

    /// Pushes SR and PC, raises the interrupt mask to the interrupt's level (exceptions that are
    /// not interrupts leave it), and jumps to the handler whose address is read from the vector
    /// table at VBR + 4 * vector number.
    pub fn handle_exception<B: BusInterface>(
        &mut self,
        interrupt_level: Option<u8>,
        vector_number: u32,
        bus: &mut B,
    )
        ensures
            exception_taken(*final(self), *old(self), interrupt_level, vector_number),
    {
        let sp0 = self.registers.gpr[SP].wrapping_sub(4);
        let sr = self.registers.sr.to_u32();
        self.write_longword(sp0, sr, bus);

        let sp1 = sp0.wrapping_sub(4);
        let pc = self.registers.pc;
        self.write_longword(sp1, pc, bus);

        self.registers.gpr[SP] = sp1;
        match interrupt_level {
            Some(level) => {
                self.registers.sr.interrupt_mask = level;
            },
            None => {},
        }

        let vector_addr = self.registers.vbr.wrapping_add(vector_number.wrapping_mul(4));
        let ctx = self.data_ctx;
        self.data_ctx = AccessContext::InterruptVector;
        let new_pc = self.read_longword(vector_addr, bus);
        self.data_ctx = ctx;
        self.registers.pc = new_pc;
        self.registers.next_pc = new_pc.wrapping_add(2);
        self.registers.next_op_in_delay_slot = false;
        assert(old(self).registers.gpr[SP as int].wrapping_sub(4).wrapping_sub(4) == old(
            self).registers.gpr[SP as int].wrapping_sub(8));
    }

    /// Performs one unit of a ready DMA transfer: reads from the source address, writes to the
    /// destination, steps both addresses by their address modes, decrements the count and sets
    /// the channel's complete flag when the count reaches 0. Returns whether a channel was ready.
    pub fn try_tick_dma<B: BusInterface>(&mut self, bus: &mut B) -> (r: bool)
        ensures
            dma_post(*final(self), *old(self), r),
    {
        let channel = match self.dmac.channel_ready(bus) {
            Some(channel) => channel,
            None => {
                return false;
            },
        };
        let ctx = self.data_ctx;
        self.data_ctx = AccessContext::Dma { channel };

        match self.dmac.channels[channel].control.transfer_size {
            DmaTransferUnit::Byte => {
                let source_addr = self.dmac.channels[channel].source_address;
                let byte = self.read_byte(source_addr, bus);
                let mut ch = self.dmac.channels[channel];
                apply_dma_source_address_mode(&mut ch, 1);
                self.dmac.channels[channel] = ch;

                let dest_addr = self.dmac.channels[channel].destination_address;
                self.write_byte(dest_addr, byte, bus);
                let mut ch = self.dmac.channels[channel];
                apply_dma_destination_address_mode(&mut ch, 1);
                ch.transfer_count = ch.transfer_count.wrapping_sub(1);
                self.dmac.channels[channel] = ch;
            },
            DmaTransferUnit::Word => {
                let source_addr = self.dmac.channels[channel].source_address;
                let word = self.read_word(source_addr, bus);
                let mut ch = self.dmac.channels[channel];
                apply_dma_source_address_mode(&mut ch, 2);
                self.dmac.channels[channel] = ch;

                let dest_addr = self.dmac.channels[channel].destination_address;
                self.write_word(dest_addr, word, bus);
                let mut ch = self.dmac.channels[channel];
                apply_dma_destination_address_mode(&mut ch, 2);
                ch.transfer_count = ch.transfer_count.wrapping_sub(1);
                self.dmac.channels[channel] = ch;
            },
            DmaTransferUnit::Longword => {
                let source_addr = self.dmac.channels[channel].source_address;
                let longword = self.read_longword(source_addr, bus);
                let mut ch = self.dmac.channels[channel];
                apply_dma_source_address_mode(&mut ch, 4);
                self.dmac.channels[channel] = ch;

                let dest_addr = self.dmac.channels[channel].destination_address;
                self.write_longword(dest_addr, longword, bus);
                let mut ch = self.dmac.channels[channel];
                apply_dma_destination_address_mode(&mut ch, 4);
                ch.transfer_count = ch.transfer_count.wrapping_sub(1);
                self.dmac.channels[channel] = ch;
            },
            DmaTransferUnit::SixteenByte => {
                let mut i: u32 = 0;
                while i < 4
                    invariant
                        channel < 2,
                        self.registers == old(self).registers,
                        self.name == old(self).name,
                        bus_addresses_in_range(*old(self)) ==> bus_addresses_in_range(*self),
                    decreases 4 - i,
                {
                    let source_addr = self.dmac.channels[channel].source_address;
                    let longword = self.read_longword(source_addr, bus);

                    // Source address mode is ignored for 16-byte transfers
                    let mut ch = self.dmac.channels[channel];
                    ch.source_address = ch.source_address.wrapping_add(4);
                    self.dmac.channels[channel] = ch;

                    let dest_addr = self.dmac.channels[channel].destination_address;
                    self.write_longword(dest_addr, longword, bus);

                    let mut ch = self.dmac.channels[channel];
                    apply_dma_destination_address_mode(&mut ch, 4);
                    ch.transfer_count = ch.transfer_count.wrapping_sub(1);
                    self.dmac.channels[channel] = ch;
                    if ch.transfer_count == 0 {
                        break ;
                    }
                    i += 1;
                }
            },
        }

        let mut ch = self.dmac.channels[channel];
        ch.control.dma_complete = ch.transfer_count == 0;
        self.dmac.channels[channel] = ch;
        self.data_ctx = ctx;
        assert(channel_active(old(self).dmac.channels[channel as int]));
        true
    }
}

/// Steps an address by an access size according to a DMA address mode.
pub open spec fn step_address(address: u32, mode: DmaAddressMode, size: u32) -> u32 {
    match mode {
        DmaAddressMode::AutoIncrement => address.wrapping_add(size),
        DmaAddressMode::AutoDecrement => address.wrapping_sub(size),
        DmaAddressMode::Fixed | DmaAddressMode::Invalid => address,
    }
}

pub fn apply_dma_source_address_mode(channel: &mut DmaChannel, size: u32)
    ensures
        *final(channel) == (DmaChannel {
            source_address: step_address(
                old(channel).source_address,
                old(channel).control.source_address_mode,
                size,
            ),
            ..*old(channel)
        }),
{
    match channel.control.source_address_mode {
        DmaAddressMode::AutoIncrement => {
            channel.source_address = channel.source_address.wrapping_add(size);
        },
        DmaAddressMode::AutoDecrement => {
            channel.source_address = channel.source_address.wrapping_sub(size);
        },
        DmaAddressMode::Fixed | DmaAddressMode::Invalid => {},
    }
}

pub fn apply_dma_destination_address_mode(channel: &mut DmaChannel, size: u32)
    ensures
        *final(channel) == (DmaChannel {
            destination_address: step_address(
                old(channel).destination_address,
                old(channel).control.destination_address_mode,
                size,
            ),
            ..*old(channel)
        }),
{
    match channel.control.destination_address_mode {
        DmaAddressMode::AutoIncrement => {
            channel.destination_address = channel.destination_address.wrapping_add(size);
        },
        DmaAddressMode::AutoDecrement => {
            channel.destination_address = channel.destination_address.wrapping_sub(size);
        },
        DmaAddressMode::Fixed | DmaAddressMode::Invalid => {},
    }
}

} // verus!
