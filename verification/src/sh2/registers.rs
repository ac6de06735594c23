//! SH-2 CPU registers and the SH7604 interrupt/break control registers.
use crate::sh2::dma::DmaController;
use crate::sh2::sci::SerialInterface;
use crate::sh2::wdt::WatchdogTimer;
use vstd::prelude::*;

verus! {

pub const RESET_INTERRUPT_MASK: u8 = 15;

#[derive(Debug, Clone, Copy, PartialEq, Eq, Structural)]
pub struct StatusRegister {
    // Interrupt levels <= this value are masked
    pub interrupt_mask: u8,
    // Used as a carry/test flag by many instructions
    pub t: bool,
    // Flag used by multiply-accumulate instructions
    pub s: bool,
    // Flags used by division instructions
    pub q: bool,
    pub m: bool,
}

/// Bits of the 32-bit SR value that hold state: M, Q, I3-I0, S, T.
pub const SR_MASK: u32 = 0x3F3;

/// The 32-bit register value of a status register.
pub open spec fn sr_to_u32(sr: StatusRegister) -> u32 {
    ((if sr.m { 1u32 } else { 0u32 }) << 9) | ((if sr.q { 1u32 } else { 0u32 }) << 8) | ((
    sr.interrupt_mask as u32) << 4) | ((if sr.s { 1u32 } else { 0u32 }) << 1) | (if sr.t {
        1u32
    } else {
        0u32
    })
}

/// The status register described by a 32-bit value (unused bits ignored).
pub open spec fn sr_from_u32(value: u32) -> StatusRegister {
    StatusRegister {
        interrupt_mask: ((value >> 4) & 0xF) as u8,
        t: value & 1 != 0,
        s: value & 2 != 0,
        q: value & 0x100 != 0,
        m: value & 0x200 != 0,
    }
}

impl StatusRegister {
    /// Status register at power-on: all interrupts masked, flags clear.
    pub fn reset_value() -> (r: Self)
        ensures
            r == (StatusRegister {
                interrupt_mask: RESET_INTERRUPT_MASK,
                t: false,
                s: false,
                q: false,
                m: false,
            }),
    {
        Self { t: false, s: false, interrupt_mask: RESET_INTERRUPT_MASK, q: false, m: false }
    }

    pub fn from_u32(value: u32) -> (r: Self)
        ensures
            r == sr_from_u32(value),
    {
        Self {
            interrupt_mask: ((value >> 4) & 0xF) as u8,
            t: value & 1 != 0,
            s: value & 2 != 0,
            q: value & 0x100 != 0,
            m: value & 0x200 != 0,
        }
    }

    pub fn to_u32(self) -> (r: u32)
        ensures
            r == sr_to_u32(self),
    {
        ((if self.m { 1u32 } else { 0u32 }) << 9) | ((if self.q { 1u32 } else { 0u32 }) << 8) | ((
        self.interrupt_mask as u32) << 4) | ((if self.s { 1u32 } else { 0u32 }) << 1) | (if self.t {
            1u32
        } else {
            0u32
        })
    }
}

impl Default for StatusRegister {
    fn default() -> (r: Self)
        ensures
            r == (StatusRegister {
                interrupt_mask: RESET_INTERRUPT_MASK,
                t: false,
                s: false,
                q: false,
                m: false,
            }),
    {
        Self::reset_value()
    }
}

impl From<u32> for StatusRegister {
    fn from(value: u32) -> (r: Self) {
        Self::from_u32(value)
    }
}

impl vstd::std_specs::convert::FromSpecImpl<u32> for StatusRegister {
    open spec fn obeys_from_spec() -> bool {
        true
    }

    open spec fn from_spec(v: u32) -> StatusRegister {
        sr_from_u32(v)
    }
}

impl From<StatusRegister> for u32 {
    fn from(value: StatusRegister) -> (r: Self) {
        value.to_u32()
    }
}

impl vstd::std_specs::convert::FromSpecImpl<StatusRegister> for u32 {
    open spec fn obeys_from_spec() -> bool {
        true
    }

    open spec fn from_spec(v: StatusRegister) -> u32 {
        sr_to_u32(v)
    }
}

/// Writing a status register to its 32-bit form and reading it back gives the same register,
/// for every interrupt mask that fits in the 4-bit field.
pub proof fn lemma_sr_roundtrip(sr: StatusRegister)
    requires
        sr.interrupt_mask < 16,
    ensures
        sr_from_u32(sr_to_u32(sr)) == sr,
{
    let m = sr.interrupt_mask;
    let mm: u32 = if sr.m { 1 } else { 0 };
    let qq: u32 = if sr.q { 1 } else { 0 };
    let ss: u32 = if sr.s { 1 } else { 0 };
    let tt: u32 = if sr.t { 1 } else { 0 };
    let v = sr_to_u32(sr);
    assert(v == (mm << 9) | (qq << 8) | ((m as u32) << 4) | (ss << 1) | tt);
    assert((((mm << 9) | (qq << 8) | ((m as u32) << 4) | (ss << 1) | tt) >> 4) & 0xF == m as u32 && (((
    mm << 9) | (qq << 8) | ((m as u32) << 4) | (ss << 1) | tt) & 1 != 0 <==> tt == 1) && (((mm << 9)
        | (qq << 8) | ((m as u32) << 4) | (ss << 1) | tt) & 2 != 0 <==> ss == 1) && (((mm << 9) | (qq
        << 8) | ((m as u32) << 4) | (ss << 1) | tt) & 0x100 != 0 <==> qq == 1) && (((mm << 9) | (qq
        << 8) | ((m as u32) << 4) | (ss << 1) | tt) & 0x200 != 0 <==> mm == 1)) by (bit_vector)
        requires
            m < 16,
            mm < 2,
            qq < 2,
            ss < 2,
            tt < 2,
    ;
}

/// Reading a 32-bit value as a status register and writing it back keeps exactly the SR bits.
pub proof fn lemma_sr_value_roundtrip(value: u32)
    ensures
        sr_to_u32(sr_from_u32(value)) == value & SR_MASK,
{
    let sr = sr_from_u32(value);
    let mm: u32 = if sr.m { 1 } else { 0 };
    let qq: u32 = if sr.q { 1 } else { 0 };
    let ss: u32 = if sr.s { 1 } else { 0 };
    let tt: u32 = if sr.t { 1 } else { 0 };
    crate::bit_facts::lemma_u32_fields(value);
    assert(((value >> 4) & 0xF) as u8 as u32 == (value >> 4) & 0xF);
    assert((mm << 9) | (qq << 8) | (((value >> 4) & 0xF) << 4) | (ss << 1) | tt == value & 0x3F3)
        by (bit_vector)
        requires
            mm == (if value & 0x200 != 0 { 1u32 } else { 0u32 }),
            qq == (if value & 0x100 != 0 { 1u32 } else { 0u32 }),
            ss == (if value & 2 != 0 { 1u32 } else { 0u32 }),
            tt == (if value & 1 != 0 { 1u32 } else { 0u32 }),
    ;
}

#[derive(Debug, Clone)]
pub struct Sh2Registers {
    // General-purpose registers
    pub gpr: [u32; 16],
    // Status register
    pub sr: StatusRegister,
    // Global base register (used with GBR addressing modes)
    pub gbr: u32,
    // Vector base register (base of exception vector area)
    pub vbr: u32,
    // Multiply-accumulator
    pub macl: u32,
    pub mach: u32,
    // Procedure register (return address)
    pub pr: u32,
    // Program counter
    pub pc: u32,
    pub next_pc: u32,
    // Set when next_pc is changed by an instruction with a branch delay slot
    pub next_op_in_delay_slot: bool,
}

/// The 64-bit MAC value formed by MACH (high) and MACL (low).
pub open spec fn mac_spec(mach: u32, macl: u32) -> i64 {
    (((mach as u64) << 32) | (macl as u64)) as i64
}

impl Default for Sh2Registers {
    fn default() -> (r: Self)
        ensures
            r.gpr@ == seq![0u32; 16],
            r.sr == StatusRegister::spec_reset(),
            r.gbr == 0 && r.vbr == 0 && r.macl == 0 && r.mach == 0 && r.pr == 0,
            r.pc == 0 && r.next_pc == 0 && !r.next_op_in_delay_slot,
    {
        Sh2Registers {
            gpr: [0u32; 16],
            sr: StatusRegister::reset_value(),
            gbr: 0,
            vbr: 0,
            macl: 0,
            mach: 0,
            pr: 0,
            pc: 0,
            next_pc: 0,
            next_op_in_delay_slot: false,
        }
    }
}

impl StatusRegister {
    pub open spec fn spec_reset() -> StatusRegister {
        StatusRegister { interrupt_mask: RESET_INTERRUPT_MASK, t: false, s: false, q: false, m: false }
    }
}

impl Sh2Registers {
    pub fn mac(&self) -> (r: i64)
        ensures
            r == mac_spec(self.mach, self.macl),
    {
        (((self.mach as u64) << 32) | (self.macl as u64)) as i64
    }

    pub fn set_mac(&mut self, mac: i64)
        ensures
            final(self).macl == mac as u32,
            final(self).mach == ((mac as u64) >> 32) as u32,
            final(self).gpr == old(self).gpr,
            final(self).sr == old(self).sr,
            final(self).gbr == old(self).gbr,
            final(self).vbr == old(self).vbr,
            final(self).pr == old(self).pr,
            final(self).pc == old(self).pc,
            final(self).next_pc == old(self).next_pc,
            final(self).next_op_in_delay_slot == old(self).next_op_in_delay_slot,
    {
        self.macl = mac as u32;
        self.mach = ((mac as u64) >> 32) as u32;
    }
}

/// Setting MAC to a 64-bit value and reading MAC back gives that value.
pub proof fn lemma_mac_roundtrip(mac: i64)
    ensures
        mac_spec(((mac as u64) >> 32) as u32, mac as u32) == mac,
{
    assert(((((((mac as u64) >> 32) as u32) as u64) << 32) | ((mac as u32) as u64)) as i64 == mac)
        by (bit_vector);
}

// User break functionality is not emulated, but After Burner Complete uses these R/W registers to
// store state in its audio processing code
#[derive(Debug, Clone, Copy, PartialEq, Eq, Structural)]
pub struct BreakRegisters {
    pub break_address_a: u32,
    pub break_address_b: u32,
}

impl BreakRegisters {
    pub fn new() -> (r: Self)
        ensures
            r.break_address_a == 0 && r.break_address_b == 0,
    {
        BreakRegisters { break_address_a: 0, break_address_b: 0 }
    }

    pub(crate) fn read_break_address_a_high(&self) -> (r: u16)
        ensures
            r == (self.break_address_a >> 16) as u16,
    {
        (self.break_address_a >> 16) as u16
    }

    pub(crate) fn read_break_address_a_low(&self) -> (r: u16)
        ensures
            r == self.break_address_a as u16,
    {
        self.break_address_a as u16
    }

    pub(crate) fn read_break_address_b_high(&self) -> (r: u16)
        ensures
            r == (self.break_address_b >> 16) as u16,
    {
        (self.break_address_b >> 16) as u16
    }

    pub(crate) fn read_break_address_b_low(&self) -> (r: u16)
        ensures
            r == self.break_address_b as u16,
    {
        self.break_address_b as u16
    }

    pub(crate) fn write_break_address_a(&mut self, value: u32)
        ensures
            *final(self) == (BreakRegisters { break_address_a: value, ..*old(self) }),
    {
        self.break_address_a = value;
    }

    pub(crate) fn write_break_address_a_high(&mut self, value: u16)
        ensures
            *final(self) == (BreakRegisters {
                break_address_a: (old(self).break_address_a & 0xFFFF) | ((value as u32) << 16),
                ..*old(self)
            }),
    {
        self.break_address_a = (self.break_address_a & 0xFFFF) | ((value as u32) << 16);
    }

    pub(crate) fn write_break_address_a_low(&mut self, value: u16)
        ensures
            *final(self) == (BreakRegisters {
                break_address_a: (old(self).break_address_a & !0xFFFFu32) | (value as u32),
                ..*old(self)
            }),
    {
        self.break_address_a = (self.break_address_a & !0xFFFFu32) | (value as u32);
    }

    pub(crate) fn write_break_address_b(&mut self, value: u32)
        ensures
            *final(self) == (BreakRegisters { break_address_b: value, ..*old(self) }),
    {
        self.break_address_b = value;
    }

    pub(crate) fn write_break_address_b_high(&mut self, value: u16)
        ensures
            *final(self) == (BreakRegisters {
                break_address_b: (old(self).break_address_b & 0xFFFF) | ((value as u32) << 16),
                ..*old(self)
            }),
    {
        self.break_address_b = (self.break_address_b & 0xFFFF) | ((value as u32) << 16);
    }

    pub(crate) fn write_break_address_b_low(&mut self, value: u16)
        ensures
            *final(self) == (BreakRegisters {
                break_address_b: (old(self).break_address_b & !0xFFFFu32) | (value as u32),
                ..*old(self)
            }),
    {
        self.break_address_b = (self.break_address_b & !0xFFFFu32) | (value as u32);
    }
}

/// Writing the high half and then the low half of a break address stores the whole longword.
pub proof fn lemma_break_address_halves(old_value: u32, high: u16, low: u16)
    ensures
        (((old_value & 0xFFFF) | ((high as u32) << 16)) & !0xFFFFu32) | (low as u32) == ((high as u32)
            << 16) | (low as u32),
{
    assert((((old_value & 0xFFFF) | ((high as u32) << 16)) & !0xFFFFu32) | (low as u32) == ((
    high as u32) << 16) | (low as u32)) by (bit_vector);
}

#[derive(Debug, Clone, Copy, PartialEq, Eq, Structural)]
pub struct InterruptRegisters {
    pub divu_priority: u8,
    pub dmac_priority: u8,
    pub dma0_vector: u8,
    pub dma1_vector: u8,
    pub wdt_priority: u8,
    pub wdt_vector: u8,
    pub bsc_vector: u8,
    pub sci_priority: u8,
    pub sci_rx_error_vector: u8,
    pub sci_rx_ok_vector: u8,
    pub sci_tx_empty_vector: u8,
    pub sci_transfer_end_vector: u8,
    pub frt_priority: u8,
}

impl InterruptRegisters {
    pub fn new() -> (r: Self)
        ensures
            r == (InterruptRegisters {
                divu_priority: 0,
                dmac_priority: 0,
                dma0_vector: 0,
                dma1_vector: 0,
                wdt_priority: 0,
                wdt_vector: 0,
                bsc_vector: 0,
                sci_priority: 0,
                sci_rx_error_vector: 0,
                sci_rx_ok_vector: 0,
                sci_tx_empty_vector: 0,
                sci_transfer_end_vector: 0,
                frt_priority: 0,
            }),
    {
        InterruptRegisters {
            divu_priority: 0,
            dmac_priority: 0,
            dma0_vector: 0,
            dma1_vector: 0,
            wdt_priority: 0,
            wdt_vector: 0,
            bsc_vector: 0,
            sci_priority: 0,
            sci_rx_error_vector: 0,
            sci_rx_ok_vector: 0,
            sci_tx_empty_vector: 0,
            sci_transfer_end_vector: 0,
            frt_priority: 0,
        }
    }

    // $FFFFFEE2: IPRA (Interrupt priority A)
    pub(crate) fn read_ipra(&self) -> (r: u16)
        ensures
            r == ((self.divu_priority as u16) << 12) | ((self.dmac_priority as u16) << 8) | ((
            self.wdt_priority as u16) << 4),
    {
        ((self.divu_priority as u16) << 12) | ((self.dmac_priority as u16) << 8) | ((
        self.wdt_priority as u16) << 4)
    }

    // $FFFFFEE2: IPRA (Interrupt priority A)
    pub(crate) fn write_ipra(&mut self, value: u16)
        ensures
            *final(self) == (InterruptRegisters {
                divu_priority: (value >> 12) as u8,
                dmac_priority: ((value >> 8) & 0xF) as u8,
                wdt_priority: ((value >> 4) & 0xF) as u8,
                ..*old(self)
            }),
    {
        self.divu_priority = (value >> 12) as u8;
        self.dmac_priority = ((value >> 8) & 0xF) as u8;
        self.wdt_priority = ((value >> 4) & 0xF) as u8;
    }

    pub(crate) fn write_ipra_low(&mut self, value: u8)
        ensures
            *final(self) == (InterruptRegisters { wdt_priority: value >> 4, ..*old(self) }),
    {
        self.wdt_priority = value >> 4;
    }

    // $FFFFFE60: IPRB (Interrupt priority B)
    pub(crate) fn write_iprb(&mut self, value: u16)
        ensures
            *final(self) == (InterruptRegisters {
                sci_priority: (value >> 12) as u8,
                frt_priority: ((value >> 8) & 0xF) as u8,
                ..*old(self)
            }),
    {
        self.sci_priority = (value >> 12) as u8;
        self.frt_priority = ((value >> 8) & 0xF) as u8;
    }

    // $FFFFFE62: VCRA (Vector number register A)
    pub(crate) fn write_vcra(&mut self, value: u16)
        ensures
            *final(self) == (InterruptRegisters {
                sci_rx_error_vector: ((value >> 8) & 0x7F) as u8,
                sci_rx_ok_vector: (value & 0x7F) as u8,
                ..*old(self)
            }),
    {
        self.sci_rx_error_vector = ((value >> 8) & 0x7F) as u8;
        self.sci_rx_ok_vector = (value & 0x7F) as u8;
    }

    // $FFFFFE64: VCRB (Vector number register B)
    pub(crate) fn write_vcrb(&mut self, value: u16)
        ensures
            *final(self) == (InterruptRegisters {
                sci_tx_empty_vector: ((value >> 8) & 0x7F) as u8,
                sci_transfer_end_vector: (value & 0x7F) as u8,
                ..*old(self)
            }),
    {
        self.sci_tx_empty_vector = ((value >> 8) & 0x7F) as u8;
        self.sci_transfer_end_vector = (value & 0x7F) as u8;
    }

    // $FFFFFEE4: VCRWDT (WDT interrupt vector number)
    pub(crate) fn write_vcrwdt(&mut self, value: u16)
        ensures
            *final(self) == (InterruptRegisters {
                wdt_vector: ((value >> 8) & 0x7F) as u8,
                bsc_vector: (value & 0x7F) as u8,
                ..*old(self)
            }),
    {
        self.wdt_vector = ((value >> 8) & 0x7F) as u8;
        self.bsc_vector = (value & 0x7F) as u8;
    }

    pub(crate) fn write_vcrwdt_high(&mut self, value: u8)
        ensures
            *final(self) == (InterruptRegisters { wdt_vector: value & 0x7F, ..*old(self) }),
    {
        self.wdt_vector = value & 0x7F;
    }

    // $FFFFFFA8: VCRDMA1 (Interrupt vector number for DMA1)
    pub(crate) fn write_vcrdma1(&mut self, value: u32)
        ensures
            *final(self) == (InterruptRegisters { dma1_vector: value as u8, ..*old(self) }),
    {
        self.dma1_vector = value as u8;
    }
}

#[derive(Debug, Clone, Copy, PartialEq, Eq, Structural)]
pub struct InternalInterrupt {
    pub priority: u8,
    pub vector_number: u8,
}

/// The interrupt chosen among candidates: one of the highest priority, the last of them on a tie.
pub open spec fn is_max_last(s: Seq<InternalInterrupt>, r: InternalInterrupt) -> bool {
    exists|i: int|
        0 <= i < s.len() && #[trigger] s[i] == r && (forall|j: int|
            0 <= j < s.len() ==> (#[trigger] s[j]).priority <= r.priority) && (forall|j: int|
            i < j < s.len() ==> (#[trigger] s[j]).priority < r.priority)
}

#[derive(Debug, Clone)]
pub struct Sh7604Registers {
    pub break_registers: BreakRegisters,
    pub interrupts: InterruptRegisters,
    pub internal_interrupt_level: InternalInterrupt,
}

/// The four internal interrupt sources, in order: DMA channel 0, DMA channel 1, SCI receive,
/// watchdog timer. A source that is not pending has priority 0.
pub open spec fn internal_candidates(
    interrupts: InterruptRegisters,
    dma0: bool,
    dma1: bool,
    rx: bool,
    wdt: bool,
) -> Seq<InternalInterrupt> {
    seq![
        InternalInterrupt {
            priority: if dma0 { interrupts.dmac_priority } else { 0 },
            vector_number: interrupts.dma0_vector,
        },
        InternalInterrupt {
            priority: if dma1 { interrupts.dmac_priority } else { 0 },
            vector_number: interrupts.dma1_vector,
        },
        InternalInterrupt {
            priority: if rx { interrupts.sci_priority } else { 0 },
            vector_number: interrupts.sci_rx_ok_vector,
        },
        InternalInterrupt {
            priority: if wdt { interrupts.wdt_priority } else { 0 },
            vector_number: interrupts.wdt_vector,
        },
    ]
}

fn pick_internal_interrupt(
    a: InternalInterrupt,
    b: InternalInterrupt,
    c: InternalInterrupt,
    d: InternalInterrupt,
) -> (r: InternalInterrupt)
    ensures
        is_max_last(seq![a, b, c, d], r),
{
    let ghost s = seq![a, b, c, d];
    let mut best = a;
    let ghost mut idx: int = 0;
    if b.priority >= best.priority {
        best = b;
        proof {
            idx = 1;
        }
    }
    if c.priority >= best.priority {
        best = c;
        proof {
            idx = 2;
        }
    }
    if d.priority >= best.priority {
        best = d;
        proof {
            idx = 3;
        }
    }
    assert(s[idx] == best);
    assert(forall|j: int| 0 <= j < 4 ==> (#[trigger] s[j]).priority <= best.priority);
    assert(forall|j: int| idx < j < 4 ==> (#[trigger] s[j]).priority < best.priority);
    best
}

impl Sh7604Registers {
    pub fn new() -> (r: Self)
        ensures
            r.break_registers == (BreakRegisters { break_address_a: 0, break_address_b: 0 }),
            r.interrupts == InterruptRegisters::spec_zero(),
            r.internal_interrupt_level == (InternalInterrupt { priority: 0, vector_number: 0 }),
    {
        Self {
            break_registers: BreakRegisters::new(),
            interrupts: InterruptRegisters::new(),
            internal_interrupt_level: InternalInterrupt { priority: 0, vector_number: 0 },
        }
    }

    pub fn update_interrupt_level(
        &mut self,
        dma_controller: &DmaController,
        watchdog_timer: &WatchdogTimer,
        serial: &SerialInterface,
    )
        ensures
            final(self).break_registers == old(self).break_registers,
            final(self).interrupts == old(self).interrupts,
            is_max_last(
                internal_candidates(
                    old(self).interrupts,
                    dma_controller.channels[0].control.interrupt_pending_spec(),
                    dma_controller.channels[1].control.interrupt_pending_spec(),
                    serial.rx_interrupt_pending_spec(),
                    watchdog_timer.overflow_flag_spec(),
                ),
                final(self).internal_interrupt_level,
            ),
    {
        let dma0_level = if dma_controller.channels[0].control.interrupt_pending() {
            self.interrupts.dmac_priority
        } else {
            0
        };

        let dma1_level = if dma_controller.channels[1].control.interrupt_pending() {
            self.interrupts.dmac_priority
        } else {
            0
        };

        let rx_level = if serial.rx_interrupt_pending() {
            self.interrupts.sci_priority
        } else {
            0
        };

        let watchdog_level = if watchdog_timer.overflow_flag() {
            self.interrupts.wdt_priority
        } else {
            0
        };

        self.internal_interrupt_level = pick_internal_interrupt(
            InternalInterrupt { priority: dma0_level, vector_number: self.interrupts.dma0_vector },
            InternalInterrupt { priority: dma1_level, vector_number: self.interrupts.dma1_vector },
            InternalInterrupt { priority: rx_level, vector_number: self.interrupts.sci_rx_ok_vector },
            InternalInterrupt { priority: watchdog_level, vector_number: self.interrupts.wdt_vector },
        );
    }
}

impl InterruptRegisters {
    pub open spec fn spec_zero() -> InterruptRegisters {
        InterruptRegisters {
            divu_priority: 0,
            dmac_priority: 0,
            dma0_vector: 0,
            dma1_vector: 0,
            wdt_priority: 0,
            wdt_vector: 0,
            bsc_vector: 0,
            sci_priority: 0,
            sci_rx_error_vector: 0,
            sci_rx_ok_vector: 0,
            sci_tx_empty_vector: 0,
            sci_transfer_end_vector: 0,
            frt_priority: 0,
        }
    }
}

} // verus!
