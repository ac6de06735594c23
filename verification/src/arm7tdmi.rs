//! ARM7TDMI CPU core: registers banked by processor mode, the two-stage prefetch pipeline and
//! exception entry.
pub mod bus;
pub mod instructions;

use crate::arm7tdmi::bus::{BusEvent, BusInterface, MemoryCycle};
use vstd::prelude::*;

verus! {

#[derive(Debug, Clone, Copy, PartialEq, Eq, Structural, Default)]
pub enum CpuState {
    // 32-bit opcodes, full instruction set
    #[default]
    Arm,
    // 16-bit opcodes, limited instruction set
    Thumb,
}

pub open spec fn cpu_state_from_bit(bit: bool) -> CpuState {
    if bit {
        CpuState::Thumb
    } else {
        CpuState::Arm
    }
}

/// Length in bytes of an opcode in the given state.
pub open spec fn opcode_len(state: CpuState) -> u32 {
    match state {
        CpuState::Arm => 4,
        CpuState::Thumb => 2,
    }
}

impl CpuState {
    pub fn from_bit(bit: bool) -> (r: Self)
        ensures
            r == cpu_state_from_bit(bit),
    {
        if bit {
            Self::Thumb
        } else {
            Self::Arm
        }
    }
}

#[derive(Debug, Clone, Copy, PartialEq, Eq, Structural, Default)]
pub enum CpuMode {
    #[default]
    User,
    Fiq,
    Irq,
    Supervisor,
    Abort,
    Undefined,
    // Arbitrary unused mode value
    Illegal,
    System,
}

/// The mode selected by the low 5 bits of a PSR value; unknown encodings select `Illegal`.
pub open spec fn cpu_mode_from_bits(bits: u32) -> CpuMode {
    let b = bits & 0x1F;
    if b == 0x10 {
        CpuMode::User
    } else if b == 0x11 {
        CpuMode::Fiq
    } else if b == 0x12 {
        CpuMode::Irq
    } else if b == 0x13 {
        CpuMode::Supervisor
    } else if b == 0x17 {
        CpuMode::Abort
    } else if b == 0x1B {
        CpuMode::Undefined
    } else if b == 0x1F {
        CpuMode::System
    } else {
        CpuMode::Illegal
    }
}

/// The 5-bit encoding of a mode in the PSR.
pub open spec fn mode_bits(mode: CpuMode) -> u32 {
    match mode {
        CpuMode::User => 0x10,
        CpuMode::Fiq => 0x11,
        CpuMode::Irq => 0x12,
        CpuMode::Supervisor => 0x13,
        CpuMode::Abort => 0x17,
        CpuMode::Undefined => 0x1B,
        CpuMode::Illegal => 0x1E,
        CpuMode::System => 0x1F,
    }
}

/// Whether the low 5 bits of a value encode one of the modes (the unused value 0x1E included).
pub open spec fn is_mode_encoding(bits: u32) -> bool {
    let b = bits & 0x1F;
    b == 0x10 || b == 0x11 || b == 0x12 || b == 0x13 || b == 0x17 || b == 0x1B || b == 0x1E || b
        == 0x1F
}

impl CpuMode {
    pub fn from_bits(bits: u32) -> (r: Self)
        ensures
            r == cpu_mode_from_bits(bits),
    {
        let b = bits & 0x1F;
        if b == 0x10 {
            Self::User
        } else if b == 0x11 {
            Self::Fiq
        } else if b == 0x12 {
            Self::Irq
        } else if b == 0x13 {
            Self::Supervisor
        } else if b == 0x17 {
            Self::Abort
        } else if b == 0x1B {
            Self::Undefined
        } else if b == 0x1F {
            Self::System
        } else {
            Self::Illegal
        }
    }

    pub fn bits(self) -> (r: u32)
        ensures
            r == mode_bits(self),
    {
        match self {
            Self::User => 0x10,
            Self::Fiq => 0x11,
            Self::Irq => 0x12,
            Self::Supervisor => 0x13,
            Self::Abort => 0x17,
            Self::Undefined => 0x1B,
            Self::Illegal => 0x1E,
            Self::System => 0x1F,
        }
    }
}

#[derive(Debug, Clone, Copy, PartialEq, Eq, Structural, Default)]
pub struct StatusRegister {
    pub sign: bool,
    pub zero: bool,
    pub carry: bool,
    pub overflow: bool,
    pub irq_disabled: bool,
    pub fiq_disabled: bool,
    pub state: CpuState,
    pub mode: CpuMode,
}

/// Bit `n` of a 32-bit value.
pub open spec fn bit32(value: u32, n: u32) -> bool {
    (value >> n) & 1 == 1
}

pub open spec fn flag(b: bool) -> u32 {
    if b {
        1
    } else {
        0
    }
}

/// The 32-bit PSR value of a status register: N Z C V in bits 31-28, I F T in bits 7-5 and the
/// mode in bits 4-0.
pub open spec fn sr_to_u32(sr: StatusRegister) -> u32 {
    (flag(sr.sign) << 31u32) | (flag(sr.zero) << 30u32) | (flag(sr.carry) << 29u32) | (flag(
        sr.overflow,
    ) << 28u32) | (flag(sr.irq_disabled) << 7u32) | (flag(sr.fiq_disabled) << 6u32) | (flag(
        sr.state == CpuState::Thumb,
    ) << 5u32) | mode_bits(sr.mode)
}

/// The status register described by a 32-bit PSR value.
pub open spec fn sr_from_u32(value: u32) -> StatusRegister {
    StatusRegister {
        sign: bit32(value, 31),
        zero: bit32(value, 30),
        carry: bit32(value, 29),
        overflow: bit32(value, 28),
        irq_disabled: bit32(value, 7),
        fiq_disabled: bit32(value, 6),
        state: cpu_state_from_bit(bit32(value, 5)),
        mode: cpu_mode_from_bits(value & 0x1F),
    }
}

/// Bits of a PSR value that a status register holds.
pub const PSR_MASK: u32 = 0xF000_00FF;

proof fn lemma_psr_bits(s: bool, z: bool, c: bool, v: bool, i: bool, f: bool, t: bool, m: u32)
    requires
        m <= 0x1F,
    ensures
        ({
            let x = (flag(s) << 31u32) | (flag(z) << 30u32) | (flag(c) << 29u32) | (flag(v) << 28u32)
                | (flag(i) << 7u32) | (flag(f) << 6u32) | (flag(t) << 5u32) | m;
            &&& bit32(x, 31) == s
            &&& bit32(x, 30) == z
            &&& bit32(x, 29) == c
            &&& bit32(x, 28) == v
            &&& bit32(x, 7) == i
            &&& bit32(x, 6) == f
            &&& bit32(x, 5) == t
            &&& x & 0x1F == m
        }),
        m & 0x1F == m,
{
    assert({
        let x = (flag(s) << 31u32) | (flag(z) << 30u32) | (flag(c) << 29u32) | (flag(v) << 28u32) | (
        flag(i) << 7u32) | (flag(f) << 6u32) | (flag(t) << 5u32) | m;
        &&& (x >> 31u32) & 1 == 1 <==> s
        &&& (x >> 30u32) & 1 == 1 <==> z
        &&& (x >> 29u32) & 1 == 1 <==> c
        &&& (x >> 28u32) & 1 == 1 <==> v
        &&& (x >> 7u32) & 1 == 1 <==> i
        &&& (x >> 6u32) & 1 == 1 <==> f
        &&& (x >> 5u32) & 1 == 1 <==> t
        &&& x & 0x1F == m
        &&& m & 0x1F == m
    }) by (bit_vector)
        requires
            m <= 0x1F,
    ;
}

/// Writing a status register to its PSR value and reading it back gives the same register.
pub proof fn lemma_sr_roundtrip(sr: StatusRegister)
    ensures
        sr_from_u32(sr_to_u32(sr)) == sr,
{
    lemma_psr_bits(
        sr.sign,
        sr.zero,
        sr.carry,
        sr.overflow,
        sr.irq_disabled,
        sr.fiq_disabled,
        sr.state == CpuState::Thumb,
        mode_bits(sr.mode),
    );
}

/// Reading a PSR value into a status register and writing it back keeps the flag, control and
/// mode bits, for every value whose mode bits encode a mode.
pub proof fn lemma_psr_value_roundtrip(value: u32)
    requires
        is_mode_encoding(value),
    ensures
        sr_to_u32(sr_from_u32(value)) == value & PSR_MASK,
{
    let sr = sr_from_u32(value);
    assert(value & PSR_MASK == (flag(bit32(value, 31)) << 31u32) | (flag(bit32(value, 30)) << 30u32)
        | (flag(bit32(value, 29)) << 29u32) | (flag(bit32(value, 28)) << 28u32) | (flag(
        bit32(value, 7),
    ) << 7u32) | (flag(bit32(value, 6)) << 6u32) | (flag(bit32(value, 5)) << 5u32) | (value & 0x1F))
        by (bit_vector);
    assert(mode_bits(cpu_mode_from_bits(value & 0x1F)) == value & 0x1F) by {
        crate::bit_facts::lemma_word_fields(value);
    }
}

impl StatusRegister {
    pub fn to_u32(self) -> (r: u32)
        ensures
            r == sr_to_u32(self),
    {
        let t: u32 = if self.state == CpuState::Thumb {
            1
        } else {
            0
        };
        ((if self.sign { 1u32 } else { 0u32 }) << 31u32) | ((if self.zero { 1u32 } else { 0u32 })
            << 30u32) | ((if self.carry { 1u32 } else { 0u32 }) << 29u32) | ((if self.overflow {
            1u32
        } else {
            0u32
        }) << 28u32) | ((if self.irq_disabled { 1u32 } else { 0u32 }) << 7u32) | ((
        if self.fiq_disabled {
            1u32
        } else {
            0u32
        }) << 6u32) | (t << 5u32) | self.mode.bits()
    }

    pub fn from_u32(value: u32) -> (r: Self)
        ensures
            r == sr_from_u32(value),
    {
        Self {
            sign: (value >> 31u32) & 1 == 1,
            zero: (value >> 30u32) & 1 == 1,
            carry: (value >> 29u32) & 1 == 1,
            overflow: (value >> 28u32) & 1 == 1,
            irq_disabled: (value >> 7u32) & 1 == 1,
            fiq_disabled: (value >> 6u32) & 1 == 1,
            state: CpuState::from_bit((value >> 5u32) & 1 == 1),
            mode: CpuMode::from_bits(value & 0x1F),
        }
    }
}

impl From<StatusRegister> for u32 {
    fn from(value: StatusRegister) -> (r: Self) {
        value.to_u32()
    }
}

impl vstd::std_specs::convert::FromSpecImpl<StatusRegister> for u32 {
    open spec fn obeys_from_spec() -> bool {
        true
    }

    open spec fn from_spec(v: StatusRegister) -> u32 {
        sr_to_u32(v)
    }
}

impl From<u32> for StatusRegister {
    fn from(value: u32) -> (r: Self) {
        Self::from_u32(value)
    }
}

impl vstd::std_specs::convert::FromSpecImpl<u32> for StatusRegister {
    open spec fn obeys_from_spec() -> bool {
        true
    }

    open spec fn from_spec(v: u32) -> StatusRegister {
        sr_from_u32(v)
    }
}

#[derive(Debug, Clone)]
pub struct Registers {
    // "General-purpose" registers; R15 is the program counter
    pub r: [u32; 16],
    // R13 and R14 are banked by mode
    pub r13_usr: u32,
    pub r14_usr: u32,
    pub r13_svc: u32,
    pub r14_svc: u32,
    pub r13_irq: u32,
    pub r14_irq: u32,
    pub r13_und: u32,
    pub r14_und: u32,
    pub r13_fiq: u32,
    pub r14_fiq: u32,
    // R8-R12 are banked only for FIQ vs. non-FIQ
    pub fiq_r_8_12: [u32; 5],
    pub other_r_8_12: [u32; 5],
    // Condition codes and control register
    pub cpsr: StatusRegister,
    // Previous condition codes and control registers, banked by CPU mode (excluding usr)
    pub spsr_svc: StatusRegister,
    pub spsr_irq: StatusRegister,
    pub spsr_und: StatusRegister,
    pub spsr_fiq: StatusRegister,
}

/// The register file as mathematical values.
#[verifier::ext_equal]
pub struct RegistersView {
    pub r: Seq<u32>,
    pub r13_usr: u32,
    pub r14_usr: u32,
    pub r13_svc: u32,
    pub r14_svc: u32,
    pub r13_irq: u32,
    pub r14_irq: u32,
    pub r13_und: u32,
    pub r14_und: u32,
    pub r13_fiq: u32,
    pub r14_fiq: u32,
    pub fiq_r_8_12: Seq<u32>,
    pub other_r_8_12: Seq<u32>,
    pub cpsr: StatusRegister,
    pub spsr_svc: StatusRegister,
    pub spsr_irq: StatusRegister,
    pub spsr_und: StatusRegister,
    pub spsr_fiq: StatusRegister,
}

impl View for Registers {
    type V = RegistersView;

    open spec fn view(&self) -> RegistersView {
        RegistersView {
            r: self.r@,
            r13_usr: self.r13_usr,
            r14_usr: self.r14_usr,
            r13_svc: self.r13_svc,
            r14_svc: self.r14_svc,
            r13_irq: self.r13_irq,
            r14_irq: self.r14_irq,
            r13_und: self.r13_und,
            r14_und: self.r14_und,
            r13_fiq: self.r13_fiq,
            r14_fiq: self.r14_fiq,
            fiq_r_8_12: self.fiq_r_8_12@,
            other_r_8_12: self.other_r_8_12@,
            cpsr: self.cpsr,
            spsr_svc: self.spsr_svc,
            spsr_irq: self.spsr_irq,
            spsr_und: self.spsr_und,
            spsr_fiq: self.spsr_fiq,
        }
    }
}

/// The status register at power-on: flags clear, ARM state, user mode.
pub open spec fn initial_sr() -> StatusRegister {
    StatusRegister {
        sign: false,
        zero: false,
        carry: false,
        overflow: false,
        irq_disabled: false,
        fiq_disabled: false,
        state: CpuState::Arm,
        mode: CpuMode::User,
    }
}

/// A register file with every register zero and every status register at its power-on value.
pub open spec fn zeroed_registers(v: RegistersView) -> bool {
    &&& v.r == Seq::new(16, |i: int| 0u32)
    &&& v.fiq_r_8_12 == Seq::new(5, |i: int| 0u32)
    &&& v.other_r_8_12 == Seq::new(5, |i: int| 0u32)
    &&& v.r13_usr == 0 && v.r14_usr == 0 && v.r13_svc == 0 && v.r14_svc == 0
    &&& v.r13_irq == 0 && v.r14_irq == 0 && v.r13_und == 0 && v.r14_und == 0
    &&& v.r13_fiq == 0 && v.r14_fiq == 0
    &&& v.cpsr == initial_sr() && v.spsr_svc == initial_sr() && v.spsr_irq == initial_sr()
    &&& v.spsr_und == initial_sr() && v.spsr_fiq == initial_sr()
}

impl Registers {
    pub fn new() -> (r: Self)
        ensures
            zeroed_registers(r@),
    {
        let sr = StatusRegister {
            sign: false,
            zero: false,
            carry: false,
            overflow: false,
            irq_disabled: false,
            fiq_disabled: false,
            state: CpuState::Arm,
            mode: CpuMode::User,
        };
        let r = Self {
            r: [0; 16],
            r13_usr: 0,
            r14_usr: 0,
            r13_svc: 0,
            r14_svc: 0,
            r13_irq: 0,
            r14_irq: 0,
            r13_und: 0,
            r14_und: 0,
            r13_fiq: 0,
            r14_fiq: 0,
            fiq_r_8_12: [0; 5],
            other_r_8_12: [0; 5],
            cpsr: sr,
            spsr_svc: sr,
            spsr_irq: sr,
            spsr_und: sr,
            spsr_fiq: sr,
        };
        assert(r.r@ =~= Seq::new(16, |i: int| 0u32));
        assert(r.fiq_r_8_12@ =~= Seq::new(5, |i: int| 0u32));
        assert(r.other_r_8_12@ =~= Seq::new(5, |i: int| 0u32));
        r
    }

    /// Writes visible register `i`.
    pub fn set_r(&mut self, i: usize, value: u32)
        requires
            i < 16,
        ensures
            final(self)@ == (RegistersView { r: old(self)@.r.update(i as int, value), ..old(self)@ }),
    {
        self.r[i] = value;
        assert(self@ =~= RegistersView { r: old(self)@.r.update(i as int, value), ..old(self)@ });
    }

    /// Leaves FIQ mode's R8-R12: saves them in the FIQ bank and makes the shared ones visible.
    fn swap_out_fiq_r8_12(&mut self)
        ensures
            final(self)@ == (RegistersView {
                fiq_r_8_12: old(self)@.r.subrange(8, 13),
                r: with_r8_12(old(self)@.r, old(self)@.other_r_8_12),
                ..old(self)@
            }),
    {
        let ghost v0 = self@;
        let mut i: usize = 0;
        while i < 5
            invariant
                0 <= i <= 5,
                self.r@.len() == 16,
                forall|j: int| 0 <= j < i ==> self.fiq_r_8_12@[j] == v0.r[8 + j],
                forall|j: int| i <= j < 5 ==> self.fiq_r_8_12@[j] == v0.fiq_r_8_12[j],
                forall|j: int| 0 <= j < i ==> self.r@[8 + j] == v0.other_r_8_12[j],
                forall|j: int| 0 <= j < 16 && !(8 <= j < 8 + i) ==> self.r@[j] == v0.r[j],
                self@ == (RegistersView { r: self@.r, fiq_r_8_12: self@.fiq_r_8_12, ..v0 }),
            decreases 5 - i,
        {
            self.fiq_r_8_12[i] = self.r[8 + i];
            self.r[8 + i] = self.other_r_8_12[i];
            i += 1;
        }
        assert(self.fiq_r_8_12@ =~= v0.r.subrange(8, 13));
        assert(self.r@ =~= with_r8_12(v0.r, v0.other_r_8_12));
        assert(self@ =~= RegistersView {
            fiq_r_8_12: v0.r.subrange(8, 13),
            r: with_r8_12(v0.r, v0.other_r_8_12),
            ..v0
        });
    }

    /// Enters FIQ mode's R8-R12: saves the shared ones and makes the FIQ bank visible.
    fn swap_in_fiq_r8_12(&mut self)
        ensures
            final(self)@ == (RegistersView {
                other_r_8_12: old(self)@.r.subrange(8, 13),
                r: with_r8_12(old(self)@.r, old(self)@.fiq_r_8_12),
                ..old(self)@
            }),
    {
        let ghost v0 = self@;
        let mut i: usize = 0;
        while i < 5
            invariant
                0 <= i <= 5,
                self.r@.len() == 16,
                forall|j: int| 0 <= j < i ==> self.other_r_8_12@[j] == v0.r[8 + j],
                forall|j: int| i <= j < 5 ==> self.other_r_8_12@[j] == v0.other_r_8_12[j],
                forall|j: int| 0 <= j < i ==> self.r@[8 + j] == v0.fiq_r_8_12[j],
                forall|j: int| 0 <= j < 16 && !(8 <= j < 8 + i) ==> self.r@[j] == v0.r[j],
                self@ == (RegistersView { r: self@.r, other_r_8_12: self@.other_r_8_12, ..v0 }),
            decreases 5 - i,
        {
            self.other_r_8_12[i] = self.r[8 + i];
            self.r[8 + i] = self.fiq_r_8_12[i];
            i += 1;
        }
        assert(self.other_r_8_12@ =~= v0.r.subrange(8, 13));
        assert(self.r@ =~= with_r8_12(v0.r, v0.fiq_r_8_12));
        assert(self@ =~= RegistersView {
            other_r_8_12: v0.r.subrange(8, 13),
            r: with_r8_12(v0.r, v0.fiq_r_8_12),
            ..v0
        });
    }

    /// Banks the registers of the mode being left.
    pub fn bank_out(&mut self, mode: CpuMode)
        ensures
            final(self)@ == bank_out(old(self)@, mode),
    {
        let ghost v0 = self@;
        let (a, b) = (self.r[13], self.r[14]);
        match mode {
            CpuMode::User | CpuMode::System => {
                *self = Registers { r13_usr: a, r14_usr: b, ..*self };
            },
            CpuMode::Supervisor => {
                *self = Registers { r13_svc: a, r14_svc: b, ..*self };
            },
            CpuMode::Irq => {
                *self = Registers { r13_irq: a, r14_irq: b, ..*self };
            },
            CpuMode::Undefined => {
                *self = Registers { r13_und: a, r14_und: b, ..*self };
            },
            CpuMode::Fiq => {
                *self = Registers { r13_fiq: a, r14_fiq: b, ..*self };
                // Bank and update R8-12 if switching out of FIQ mode
                self.swap_out_fiq_r8_12();
                assert(self@ =~= bank_out(v0, mode));
            },
            _ => {
                assert(self@ =~= v0);
            },
        }
    }

    /// Makes the registers of the mode being entered visible.
    pub fn bank_in(&mut self, mode: CpuMode)
        ensures
            final(self)@ == bank_in(old(self)@, mode),
    {
        match mode {
            CpuMode::User | CpuMode::System => {
                let (a, b) = (self.r13_usr, self.r14_usr);
                self.set_r(13, a);
                self.set_r(14, b);
            },
            CpuMode::Supervisor => {
                let (a, b) = (self.r13_svc, self.r14_svc);
                self.set_r(13, a);
                self.set_r(14, b);
            },
            CpuMode::Irq => {
                let (a, b) = (self.r13_irq, self.r14_irq);
                self.set_r(13, a);
                self.set_r(14, b);
            },
            CpuMode::Undefined => {
                let (a, b) = (self.r13_und, self.r14_und);
                self.set_r(13, a);
                self.set_r(14, b);
            },
            CpuMode::Fiq => {
                // Bank and update R8-12 if switching into FIQ mode
                self.swap_in_fiq_r8_12();
                let (a, b) = (self.r13_fiq, self.r14_fiq);
                self.set_r(13, a);
                self.set_r(14, b);
            },
            _ => {},
        }
        assert(self@ =~= bank_in(old(self)@, mode));
    }
}

/// The saved status register of a mode; user, system, abort and the illegal mode have none here.
pub open spec fn spsr_of(v: RegistersView, mode: CpuMode) -> Option<StatusRegister> {
    match mode {
        CpuMode::Irq => Some(v.spsr_irq),
        CpuMode::Fiq => Some(v.spsr_fiq),
        CpuMode::Supervisor => Some(v.spsr_svc),
        CpuMode::Undefined => Some(v.spsr_und),
        _ => None,
    }
}

/// The register file with the saved status register of a mode replaced (no change for a mode
/// without one).
pub open spec fn with_spsr(v: RegistersView, mode: CpuMode, sr: StatusRegister) -> RegistersView {
    match mode {
        CpuMode::Irq => RegistersView { spsr_irq: sr, ..v },
        CpuMode::Fiq => RegistersView { spsr_fiq: sr, ..v },
        CpuMode::Supervisor => RegistersView { spsr_svc: sr, ..v },
        CpuMode::Undefined => RegistersView { spsr_und: sr, ..v },
        _ => v,
    }
}

/// The register file with R8-R12 replaced by five values.
pub open spec fn with_r8_12(r: Seq<u32>, five: Seq<u32>) -> Seq<u32> {
    Seq::new(16, |i: int| if 8 <= i < 13 { five[i - 8] } else { r[i] })
}

/// Leaving a mode: its banked registers are saved, and leaving FIQ mode restores the shared
/// R8-R12.
pub open spec fn bank_out(v: RegistersView, mode: CpuMode) -> RegistersView {
    match mode {
        CpuMode::User | CpuMode::System => RegistersView { r13_usr: v.r[13], r14_usr: v.r[14], ..v },
        CpuMode::Supervisor => RegistersView { r13_svc: v.r[13], r14_svc: v.r[14], ..v },
        CpuMode::Irq => RegistersView { r13_irq: v.r[13], r14_irq: v.r[14], ..v },
        CpuMode::Undefined => RegistersView { r13_und: v.r[13], r14_und: v.r[14], ..v },
        CpuMode::Fiq => RegistersView {
            r13_fiq: v.r[13],
            r14_fiq: v.r[14],
            fiq_r_8_12: v.r.subrange(8, 13),
            r: with_r8_12(v.r, v.other_r_8_12),
            ..v
        },
        _ => v,
    }
}

/// Entering a mode: its banked registers become visible, and entering FIQ mode saves the shared
/// R8-R12.
pub open spec fn bank_in(v: RegistersView, mode: CpuMode) -> RegistersView {
    match mode {
        CpuMode::User | CpuMode::System => RegistersView {
            r: v.r.update(13, v.r13_usr).update(14, v.r14_usr),
            ..v
        },
        CpuMode::Supervisor => RegistersView {
            r: v.r.update(13, v.r13_svc).update(14, v.r14_svc),
            ..v
        },
        CpuMode::Irq => RegistersView { r: v.r.update(13, v.r13_irq).update(14, v.r14_irq), ..v },
        CpuMode::Undefined => RegistersView {
            r: v.r.update(13, v.r13_und).update(14, v.r14_und),
            ..v
        },
        CpuMode::Fiq => RegistersView {
            other_r_8_12: v.r.subrange(8, 13),
            r: with_r8_12(v.r, v.fiq_r_8_12).update(13, v.r13_fiq).update(14, v.r14_fiq),
            ..v
        },
        _ => v,
    }
}

/// The register file after a mode change: nothing changes when the mode stays; otherwise the
/// old mode's registers are banked, the new mode's become visible and CPSR takes the new mode.
pub open spec fn change_mode_spec(v: RegistersView, new_mode: CpuMode) -> RegistersView {
    if new_mode == v.cpsr.mode {
        v
    } else {
        let w = bank_in(bank_out(v, v.cpsr.mode), new_mode);
        RegistersView { cpsr: StatusRegister { mode: new_mode, ..w.cpsr }, ..w }
    }
}

/// A mode that has its own R13 and R14 (user and system share theirs).
pub open spec fn is_banked_mode(mode: CpuMode) -> bool {
    mode != CpuMode::Abort && mode != CpuMode::Illegal
}

/// The register file is well formed: 16 visible registers and two sets of 5 for R8-R12.
pub open spec fn registers_wf(v: RegistersView) -> bool {
    v.r.len() == 16 && v.fiq_r_8_12.len() == 5 && v.other_r_8_12.len() == 5
}

/// Switching to another mode and back leaves the visible registers and CPSR as they were.
pub proof fn lemma_change_mode_round_trip(v: RegistersView, mode: CpuMode)
    requires
        registers_wf(v),
        is_banked_mode(v.cpsr.mode),
        is_banked_mode(mode),
    ensures
        change_mode_spec(change_mode_spec(v, mode), v.cpsr.mode).r == v.r,
        change_mode_spec(change_mode_spec(v, mode), v.cpsr.mode).cpsr == v.cpsr,
{
    let w = change_mode_spec(v, mode);
    let x = change_mode_spec(w, v.cpsr.mode);
    if mode != v.cpsr.mode {
        assert(x.r =~= v.r);
    }
}

/// CPSR after restoring it from the current mode's SPSR (with the mode change that implies);
/// unchanged in a mode without an SPSR.
pub open spec fn spsr_restore(v: RegistersView) -> RegistersView {
    match spsr_of(v, v.cpsr.mode) {
        Some(spsr) => RegistersView { cpsr: spsr, ..change_mode_spec(v, spsr.mode) },
        None => v,
    }
}

/// The register file after an MSR-style write of CPSR: outside user mode the whole register
/// (with the mode change it implies); in user mode only the condition flags.
pub open spec fn write_cpsr_spec(v: RegistersView, value: u32) -> RegistersView {
    if v.cpsr.mode != CpuMode::User {
        RegistersView {
            cpsr: sr_from_u32(value),
            ..change_mode_spec(v, cpu_mode_from_bits(value))
        }
    } else {
        write_cpsr_flags_spec(v, value)
    }
}

/// The register file with the N, Z, C and V flags of CPSR taken from a PSR value.
pub open spec fn write_cpsr_flags_spec(v: RegistersView, value: u32) -> RegistersView {
    RegistersView {
        cpsr: StatusRegister {
            sign: bit32(value, 31),
            zero: bit32(value, 30),
            carry: bit32(value, 29),
            overflow: bit32(value, 28),
            ..v.cpsr
        },
        ..v
    }
}

#[derive(Debug, Clone, Copy, PartialEq, Eq, Structural)]
pub enum Exception {
    Reset,
    UndefinedInstruction,
    SoftwareInterrupt,
    Irq,
}

pub open spec fn vector_address_spec(exception: Exception) -> u32 {
    match exception {
        Exception::Reset => 0x00,
        Exception::UndefinedInstruction => 0x04,
        Exception::SoftwareInterrupt => 0x08,
        Exception::Irq => 0x18,
    }
}

pub open spec fn exception_mode(exception: Exception) -> CpuMode {
    match exception {
        Exception::Reset | Exception::SoftwareInterrupt => CpuMode::Supervisor,
        Exception::UndefinedInstruction => CpuMode::Undefined,
        Exception::Irq => CpuMode::Irq,
    }
}

/// R14 on exception entry, from R15 as it was before the last opcode fetch (PC+8 in ARM state,
/// PC+4 in Thumb state).
pub open spec fn return_address_spec(exception: Exception, state: CpuState, r15: u32) -> u32 {
    match state {
        CpuState::Arm => r15.wrapping_sub(4),
        CpuState::Thumb => match exception {
            Exception::UndefinedInstruction | Exception::SoftwareInterrupt => r15.wrapping_sub(2),
            _ => r15,
        },
    }
}

impl Exception {
    pub fn vector_address(self) -> (r: u32)
        ensures
            r == vector_address_spec(self),
    {
        match self {
            Self::Reset => 0x00,
            Self::UndefinedInstruction => 0x04,
            Self::SoftwareInterrupt => 0x08,
            Self::Irq => 0x18,
        }
    }

    pub fn new_mode(self) -> (r: CpuMode)
        ensures
            r == exception_mode(self),
    {
        match self {
            Self::Reset | Self::SoftwareInterrupt => CpuMode::Supervisor,
            Self::UndefinedInstruction => CpuMode::Undefined,
            Self::Irq => CpuMode::Irq,
        }
    }

    pub fn return_address(self, state: CpuState, r15: u32) -> (r: u32)
        ensures
            r == return_address_spec(self, state, r15),
    {
        // R15 is PC+8 for ARM and PC+4 for Thumb
        match state {
            // ARM R14 is always PC+4 except for Data abort, which is not emulated
            CpuState::Arm => r15.wrapping_sub(4),
            CpuState::Thumb => match self {
                // Thumb R14 is PC+2 for SWI and Undefined
                Self::UndefinedInstruction | Self::SoftwareInterrupt => r15.wrapping_sub(2),
                // Thumb R14 is PC+4 for IRQ; the Reset value is never written
                _ => r15,
            },
        }
    }
}

/// The register file on entry to an exception handler (before the pipeline is refilled): the
/// handler's mode is entered in ARM state, R14 holds the return address and the mode's SPSR the
/// old CPSR (neither for Reset), IRQs are disabled (and FIQs on Reset), and R15 holds the vector.
pub open spec fn exception_entry(v: RegistersView, prev_r15: u32, exception: Exception) -> RegistersView {
    let mode = exception_mode(exception);
    let v1 = change_mode_spec(v, mode);
    let v2 = RegistersView { cpsr: StatusRegister { state: CpuState::Arm, ..v1.cpsr }, ..v1 };
    let v3 = if exception != Exception::Reset {
        with_spsr(
            RegistersView {
                r: v2.r.update(14, return_address_spec(exception, v.cpsr.state, prev_r15)),
                ..v2
            },
            mode,
            v.cpsr,
        )
    } else {
        v2
    };
    let v4 = RegistersView {
        cpsr: StatusRegister {
            irq_disabled: true,
            fiq_disabled: if exception == Exception::Reset {
                true
            } else {
                v3.cpsr.fiq_disabled
            },
            ..v3.cpsr
        },
        ..v3
    };
    RegistersView { r: v4.r.update(15, vector_address_spec(exception)), ..v4 }
}

pub struct Arm7TdmiResetArgs {
    pub pc: u32,
    pub sp_usr: u32,
    pub sp_svc: u32,
    pub sp_irq: u32,
    pub sp_fiq: u32,
    pub mode: CpuMode,
}

/// The ARM7TDMI CPU. Alongside its state it keeps a ghost record of its opcode fetches and IRQ
/// line samples, in order.
#[derive(Clone)]
pub struct Arm7Tdmi {
    pub registers: Registers,
    pub prefetch: [u32; 2],
    pub fetch_cycle: MemoryCycle,
    pub prev_r15: u32,
    pub bus_log: Ghost<Seq<BusEvent>>,
}

/// The IRQ line sample taken before an instruction: none while IRQs are disabled.
pub open spec fn irq_sample(cpu: Arm7Tdmi, line: bool) -> Seq<BusEvent> {
    if cpu.registers.cpsr.irq_disabled {
        Seq::empty()
    } else {
        seq![BusEvent::IrqLine(line)]
    }
}

/// The two opcode fetches of a pipeline refill at `pc` in a state: the first non-sequential,
/// the second sequential, one opcode further; their opcodes are the pipeline afterwards.
pub open spec fn refill_fetches(new: Arm7Tdmi, pc: u32, state: CpuState) -> Seq<BusEvent> {
    seq![
        BusEvent::OpcodeFetch { address: pc, cycle: MemoryCycle::N, value: new.prefetch[0] },
        BusEvent::OpcodeFetch {
            address: pc.wrapping_add(opcode_len(state)),
            cycle: MemoryCycle::S,
            value: new.prefetch[1],
        },
    ]
}

/// R15 with the bits below the opcode alignment of the state cleared.
pub open spec fn aligned_pc(pc: u32, state: CpuState) -> u32 {
    match state {
        CpuState::Arm => pc & 0xFFFF_FFFC,
        CpuState::Thumb => pc & 0xFFFF_FFFE,
    }
}

/// After a pipeline refill from the register file `v`: R15 is aligned and two opcodes past its
/// aligned value, the R15 of the last fetch is one opcode past it, the next fetch is sequential
/// and every other register is as in `v`.
pub open spec fn refilled(new: Arm7Tdmi, v: RegistersView) -> bool {
    let len = opcode_len(v.cpsr.state);
    let pc = aligned_pc(v.r[15], v.cpsr.state);
    &&& new.registers@ == RegistersView { r: v.r.update(15, pc.wrapping_add(len).wrapping_add(len)), ..v }
    &&& new.prev_r15 == pc.wrapping_add(len)
    &&& new.fetch_cycle == MemoryCycle::S
}

/// The register file becomes `v` and the pipeline is untouched (the bus record is left to the
/// caller).
pub open spec fn pipeline_kept(new: Arm7Tdmi, old: Arm7Tdmi, v: RegistersView) -> bool {
    &&& new.registers@ == v
    &&& new.prefetch@ == old.prefetch@
    &&& new.fetch_cycle == old.fetch_cycle
    &&& new.prev_r15 == old.prev_r15
}

/// The register file becomes `v`, the pipeline is untouched and the bus is not used.
pub open spec fn continued(new: Arm7Tdmi, old: Arm7Tdmi, v: RegistersView) -> bool {
    &&& pipeline_kept(new, old, v)
    &&& new.bus_log == old.bus_log
}

/// The register file becomes `v`; when R15 was written the pipeline is refilled from it.
pub open spec fn written(new: Arm7Tdmi, old: Arm7Tdmi, v: RegistersView, pc_written: bool) -> bool {
    if pc_written {
        refilled(new, v)
    } else {
        continued(new, old, v)
    }
}

/// After one opcode fetch: the fetched opcode moves up the pipeline, R15 advances by one opcode
/// and the next fetch is sequential.
pub open spec fn fetched(new: Arm7Tdmi, old: Arm7Tdmi) -> bool {
    let len = opcode_len(old.registers.cpsr.state);
    &&& new.registers@ == RegistersView {
        r: old.registers@.r.update(15, old.registers.r[15].wrapping_add(len)),
        ..old.registers@
    }
    &&& new.prev_r15 == old.registers.r[15]
    &&& new.prefetch[0] == old.prefetch[1]
    &&& new.fetch_cycle == MemoryCycle::S
}

/// Register `r` as an instruction reads it: R15 reads as it was before the last opcode fetch.
pub open spec fn read_register_spec(cpu: Arm7Tdmi, r: int) -> u32 {
    if r == 15 {
        cpu.prev_r15
    } else {
        cpu.registers.r[r]
    }
}

impl Default for Arm7Tdmi {
    fn default() -> (r: Self)
        ensures
            zeroed_registers(r.registers@),
            r.prefetch@ == seq![0u32, 0u32],
            r.fetch_cycle == MemoryCycle::N,
            r.prev_r15 == 0,
    {
        Self::new()
    }
}

impl Arm7Tdmi {
    pub fn new() -> (r: Self)
        ensures
            zeroed_registers(r.registers@),
            r.prefetch@ == seq![0u32, 0u32],
            r.fetch_cycle == MemoryCycle::N,
            r.prev_r15 == 0,
    {
        let r = Self {
            registers: Registers::new(),
            prefetch: [0, 0],
            fetch_cycle: MemoryCycle::N,
            prev_r15: 0,
            bus_log: Ghost(Seq::empty()),
        };
        assert(r.prefetch@ =~= seq![0u32, 0u32]);
        r
    }

    /// Takes the reset exception: supervisor mode, ARM state, interrupts disabled, PC at 0.
    pub fn reset<B: BusInterface>(&mut self, bus: &mut B)
        ensures
            refilled(
                *final(self),
                exception_entry(old(self).registers@, old(self).prev_r15, Exception::Reset),
            ),
            final(self).bus_log@ == old(self).bus_log@ + seq![
                BusEvent::OpcodeFetch { address: 0, cycle: MemoryCycle::N, value: final(self).prefetch[0] },
                BusEvent::OpcodeFetch { address: 4, cycle: MemoryCycle::S, value: final(self).prefetch[1] },
            ],
    {
        self.handle_exception(Exception::Reset, bus);
        assert(0u32.wrapping_add(4) == 4);
    }

    /// Resets the registers as a BIOS would leave them, then fills the pipeline.
    pub fn manual_reset<B: BusInterface>(&mut self, args: Arm7TdmiResetArgs, bus: &mut B)
        ensures
            ({
                let v = final(self).registers@;
                &&& v.r[13] == args.sp_usr
                &&& v.r[14] == args.pc
                &&& forall|i: int| 0 <= i < 13 ==> v.r[i] == 0
                &&& v.r[15] == (args.pc & 0xFFFF_FFFC).wrapping_add(8)
                &&& final(self).prev_r15 == (args.pc & 0xFFFF_FFFC).wrapping_add(4)
                &&& v.r13_svc == args.sp_svc
                &&& v.r13_irq == args.sp_irq
                &&& v.r13_fiq == args.sp_fiq
                &&& v.cpsr == StatusRegister { mode: args.mode, ..initial_sr() }
                &&& v.spsr_svc == sr_from_u32(0)
                &&& v.spsr_irq == sr_from_u32(0)
                &&& v.r13_usr == 0 && v.r14_usr == 0 && v.r14_svc == 0 && v.r14_irq == 0
                &&& v.r13_und == 0 && v.r14_und == 0 && v.r14_fiq == 0
                &&& v.fiq_r_8_12 == Seq::new(5, |i: int| 0u32)
                &&& v.other_r_8_12 == Seq::new(5, |i: int| 0u32)
                &&& v.spsr_und == initial_sr() && v.spsr_fiq == initial_sr()
                &&& final(self).fetch_cycle == MemoryCycle::S
            }),
            final(self).bus_log@ == old(self).bus_log@ + refill_fetches(
                *final(self),
                args.pc & 0xFFFF_FFFC,
                CpuState::Arm,
            ),
    {
        self.registers = Registers::new();
        self.registers.r[14] = args.pc;
        self.registers.r[15] = args.pc;
        self.registers.r[13] = args.sp_usr;
        self.registers.r13_svc = args.sp_svc;
        self.registers.r13_irq = args.sp_irq;
        self.registers.r13_fiq = args.sp_fiq;
        self.registers.cpsr = StatusRegister {
            sign: false,
            zero: false,
            carry: false,
            overflow: false,
            irq_disabled: false,
            fiq_disabled: false,
            state: CpuState::Arm,
            mode: args.mode,
        };
        self.registers.spsr_svc = StatusRegister::from_u32(0);
        self.registers.spsr_irq = StatusRegister::from_u32(0);

        self.refill_prefetch(bus);
    }

    /// Executes the opcode at the head of the pipeline (fetching the next one first), or takes
    /// a pending IRQ instead when IRQs are enabled. When no IRQ is taken and the opcode is one
    /// whose execution is refused (`arm_opcode_unsupported`, with its condition holding), nothing
    /// but the IRQ sample happens and `false` is returned; otherwise `true`.
    pub fn execute_instruction<B: BusInterface>(&mut self, bus: &mut B) -> (executed: bool)
        ensures
            !executed ==> exists|line: bool|
                !(!old(self).registers.cpsr.irq_disabled && line) && *final(self) == (Arm7Tdmi {
                    bus_log: Ghost(old(self).bus_log@ + #[trigger] irq_sample(*old(self), line)),
                    ..*old(self)
                }) && old(self).registers.cpsr.state == CpuState::Arm && instructions::condition_holds(
                    instructions::condition_from_bits(old(self).prefetch[0] >> 28u32),
                    old(self).registers.cpsr,
                ) && instructions::arm_opcode_unsupported(old(self).prefetch[0]),
            executed ==> exists|line: bool, mid: Arm7Tdmi|
                #![trigger fetched(mid, *old(self)), irq_sample(*old(self), line)]
                fetched(mid, *old(self)) && mid.bus_log@ == old(self).bus_log@ + irq_sample(
                    *old(self),
                    line,
                ) + seq![
                    BusEvent::OpcodeFetch {
                        address: old(self).registers.r[15],
                        cycle: old(self).fetch_cycle,
                        value: mid.prefetch[1],
                    },
                ] && (!old(self).registers.cpsr.irq_disabled && line ==> refilled(
                    *final(self),
                    exception_entry(mid.registers@, mid.prev_r15, Exception::Irq),
                ) && final(self).bus_log@ == mid.bus_log@ + refill_fetches(
                    *final(self),
                    0x18,
                    CpuState::Arm,
                )) && (!(!old(self).registers.cpsr.irq_disabled && line) ==> instructions::executed(
                    *final(self),
                    mid,
                    old(self).prefetch[0],
                )),
    {
        let irq = if self.registers.cpsr.irq_disabled {
            false
        } else {
            let line = bus.irq();
            self.bus_log = Ghost(self.bus_log@.push(BusEvent::IrqLine(line)));
            line
        };
        let ghost sampled = *self;
        if !irq && self.registers.cpsr.state == CpuState::Arm
            && instructions::Condition::from_arm_opcode(self.prefetch[0]).check(self.registers.cpsr)
            && instructions::arm_opcode_is_unsupported(self.prefetch[0]) {
            assert(sampled.bus_log@ =~= old(self).bus_log@ + irq_sample(*old(self), irq));
            return false;
        }
        self.step(irq, bus);
        proof {
            let mid = choose|mid: Arm7Tdmi|
                #[trigger] fetched(mid, sampled) && mid.bus_log@ == sampled.bus_log@.push(
                    BusEvent::OpcodeFetch {
                        address: sampled.registers.r[15],
                        cycle: sampled.fetch_cycle,
                        value: mid.prefetch[1],
                    },
                ) && (irq ==> refilled(
                    *self,
                    exception_entry(mid.registers@, mid.prev_r15, Exception::Irq),
                ) && self.bus_log@ == mid.bus_log@ + refill_fetches(*self, 0x18, CpuState::Arm)) && (
                !irq ==> instructions::executed(*self, mid, sampled.prefetch[0]));
            assert(sampled.bus_log@ =~= old(self).bus_log@ + irq_sample(*old(self), irq));
            assert(mid.bus_log@ =~= old(self).bus_log@ + irq_sample(*old(self), irq) + seq![
                BusEvent::OpcodeFetch {
                    address: old(self).registers.r[15],
                    cycle: old(self).fetch_cycle,
                    value: mid.prefetch[1],
                },
            ]);
            assert(fetched(mid, *old(self)));
            assert(irq_sample(*old(self), irq) == irq_sample(*old(self), irq));
        }
        true
    }

    /// Executes the opcode at the head of the pipeline (fetching the next one first), or, when
    /// an IRQ is requested (`irq`), fetches and then takes the IRQ exception instead.
    pub fn step<B: BusInterface>(&mut self, irq: bool, bus: &mut B)
        requires
            !irq && old(self).registers.cpsr.state == CpuState::Arm && instructions::condition_holds(
                instructions::condition_from_bits(old(self).prefetch[0] >> 28u32),
                old(self).registers.cpsr,
            ) ==> !instructions::arm_opcode_unsupported(old(self).prefetch[0]),
        ensures
            exists|mid: Arm7Tdmi|
                #[trigger] fetched(mid, *old(self)) && mid.bus_log@ == old(self).bus_log@.push(
                    BusEvent::OpcodeFetch {
                        address: old(self).registers.r[15],
                        cycle: old(self).fetch_cycle,
                        value: mid.prefetch[1],
                    },
                ) && (irq ==> refilled(
                    *final(self),
                    exception_entry(mid.registers@, mid.prev_r15, Exception::Irq),
                ) && final(self).bus_log@ == mid.bus_log@ + refill_fetches(
                    *final(self),
                    0x18,
                    CpuState::Arm,
                )) && (!irq ==> instructions::executed(*final(self), mid, old(self).prefetch[0])),
    {
        let opcode = self.prefetch[0];
        self.fetch_opcode(bus);
        let ghost mid = *self;

        if irq {
            self.handle_exception(Exception::Irq, bus);
            return;
        }

        match self.registers.cpsr.state {
            CpuState::Arm => self.execute_arm_opcode(opcode, bus),
            CpuState::Thumb => self.execute_thumb_opcode((opcode & 0xFFFF) as u16, bus),
        }
        proof {
            crate::bit_facts::lemma_word_fields(opcode);
        }
    }

    pub fn refill_prefetch<B: BusInterface>(&mut self, bus: &mut B)
        ensures
            refilled(*final(self), old(self).registers@),
            final(self).bus_log@ == old(self).bus_log@ + refill_fetches(
                *final(self),
                aligned_pc(old(self).registers.r[15], old(self).registers.cpsr.state),
                old(self).registers.cpsr.state,
            ),
    {
        self.fetch_cycle = MemoryCycle::N;

        match self.registers.cpsr.state {
            CpuState::Arm => {
                let pc = self.registers.r[15] & 0xFFFF_FFFC;
                self.registers.set_r(15, pc);
                self.fetch_opcode_state(true, bus);
                self.fetch_opcode_state(true, bus);
            },
            CpuState::Thumb => {
                let pc = self.registers.r[15] & 0xFFFF_FFFE;
                self.registers.set_r(15, pc);
                self.fetch_opcode_state(false, bus);
                self.fetch_opcode_state(false, bus);
            },
        }
        assert(self.registers@ =~= RegistersView {
            r: old(self).registers@.r.update(
                15,
                aligned_pc(old(self).registers.r[15], old(self).registers.cpsr.state).wrapping_add(
                    opcode_len(old(self).registers.cpsr.state),
                ).wrapping_add(opcode_len(old(self).registers.cpsr.state)),
            ),
            ..old(self).registers@
        });        assert(self.bus_log@ =~= old(self).bus_log@ + refill_fetches(
            *self,
            aligned_pc(old(self).registers.r[15], old(self).registers.cpsr.state),
            old(self).registers.cpsr.state,
        ));
    }

    pub fn fetch_opcode<B: BusInterface>(&mut self, bus: &mut B)
        ensures
            fetched(*final(self), *old(self)),
            final(self).bus_log@ == old(self).bus_log@.push(BusEvent::OpcodeFetch {
                address: old(self).registers.r[15],
                cycle: old(self).fetch_cycle,
                value: final(self).prefetch[1],
            }),
    {
        match self.registers.cpsr.state {
            CpuState::Arm => self.fetch_opcode_state(true, bus),
            CpuState::Thumb => self.fetch_opcode_state(false, bus),
        }
    }

    /// Fetches one opcode (a word when `arm`, else a halfword) at R15 and advances R15 past it.
    pub fn fetch_opcode_state<B: BusInterface>(&mut self, arm: bool, bus: &mut B)
        ensures
            final(self).registers@ == (RegistersView {
                r: old(self).registers@.r.update(
                    15,
                    old(self).registers.r[15].wrapping_add(if arm { 4u32 } else { 2u32 }),
                ),
                ..old(self).registers@
            }),
            final(self).prev_r15 == old(self).registers.r[15],
            final(self).prefetch[0] == old(self).prefetch[1],
            final(self).fetch_cycle == MemoryCycle::S,
            final(self).bus_log@ == old(self).bus_log@.push(BusEvent::OpcodeFetch {
                address: old(self).registers.r[15],
                cycle: old(self).fetch_cycle,
                value: final(self).prefetch[1],
            }),
    {
        let fetch_cycle = self.fetch_cycle;
        self.fetch_cycle = MemoryCycle::S;
        self.prev_r15 = self.registers.r[15];

        self.prefetch[0] = self.prefetch[1];
        if arm {
            self.prefetch[1] = bus.fetch_opcode_word(self.registers.r[15], fetch_cycle);
            let pc = self.registers.r[15].wrapping_add(4);
            self.registers.set_r(15, pc);
        } else {
            // Thumb
            self.prefetch[1] = bus.fetch_opcode_halfword(self.registers.r[15], fetch_cycle) as u32;
            let pc = self.registers.r[15].wrapping_add(2);
            self.registers.set_r(15, pc);
        }
        self.bus_log = Ghost(self.bus_log@.push(BusEvent::OpcodeFetch {
            address: old(self).registers.r[15],
            cycle: fetch_cycle,
            value: self.prefetch[1],
        }));
    }

    pub fn write_cpsr(&mut self, value: u32)
        ensures
            continued(*final(self), *old(self), write_cpsr_spec(old(self).registers@, value)),
    {
        if self.registers.cpsr.mode != CpuMode::User {
            let new_mode = CpuMode::from_bits(value);
            self.change_mode(new_mode);

            self.registers.cpsr = StatusRegister::from_u32(value);
        } else {
            // Only condition codes can be modified in user mode
            self.write_cpsr_flags(value);
        }
    }

    pub fn write_cpsr_flags(&mut self, value: u32)
        ensures
            continued(*final(self), *old(self), write_cpsr_flags_spec(old(self).registers@, value)),
    {
        let new_cpsr = StatusRegister::from_u32(value);
        self.registers.cpsr = StatusRegister {
            sign: new_cpsr.sign,
            zero: new_cpsr.zero,
            carry: new_cpsr.carry,
            overflow: new_cpsr.overflow,
            ..self.registers.cpsr
        };
    }

    /// The saved status register of the current mode, if it has one.
    pub fn current_spsr(&self) -> (r: Option<StatusRegister>)
        ensures
            r == spsr_of(self.registers@, self.registers.cpsr.mode),
    {
        match self.registers.cpsr.mode {
            CpuMode::Irq => Some(self.registers.spsr_irq),
            CpuMode::Fiq => Some(self.registers.spsr_fiq),
            CpuMode::Supervisor => Some(self.registers.spsr_svc),
            CpuMode::Undefined => Some(self.registers.spsr_und),
            _ => None,
        }
    }

    /// Replaces the saved status register of a mode (nothing for a mode without one).
    pub fn set_spsr(&mut self, mode: CpuMode, value: StatusRegister)
        ensures
            continued(*final(self), *old(self), with_spsr(old(self).registers@, mode, value)),
    {
        match mode {
            CpuMode::Irq => self.registers.spsr_irq = value,
            CpuMode::Fiq => self.registers.spsr_fiq = value,
            CpuMode::Supervisor => self.registers.spsr_svc = value,
            CpuMode::Undefined => self.registers.spsr_und = value,
            _ => {},
        }
    }

    pub fn spsr_to_cpsr(&mut self)
        ensures
            continued(*final(self), *old(self), spsr_restore(old(self).registers@)),
    {
        let spsr = match self.current_spsr() {
            Some(spsr) => spsr,
            None => {
                return;
            },
        };

        self.change_mode(spsr.mode);
        self.registers.cpsr = spsr;
    }

    pub fn change_mode(&mut self, new_mode: CpuMode)
        ensures
            continued(*final(self), *old(self), change_mode_spec(old(self).registers@, new_mode)),
    {
        if new_mode == self.registers.cpsr.mode {
            return;
        }
        let old_mode = self.registers.cpsr.mode;
        // Bank R13 and R14, as well as R8-12 if changing out of FIQ mode
        self.registers.bank_out(old_mode);
        // Update R13 and R14 to banked values, as well as R8-12 if switching into FIQ mode
        self.registers.bank_in(new_mode);
        self.registers.cpsr.mode = new_mode;
    }

    #[verifier::rlimit(40)]
    pub fn handle_exception<B: BusInterface>(&mut self, exception: Exception, bus: &mut B)
        ensures
            refilled(
                *final(self),
                exception_entry(old(self).registers@, old(self).prev_r15, exception),
            ),
            final(self).bus_log@ == old(self).bus_log@ + refill_fetches(
                *final(self),
                vector_address_spec(exception),
                CpuState::Arm,
            ),
    {
        let old_cpsr = self.registers.cpsr;

        let mode = exception.new_mode();
        self.change_mode(mode);
        self.registers.cpsr.state = CpuState::Arm;

        if exception != Exception::Reset {
            let lr = exception.return_address(old_cpsr.state, self.prev_r15);
            self.registers.set_r(14, lr);
            self.set_spsr(mode, old_cpsr);
        }

        self.registers.cpsr.irq_disabled = true;
        if exception == Exception::Reset {
            self.registers.cpsr.fiq_disabled = true;
        }

        let vector = exception.vector_address();
        self.registers.set_r(15, vector);
        assert(self.registers@ =~= exception_entry(old(self).registers@, old(self).prev_r15, exception));
        assert(aligned_pc(vector, CpuState::Arm) == vector) by {
            assert(vector == 0 || vector == 4 || vector == 8 || vector == 0x18);
            assert(0u32 & 0xFFFF_FFFC == 0 && 4u32 & 0xFFFF_FFFC == 4 && 8u32 & 0xFFFF_FFFC == 8
                && 0x18u32 & 0xFFFF_FFFC == 0x18) by (bit_vector);
        }
        self.refill_prefetch(bus);
    }

    /// Reads a register as an instruction sees it (R15 as before the last opcode fetch).
    pub fn read_register(&self, r: u32) -> (v: u32)
        requires
            r < 16,
        ensures
            v == read_register_spec(*self, r as int),
    {
        if r == 15 {
            // Return R15 from before the opcode fetch
            self.prev_r15
        } else {
            self.registers.r[r as usize]
        }
    }
}

} // verus!
