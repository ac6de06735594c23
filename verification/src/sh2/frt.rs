//! SH-2 free-running timer
use vstd::prelude::*;

verus! {

#[derive(Debug, Clone, Copy, PartialEq, Eq, Structural)]
pub enum CompareRegister {
    A,
    B,
}

impl CompareRegister {
    fn from_bit(bit: bool) -> (r: Self)
        ensures
            r == (if bit { CompareRegister::B } else { CompareRegister::A }),
    {
        if bit {
            Self::B
        } else {
            Self::A
        }
    }
}

#[derive(Debug, Clone, Copy, PartialEq, Eq, Structural)]
pub enum ClockSource {
    InternalDiv8,
    InternalDiv32,
    InternalDiv128,
    External,
}

pub open spec fn clock_source_spec(byte: u8) -> ClockSource {
    match byte & 3 {
        0 => ClockSource::InternalDiv8,
        1 => ClockSource::InternalDiv32,
        2 => ClockSource::InternalDiv128,
        _ => ClockSource::External,
    }
}

impl ClockSource {
    fn from_byte(byte: u8) -> (r: Self)
        ensures
            r == clock_source_spec(byte),
    {
        let select = byte & 3;
        proof {
            crate::bit_facts::lemma_u8_fields(byte);
        }
        match select {
            0 => Self::InternalDiv8,
            1 => Self::InternalDiv32,
            2 => Self::InternalDiv128,
            _ => Self::External,
        }
    }
}

#[derive(Debug, Clone, Copy, PartialEq, Eq, Structural)]
pub struct FreeRunTimer {
    pub counter: u16,
    pub clock_source: ClockSource,
    pub compare_a: u16,
    pub compare_b: u16,
    pub compare_register: CompareRegister,
    pub compare_a_flag: bool,
    pub compare_b_flag: bool,
    pub overflow_flag: bool,
    pub clear_counter_on_a_match: bool,
    pub compare_a_interrupt_enabled: bool,
    pub compare_b_interrupt_enabled: bool,
    pub overflow_interrupt_enabled: bool,
    // Stored only to emulate these bits being R/W
    pub compare_a_pin_output: bool,
    pub compare_b_pin_output: bool,
    // 16-bit temporary register used to prevent data races when the CPU accesses 16-bit registers,
    // since the timer only supports 8-bit memory accesses
    pub temp_register: u16,
}

/// Whether the low nibble of an address selects one of the eight FRT registers that can be written.
pub open spec fn frt_writable(address: u32) -> bool {
    address & 0xF <= 7
}

/// Write to the FRT register selected by the low nibble of its address.
pub open spec fn frt_write_spec(t: FreeRunTimer, low: u32, value: u8) -> FreeRunTimer {
    let b = |mask: u8| value & mask != 0;
    if low == 0 {
        FreeRunTimer {
            compare_a_interrupt_enabled: b(0x08),
            compare_b_interrupt_enabled: b(0x04),
            overflow_interrupt_enabled: b(0x02),
            clear_counter_on_a_match: b(0x01),
            ..t
        }
    } else if low == 1 {
        FreeRunTimer {
            compare_a_flag: t.compare_a_flag && b(0x08),
            compare_b_flag: t.compare_b_flag && b(0x04),
            overflow_flag: t.overflow_flag && b(0x02),
            clear_counter_on_a_match: b(0x01),
            ..t
        }
    } else if low == 2 || low == 4 {
        FreeRunTimer { temp_register: (t.temp_register & 0x00FF) | ((value as u16) << 8), ..t }
    } else if low == 3 {
        FreeRunTimer { counter: (t.temp_register & 0xFF00) | (value as u16), ..t }
    } else if low == 5 {
        let word = (t.temp_register & 0xFF00) | (value as u16);
        match t.compare_register {
            CompareRegister::A => FreeRunTimer { compare_a: word, ..t },
            CompareRegister::B => FreeRunTimer { compare_b: word, ..t },
        }
    } else if low == 6 {
        FreeRunTimer { clock_source: clock_source_spec(value), ..t }
    } else {
        FreeRunTimer {
            compare_register: if b(0x10) {
                CompareRegister::B
            } else {
                CompareRegister::A
            },
            compare_a_pin_output: b(0x02),
            compare_b_pin_output: b(0x01),
            ..t
        }
    }
}

impl FreeRunTimer {
    pub fn new() -> (r: Self)
        ensures
            r == (FreeRunTimer {
                counter: 0,
                clock_source: ClockSource::InternalDiv8,
                compare_a: 0xFFFF,
                compare_b: 0xFFFF,
                compare_register: CompareRegister::A,
                compare_a_flag: false,
                compare_b_flag: false,
                overflow_flag: false,
                clear_counter_on_a_match: false,
                compare_a_interrupt_enabled: false,
                compare_b_interrupt_enabled: false,
                overflow_interrupt_enabled: false,
                compare_a_pin_output: false,
                compare_b_pin_output: false,
                temp_register: 0,
            }),
    {
        Self {
            counter: 0,
            clock_source: ClockSource::InternalDiv8,
            compare_a: 0xFFFF,
            compare_b: 0xFFFF,
            compare_register: CompareRegister::A,
            compare_a_flag: false,
            compare_b_flag: false,
            overflow_flag: false,
            clear_counter_on_a_match: false,
            compare_a_interrupt_enabled: false,
            compare_b_interrupt_enabled: false,
            overflow_interrupt_enabled: false,
            compare_a_pin_output: false,
            compare_b_pin_output: false,
            temp_register: 0,
        }
    }

    /// Only TOCR ($FFFFFE17) can be read.
    pub fn read_register(&self, address: u32) -> (r: u8)
        requires
            address & 0xF == 7,
        ensures
            r == self.tocr_spec(),
    {
        self.read_tocr()
    }

    pub fn write_register(&mut self, address: u32, value: u8)
        requires
            frt_writable(address),
        ensures
            *final(self) == frt_write_spec(*old(self), address & 0xF, value),
    {
        let low = address & 0xF;
        if low == 0 {
            self.write_tier(value);
        } else if low == 1 {
            self.write_ftcsr(value);
        } else if low == 2 || low == 4 {
            self.temp_register = (self.temp_register & 0x00FF) | ((value as u16) << 8);
        } else if low == 3 {
            self.write_frc(value);
        } else if low == 5 {
            self.write_ocr(value);
        } else if low == 6 {
            self.write_tcr(value);
        } else {
            self.write_tocr(value);
        }
    }

    // $FFFFFE10: TIER (Timer interrupt enable register)
    fn write_tier(&mut self, value: u8)
        ensures
            *final(self) == frt_write_spec(*old(self), 0, value),
    {
        self.compare_a_interrupt_enabled = value & 0x08 != 0;
        self.compare_b_interrupt_enabled = value & 0x04 != 0;
        self.overflow_interrupt_enabled = value & 0x02 != 0;
        self.clear_counter_on_a_match = value & 0x01 != 0;
    }

    // $FFFFFE11: FTCSR (Free-running timer control/status register)
    fn write_ftcsr(&mut self, value: u8)
        ensures
            *final(self) == frt_write_spec(*old(self), 1, value),
    {
        self.compare_a_flag = self.compare_a_flag && value & 0x08 != 0;
        self.compare_b_flag = self.compare_b_flag && value & 0x04 != 0;
        self.overflow_flag = self.overflow_flag && value & 0x02 != 0;
        self.clear_counter_on_a_match = value & 0x01 != 0;
    }

    // $FFFFFE12-$FFFFFE13: FRC (Free-running counter)
    fn write_frc(&mut self, value: u8)
        ensures
            *final(self) == frt_write_spec(*old(self), 3, value),
    {
        self.counter = (self.temp_register & 0xFF00) | (value as u16);
    }

    // $FFFFFE14-$FFFFFE15: OCRA/B (Output compare register A/B)
    fn write_ocr(&mut self, value: u8)
        ensures
            *final(self) == frt_write_spec(*old(self), 5, value),
    {
        let word = (self.temp_register & 0xFF00) | (value as u16);
        match self.compare_register {
            CompareRegister::A => {
                self.compare_a = word;
            },
            CompareRegister::B => {
                self.compare_b = word;
            },
        }
    }

    // $FFFFFE16: TCR (Timer control register)
    fn write_tcr(&mut self, value: u8)
        ensures
            *final(self) == frt_write_spec(*old(self), 6, value),
    {
        self.clock_source = ClockSource::from_byte(value);
    }

    pub open spec fn tocr_spec(&self) -> u8 {
        0xE0u8 | (match self.compare_register {
            CompareRegister::A => 0u8,
            CompareRegister::B => 0x10u8,
        }) | (if self.compare_a_pin_output { 2u8 } else { 0u8 }) | (if self.compare_b_pin_output {
            1u8
        } else {
            0u8
        })
    }

    // $FFFFFE17: TOCR (Timer output compare control register)
    fn read_tocr(&self) -> (r: u8)
        ensures
            r == self.tocr_spec(),
    {
        0xE0u8 | (match self.compare_register {
            CompareRegister::A => 0u8,
            CompareRegister::B => 0x10u8,
        }) | (if self.compare_a_pin_output { 2u8 } else { 0u8 }) | (if self.compare_b_pin_output {
            1u8
        } else {
            0u8
        })
    }

    // $FFFFFE17: TOCR (Timer output compare control register)
    fn write_tocr(&mut self, value: u8)
        ensures
            *final(self) == frt_write_spec(*old(self), 7, value),
    {
        self.compare_register = CompareRegister::from_bit(value & 0x10 != 0);
        self.compare_a_pin_output = value & 0x02 != 0;
        self.compare_b_pin_output = value & 0x01 != 0;
    }
}

/// Writing the TOCR register and reading it back gives the written compare-select and pin bits,
/// with the unused upper bits read as set.
pub proof fn lemma_tocr_write_read(t: FreeRunTimer, value: u8)
    ensures
        frt_write_spec(t, 7, value).tocr_spec() == 0xE0u8 | (value & 0x13),
{
    let a: u8 = if value & 0x10 != 0 { 0x10 } else { 0 };
    let b: u8 = if value & 0x02 != 0 { 2 } else { 0 };
    let c: u8 = if value & 0x01 != 0 { 1 } else { 0 };
    assert(0xE0u8 | a | b | c == 0xE0u8 | (value & 0x13)) by (bit_vector)
        requires
            a == (if value & 0x10 != 0 { 0x10u8 } else { 0u8 }),
            b == (if value & 0x02 != 0 { 2u8 } else { 0u8 }),
            c == (if value & 0x01 != 0 { 1u8 } else { 0u8 }),
    ;
}

} // verus!
