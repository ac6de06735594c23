//! SH7604 watchdog timer
use vstd::prelude::*;

verus! {

#[derive(Debug, Clone, Copy, PartialEq, Eq, Structural)]
pub enum WatchdogTimerMode {
    Interval,
    Watchdog,
}

impl WatchdogTimerMode {
    fn from_bit(bit: bool) -> (r: Self)
        ensures
            r == (if bit { WatchdogTimerMode::Watchdog } else { WatchdogTimerMode::Interval }),
    {
        if bit {
            Self::Watchdog
        } else {
            Self::Interval
        }
    }
}

/// Power-of-two divider (as a shift) of the system clock for each clock select value.
pub open spec fn clock_shift_spec(select: u8) -> u8 {
    match select & 7 {
        0 => 1u8,
        1 => 6,
        2 => 7,
        3 => 8,
        4 => 9,
        5 => 10,
        6 => 12,
        _ => 13,
    }
}

fn clock_shift_select(byte: u8) -> (r: u8)
    ensures
        r == clock_shift_spec(byte),
        1 <= r <= 13,
{
    let select = byte & 7;
    proof {
        crate::bit_facts::lemma_u8_fields(byte);
    }
    match select {
        // sysclk/2
        0 => 1,
        // sysclk/64
        1 => 6,
        // sysclk/128
        2 => 7,
        // sysclk/256
        3 => 8,
        // sysclk/512
        4 => 9,
        // sysclk/1024
        5 => 10,
        // sysclk/4096
        6 => 12,
        // sysclk/8192
        _ => 13,
    }
}

/// Clock select value (WTCSR bits 2-0) that selects a given divider shift.
pub open spec fn clock_select_of_shift(shift: u8) -> u8 {
    if shift == 1 {
        0
    } else if shift <= 10 {
        (shift - 5) as u8
    } else if shift == 12 {
        6
    } else {
        7
    }
}

/// Bounds on the prescaler: a value below one increment fits in 14 bits, and masking with
/// 2^shift - 1 keeps a value below one increment.
proof fn lemma_prescaler(x: u64, shift: u8)
    requires
        shift <= 13,
    ensures
        x < (1u64 << shift) ==> x < 0x4000,
        (1u64 << shift) >= 1,
        (x & (((1u64 << shift) - 1) as u64)) < (1u64 << shift),
        0u64 < (1u64 << shift),
{
    assert((x < (1u64 << shift) ==> x < 0x4000) && (1u64 << shift) >= 1 && (x & (((1u64 << shift)
        - 1) as u64)) < (1u64 << shift)) by (bit_vector)
        requires
            shift <= 13,
    ;
}

#[derive(Debug, Clone, Copy, PartialEq, Eq, Structural)]
pub enum WatchdogTickEffect {
    NoOverflow,
    Overflow,
}

#[derive(Debug)]
pub struct WatchdogTimer {
    timer_counter: u8,
    mode: WatchdogTimerMode,
    enabled: bool,
    system_clock_shift: u8,
    system_clock_counter: u64,
    interval_overflow_flag: bool,
}

impl Clone for WatchdogTimer {
    fn clone(&self) -> (r: Self)
        ensures
            r == *self,
    {
        proof {
            use_type_invariant(self);
        }
        WatchdogTimer {
            timer_counter: self.timer_counter,
            mode: self.mode,
            enabled: self.enabled,
            system_clock_shift: self.system_clock_shift,
            system_clock_counter: self.system_clock_counter,
            interval_overflow_flag: self.interval_overflow_flag,
        }
    }
}

impl WatchdogTimer {
    /// The divider is one of the eight selectable shifts.
    #[verifier::type_invariant]
    spec fn inv(self) -> bool {
        &&& exists|s: u8| self.system_clock_shift == clock_shift_spec(s)
        &&& 1 <= self.system_clock_shift <= 13
    }

    pub closed spec fn counter_spec(self) -> u8 {
        self.timer_counter
    }

    pub closed spec fn enabled_spec(self) -> bool {
        self.enabled
    }

    pub closed spec fn mode_spec(self) -> WatchdogTimerMode {
        self.mode
    }

    pub closed spec fn shift_spec(self) -> u8 {
        self.system_clock_shift
    }

    pub closed spec fn prescaler_spec(self) -> u64 {
        self.system_clock_counter
    }

    pub closed spec fn overflow_flag_spec(self) -> bool {
        self.interval_overflow_flag
    }

    pub fn new() -> (r: Self)
        ensures
            r.counter_spec() == 0,
            r.mode_spec() == WatchdogTimerMode::Interval,
            !r.enabled_spec(),
            r.shift_spec() == 1,
            r.prescaler_spec() == 0,
            !r.overflow_flag_spec(),
    {
        let shift = clock_shift_select(0);
        proof {
            crate::bit_facts::lemma_constants();
        }
        assert(clock_shift_spec(0u8) == 1);
        Self {
            timer_counter: 0,
            mode: WatchdogTimerMode::Interval,
            enabled: false,
            system_clock_shift: shift,
            system_clock_counter: 0,
            interval_overflow_flag: false,
        }
    }

    /// Whether the interval timer has overflowed since software last cleared the flag.
    pub fn overflow_flag(&self) -> (r: bool)
        ensures
            r == self.overflow_flag_spec(),
    {
        self.interval_overflow_flag
    }

    /// Advances the timer by a number of system clock cycles. While enabled, the prescaler
    /// accumulates cycles and every 2^shift cycles increment the 8-bit counter; the tick reports an
    /// overflow when the counter passes 255, and the overflow flag latches it.
    pub fn tick(&mut self, system_cycles: u64) -> (r: WatchdogTickEffect)
        requires
            old(self).enabled_spec() ==> old(self).prescaler_spec() + system_cycles <= u64::MAX,
        ensures
            !old(self).enabled_spec() ==> r == WatchdogTickEffect::NoOverflow && *final(self) == *old(self),
            old(self).enabled_spec() ==> {
                let total = (old(self).prescaler_spec() + system_cycles) as u64;
                let elapsed = total >> old(self).shift_spec();
                let overflow = old(self).counter_spec() + elapsed >= 256;
                &&& final(self).prescaler_spec() == total & ((1u64 << old(self).shift_spec()) - 1)
                    as u64
                &&& final(self).counter_spec() == (old(self).counter_spec() + elapsed) % 256
                &&& final(self).overflow_flag_spec() == (old(self).overflow_flag_spec() || overflow)
                &&& r == (if overflow {
                    WatchdogTickEffect::Overflow
                } else {
                    WatchdogTickEffect::NoOverflow
                })
                &&& final(self).enabled_spec() == old(self).enabled_spec()
                &&& final(self).mode_spec() == old(self).mode_spec()
                &&& final(self).shift_spec() == old(self).shift_spec()
            },
    {
        proof {
            use_type_invariant(&*self);
        }
        if !self.enabled {
            return WatchdogTickEffect::NoOverflow;
        }
        let shift = self.system_clock_shift;
        let prev = self.system_clock_counter;
        proof {
            lemma_prescaler(prev, shift);
        }
        let total = prev + system_cycles;
        let elapsed = total >> shift;
        let new_prescaler = total & ((1u64 << shift) - 1);
        proof {
            lemma_prescaler(total, shift);
        }

        let exceeds_byte = elapsed >= 256;
        let low = (elapsed & 0xFF) as u8;
        let sum = (self.timer_counter as u16) + (low as u16);
        let overflowed = sum > 255;
        let counter = (sum & 0xFF) as u8;
        proof {
            crate::bit_facts::lemma_u64_bit_update(elapsed, 0, 0);
            crate::bit_facts::lemma_u16_fields(sum);
        }

        self.system_clock_counter = new_prescaler;
        self.timer_counter = counter;

        let overflow_flag = exceeds_byte || overflowed;
        self.interval_overflow_flag = self.interval_overflow_flag || overflow_flag;

        if overflow_flag {
            WatchdogTickEffect::Overflow
        } else {
            WatchdogTickEffect::NoOverflow
        }
    }

    // $FFFFFE80: WTCSR (Watchdog timer control/status) / WTCNT (Watchdog timer counter)
    // Upper byte determines which register is written to
    pub fn write_control(&mut self, value: u16)
        requires
            !((value >> 8) as u8 == 0xA5 && (value as u8) & 0x40 != 0),
        ensures
            (value >> 8) as u8 == 0x5A ==> {
                &&& final(self).counter_spec() == value as u8
                &&& final(self).enabled_spec() == old(self).enabled_spec()
                &&& final(self).mode_spec() == old(self).mode_spec()
                &&& final(self).shift_spec() == old(self).shift_spec()
                &&& final(self).prescaler_spec() == old(self).prescaler_spec()
                &&& final(self).overflow_flag_spec() == old(self).overflow_flag_spec()
            },
            (value >> 8) as u8 == 0xA5 ==> {
                let lsb = value as u8;
                &&& final(self).overflow_flag_spec() == (old(self).overflow_flag_spec() && lsb
                    & 0x80 != 0)
                &&& final(self).mode_spec() == WatchdogTimerMode::Interval
                &&& final(self).enabled_spec() == (lsb & 0x20 != 0)
                &&& final(self).shift_spec() == clock_shift_spec(lsb)
                &&& final(self).counter_spec() == (if lsb & 0x20 != 0 {
                    old(self).counter_spec()
                } else {
                    0
                })
                &&& final(self).prescaler_spec() == old(self).prescaler_spec()
            },
            (value >> 8) as u8 != 0x5A && (value >> 8) as u8 != 0xA5 ==> *final(self) == *old(self),
    {
        let msb = (value >> 8) as u8;
        let lsb = value as u8;
        if msb == 0x5A {
            self.write_wtcnt(lsb);
        } else if msb == 0xA5 {
            self.write_wtcsr(lsb);
        }
    }

    fn write_wtcnt(&mut self, value: u8)
        ensures
            final(self).counter_spec() == value,
            final(self).enabled_spec() == old(self).enabled_spec(),
            final(self).mode_spec() == old(self).mode_spec(),
            final(self).shift_spec() == old(self).shift_spec(),
            final(self).prescaler_spec() == old(self).prescaler_spec(),
            final(self).overflow_flag_spec() == old(self).overflow_flag_spec(),
    {
        proof {
            use_type_invariant(&*self);
        }
        self.timer_counter = value;
    }

    fn write_wtcsr(&mut self, value: u8)
        requires
            value & 0x40 == 0,
        ensures
            final(self).overflow_flag_spec() == (old(self).overflow_flag_spec() && value & 0x80
                != 0),
            final(self).mode_spec() == WatchdogTimerMode::Interval,
            final(self).enabled_spec() == (value & 0x20 != 0),
            final(self).shift_spec() == clock_shift_spec(value),
            final(self).counter_spec() == (if value & 0x20 != 0 {
                old(self).counter_spec()
            } else {
                0
            }),
            final(self).prescaler_spec() == old(self).prescaler_spec(),
    {
        proof {
            use_type_invariant(&*self);
        }
        let shift = clock_shift_select(value);
        assert(shift == clock_shift_spec(value));
        let enabled = value & 0x20 != 0;
        let counter = if enabled { self.timer_counter } else { 0 };
        // Fields are assigned together so the timer stays well-formed at every step
        *self = WatchdogTimer {
            timer_counter: counter,
            mode: WatchdogTimerMode::from_bit(value & 0x40 != 0),
            enabled,
            system_clock_shift: shift,
            system_clock_counter: self.system_clock_counter,
            interval_overflow_flag: self.interval_overflow_flag && value & 0x80 != 0,
        };
    }

    /// $FFFFFE80 read: WTCSR (overflow flag, mode, enable, reserved bits 4-3 set, clock select).
    pub closed spec fn read_control_spec(self) -> u8 {
        (if self.interval_overflow_flag { 0x80u8 } else { 0u8 }) | (if self.mode
            == WatchdogTimerMode::Watchdog {
            0x40u8
        } else {
            0u8
        }) | (if self.enabled { 0x20u8 } else { 0u8 }) | 0x18u8 | clock_select_of_shift(
            self.system_clock_shift,
        )
    }

    pub fn read_control(&self) -> (r: u8)
        ensures
            r == self.read_control_spec(),
    {
        proof {
            use_type_invariant(&*self);
        }
        let shift = self.system_clock_shift;
        let select: u8 = if shift == 1 {
            0
        } else if shift <= 10 {
            shift - 5
        } else if shift == 12 {
            6
        } else {
            7
        };
        (if self.interval_overflow_flag { 0x80u8 } else { 0u8 }) | (if self.mode
            == WatchdogTimerMode::Watchdog {
            0x40u8
        } else {
            0u8
        }) | (if self.enabled { 0x20u8 } else { 0u8 }) | 0x18u8 | select
    }
}

} // verus!
