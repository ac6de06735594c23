//! SH-2 division unit (DIVU)
//!
//! Supports signed 64-bit ÷ 32-bit division with a 32-bit quotient and a 32-bit remainder
use vstd::prelude::*;

verus! {

#[derive(Debug, Clone)]
pub struct DivisionUnit {
    pub divisor: i32,
    pub quotient: u32,
    pub remainder: u32,
    pub overflow_interrupt_enabled: bool,
    pub overflow_flag: bool,
}

/// Quotient written on division by zero: saturated toward the sign of the dividend.
pub open spec fn overflow_result_spec(dividend: int) -> u32 {
    if dividend >= 0 {
        0x7FFFFFFF
    } else {
        0x80000000
    }
}

/// Quotient of a division truncated toward zero (as the hardware and Rust's `/` do).
pub open spec fn div_trunc(a: int, b: int) -> int
    recommends
        b != 0,
{
    if a >= 0 {
        if b > 0 {
            a / b
        } else {
            -(a / (-b))
        }
    } else {
        if b > 0 {
            -((-a) / b)
        } else {
            (-a) / (-b)
        }
    }
}

/// Remainder of a truncating division: it has the sign of the dividend.
pub open spec fn rem_trunc(a: int, b: int) -> int
    recommends
        b != 0,
{
    a - div_trunc(a, b) * b
}

/// The 64-bit dividend formed by DVDNTH (high) and DVDNTL (low), as a signed value.
pub open spec fn dividend64(high: u32, low: u32) -> int {
    ((high as u64) * 0x1_0000_0000 + (low as u64)) as i64 as int
}

/// Signed value clamped to the 32-bit range.
pub open spec fn clamp_i32(q: int) -> int {
    if q > i32::MAX {
        i32::MAX as int
    } else if q < i32::MIN {
        i32::MIN as int
    } else {
        q
    }
}

/// Whether a register write would divide the most negative dividend by -1, which the division
/// unit cannot represent.
pub open spec fn divu_write_overflows(unit: DivisionUnit, address: u32, value: u32) -> bool {
    unit.divisor == -1 && ((address == 0xFFFFFF04 && value == 0x8000_0000) || ((address
        == 0xFFFFFF14 || address == 0xFFFFFF1C) && unit.remainder == 0x8000_0000 && value == 0))
}

impl DivisionUnit {
    pub fn new() -> (r: Self)
        ensures
            r.divisor == 0 && r.quotient == 0 && r.remainder == 0,
            !r.overflow_interrupt_enabled && !r.overflow_flag,
    {
        Self { divisor: 0, quotient: 0, remainder: 0, overflow_interrupt_enabled: false, overflow_flag: false }
    }

    pub open spec fn read_spec(&self, address: u32) -> u32 {
        if address == 0xFFFFFF00 {
            self.divisor as u32
        } else if address == 0xFFFFFF04 || address == 0xFFFFFF14 || address == 0xFFFFFF1C {
            self.quotient
        } else if address == 0xFFFFFF10 || address == 0xFFFFFF18 {
            self.remainder
        } else if address == 0xFFFFFF08 {
            self.control_spec()
        } else {
            0
        }
    }

    pub fn read_register(&self, address: u32) -> (r: u32)
        ensures
            r == self.read_spec(address),
    {
        match address {
            // DVSR (Divisor)
            0xFFFFFF00 => self.divisor as u32,
            // DVDNT / DVDNTL (Quotient)
            // Virtua Fighter seems to expect $FFFFFF1C to mirror $FFFFFF14
            0xFFFFFF04 | 0xFFFFFF14 | 0xFFFFFF1C => self.quotient,
            // DVDNTH (Remainder)
            // Virtua Fighter seems to expect $FFFFFF18 to mirror $FFFFFF10
            0xFFFFFF10 | 0xFFFFFF18 => self.remainder,
            // DVCNT (Division control)
            0xFFFFFF08 => self.read_control(),
            _ => 0,
        }
    }

    pub open spec fn control_spec(&self) -> u32 {
        (if self.overflow_interrupt_enabled { 2u32 } else { 0u32 }) | (if self.overflow_flag { 1u32 } else { 0u32 })
    }

    pub fn read_control(&self) -> (r: u32)
        ensures
            r == self.control_spec(),
    {
        (if self.overflow_interrupt_enabled { 2u32 } else { 0u32 }) | (if self.overflow_flag { 1u32 } else { 0u32 })
    }

    /// The division unit after a register write. Writing DVDNT (32-bit dividend) or DVDNTL (low
    /// longword of a 64-bit dividend) divides by DVSR, truncating toward zero; dividing by zero
    /// saturates the quotient toward the dividend's sign and sets the overflow flag, and a 64-bit
    /// quotient outside the 32-bit range is clamped and sets the overflow flag.
    pub open spec fn write_spec(self, address: u32, value: u32) -> DivisionUnit {
        if address == 0xFFFFFF00 {
            DivisionUnit { divisor: value as i32, ..self }
        } else if address == 0xFFFFFF04 {
            if self.divisor == 0 {
                DivisionUnit {
                    quotient: overflow_result_spec(value as i32 as int),
                    overflow_flag: true,
                    ..self
                }
            } else {
                DivisionUnit {
                    quotient: div_trunc(value as i32 as int, self.divisor as int) as i32 as u32,
                    remainder: rem_trunc(value as i32 as int, self.divisor as int) as i32 as u32,
                    ..self
                }
            }
        } else if address == 0xFFFFFF08 {
            DivisionUnit {
                overflow_interrupt_enabled: value & 2 != 0,
                overflow_flag: value & 1 != 0,
                ..self
            }
        } else if address == 0xFFFFFF10 || address == 0xFFFFFF18 {
            DivisionUnit { remainder: value, ..self }
        } else if address == 0xFFFFFF14 || address == 0xFFFFFF1C {
            let n = dividend64(self.remainder, value);
            let d = self.divisor as int;
            if d == 0 {
                DivisionUnit { quotient: overflow_result_spec(n), overflow_flag: true, ..self }
            } else {
                DivisionUnit {
                    quotient: clamp_i32(div_trunc(n, d)) as i32 as u32,
                    remainder: rem_trunc(n, d) as i32 as u32,
                    overflow_flag: self.overflow_flag || clamp_i32(div_trunc(n, d)) != div_trunc(n, d),
                    ..self
                }
            }
        } else {
            self
        }
    }

    /// Whether a register write would divide the most negative dividend by -1.
    pub fn write_overflows(&self, address: u32, value: u32) -> (r: bool)
        ensures
            r == divu_write_overflows(*self, address, value),
    {
        self.divisor == -1 && ((address == 0xFFFFFF04 && value == 0x8000_0000) || ((address
            == 0xFFFFFF14 || address == 0xFFFFFF1C) && self.remainder == 0x8000_0000 && value == 0))
    }

    pub fn write_register(&mut self, address: u32, value: u32)
        requires
            !divu_write_overflows(*old(self), address, value),
        ensures
            *final(self) == old(self).write_spec(address, value),
    {
        if address == 0xFFFFFF00 {
            // DVSR: Divisor
            self.divisor = value as i32;
        } else if address == 0xFFFFFF04 {
            // DVDNT: Dividend for 32-bit division + execute 32-bit division
            let dividend = value as i32;
            if self.divisor == 0 {
                self.quotient = overflow_result(dividend as i64);
                self.overflow_flag = true;
                return ;
            }
            let (quotient, remainder) = div_rem(dividend as i64, self.divisor);
            // The quotient fits in 32 bits except for i32::MIN / -1, which the requires rules out
            self.quotient = quotient as i32 as u32;
            self.remainder = remainder as i32 as u32;
        } else if address == 0xFFFFFF08 {
            // DVCR: Division control register
            self.overflow_interrupt_enabled = value & 2 != 0;
            self.overflow_flag = value & 1 != 0;
        } else if address == 0xFFFFFF10 || address == 0xFFFFFF18 {
            // DVDNTH: High longword of dividend for 64-bit division
            // Store in the remainder register so software will get the same value back on reads
            // if no division operation is executed in between
            self.remainder = value;
        } else if address == 0xFFFFFF14 || address == 0xFFFFFF1C {
            // DVDNTL: Low longword of dividend for 64-bit division + execute 64-bit division
            let dividend = ((self.remainder as u64) * 0x1_0000_0000 + value as u64) as i64;
            if self.divisor == 0 {
                self.quotient = overflow_result(dividend);
                self.overflow_flag = true;
                return ;
            }
            let (quotient, remainder) = div_rem(dividend, self.divisor);
            let clamped_quotient: i128 = if quotient > i32::MAX as i128 {
                i32::MAX as i128
            } else if quotient < i32::MIN as i128 {
                i32::MIN as i128
            } else {
                quotient
            };
            self.overflow_flag = self.overflow_flag || clamped_quotient != quotient;
            self.quotient = clamped_quotient as i32 as u32;
            self.remainder = remainder as i32 as u32;
        }
    }
}

/// Truncating signed division of a 64-bit dividend by a nonzero 32-bit divisor, with remainder.
fn div_rem(a: i64, b: i32) -> (r: (i128, i64))
    requires
        b != 0,
    ensures
        r.0 == div_trunc(a as int, b as int),
        r.1 == rem_trunc(a as int, b as int),
        -0x8000_0000 < r.1 < 0x8000_0000,
{
    let neg_a = a < 0;
    let neg_b = b < 0;
    let ua: u64 = if neg_a { (0i128 - a as i128) as u64 } else { a as u64 };
    let ub: u64 = if neg_b { (0i64 - b as i64) as u64 } else { b as u64 };
    let uq = ua / ub;
    let ur = ua % ub;
    assert(uq * ub + ur == ua && ur < ub && ub <= 0x8000_0000) by (nonlinear_arith)
        requires
            ub > 0,
            ub <= 0x8000_0000,
            uq == ua / ub,
            ur == ua % ub,
    ;
    let q: i128 = if neg_a != neg_b { 0i128 - uq as i128 } else { uq as i128 };
    let rr: i64 = if neg_a { 0i64 - ur as i64 } else { ur as i64 };
    assert(q == div_trunc(a as int, b as int));
    assert(rr == (a as int) - q * (b as int)) by (nonlinear_arith)
        requires
            uq * ub + ur == ua,
            ua == if neg_a { -(a as int) } else { a as int },
            ub == if neg_b { -(b as int) } else { b as int },
            q == if neg_a != neg_b { -(uq as int) } else { uq as int },
            rr == if neg_a { -(ur as int) } else { ur as int },
    ;
    (q, rr)
}

fn overflow_result(dividend: i64) -> (r: u32)
    ensures
        r == overflow_result_spec(dividend as int),
{
    if dividend >= 0 {
        0x7FFFFFFF
    } else {
        0x80000000
    }
}

} // verus!
