//! Bus interface through which the ARM7TDMI reaches memory and the rest of the system.
use vstd::prelude::*;

verus! {

/// Whether a memory access follows on from the previous one (sequential) or not.
#[derive(Debug, Clone, Copy, PartialEq, Eq, Structural)]
pub enum MemoryCycle {
    /// Non-sequential
    N,
    /// Sequential
    S,
}

pub struct OpSize;

impl OpSize {
    pub const BYTE: u8 = 0;
    pub const HALFWORD: u8 = 1;
    pub const WORD: u8 = 2;

    /// Name of an access size, for diagnostics.
    pub fn display(size: u8) -> (r: &'static str)
        ensures
            size == Self::BYTE ==> r@ == "Byte"@,
            size == Self::HALFWORD ==> r@ == "Halfword"@,
            size == Self::WORD ==> r@ == "Word"@,
            size > Self::WORD ==> r@ == "(invalid)"@,
    {
        if size == Self::BYTE {
            "Byte"
        } else if size == Self::HALFWORD {
            "Halfword"
        } else if size == Self::WORD {
            "Word"
        } else {
            "(invalid)"
        }
    }
}

/// What the CPU records of its dealings with the bus: each opcode fetch (address, cycle type
/// and the opcode returned, a halfword widened to 32 bits in Thumb state), each sample of the
/// IRQ line, and each data read and write (address, size as an `OpSize` code, and the value,
/// widened to 32 bits).
#[derive(Debug, Clone, Copy, PartialEq, Eq, Structural)]
pub enum BusEvent {
    OpcodeFetch { address: u32, cycle: MemoryCycle, value: u32 },
    IrqLine(bool),
    DataRead { address: u32, size: u8, value: u32 },
    DataWrite { address: u32, size: u8, value: u32 },
}

/// Memory and signals as seen by the ARM7TDMI; implemented by the system that hosts the CPU.
pub trait BusInterface {
    /// 8-bit read
    fn read_byte(&mut self, address: u32, cycle: MemoryCycle) -> u8;

    /// 16-bit read
    fn read_halfword(&mut self, address: u32, cycle: MemoryCycle) -> u16;

    /// 32-bit read
    fn read_word(&mut self, address: u32, cycle: MemoryCycle) -> u32;

    /// Opcode fetch in Thumb state
    fn fetch_opcode_halfword(&mut self, address: u32, cycle: MemoryCycle) -> u16;

    /// Opcode fetch in ARM state
    fn fetch_opcode_word(&mut self, address: u32, cycle: MemoryCycle) -> u32;

    /// 8-bit write
    fn write_byte(&mut self, address: u32, value: u8, cycle: MemoryCycle);

    /// 16-bit write
    fn write_halfword(&mut self, address: u32, value: u16, cycle: MemoryCycle);

    /// 32-bit write
    fn write_word(&mut self, address: u32, value: u32, cycle: MemoryCycle);

    /// IRQ line
    fn irq(&self) -> bool;

    /// Called when instructions have internal cycles
    fn internal_cycles(&mut self, cycles: u32);

    /// Lock the bus (used by SWAP instruction)
    fn lock(&mut self);

    /// Unlock the bus (used by SWAP instruction)
    fn unlock(&mut self);
}

} // verus!
