//! SH-2 bus interface
//!
//! Implementations can assume that all addresses are masked to the lowest 29 bits (`address & 0x1FFFFFFF`)
//! because the highest 3 bits are only used internally
use vstd::prelude::*;

verus! {

/// Why the CPU is accessing the bus; passed along with every access for diagnostics.
#[derive(Debug, Clone, Copy, PartialEq, Eq, Structural)]
pub enum AccessContext {
    Fetch,
    Data { pc: u32, opcode: u16 },
    InterruptVector,
    Dma { channel: usize },
}

pub struct OpSize;

/// Mask of the bits an access of the given size carries.
pub open spec fn op_size_mask_spec(size: u8) -> u32 {
    if size == 0 {
        0xFF
    } else if size == 1 {
        0xFFFF
    } else {
        0xFFFFFFFF
    }
}

impl OpSize {
    pub const BYTE: u8 = 0;
    pub const WORD: u8 = 1;
    pub const LONGWORD: u8 = 2;

    /// Name of an access size, for diagnostics.
    pub fn display(size: u8) -> (r: &'static str)
        requires
            size <= 2,
        ensures
            r@ == (if size == Self::BYTE {
                "byte"@
            } else if size == Self::WORD {
                "word"@
            } else {
                "longword"@
            }),
    {
        if size == Self::BYTE {
            "byte"
        } else if size == Self::WORD {
            "word"
        } else {
            "longword"
        }
    }

    /// Mask of the bits an access of the given size carries.
    pub fn mask(size: u8) -> (r: u32)
        requires
            size <= 2,
        ensures
            r == op_size_mask_spec(size),
    {
        if size == Self::BYTE {
            0xFF
        } else if size == Self::WORD {
            0xFFFF
        } else {
            0xFFFFFFFF
        }
    }
}

/// Memory and signals as seen by the SH-2; implemented by the system that hosts the CPU.
pub trait BusInterface {
    fn read_byte(&mut self, address: u32, ctx: AccessContext) -> u8;

    fn read_word(&mut self, address: u32, ctx: AccessContext) -> u16;

    fn read_longword(&mut self, address: u32, ctx: AccessContext) -> u32;

    /// Reads the 16-byte cache line that starts at the given (line-aligned) address, as four
    /// big-endian longwords.
    fn read_cache_line(&mut self, address: u32, ctx: AccessContext) -> [u32; 4];

    fn write_byte(&mut self, address: u32, value: u8, ctx: AccessContext);

    fn write_word(&mut self, address: u32, value: u16, ctx: AccessContext);

    fn write_longword(&mut self, address: u32, value: u32, ctx: AccessContext);

    /// The CPU will halt while this is `true` and then reset when it changes from `true` to `false`
    fn reset(&self) -> bool;

    /// Current external interrupt level from 0 to 15; 0 indicates no interrupt
    fn interrupt_level(&self) -> u8;

    /// DREQ line for DMA channel 0
    fn dma_request_0(&self) -> bool;

    /// DREQ line for DMA channel 1
    fn dma_request_1(&self) -> bool;

    fn acknowledge_dreq_1(&mut self);

    /// Receive a byte from the serial interface, if any
    fn serial_rx(&mut self) -> Option<u8>;

    /// Transmit a byte to the serial interface
    fn serial_tx(&mut self, value: u8);

    fn increment_cycle_counter(&mut self, cycles: u64);

    fn should_stop_execution(&self) -> bool;
}

} // verus!
