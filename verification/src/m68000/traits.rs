//! Bus interface through which the 68000 reaches memory and the rest of the system.
use vstd::prelude::*;

verus! {

/// Memory and signals as seen by the 68000; implemented by the system that hosts the CPU.
pub trait BusInterface {
    /// Addresses are 32-bit internally but the 68000 only has a 24-bit address bus.
    const ADDRESS_MASK: u32 = 0x00FF_FFFF;

    fn read_byte(&mut self, address: u32) -> u8;

    fn read_word(&mut self, address: u32) -> u16;

    fn write_byte(&mut self, address: u32, value: u8);

    fn write_word(&mut self, address: u32, value: u16);

    /// A longword read as two word reads, high word first.
    fn read_long_word(&mut self, address: u32) -> u32 {
        let high_word = self.read_word(address);
        let low_word = self.read_word(address.wrapping_add(2));

        ((high_word as u32) << 16) | (low_word as u32)
    }

    /// A longword written as two word writes, high word first.
    fn write_long_word(&mut self, address: u32, value: u32) {
        let high_word = (value >> 16) as u16;
        let low_word = value as u16;

        self.write_word(address, high_word);
        self.write_word(address.wrapping_add(2), low_word);
    }

    /// Auto-vectored interrupt level; between 0 and 7, with 0 meaning no interrupt.
    fn interrupt_level(&self) -> u8;

    fn acknowledge_interrupt(&mut self, interrupt_level: u8);

    fn halt(&self) -> bool;

    fn reset(&self) -> bool;
}

} // verus!
