//! Bus interface through which the 6502 reaches memory.
use vstd::prelude::*;

verus! {

/// A bus access of the 6502: a read (with the byte the bus returned) or a write.
#[derive(Debug, Clone, Copy, PartialEq, Eq, Structural)]
pub enum BusAccess {
    Read { address: u16, value: u8 },
    Write { address: u16, value: u8 },
}

/// Memory as seen by the 6502; implemented by the system that hosts the CPU.
pub trait BusInterface {
    fn read(&mut self, address: u16) -> u8;

    fn write(&mut self, address: u16, value: u8);
}

} // verus!
