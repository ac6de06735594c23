//! Bus interface through which the HuC6280 reaches memory and the rest of the system.
use vstd::prelude::*;

verus! {

/// State of the three interrupt lines that the HuC6280 polls.
#[derive(Debug, Clone, Copy, PartialEq, Eq, Structural, Default)]
pub struct InterruptLines {
    pub irq1: bool,
    pub irq2: bool,
    pub tiq: bool,
}

impl InterruptLines {
    /// Whether any interrupt line is raised.
    pub fn any(self) -> (r: bool)
        ensures
            r == (self.irq1 || self.irq2 || self.tiq),
    {
        self.irq1 || self.irq2 || self.tiq
    }
}

/// CPU clock speed selected by the CSH/CSL instructions.
#[derive(Debug, Clone, Copy, PartialEq, Eq, Structural, Default)]
pub enum ClockSpeed {
    #[default]
    Low,
    High,
}

/// One bus cycle of the HuC6280: a read (with the byte the bus returned), a write, or an idle
/// cycle.
#[derive(Debug, Clone, Copy, PartialEq, Eq, Structural)]
pub enum BusAccess {
    Read { address: u32, value: u8 },
    Write { address: u32, value: u8 },
    Idle,
}

/// Memory and I/O as seen by the HuC6280; implemented by the system that hosts the CPU.
pub trait BusInterface {
    fn read(&mut self, address: u32) -> u8;

    fn write(&mut self, address: u32, value: u8);

    fn idle(&mut self);

    fn interrupt_lines(&self) -> InterruptLines;

    fn set_clock_speed(&mut self, speed: ClockSpeed);
}

} // verus!
