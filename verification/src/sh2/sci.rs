//! SH7604 serial communication interface (SCI)
//!
//! No 32X games use this but some test cartridges do
use crate::sh2::bus::BusInterface;
use vstd::prelude::*;

verus! {

/// What the serial interface exchanged with the bus: a receive poll with what it returned, or a
/// byte handed over for transmission.
#[derive(Debug, Clone, Copy, PartialEq, Eq, Structural)]
pub enum SerialEvent {
    Received(Option<u8>),
    Sent(u8),
}

/// The SH-2 serial interface. Alongside its registers it keeps a ghost record of its exchanges
/// with the bus, in order.
#[derive(Clone)]
pub struct SerialInterface {
    pub serial_log: Ghost<Seq<SerialEvent>>,
    pub name: String,
    pub tx_enabled: bool,
    pub rx_enabled: bool,
    pub tx_interrupt_enabled: bool,
    pub rx_interrupt_enabled: bool,
    pub transfer_data: u8,
    pub transfer_shift: u8,
    pub transfer_clocks: u64,
    pub receive_data: u8,
    pub tx_data_empty: bool,
    pub rx_data_full: bool,
    pub transfer_end: bool,
    pub clock_select: u8,
    pub bit_rate: u8,
}

/// SH-2 clocks needed to shift out one 8-bit frame at a given clock select and bit rate.
pub open spec fn tx_clocks_spec(clock_select: u8, bit_rate: u8) -> u64 {
    let clocks_per_bit = if clock_select == 0 {
        128 * (bit_rate + 1)
    } else {
        256 * vstd::arithmetic::power2::pow2((2 * clock_select - 1) as nat) * (bit_rate + 1)
    };
    (8 * clocks_per_bit) as u64
}

/// Whether an address is one of the six SCI registers ($FFFFFE00-$FFFFFE05).
pub open spec fn sci_address(address: u32) -> bool {
    0xFFFFFE00 <= address <= 0xFFFFFE05
}

/// A receive poll that returned `rx`.
pub open spec fn rx_event(rx: Option<u8>) -> Seq<SerialEvent> {
    seq![SerialEvent::Received(rx)]
}

/// The byte a call of `process` hands to the bus, if any: a frame that was being shifted out,
/// or one started from the transmit buffer (transmitter enabled, buffer full, idle shifter),
/// goes out when its remaining clocks run out within the clocks elapsed.
pub open spec fn tx_events(before: SerialInterface, elapsed: u64) -> Seq<SerialEvent> {
    let starts = before.transfer_clocks == 0 && before.tx_enabled && !before.tx_data_empty;
    let clocks = if starts {
        tx_clocks_spec(before.clock_select, before.bit_rate) as int
    } else {
        before.transfer_clocks as int
    };
    let shifted = if starts {
        before.transfer_data
    } else {
        before.transfer_shift
    };
    if (before.transfer_clocks != 0 || starts) && clocks <= elapsed {
        seq![SerialEvent::Sent(shifted)]
    } else {
        Seq::empty()
    }
}

impl SerialInterface {
    pub fn new(name: String) -> (r: Self)
        ensures
            r.name == name,
            !r.tx_enabled && !r.rx_enabled && !r.tx_interrupt_enabled && !r.rx_interrupt_enabled,
            r.transfer_data == 0xFF && r.transfer_shift == 0xFF && r.transfer_clocks == 0,
            r.receive_data == 0,
            r.tx_data_empty && !r.rx_data_full && r.transfer_end,
            r.clock_select == 0 && r.bit_rate == 0,
    {
        Self {
            name,
            tx_enabled: false,
            rx_enabled: false,
            tx_interrupt_enabled: false,
            rx_interrupt_enabled: false,
            transfer_data: 0xFF,
            transfer_shift: 0xFF,
            transfer_clocks: 0,
            receive_data: 0x00,
            tx_data_empty: true,
            rx_data_full: false,
            transfer_end: true,
            clock_select: 0,
            bit_rate: 0,
            serial_log: Ghost(Seq::empty()),
        }
    }

    /// Advances the interface by a number of SH-2 clocks: takes a received byte from the bus when
    /// the receiver is enabled and its buffer is empty, starts shifting out the transmit buffer
    /// when the transmitter is idle, and hands a byte to the bus when its frame time has elapsed.
    pub fn process<B: BusInterface>(&mut self, sh2_clocks_elapsed: u64, bus: &mut B)
        requires
            old(self).clock_select <= 3,
        ensures
            final(self).name == old(self).name,
            final(self).clock_select == old(self).clock_select,
            final(self).bit_rate == old(self).bit_rate,
            final(self).tx_enabled == old(self).tx_enabled,
            final(self).rx_enabled == old(self).rx_enabled,
            final(self).transfer_data == old(self).transfer_data,
            !(old(self).rx_enabled && !old(self).rx_data_full) ==> final(self).rx_data_full
                == old(self).rx_data_full && final(self).receive_data == old(self).receive_data,
            old(self).transfer_clocks == 0 && !(old(self).tx_enabled && !old(self).tx_data_empty)
                ==> final(self).transfer_clocks == 0 && final(self).tx_data_empty == old(self).tx_data_empty && final(self).transfer_end == old(self).transfer_end,
            old(self).transfer_clocks > sh2_clocks_elapsed ==> final(self).transfer_clocks == old(self).transfer_clocks - sh2_clocks_elapsed && final(self).tx_data_empty == old(self).tx_data_empty && final(self).transfer_shift == old(self).transfer_shift,
            old(self).transfer_clocks == 0 && old(self).tx_enabled && !old(self).tx_data_empty
                && tx_clocks_spec(old(self).clock_select, old(self).bit_rate) > sh2_clocks_elapsed
                ==> final(self).transfer_shift == old(self).transfer_data && final(self).tx_data_empty && final(self).transfer_clocks == tx_clocks_spec(
                old(self).clock_select,
                old(self).bit_rate,
            ) - sh2_clocks_elapsed,
            final(self).clock_select <= 3,
            old(self).rx_enabled && !old(self).rx_data_full ==> exists|rx: Option<u8>|
                #![trigger rx_event(rx)]
                final(self).serial_log@ == old(self).serial_log@ + rx_event(rx) + tx_events(
                    *old(self),
                    sh2_clocks_elapsed,
                ) && match rx {
                    Some(b) => final(self).receive_data == b && final(self).rx_data_full,
                    None => final(self).receive_data == old(self).receive_data
                        && final(self).rx_data_full == old(self).rx_data_full,
                },
            !(old(self).rx_enabled && !old(self).rx_data_full) ==> final(self).serial_log@ == old(
                self,
            ).serial_log@ + tx_events(*old(self), sh2_clocks_elapsed),
    {
        let ghost start = *self;
        let ghost mut rx_seen: Option<u8> = None;
        if self.rx_enabled && !self.rx_data_full {
            let received = bus.serial_rx();
            self.serial_log = Ghost(self.serial_log@.push(SerialEvent::Received(received)));
            proof {
                rx_seen = received;
                assert(self.serial_log@ =~= start.serial_log@ + rx_event(received));
            }
            match received {
                Some(rx) => {
                    self.receive_data = rx;
                    self.rx_data_full = true;
                },
                None => {},
            }
        }
        let ghost after_rx = self.serial_log@;
        assert(self.transfer_clocks == start.transfer_clocks && self.tx_enabled == start.tx_enabled
            && self.tx_data_empty == start.tx_data_empty && self.transfer_shift == start.transfer_shift
            && self.transfer_data == start.transfer_data);
        if self.transfer_clocks == 0 {
            if self.tx_enabled && !self.tx_data_empty {
                self.transfer_shift = self.transfer_data;
                self.transfer_clocks = estimate_tx_clocks(self.clock_select, self.bit_rate);
                self.tx_data_empty = true;
            } else {
                assert(tx_events(start, sh2_clocks_elapsed) =~= Seq::<SerialEvent>::empty());
                assert(self.serial_log@ =~= after_rx + tx_events(start, sh2_clocks_elapsed));
                return ;
            }
        }
        self.transfer_clocks = self.transfer_clocks.saturating_sub(sh2_clocks_elapsed);
        let ghost shifted = self.transfer_shift;
        assert(shifted == (if start.transfer_clocks == 0 && start.tx_enabled && !start.tx_data_empty {
            start.transfer_data
        } else {
            start.transfer_shift
        }));
        if self.transfer_clocks == 0 {
            bus.serial_tx(self.transfer_shift);
            self.serial_log = Ghost(self.serial_log@.push(SerialEvent::Sent(self.transfer_shift)));
            if !self.tx_data_empty {
                self.transfer_shift = self.transfer_data;
                self.transfer_clocks = estimate_tx_clocks(self.clock_select, self.bit_rate);
                self.tx_data_empty = true;
            } else {
                self.transfer_end = true;
            }
            assert(tx_events(start, sh2_clocks_elapsed) =~= seq![SerialEvent::Sent(shifted)]);
        } else {
            assert(tx_events(start, sh2_clocks_elapsed) =~= Seq::<SerialEvent>::empty());
        }
        assert(self.serial_log@ =~= after_rx + tx_events(start, sh2_clocks_elapsed));
    }

    pub open spec fn read_spec(&self, address: u32) -> u8 {
        if address == 0xFFFFFE00 {
            self.clock_select
        } else if address == 0xFFFFFE01 {
            self.bit_rate
        } else if address == 0xFFFFFE02 {
            self.control_spec()
        } else if address == 0xFFFFFE03 {
            self.transfer_data
        } else if address == 0xFFFFFE04 {
            self.status_spec()
        } else {
            self.receive_data
        }
    }

    pub fn read_register(&self, address: u32) -> (r: u8)
        requires
            sci_address(address),
        ensures
            r == self.read_spec(address),
    {
        if address == 0xFFFFFE00 {
            self.read_mode()
        } else if address == 0xFFFFFE01 {
            self.bit_rate
        } else if address == 0xFFFFFE02 {
            self.read_control()
        } else if address == 0xFFFFFE03 {
            self.transfer_data
        } else if address == 0xFFFFFE04 {
            self.read_status()
        } else {
            self.read_rx()
        }
    }

    /// The interface after a register write; writes to the RX data register are ignored.
    pub open spec fn write_spec(self, address: u32, value: u8) -> SerialInterface {
        if address == 0xFFFFFE00 {
            SerialInterface { clock_select: value & 3, ..self }
        } else if address == 0xFFFFFE01 {
            SerialInterface { bit_rate: value, ..self }
        } else if address == 0xFFFFFE02 {
            SerialInterface {
                tx_interrupt_enabled: value & 0x80 != 0,
                rx_interrupt_enabled: value & 0x40 != 0,
                tx_enabled: value & 0x20 != 0,
                rx_enabled: value & 0x10 != 0,
                ..self
            }
        } else if address == 0xFFFFFE03 {
            SerialInterface { transfer_data: value, ..self }
        } else if address == 0xFFFFFE04 {
            SerialInterface {
                tx_data_empty: self.tx_data_empty && value & 0x80 != 0,
                transfer_end: self.transfer_end && value & 0x80 != 0,
                rx_data_full: self.rx_data_full && value & 0x40 != 0,
                ..self
            }
        } else {
            self
        }
    }

    pub fn write_register(&mut self, address: u32, value: u8)
        requires
            sci_address(address),
        ensures
            *final(self) == old(self).write_spec(address, value),
    {
        if address == 0xFFFFFE00 {
            self.write_mode(value);
        } else if address == 0xFFFFFE01 {
            self.bit_rate = value;
        } else if address == 0xFFFFFE02 {
            self.write_control(value);
        } else if address == 0xFFFFFE03 {
            self.transfer_data = value;
        } else if address == 0xFFFFFE04 {
            self.write_status(value);
        }
        // $FFFFFE05 is the RX data register; writes are ignored

    }

    // $FFFFFE00: SMR (Serial mode)
    fn read_mode(&self) -> (r: u8)
        ensures
            r == self.clock_select,
    {
        self.clock_select
    }

    // $FFFFFE00: SMR (Serial mode)
    fn write_mode(&mut self, value: u8)
        ensures
            *final(self) == (SerialInterface { clock_select: value & 3, ..*old(self) }),
    {
        self.clock_select = value & 3;
    }

    pub open spec fn control_spec(&self) -> u8 {
        (if self.tx_interrupt_enabled { 0x80u8 } else { 0u8 }) | (if self.rx_interrupt_enabled {
            0x40u8
        } else {
            0u8
        }) | (if self.tx_enabled { 0x20u8 } else { 0u8 }) | (if self.rx_enabled {
            0x10u8
        } else {
            0u8
        })
    }

    // $FFFFFE02: SCR (Serial control)
    fn read_control(&self) -> (r: u8)
        ensures
            r == self.control_spec(),
    {
        (if self.tx_interrupt_enabled { 0x80u8 } else { 0u8 }) | (if self.rx_interrupt_enabled {
            0x40u8
        } else {
            0u8
        }) | (if self.tx_enabled { 0x20u8 } else { 0u8 }) | (if self.rx_enabled {
            0x10u8
        } else {
            0u8
        })
    }

    // $FFFFFE02: SCR (Serial control)
    fn write_control(&mut self, value: u8)
        ensures
            *final(self) == (SerialInterface {
                tx_interrupt_enabled: value & 0x80 != 0,
                rx_interrupt_enabled: value & 0x40 != 0,
                tx_enabled: value & 0x20 != 0,
                rx_enabled: value & 0x10 != 0,
                ..*old(self)
            }),
    {
        self.tx_interrupt_enabled = value & 0x80 != 0;
        self.rx_interrupt_enabled = value & 0x40 != 0;
        self.tx_enabled = value & 0x20 != 0;
        self.rx_enabled = value & 0x10 != 0;
    }

    pub open spec fn status_spec(&self) -> u8 {
        (if self.tx_data_empty { 0x80u8 } else { 0u8 }) | (if self.rx_data_full {
            0x40u8
        } else {
            0u8
        }) | (if self.transfer_end { 0x04u8 } else { 0u8 })
    }

    // $FFFFFE04: SSR (Serial status)
    fn read_status(&self) -> (r: u8)
        ensures
            r == self.status_spec(),
    {
        (if self.tx_data_empty { 0x80u8 } else { 0u8 }) | (if self.rx_data_full {
            0x40u8
        } else {
            0u8
        }) | (if self.transfer_end { 0x04u8 } else { 0u8 })
    }

    // $FFFFFE04: SSR (Serial status)
    fn write_status(&mut self, value: u8)
        ensures
            *final(self) == (SerialInterface {
                tx_data_empty: old(self).tx_data_empty && value & 0x80 != 0,
                transfer_end: old(self).transfer_end && value & 0x80 != 0,
                rx_data_full: old(self).rx_data_full && value & 0x40 != 0,
                ..*old(self)
            }),
    {
        self.tx_data_empty = self.tx_data_empty && value & 0x80 != 0;
        self.transfer_end = self.transfer_end && value & 0x80 != 0;
        self.rx_data_full = self.rx_data_full && value & 0x40 != 0;
    }

    // $FFFFFE05: RDR (Receive data register)
    fn read_rx(&self) -> (r: u8)
        ensures
            r == self.receive_data,
    {
        self.receive_data
    }

    pub open spec fn rx_interrupt_pending_spec(&self) -> bool {
        self.rx_interrupt_enabled && self.rx_data_full
    }

    pub fn rx_interrupt_pending(&self) -> (r: bool)
        ensures
            r == self.rx_interrupt_pending_spec(),
    {
        self.rx_interrupt_enabled && self.rx_data_full
    }
}

fn estimate_tx_clocks(clock_select: u8, bit_rate: u8) -> (r: u64)
    requires
        clock_select <= 3,
    ensures
        r == tx_clocks_spec(clock_select, bit_rate),
        r > 0,
{
    let br = bit_rate as u64 + 1;
    let clocks_per_bit: u64 = if clock_select == 0 {
        128 * br
    } else {
        let shift = 2 * clock_select - 1;
        let factor: u64 = if shift == 1 {
            2
        } else if shift == 3 {
            8
        } else {
            32
        };
        proof {
            vstd::arithmetic::power2::lemma2_to64();
        }
        assert(256 * factor * br <= 256 * 32 * 256) by (nonlinear_arith)
            requires
                factor <= 32,
                br <= 256,
        ;
        assert(256 * factor * br >= 256) by (nonlinear_arith)
            requires
                factor >= 2,
                br >= 1,
        ;
        256 * factor * br
    };
    assert(clocks_per_bit <= 256 * 32 * 256);
    assert(clocks_per_bit >= 128);
    8 * clocks_per_bit
}

} // verus!
