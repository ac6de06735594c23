//! SH-2 DMA controller (DMAC)
use crate::sh2::bus::BusInterface;
use vstd::prelude::*;

verus! {

#[derive(Debug, Clone, Copy, PartialEq, Eq, Structural)]
pub enum DmaAddressMode {
    Fixed,
    AutoIncrement,
    AutoDecrement,
    Invalid,
}

pub open spec fn address_mode_spec(v: u32) -> DmaAddressMode {
    match v & 3 {
        0 => DmaAddressMode::Fixed,
        1 => DmaAddressMode::AutoIncrement,
        2 => DmaAddressMode::AutoDecrement,
        _ => DmaAddressMode::Invalid,
    }
}

pub open spec fn address_mode_bits(m: DmaAddressMode) -> u32 {
    match m {
        DmaAddressMode::Fixed => 0,
        DmaAddressMode::AutoIncrement => 1,
        DmaAddressMode::AutoDecrement => 2,
        DmaAddressMode::Invalid => 3,
    }
}

impl DmaAddressMode {
    fn from_value(value: u32) -> (r: Self)
        ensures
            r == address_mode_spec(value),
    {
        let v = value & 3;
        proof {
            crate::bit_facts::lemma_u32_fields(value);
        }
        match v {
            0 => Self::Fixed,
            1 => Self::AutoIncrement,
            2 => Self::AutoDecrement,
            _ => Self::Invalid,
        }
    }

    fn bits(self) -> (r: u32)
        ensures
            r == address_mode_bits(self),
    {
        match self {
            Self::Fixed => 0,
            Self::AutoIncrement => 1,
            Self::AutoDecrement => 2,
            Self::Invalid => 3,
        }
    }
}

#[derive(Debug, Clone, Copy, PartialEq, Eq, Structural)]
pub enum DmaTransferUnit {
    Byte,
    Word,
    Longword,
    SixteenByte,
}

pub open spec fn transfer_unit_spec(v: u32) -> DmaTransferUnit {
    match v & 3 {
        0 => DmaTransferUnit::Byte,
        1 => DmaTransferUnit::Word,
        2 => DmaTransferUnit::Longword,
        _ => DmaTransferUnit::SixteenByte,
    }
}

pub open spec fn transfer_unit_bits(u: DmaTransferUnit) -> u32 {
    match u {
        DmaTransferUnit::Byte => 0,
        DmaTransferUnit::Word => 1,
        DmaTransferUnit::Longword => 2,
        DmaTransferUnit::SixteenByte => 3,
    }
}

impl DmaTransferUnit {
    fn from_value(value: u32) -> (r: Self)
        ensures
            r == transfer_unit_spec(value),
    {
        let v = value & 3;
        proof {
            crate::bit_facts::lemma_u32_fields(value);
        }
        match v {
            0 => Self::Byte,
            1 => Self::Word,
            2 => Self::Longword,
            _ => Self::SixteenByte,
        }
    }

    fn bits(self) -> (r: u32)
        ensures
            r == transfer_unit_bits(self),
    {
        match self {
            Self::Byte => 0,
            Self::Word => 1,
            Self::Longword => 2,
            Self::SixteenByte => 3,
        }
    }
}

#[derive(Debug, Clone, Copy, PartialEq, Eq, Structural)]
pub enum DmaAckMode {
    Read,
    Write,
}

#[derive(Debug, Clone, Copy, PartialEq, Eq, Structural)]
pub enum DreqDetectionMode {
    Level,
    Edge,
}

#[derive(Debug, Clone, Copy, PartialEq, Eq, Structural)]
pub enum DmaBusMode {
    CycleStealing,
    Burst,
}

#[derive(Debug, Clone, Copy, PartialEq, Eq, Structural)]
pub enum DmaTransferAddressMode {
    Dual,
    Single,
}

#[derive(Debug, Clone, Copy, PartialEq, Eq, Structural)]
pub struct DmaChannelControl {
    pub source_address_mode: DmaAddressMode,
    pub destination_address_mode: DmaAddressMode,
    pub transfer_size: DmaTransferUnit,
    pub auto_request: bool,
    pub ack_mode: DmaAckMode,
    pub ack_level: bool,
    pub dreq_select: DreqDetectionMode,
    pub dreq_level: bool,
    pub bus_mode: DmaBusMode,
    pub transfer_address_mode: DmaTransferAddressMode,
    pub interrupt_enabled: bool,
    pub dma_complete: bool,
    pub dma_enabled: bool,
}

pub open spec fn b2u(b: bool) -> u32 {
    if b {
        1
    } else {
        0
    }
}

/// The CHCR register value of a channel control.
pub open spec fn control_value_spec(c: DmaChannelControl) -> u32 {
    (address_mode_bits(c.destination_address_mode) << 14) | (address_mode_bits(
        c.source_address_mode,
    ) << 12) | (transfer_unit_bits(c.transfer_size) << 10) | (b2u(c.auto_request) << 9) | (b2u(
        c.ack_mode == DmaAckMode::Write,
    ) << 8) | (b2u(c.ack_level) << 7) | (b2u(c.dreq_select == DreqDetectionMode::Edge) << 6) | (b2u(
        c.dreq_level,
    ) << 5) | (b2u(c.bus_mode == DmaBusMode::Burst) << 4) | (b2u(
        c.transfer_address_mode == DmaTransferAddressMode::Single,
    ) << 3) | (b2u(c.interrupt_enabled) << 2) | (b2u(c.dma_complete) << 1) | b2u(c.dma_enabled)
}

/// The channel control after a CHCR write; the DMA complete flag can only be cleared by a write.
pub open spec fn control_write_spec(c: DmaChannelControl, value: u32) -> DmaChannelControl {
    DmaChannelControl {
        destination_address_mode: address_mode_spec(value >> 14),
        source_address_mode: address_mode_spec(value >> 12),
        transfer_size: transfer_unit_spec(value >> 10),
        auto_request: value & 0x200 != 0,
        ack_mode: if value & 0x100 != 0 {
            DmaAckMode::Write
        } else {
            DmaAckMode::Read
        },
        ack_level: value & 0x80 != 0,
        dreq_select: if value & 0x40 != 0 {
            DreqDetectionMode::Edge
        } else {
            DreqDetectionMode::Level
        },
        dreq_level: value & 0x20 != 0,
        bus_mode: if value & 0x10 != 0 {
            DmaBusMode::Burst
        } else {
            DmaBusMode::CycleStealing
        },
        transfer_address_mode: if value & 0x08 != 0 {
            DmaTransferAddressMode::Single
        } else {
            DmaTransferAddressMode::Dual
        },
        interrupt_enabled: value & 0x04 != 0,
        dma_complete: c.dma_complete && value & 0x02 != 0,
        dma_enabled: value & 0x01 != 0,
    }
}

impl DmaChannelControl {
    pub fn new() -> (r: Self)
        ensures
            r == (DmaChannelControl {
                source_address_mode: DmaAddressMode::Fixed,
                destination_address_mode: DmaAddressMode::Fixed,
                transfer_size: DmaTransferUnit::Byte,
                auto_request: false,
                ack_mode: DmaAckMode::Read,
                ack_level: false,
                dreq_select: DreqDetectionMode::Level,
                dreq_level: false,
                bus_mode: DmaBusMode::CycleStealing,
                transfer_address_mode: DmaTransferAddressMode::Dual,
                interrupt_enabled: false,
                dma_complete: false,
                dma_enabled: false,
            }),
    {
        let r = DmaChannelControl {
            source_address_mode: DmaAddressMode::Fixed,
            destination_address_mode: DmaAddressMode::Fixed,
            transfer_size: DmaTransferUnit::Byte,
            auto_request: false,
            ack_mode: DmaAckMode::Read,
            ack_level: false,
            dreq_select: DreqDetectionMode::Level,
            dreq_level: false,
            bus_mode: DmaBusMode::CycleStealing,
            transfer_address_mode: DmaTransferAddressMode::Dual,
            interrupt_enabled: false,
            dma_complete: false,
            dma_enabled: false,
        };
        r
    }

    pub fn to_register_value(&self) -> (r: u32)
        ensures
            r == control_value_spec(*self),
    {
        (self.destination_address_mode.bits() << 14) | (self.source_address_mode.bits() << 12) | (
        self.transfer_size.bits() << 10) | ((if self.auto_request { 1u32 } else { 0u32 }) << 9) | ((
        if self.ack_mode == DmaAckMode::Write {
            1u32
        } else {
            0u32
        }) << 8) | ((if self.ack_level { 1u32 } else { 0u32 }) << 7) | ((
        if self.dreq_select == DreqDetectionMode::Edge {
            1u32
        } else {
            0u32
        }) << 6) | ((if self.dreq_level { 1u32 } else { 0u32 }) << 5) | ((
        if self.bus_mode == DmaBusMode::Burst {
            1u32
        } else {
            0u32
        }) << 4) | ((if self.transfer_address_mode == DmaTransferAddressMode::Single {
            1u32
        } else {
            0u32
        }) << 3) | ((if self.interrupt_enabled { 1u32 } else { 0u32 }) << 2) | ((
        if self.dma_complete {
            1u32
        } else {
            0u32
        }) << 1) | (if self.dma_enabled { 1u32 } else { 0u32 })
    }

    pub fn write(&mut self, value: u32)
        ensures
            *final(self) == control_write_spec(*old(self), value),
    {
        self.destination_address_mode = DmaAddressMode::from_value(value >> 14);
        self.source_address_mode = DmaAddressMode::from_value(value >> 12);
        self.transfer_size = DmaTransferUnit::from_value(value >> 10);
        self.auto_request = value & 0x200 != 0;
        self.ack_mode = if value & 0x100 != 0 {
            DmaAckMode::Write
        } else {
            DmaAckMode::Read
        };
        self.ack_level = value & 0x80 != 0;
        self.dreq_select = if value & 0x40 != 0 {
            DreqDetectionMode::Edge
        } else {
            DreqDetectionMode::Level
        };
        self.dreq_level = value & 0x20 != 0;
        self.bus_mode = if value & 0x10 != 0 {
            DmaBusMode::Burst
        } else {
            DmaBusMode::CycleStealing
        };
        self.transfer_address_mode = if value & 0x08 != 0 {
            DmaTransferAddressMode::Single
        } else {
            DmaTransferAddressMode::Dual
        };
        self.interrupt_enabled = value & 0x04 != 0;
        // DMA complete flag can only be cleared by writes, not set
        self.dma_complete = self.dma_complete && value & 0x02 != 0;
        self.dma_enabled = value & 0x01 != 0;
    }

    pub open spec fn interrupt_pending_spec(&self) -> bool {
        self.interrupt_enabled && self.dma_complete && self.dma_enabled
    }

    pub fn interrupt_pending(&self) -> (r: bool)
        ensures
            r == self.interrupt_pending_spec(),
    {
        self.interrupt_enabled && self.dma_complete && self.dma_enabled
    }
}

/// Writing a CHCR value and reading the register back gives the written value's 16 control bits,
/// except that the DMA complete flag (bit 1) is kept only if it was already set.
pub proof fn lemma_control_write_read(c: DmaChannelControl, value: u32)
    ensures
        control_value_spec(control_write_spec(c, value)) == (value & 0xFFFD) | (if c.dma_complete
            && value & 2 != 0 {
            2u32
        } else {
            0u32
        }),
{
    let w = control_write_spec(c, value);
    assert(address_mode_bits(address_mode_spec(value >> 14)) == (value >> 14) & 3) by {
        crate::bit_facts::lemma_u32_fields(value);
    }
    assert(address_mode_bits(address_mode_spec(value >> 12)) == (value >> 12) & 3) by {
        crate::bit_facts::lemma_u32_fields(value);
    }
    assert(transfer_unit_bits(transfer_unit_spec(value >> 10)) == (value >> 10) & 3) by {
        crate::bit_facts::lemma_u32_fields(value);
    }
    let d = (value >> 14) & 3;
    let s = (value >> 12) & 3;
    let t = (value >> 10) & 3;
    let cond = c.dma_complete && value & 2 != 0;
    let dc: u32 = if cond { 2 } else { 0 };
    let dcb = b2u(w.dma_complete);
    assert(dcb << 1 == dc) by (bit_vector)
        requires
            dcb == (if cond { 1u32 } else { 0u32 }),
            dc == (if cond { 2u32 } else { 0u32 }),
    ;
    assert((d << 14) | (s << 12) | (t << 10) | (b2u(value & 0x200 != 0) << 9) | (b2u(value & 0x100
        != 0) << 8) | (b2u(value & 0x80 != 0) << 7) | (b2u(value & 0x40 != 0) << 6) | (b2u(value
        & 0x20 != 0) << 5) | (b2u(value & 0x10 != 0) << 4) | (b2u(value & 0x08 != 0) << 3) | (b2u(
    value & 0x04 != 0) << 2) | dc | b2u(value & 0x01 != 0) == (value & 0xFFFD) | dc) by (bit_vector)
        requires
            d == (value >> 14) & 3,
            s == (value >> 12) & 3,
            t == (value >> 10) & 3,
            dc == 0 || dc == 2,
            dc == 2 ==> value & 2 != 0,
    ;
}

#[derive(Debug, Clone, Copy, PartialEq, Eq, Structural)]
pub struct DmaChannel {
    pub source_address: u32,
    pub destination_address: u32,
    pub transfer_count: u32,
    pub control: DmaChannelControl,
    pub just_ran: bool,
}

impl DmaChannel {
    fn new() -> (r: Self)
        ensures
            r.source_address == 0 && r.destination_address == 0 && r.transfer_count == 0,
            !r.control.dma_enabled && !r.control.dma_complete && !r.just_ran,
    {
        Self {
            source_address: 0,
            destination_address: 0,
            transfer_count: 0,
            control: DmaChannelControl::new(),
            just_ran: false,
        }
    }
}

#[derive(Debug, Clone, Copy, PartialEq, Eq, Structural)]
pub enum DmaPriorityMode {
    Fixed,
    RoundRobin,
}

#[derive(Debug, Clone, Copy, PartialEq, Eq, Structural)]
pub struct DmaOperation {
    pub priority: DmaPriorityMode,
    pub address_error: bool,
    pub dma_master_enabled: bool,
}

impl DmaOperation {
    pub fn new() -> (r: Self)
        ensures
            r == (DmaOperation {
                priority: DmaPriorityMode::Fixed,
                address_error: false,
                dma_master_enabled: false,
            }),
    {
        DmaOperation { priority: DmaPriorityMode::Fixed, address_error: false, dma_master_enabled: false }
    }

    pub open spec fn read_spec(&self) -> u32 {
        (b2u(self.priority == DmaPriorityMode::RoundRobin) << 3) | (b2u(self.address_error) << 2)
            | b2u(self.dma_master_enabled)
    }

    pub fn read(&self) -> (r: u32)
        ensures
            r == self.read_spec(),
    {
        // Bit 1 (NMI flag) reads as 0
        ((if self.priority == DmaPriorityMode::RoundRobin { 1u32 } else { 0u32 }) << 3) | ((
        if self.address_error {
            1u32
        } else {
            0u32
        }) << 2) | (if self.dma_master_enabled { 1u32 } else { 0u32 })
    }

    pub fn write(&mut self, value: u32)
        ensures
            *final(self) == (DmaOperation {
                priority: if value & 8 != 0 {
                    DmaPriorityMode::RoundRobin
                } else {
                    DmaPriorityMode::Fixed
                },
                address_error: old(self).address_error && value & 4 != 0,
                dma_master_enabled: value & 1 != 0,
            }),
    {
        self.priority = if value & 8 != 0 {
            DmaPriorityMode::RoundRobin
        } else {
            DmaPriorityMode::Fixed
        };
        self.address_error = self.address_error && value & 4 != 0;
        self.dma_master_enabled = value & 1 != 0;
    }
}

/// The DMA controller. Alongside its state it keeps a ghost record of the DREQ lines it has
/// sampled, in order: the channel and the line's level.
#[derive(Clone, Copy)]
pub struct DmaController {
    pub channels: [DmaChannel; 2],
    pub operation: DmaOperation,
    pub dreq_samples: Ghost<Seq<(usize, bool)>>,
}

/// Whether an address is a DMAC register that can be read.
pub open spec fn dmac_readable(address: u32) -> bool {
    address == 0xFFFFFF8C || address == 0xFFFFFF9C || address == 0xFFFFFFB0
}

/// Whether an address is a DMAC register that can be written.
pub open spec fn dmac_writable(address: u32) -> bool {
    address == 0xFFFFFF80 || address == 0xFFFFFF84 || address == 0xFFFFFF88 || address == 0xFFFFFF8C
        || address == 0xFFFFFF90 || address == 0xFFFFFF94 || address == 0xFFFFFF98 || address
        == 0xFFFFFF9C || address == 0xFFFFFFB0
}

/// Whether a channel has a transfer to do at all (enabled, not complete).
pub open spec fn channel_active(c: DmaChannel) -> bool {
    c.control.dma_enabled && !c.control.dma_complete
}

/// Whether a channel is skipped this cycle because it ran last cycle in cycle-steal mode.
pub open spec fn channel_steals(c: DmaChannel) -> bool {
    c.control.bus_mode == DmaBusMode::CycleStealing && c.just_ran
}

impl DmaController {
    pub open spec fn read_spec(self, address: u32) -> u32 {
        if address == 0xFFFFFF8C {
            control_value_spec(self.channels[0].control)
        } else if address == 0xFFFFFF9C {
            control_value_spec(self.channels[1].control)
        } else {
            self.operation.read_spec()
        }
    }

    /// Whether a controller is the result of a register write: SAR, DAR, TCR (24 bits) and CHCR
    /// of each channel, and DMAOR.
    pub open spec fn write_rel(new: DmaController, old: DmaController, address: u32, value: u32) -> bool {
        if address == 0xFFFFFFB0 {
            &&& new.channels@ == old.channels@
            &&& new.operation == (DmaOperation {
                priority: if value & 8 != 0 {
                    DmaPriorityMode::RoundRobin
                } else {
                    DmaPriorityMode::Fixed
                },
                address_error: old.operation.address_error && value & 4 != 0,
                dma_master_enabled: value & 1 != 0,
            })
        } else {
            let i: int = if address < 0xFFFFFF90 { 0 } else { 1 };
            let c = old.channels[i];
            let reg = address & 0xF;
            let nc = if reg == 0 {
                DmaChannel { source_address: value, ..c }
            } else if reg == 4 {
                DmaChannel { destination_address: value, ..c }
            } else if reg == 8 {
                DmaChannel { transfer_count: value & 0xFFFFFF, ..c }
            } else {
                DmaChannel { control: control_write_spec(c.control, value), ..c }
            };
            &&& new.operation == old.operation
            &&& new.channels@ == old.channels@.update(i, nc)
        }
    }

    pub fn new() -> (r: Self)
        ensures
            forall|i: int|
                0 <= i < 2 ==> (#[trigger] r.channels[i]).source_address == 0
                    && r.channels[i].destination_address == 0 && r.channels[i].transfer_count == 0
                    && !r.channels[i].control.dma_enabled && !r.channels[i].control.dma_complete
                    && !r.channels[i].just_ran,
            r.operation == (DmaOperation {
                priority: DmaPriorityMode::Fixed,
                address_error: false,
                dma_master_enabled: false,
            }),
    {
        Self {
            channels: [DmaChannel::new(), DmaChannel::new()],
            operation: DmaOperation::new(),
            dreq_samples: Ghost(Seq::empty()),
        }
    }

    pub fn read_register(&self, address: u32) -> (r: u32)
        requires
            dmac_readable(address),
        ensures
            address == 0xFFFFFF8C ==> r == control_value_spec(self.channels[0].control),
            address == 0xFFFFFF9C ==> r == control_value_spec(self.channels[1].control),
            address == 0xFFFFFFB0 ==> r == self.operation.read_spec(),
    {
        if address == 0xFFFFFF8C {
            self.channels[0].control.to_register_value()
        } else if address == 0xFFFFFF9C {
            self.channels[1].control.to_register_value()
        } else {
            self.operation.read()
        }
    }

    pub fn write_register(&mut self, address: u32, value: u32)
        requires
            dmac_writable(address),
        ensures
            DmaController::write_rel(*final(self), *old(self), address, value),
            address == 0xFFFFFF80 ==> final(self).channels[0] == (DmaChannel {
                source_address: value,
                ..old(self).channels[0]
            }) && final(self).channels[1] == old(self).channels[1] && final(self).operation == old(self).operation,
            address == 0xFFFFFF84 ==> final(self).channels[0] == (DmaChannel {
                destination_address: value,
                ..old(self).channels[0]
            }) && final(self).channels[1] == old(self).channels[1] && final(self).operation == old(self).operation,
            address == 0xFFFFFF88 ==> final(self).channels[0] == (DmaChannel {
                transfer_count: value & 0xFFFFFF,
                ..old(self).channels[0]
            }) && final(self).channels[1] == old(self).channels[1] && final(self).operation == old(self).operation,
            address == 0xFFFFFF8C ==> final(self).channels[0] == (DmaChannel {
                control: control_write_spec(old(self).channels[0].control, value),
                ..old(self).channels[0]
            }) && final(self).channels[1] == old(self).channels[1] && final(self).operation == old(self).operation,
            address == 0xFFFFFF90 ==> final(self).channels[1] == (DmaChannel {
                source_address: value,
                ..old(self).channels[1]
            }) && final(self).channels[0] == old(self).channels[0] && final(self).operation == old(self).operation,
            address == 0xFFFFFF94 ==> final(self).channels[1] == (DmaChannel {
                destination_address: value,
                ..old(self).channels[1]
            }) && final(self).channels[0] == old(self).channels[0] && final(self).operation == old(self).operation,
            address == 0xFFFFFF98 ==> final(self).channels[1] == (DmaChannel {
                transfer_count: value & 0xFFFFFF,
                ..old(self).channels[1]
            }) && final(self).channels[0] == old(self).channels[0] && final(self).operation == old(self).operation,
            address == 0xFFFFFF9C ==> final(self).channels[1] == (DmaChannel {
                control: control_write_spec(old(self).channels[1].control, value),
                ..old(self).channels[1]
            }) && final(self).channels[0] == old(self).channels[0] && final(self).operation == old(self).operation,
            address == 0xFFFFFFB0 ==> final(self).channels == old(self).channels && final(self).operation == (DmaOperation {
                priority: if value & 8 != 0 {
                    DmaPriorityMode::RoundRobin
                } else {
                    DmaPriorityMode::Fixed
                },
                address_error: old(self).operation.address_error && value & 4 != 0,
                dma_master_enabled: value & 1 != 0,
            }),
    {
        let ch: usize = if address < 0xFFFFFF90 { 0 } else { 1 };
        if address == 0xFFFFFFB0 {
            self.operation.write(value);
            return ;
        }
        let mut channel = self.channels[ch];
        let reg = address & 0xF;
        if reg == 0x0 {
            channel.source_address = value;
        } else if reg == 0x4 {
            channel.destination_address = value;
        } else if reg == 0x8 {
            channel.transfer_count = value & 0xFFFFFF;
        } else {
            channel.control.write(value);
        }
        proof {
            crate::bit_facts::lemma_constants();
        }
        self.channels[ch] = channel;
        assert(self.channels@ == old(self).channels@.update(ch as int, channel));
    }

    /// Picks the channel that transfers next: none while the DMAC is disabled or flags an address
    /// error; otherwise the first enabled, incomplete channel that is not skipping a cycle in
    /// cycle-steal mode and that has auto-request set or its DREQ line raised. A cycle-steal channel
    /// that ran last cycle is skipped once (its `just_ran` flag clears); the chosen channel is
    /// marked as having run.
    pub fn channel_ready<B: BusInterface>(&mut self, bus: &mut B) -> (r: Option<usize>)
        ensures
            final(self).operation == old(self).operation,
            !old(self).operation.dma_master_enabled || old(self).operation.address_error ==> r
                is None && *final(self) == *old(self),
            r matches Some(i) ==> i < 2 && old(self).operation.dma_master_enabled && !old(self).operation.address_error && channel_active(old(self).channels[i as int])
                && !channel_steals(old(self).channels[i as int]) && final(self).channels[i as int]
                == (DmaChannel { just_ran: true, ..old(self).channels[i as int] }),
            r matches Some(i) ==> i == 1 ==> (channel_active(old(self).channels[0]) && !channel_steals(
                old(self).channels[0],
            ) ==> !old(self).channels[0].control.auto_request && final(self).dreq_samples@.subrange(
                old(self).dreq_samples@.len() as int,
                final(self).dreq_samples@.len() as int,
            ).contains((0usize, false))),
            forall|i: int|
                0 <= i < 2 ==> (#[trigger] final(self).channels[i]).source_address == old(self).channels[i].source_address && final(self).channels[i].destination_address == old(self).channels[i].destination_address && final(self).channels[i].transfer_count == old(self).channels[i].transfer_count && final(self).channels[i].control == old(self).channels[i].control,
            old(self).operation.dma_master_enabled && !old(self).operation.address_error ==> forall|i: int|
                0 <= i < 2 && r != Some(i as usize) ==> (#[trigger] final(self).channels[i]).just_ran
                    == (old(self).channels[i].just_ran && !(channel_active(old(self).channels[i])
                    && channel_steals(old(self).channels[i]) && (r is None || (r matches Some(
                    k) && (i as usize) < k)))),
            r is None && old(self).operation.dma_master_enabled && !old(self).operation.address_error ==> forall|i: int|
                0 <= i < 2 && channel_active(old(self).channels[i]) && !channel_steals(
                    old(self).channels[i],
                ) ==> !(#[trigger] old(self).channels[i]).control.auto_request
                    && final(self).dreq_samples@.subrange(
                    old(self).dreq_samples@.len() as int,
                    final(self).dreq_samples@.len() as int,
                ).contains((i as usize, false)),
            r matches Some(i) ==> old(self).channels[i as int].control.auto_request
                || final(self).dreq_samples@.last() == (i, true),
            old(self).dreq_samples@.is_prefix_of(final(self).dreq_samples@),
    {
        if !self.operation.dma_master_enabled || self.operation.address_error {
            return None;
        }
        // TODO respect priority
        let mut idx: usize = 0;
        while idx < 2
            invariant
                idx <= 2,
                self.operation == old(self).operation,
                old(self).operation.dma_master_enabled && !old(self).operation.address_error,
                forall|i: int|
                    idx <= i < 2 ==> #[trigger] self.channels[i] == old(self).channels[i],
                forall|i: int|
                    0 <= i < idx ==> (#[trigger] self.channels[i]) == (DmaChannel {
                        just_ran: old(self).channels[i].just_ran && !(channel_active(
                            old(self).channels[i],
                        ) && channel_steals(old(self).channels[i])),
                        ..old(self).channels[i]
                    }),
                forall|i: int|
                    0 <= i < idx && channel_active(old(self).channels[i]) && !channel_steals(
                        old(self).channels[i],
                    ) ==> !(#[trigger] old(self).channels[i]).control.auto_request
                        && self.dreq_samples@.subrange(
                        old(self).dreq_samples@.len() as int,
                        self.dreq_samples@.len() as int,
                    ).contains((i as usize, false)),
                old(self).dreq_samples@.is_prefix_of(self.dreq_samples@),
            decreases 2 - idx,
        {
            let mut channel = self.channels[idx];
            if !channel.control.dma_enabled || channel.control.dma_complete {
                idx += 1;
                continue ;
            }
            if channel.control.bus_mode == DmaBusMode::CycleStealing && channel.just_ran {
                channel.just_ran = false;
                self.channels[idx] = channel;
                idx += 1;
                continue ;
            }
            let requested = if channel.control.auto_request {
                true
            } else {
                let line = if idx == 0 {
                    bus.dma_request_0()
                } else {
                    bus.dma_request_1()
                };
                let ghost before = self.dreq_samples@;
                self.dreq_samples = Ghost(self.dreq_samples@.push((idx, line)));
                proof {
                    assert forall|i: int|
                        0 <= i < idx && channel_active(old(self).channels[i]) && !channel_steals(
                            old(self).channels[i],
                        ) implies self.dreq_samples@.subrange(
                        old(self).dreq_samples@.len() as int,
                        self.dreq_samples@.len() as int,
                    ).contains((i as usize, false)) by {
                        let sub0 = before.subrange(
                            old(self).dreq_samples@.len() as int,
                            before.len() as int,
                        );
                        let k = choose|k: int| 0 <= k < sub0.len() && sub0[k] == (i as usize, false);
                        assert(self.dreq_samples@.subrange(
                            old(self).dreq_samples@.len() as int,
                            self.dreq_samples@.len() as int,
                        )[k] == sub0[k]);
                    }
                    assert(old(self).dreq_samples@.is_prefix_of(self.dreq_samples@));
                    if !line {
                        let sub = self.dreq_samples@.subrange(
                            old(self).dreq_samples@.len() as int,
                            self.dreq_samples@.len() as int,
                        );
                        assert(sub[sub.len() - 1] == (idx, false));
                    }
                }
                line
            };
            if requested {
                channel.just_ran = true;
                self.channels[idx] = channel;
                return Some(idx);
            }
            idx += 1;
        }
        None
    }
}

} // verus!
