//! SH-2 address space: the top 3 address bits select a cached access, an uncached access, an
//! associative purge, the cache address array, the cache data array or the on-chip registers.
use crate::sh2::bus::{AccessContext, BusInterface};
use crate::sh2::cache::{
    address_array_written, after_lookup, be16, be32, ccr_from_spec, ccr_spec, data_array_u16_written,
    data_array_u32_written, data_array_u8_written, entry_index, hit_way, purge_post, ram_addr_spec,
    write_through_u16_post, write_through_u32_post, write_through_u8_post,
};
use crate::sh2::divu::divu_write_overflows;
use crate::sh2::dma::{dmac_readable, dmac_writable};
use crate::sh2::frt::{frt_writable, frt_write_spec};
use crate::sh2::sci::sci_address;
use crate::sh2::{access_frame, bus_addresses_in_range, external_access, Sh2, EXTERNAL_ADDRESS_MASK};
use vstd::prelude::*;

verus! {

/// The bus sees the low 29 bits of an address, which lie in the external address space.
proof fn lemma_external_address(address: u32)
    ensures
        address & EXTERNAL_ADDRESS_MASK <= EXTERNAL_ADDRESS_MASK,
{
    assert(address & 0x1FFFFFFF <= 0x1FFFFFFF) by (bit_vector);
}

/// Access type selected by the top 3 address bits.
pub open spec fn region(address: u32) -> u32 {
    address >> 29
}

/// The on-chip registers' value for a byte read; addresses without a readable register read 0.
pub open spec fn internal_byte_spec(cpu: Sh2, address: u32) -> u8 {
    if sci_address(address) {
        cpu.serial.read_spec(address)
    } else if 0xFFFFFE10 <= address <= 0xFFFFFE19 && address & 0xF == 7 {
        cpu.free_run_timer.tocr_spec()
    } else if address == 0xFFFFFE80 {
        cpu.watchdog_timer.read_control_spec()
    } else if address == 0xFFFFFE92 {
        ccr_spec(cpu.cache.control)
    } else if 0xFFFFFE93 <= address <= 0xFFFFFE9F {
        0xFF
    } else {
        0
    }
}

/// The on-chip registers' value for a word read; addresses without a readable register read 0.
pub open spec fn internal_word_spec(cpu: Sh2, address: u32) -> u16 {
    let br = cpu.sh7604.break_registers;
    let ir = cpu.sh7604.interrupts;
    if address == 0xFFFFFF40 {
        (br.break_address_a >> 16) as u16
    } else if address == 0xFFFFFF42 {
        br.break_address_a as u16
    } else if address == 0xFFFFFF60 {
        (br.break_address_b >> 16) as u16
    } else if address == 0xFFFFFF62 {
        br.break_address_b as u16
    } else if address == 0xFFFFFEE2 {
        ((ir.divu_priority as u16) << 12) | ((ir.dmac_priority as u16) << 8) | ((
        ir.wdt_priority as u16) << 4)
    } else {
        0
    }
}

/// The on-chip registers' value for a longword read; addresses without a readable register read 0.
pub open spec fn internal_longword_spec(cpu: Sh2, address: u32) -> u32 {
    if 0xFFFFFF00 <= address <= 0xFFFFFF1C {
        cpu.divu.read_spec(address)
    } else if address == 0xFFFFFF40 {
        cpu.sh7604.break_registers.break_address_a
    } else if address == 0xFFFFFF60 {
        cpu.sh7604.break_registers.break_address_b
    } else if dmac_readable(address) {
        cpu.dmac.read_spec(address)
    } else {
        0
    }
}

impl Sh2 {
    pub fn read_internal_register_byte(&self, address: u32) -> (r: u8)
        ensures
            r == internal_byte_spec(*self, address),
    {
        if address == 0xFFFFFC17 {
            // Cosmic Carnage constantly reads from and writes to this address; no register is known
            0
        } else if 0xFFFFFE00 <= address && address <= 0xFFFFFE05 {
            self.serial.read_register(address)
        } else if 0xFFFFFE10 <= address && address <= 0xFFFFFE19 {
            if address & 0xF == 7 {
                self.free_run_timer.read_register(address)
            } else {
                0
            }
        } else if address == 0xFFFFFE80 {
            self.watchdog_timer.read_control()
        } else if address == 0xFFFFFE92 {
            self.cache.read_control()
        } else if 0xFFFFFE93 <= address && address <= 0xFFFFFE9F {
            0xFF
        } else {
            0
        }
    }

    pub fn read_internal_register_word(&self, address: u32) -> (r: u16)
        ensures
            r == internal_word_spec(*self, address),
    {
        if address == 0xFFFFFF40 {
            (self.sh7604.break_registers.break_address_a >> 16) as u16
        } else if address == 0xFFFFFF42 {
            self.sh7604.break_registers.break_address_a as u16
        } else if address == 0xFFFFFF60 {
            (self.sh7604.break_registers.break_address_b >> 16) as u16
        } else if address == 0xFFFFFF62 {
            self.sh7604.break_registers.break_address_b as u16
        } else if address == 0xFFFFFEE2 {
            let ir = self.sh7604.interrupts;
            ((ir.divu_priority as u16) << 12) | ((ir.dmac_priority as u16) << 8) | ((
            ir.wdt_priority as u16) << 4)
        } else {
            0
        }
    }

    pub fn read_internal_register_longword(&self, address: u32) -> (r: u32)
        ensures
            r == internal_longword_spec(*self, address),
    {
        if 0xFFFFFF00 <= address && address <= 0xFFFFFF1C {
            self.divu.read_register(address)
        } else if address == 0xFFFFFF40 {
            // Break registers; break functionality is not implemented
            self.sh7604.break_registers.break_address_a
        } else if address == 0xFFFFFF60 {
            self.sh7604.break_registers.break_address_b
        } else if address == 0xFFFFFF8C || address == 0xFFFFFF9C || address == 0xFFFFFFB0 {
            self.dmac.read_register(address)
        } else {
            0
        }
    }

    pub fn write_internal_register_byte(&mut self, address: u32, value: u8)
        ensures
            internal_byte_written(*final(self), *old(self), address, value),
    {
        if 0xFFFFFE00 <= address && address <= 0xFFFFFE05 {
            self.serial.write_register(address, value);
        } else if 0xFFFFFE10 <= address && address <= 0xFFFFFE19 {
            if address & 0xF <= 7 {
                self.free_run_timer.write_register(address, value);
            }
        } else if address == 0xFFFFFE92 {
            self.cache.write_control(value);
        } else if address == 0xFFFFFEE3 {
            self.sh7604.interrupts.write_ipra_low(value);
            self.update_internal_interrupt_level();
        } else if address == 0xFFFFFEE4 {
            self.sh7604.interrupts.write_vcrwdt_high(value);
            self.update_internal_interrupt_level();
        }
        // Other addresses ($FFFFFC17, SBYCR at $FFFFFE91, $FFFFFE93-$FFFFFE9F) hold nothing that
        // is emulated; writes to them are ignored

    }

    pub fn write_internal_register_word(&mut self, address: u32, value: u16)
        ensures
            internal_word_written(*final(self), *old(self), address, value),
    {
        if address == 0xFFFFFE60 {
            self.sh7604.interrupts.write_iprb(value);
        } else if address == 0xFFFFFE62 {
            self.sh7604.interrupts.write_vcra(value);
        } else if address == 0xFFFFFE64 {
            self.sh7604.interrupts.write_vcrb(value);
        } else if address == 0xFFFFFE80 {
            // Watchdog mode is not emulated; the timer always runs as an interval timer
            let v = if (value >> 8) as u8 == 0xA5 {
                value & !0x40u16
            } else {
                value
            };
            assert((v >> 8) as u8 == 0xA5 ==> (v as u8) & 0x40 == 0) by (bit_vector)
                requires
                    v == (if (value >> 8) as u8 == 0xA5 { value & !0x40u16 } else { value }),
            ;
            self.watchdog_timer.write_control(v);
            self.update_internal_interrupt_level();
        } else if address == 0xFFFFFEE2 {
            self.sh7604.interrupts.write_ipra(value);
            self.update_internal_interrupt_level();
        } else if address == 0xFFFFFEE4 {
            self.sh7604.interrupts.write_vcrwdt(value);
            self.update_internal_interrupt_level();
        } else if address == 0xFFFFFF40 {
            self.sh7604.break_registers.write_break_address_a_high(value);
        } else if address == 0xFFFFFF42 {
            self.sh7604.break_registers.write_break_address_a_low(value);
        } else if address == 0xFFFFFF60 {
            self.sh7604.break_registers.write_break_address_b_high(value);
        } else if address == 0xFFFFFF62 {
            self.sh7604.break_registers.write_break_address_b_low(value);
        }
        // $FFFF8446 (SDRAM mode setting) and other addresses hold nothing that is emulated

    }

    pub fn write_internal_register_longword(&mut self, address: u32, value: u32)
        ensures
            internal_longword_written(*final(self), *old(self), address, value),
    {
        if 0xFFFFFF00 <= address && address <= 0xFFFFFF1F {
            // Dividing the most negative dividend by -1 is not emulated; such a write is ignored
            if !self.divu.write_overflows(address, value) {
                self.divu.write_register(address, value);
            }
        } else if address == 0xFFFFFF40 {
            self.sh7604.break_registers.write_break_address_a(value);
        } else if address == 0xFFFFFF60 {
            self.sh7604.break_registers.write_break_address_b(value);
        } else if 0xFFFFFF80 <= address && address <= 0xFFFFFF9F || address == 0xFFFFFFB0 {
            if address == 0xFFFFFF80 || address == 0xFFFFFF84 || address == 0xFFFFFF88 || address
                == 0xFFFFFF8C || address == 0xFFFFFF90 || address == 0xFFFFFF94 || address
                == 0xFFFFFF98 || address == 0xFFFFFF9C || address == 0xFFFFFFB0 {
                self.dmac.write_register(address, value);
                self.update_internal_interrupt_level();
            }
        } else if address == 0xFFFFFFA8 {
            self.sh7604.interrupts.write_vcrdma1(value);
            self.update_internal_interrupt_level();
        }
        // Break bus cycle registers ($FFFFFF48, $FFFFFF68), $FFFFFFB8 and the bus state
        // controller registers ($FFFFFFE0-$FFFFFFFF) are not emulated; writes are ignored

    }

    /// Reads a byte on the external bus at the low 29 bits of `address`, and records it.
    pub(crate) fn external_read_byte<B: BusInterface>(&mut self, address: u32, ctx: AccessContext, bus: &mut B) -> (r: u8)
        ensures
            *final(self) == (Sh2 {
                bus_accesses: Ghost(old(self).bus_accesses@.push(external_access(address, 1, false, r as u32))),
                ..*old(self)
            }),
            bus_addresses_in_range(*old(self)) ==> bus_addresses_in_range(*final(self)),
    {
        let value = bus.read_byte(address & EXTERNAL_ADDRESS_MASK, ctx);
        self.bus_accesses = Ghost(self.bus_accesses@.push(external_access(address, 1, false, value as u32)));
        proof {
            lemma_external_address(address);
        }
        value
    }

    /// Writes a byte on the external bus at the low 29 bits of `address`, and records it.
    pub(crate) fn external_write_byte<B: BusInterface>(&mut self, address: u32, value: u8, bus: &mut B)
        ensures
            *final(self) == (Sh2 {
                bus_accesses: Ghost(old(self).bus_accesses@.push(external_access(address, 1, true, value as u32))),
                ..*old(self)
            }),
            bus_addresses_in_range(*old(self)) ==> bus_addresses_in_range(*final(self)),
    {
        bus.write_byte(address & EXTERNAL_ADDRESS_MASK, value, self.data_ctx);
        self.bus_accesses = Ghost(self.bus_accesses@.push(external_access(address, 1, true, value as u32)));
        proof {
            lemma_external_address(address);
        }
    }

    /// Reads a word on the external bus at the low 29 bits of `address`, and records it.
    pub(crate) fn external_read_word<B: BusInterface>(&mut self, address: u32, ctx: AccessContext, bus: &mut B) -> (r: u16)
        ensures
            *final(self) == (Sh2 {
                bus_accesses: Ghost(old(self).bus_accesses@.push(external_access(address, 2, false, r as u32))),
                ..*old(self)
            }),
            bus_addresses_in_range(*old(self)) ==> bus_addresses_in_range(*final(self)),
    {
        let value = bus.read_word(address & EXTERNAL_ADDRESS_MASK, ctx);
        self.bus_accesses = Ghost(self.bus_accesses@.push(external_access(address, 2, false, value as u32)));
        proof {
            lemma_external_address(address);
        }
        value
    }

    /// Writes a word on the external bus at the low 29 bits of `address`, and records it.
    pub(crate) fn external_write_word<B: BusInterface>(&mut self, address: u32, value: u16, bus: &mut B)
        ensures
            *final(self) == (Sh2 {
                bus_accesses: Ghost(old(self).bus_accesses@.push(external_access(address, 2, true, value as u32))),
                ..*old(self)
            }),
            bus_addresses_in_range(*old(self)) ==> bus_addresses_in_range(*final(self)),
    {
        bus.write_word(address & EXTERNAL_ADDRESS_MASK, value, self.data_ctx);
        self.bus_accesses = Ghost(self.bus_accesses@.push(external_access(address, 2, true, value as u32)));
        proof {
            lemma_external_address(address);
        }
    }

    /// Reads a longword on the external bus at the low 29 bits of `address`, and records it.
    pub(crate) fn external_read_longword<B: BusInterface>(&mut self, address: u32, ctx: AccessContext, bus: &mut B) -> (r: u32)
        ensures
            *final(self) == (Sh2 {
                bus_accesses: Ghost(old(self).bus_accesses@.push(external_access(address, 4, false, r as u32))),
                ..*old(self)
            }),
            bus_addresses_in_range(*old(self)) ==> bus_addresses_in_range(*final(self)),
    {
        let value = bus.read_longword(address & EXTERNAL_ADDRESS_MASK, ctx);
        self.bus_accesses = Ghost(self.bus_accesses@.push(external_access(address, 4, false, value as u32)));
        proof {
            lemma_external_address(address);
        }
        value
    }

    /// Writes a longword on the external bus at the low 29 bits of `address`, and records it.
    pub(crate) fn external_write_longword<B: BusInterface>(&mut self, address: u32, value: u32, bus: &mut B)
        ensures
            *final(self) == (Sh2 {
                bus_accesses: Ghost(old(self).bus_accesses@.push(external_access(address, 4, true, value as u32))),
                ..*old(self)
            }),
            bus_addresses_in_range(*old(self)) ==> bus_addresses_in_range(*final(self)),
    {
        bus.write_longword(address & EXTERNAL_ADDRESS_MASK, value, self.data_ctx);
        self.bus_accesses = Ghost(self.bus_accesses@.push(external_access(address, 4, true, value as u32)));
        proof {
            lemma_external_address(address);
        }
    }

    pub fn read_byte<B: BusInterface>(&mut self, address: u32, bus: &mut B) -> (r: u8)
        ensures
            byte_read(*final(self), *old(self), address, r),
    {
        let region = address >> 29;
        if region == 0 {
            self.cached_read_byte(address, bus)
        } else if region == 1 {
            self.external_read_byte(address, self.data_ctx, bus)
        } else if region == 6 {
            self.cache.read_data_array_u8(address)
        } else if region == 7 {
            self.read_internal_register_byte(address)
        } else {
            // Other regions do not support byte reads
            0
        }
    }

    fn cached_read_byte<B: BusInterface>(&mut self, address: u32, bus: &mut B) -> (r: u8)
        ensures
            access_frame(*final(self), *old(self)),
            old(self).cache.control.cache_enabled && hit_way(old(self).cache, address) is Some
                ==> r == old(self).cache.ram[ram_addr_spec(
                hit_way(old(self).cache, address)->0 as int,
                entry_index(address),
            ) + (address & 0xF)],
    {
        match self.cache.read_u8(address) {
            Some(value) => {
                return value;
            },
            None => {},
        }
        if self.cache.should_replace_data() {
            let longword = self.cache.replace(address, bus, self.data_ctx);
            return longword_byte(longword, address);
        }
        self.external_read_byte(address, self.data_ctx, bus)
    }

    pub fn read_opcode<B: BusInterface>(&mut self, address: u32, bus: &mut B) -> (r: u16)
        ensures
            access_frame(*final(self), *old(self)),
            region(address) == 1 ==> *final(self) == (Sh2 {
                bus_accesses: Ghost(old(self).bus_accesses@.push(external_access(address, 2, false, r as u32))),
                ..*old(self)
            }),
            region(address) == 0 && old(self).cache.control.cache_enabled && hit_way(
                old(self).cache,
                address,
            ) is Some ==> r == be16(
                old(self).cache.ram@,
                ram_addr_spec(hit_way(old(self).cache, address)->0 as int, entry_index(address))
                    + (address & 0xE),
            ),
            region(address) == 6 ==> r == be16(old(self).cache.ram@, (address & 0xFFE) as int)
                && *final(self) == *old(self),
            region(address) == 7 ==> r == internal_word_spec(*old(self), address) && *final(self)
                == *old(self),
    {
        let region = address >> 29;
        if region == 0 {
            self.cached_read_instruction(address, bus)
        } else if region == 1 {
            self.external_read_word(address, AccessContext::Fetch, bus)
        } else if region == 6 {
            self.cache.read_data_array_u16(address)
        } else if region == 7 {
            self.read_internal_register_word(address)
        } else {
            // Other regions do not support instruction fetches
            0
        }
    }

    pub fn read_word<B: BusInterface>(&mut self, address: u32, bus: &mut B) -> (r: u16)
        ensures
            access_frame(*final(self), *old(self)),
            region(address) == 1 ==> *final(self) == (Sh2 {
                bus_accesses: Ghost(old(self).bus_accesses@.push(external_access(address, 2, false, r as u32))),
                ..*old(self)
            }),
            region(address) == 0 && old(self).cache.control.cache_enabled && hit_way(
                old(self).cache,
                address,
            ) is Some ==> r == be16(
                old(self).cache.ram@,
                ram_addr_spec(hit_way(old(self).cache, address)->0 as int, entry_index(address))
                    + (address & 0xE),
            ),
            region(address) == 6 ==> r == be16(old(self).cache.ram@, (address & 0xFFE) as int)
                && *final(self) == *old(self),
            region(address) == 7 ==> r == internal_word_spec(*old(self), address) && *final(self)
                == *old(self),
    {
        let region = address >> 29;
        if region == 0 {
            self.cached_read_word(address, bus)
        } else if region == 1 {
            self.external_read_word(address, self.data_ctx, bus)
        } else if region == 6 {
            self.cache.read_data_array_u16(address)
        } else if region == 7 {
            self.read_internal_register_word(address)
        } else {
            // Other regions do not support word reads
            0
        }
    }

    fn cached_read_instruction<B: BusInterface>(&mut self, address: u32, bus: &mut B) -> (r: u16)
        ensures
            access_frame(*final(self), *old(self)),
            old(self).cache.control.cache_enabled && hit_way(old(self).cache, address) is Some ==> r
                == be16(
                old(self).cache.ram@,
                ram_addr_spec(hit_way(old(self).cache, address)->0 as int, entry_index(address))
                    + (address & 0xE),
            ) && after_lookup(final(self).cache, old(self).cache, address),
            *final(self) == (Sh2 {
                cache: final(self).cache,
                bus_accesses: final(self).bus_accesses,
                ..*old(self)
            }),
            !old(self).cache.control.cache_enabled ==> *final(self) == (Sh2 {
                bus_accesses: final(self).bus_accesses,
                ..*old(self)
            }),
    {
        match self.cache.read_u16(address) {
            Some(value) => {
                return value;
            },
            None => {},
        }
        if self.cache.should_replace_instruction() {
            let longword = self.cache.replace(address, bus, AccessContext::Fetch);
            return longword_word(longword, address);
        }
        self.external_read_word(address, AccessContext::Fetch, bus)
    }

    fn cached_read_word<B: BusInterface>(&mut self, address: u32, bus: &mut B) -> (r: u16)
        ensures
            access_frame(*final(self), *old(self)),
            old(self).cache.control.cache_enabled && hit_way(old(self).cache, address) is Some ==> r
                == be16(
                old(self).cache.ram@,
                ram_addr_spec(hit_way(old(self).cache, address)->0 as int, entry_index(address))
                    + (address & 0xE),
            ) && after_lookup(final(self).cache, old(self).cache, address),
            *final(self) == (Sh2 {
                cache: final(self).cache,
                bus_accesses: final(self).bus_accesses,
                ..*old(self)
            }),
            !old(self).cache.control.cache_enabled ==> *final(self) == (Sh2 {
                bus_accesses: final(self).bus_accesses,
                ..*old(self)
            }),
    {
        match self.cache.read_u16(address) {
            Some(value) => {
                return value;
            },
            None => {},
        }
        if self.cache.should_replace_data() {
            let longword = self.cache.replace(address, bus, self.data_ctx);
            return longword_word(longword, address);
        }
        self.external_read_word(address, self.data_ctx, bus)
    }

    pub fn read_longword<B: BusInterface>(&mut self, address: u32, bus: &mut B) -> (r: u32)
        ensures
            access_frame(*final(self), *old(self)),
            region(address) == 1 ==> *final(self) == (Sh2 {
                bus_accesses: Ghost(old(self).bus_accesses@.push(external_access(address, 4, false, r as u32))),
                ..*old(self)
            }),
            region(address) == 0 && old(self).cache.control.cache_enabled && hit_way(
                old(self).cache,
                address,
            ) is Some ==> r == be32(
                old(self).cache.ram@,
                ram_addr_spec(hit_way(old(self).cache, address)->0 as int, entry_index(address))
                    + (address & 0xC),
            ),
            region(address) == 3 ==> r == old(self).cache.address_array_spec(address) && *final(self)
                == *old(self),
            region(address) == 6 ==> r == be32(old(self).cache.ram@, (address & 0xFFC) as int)
                && *final(self) == *old(self),
            region(address) == 7 ==> r == internal_longword_spec(*old(self), address) && *final(
                self) == *old(self),
    {
        let region = address >> 29;
        if region == 0 {
            self.cached_read_longword(address, bus)
        } else if region == 1 {
            self.external_read_longword(address, self.data_ctx, bus)
        } else if region == 3 {
            self.cache.read_address_array(address)
        } else if region == 6 {
            self.cache.read_data_array_u32(address)
        } else if region == 7 {
            self.read_internal_register_longword(address)
        } else {
            // Other regions do not support longword reads
            0
        }
    }

    fn cached_read_longword<B: BusInterface>(&mut self, address: u32, bus: &mut B) -> (r: u32)
        ensures
            access_frame(*final(self), *old(self)),
            old(self).cache.control.cache_enabled && hit_way(old(self).cache, address) is Some ==> r
                == be32(
                old(self).cache.ram@,
                ram_addr_spec(hit_way(old(self).cache, address)->0 as int, entry_index(address))
                    + (address & 0xC),
            ) && after_lookup(final(self).cache, old(self).cache, address),
            *final(self) == (Sh2 {
                cache: final(self).cache,
                bus_accesses: final(self).bus_accesses,
                ..*old(self)
            }),
            !old(self).cache.control.cache_enabled ==> *final(self) == (Sh2 {
                bus_accesses: final(self).bus_accesses,
                ..*old(self)
            }),
    {
        match self.cache.read_u32(address) {
            Some(value) => {
                return value;
            },
            None => {},
        }
        if self.cache.should_replace_data() {
            return self.cache.replace(address, bus, self.data_ctx);
        }
        self.external_read_longword(address, self.data_ctx, bus)
    }

    pub fn write_byte<B: BusInterface>(&mut self, address: u32, value: u8, bus: &mut B)
        ensures
            byte_written(*final(self), *old(self), address, value),
    {
        let region = address >> 29;
        if region == 0 {
            self.external_write_byte(address, value, bus);
            self.cache.write_through_u8(address, value);
        } else if region == 1 {
            self.external_write_byte(address, value, bus);
        } else if region == 2 {
            self.cache.associative_purge(address);
        } else if region == 6 {
            self.cache.write_data_array_u8(address, value);
        } else if region == 7 {
            self.write_internal_register_byte(address, value);
        }
        // Other regions do not support byte writes

    }

    pub fn write_word<B: BusInterface>(&mut self, address: u32, value: u16, bus: &mut B)
        ensures
            word_written(*final(self), *old(self), address, value),
    {
        let region = address >> 29;
        if region == 0 {
            self.external_write_word(address, value, bus);
            self.cache.write_through_u16(address, value);
        } else if region == 1 {
            self.external_write_word(address, value, bus);
        } else if region == 2 {
            self.cache.associative_purge(address);
        } else if region == 6 {
            self.cache.write_data_array_u16(address, value);
        } else if region == 7 {
            self.write_internal_register_word(address, value);
        }
        // Other regions do not support word writes

    }

    pub fn write_longword<B: BusInterface>(&mut self, address: u32, value: u32, bus: &mut B)
        ensures
            longword_written(*final(self), *old(self), address, value),
    {
        let region = address >> 29;
        if region == 0 {
            self.external_write_longword(address, value, bus);
            self.cache.write_through_u32(address, value);
        } else if region == 1 {
            self.external_write_longword(address, value, bus);
        } else if region == 2 {
            self.cache.associative_purge(address);
        } else if region == 3 {
            self.cache.write_address_array(address, value);
        } else if region == 6 {
            self.cache.write_data_array_u32(address, value);
        } else if region == 7 {
            self.write_internal_register_longword(address, value);
        }
        // Other regions do not support longword writes

    }
}

/// The byte of a big-endian longword at the low 2 bits of an address.
pub open spec fn longword_byte_spec(longword: u32, address: u32) -> u8 {
    ((longword >> (8 * (3 - (address & 3)) as u32)) & 0xFF) as u8
}

/// The word of a big-endian longword at bit 1 of an address.
pub open spec fn longword_word_spec(longword: u32, address: u32) -> u16 {
    if address & 2 == 0 {
        (longword >> 16) as u16
    } else {
        longword as u16
    }
}

fn longword_byte(longword: u32, address: u32) -> (r: u8)
    ensures
        r == longword_byte_spec(longword, address),
{
    proof {
        crate::bit_facts::lemma_u32_fields(address);
    }
    let shift = 8 * (3 - (address & 3));
    ((longword >> shift) & 0xFF) as u8
}

fn longword_word(longword: u32, address: u32) -> (r: u16)
    ensures
        r == longword_word_spec(longword, address),
{
    if address & 2 == 0 {
        (longword >> 16) as u16
    } else {
        longword as u16
    }
}

/// A byte write to the on-chip registers, as far as it is emulated.
pub open spec fn internal_byte_written(after: Sh2, before: Sh2, address: u32, value: u8) -> bool {
    &&& access_frame(after, before)
    &&& sci_address(address) ==> after.serial == before.serial.write_spec(
                    address,
                    value,
                )
    &&& 0xFFFFFE10 <= address <= 0xFFFFFE19 && frt_writable(address) ==> after.free_run_timer == frt_write_spec(
                    before.free_run_timer,
                    address & 0xF,
                    value,
                )
    &&& address == 0xFFFFFE92 ==> after.cache.control == ccr_from_spec(value)
    &&& address == 0xFFFFFEE3 ==> after.sh7604.interrupts.wdt_priority == value >> 4
    &&& address == 0xFFFFFEE4 ==> after.sh7604.interrupts.wdt_vector == value & 0x7F
}

/// A word write to the on-chip registers, as far as it is emulated.
pub open spec fn internal_word_written(after: Sh2, before: Sh2, address: u32, value: u16) -> bool {
    &&& access_frame(after, before)
    &&& address == 0xFFFFFE60 ==> after.sh7604.interrupts.sci_priority == (value >> 12) as u8
                    && after.sh7604.interrupts.frt_priority == ((value >> 8) & 0xF) as u8
    &&& address == 0xFFFFFE62 ==> after.sh7604.interrupts.sci_rx_error_vector == ((value
                    >> 8) & 0x7F) as u8 && after.sh7604.interrupts.sci_rx_ok_vector == (value
                    & 0x7F) as u8
    &&& address == 0xFFFFFE64 ==> after.sh7604.interrupts.sci_tx_empty_vector == ((value
                    >> 8) & 0x7F) as u8 && after.sh7604.interrupts.sci_transfer_end_vector == (
                value & 0x7F) as u8
    &&& address == 0xFFFFFEE2 ==> after.sh7604.interrupts.divu_priority == (value >> 12) as u8
                    && after.sh7604.interrupts.dmac_priority == ((value >> 8) & 0xF) as u8 && after.sh7604.interrupts.wdt_priority == ((value >> 4) & 0xF) as u8
    &&& address == 0xFFFFFEE4 ==> after.sh7604.interrupts.wdt_vector == ((value >> 8)
                    & 0x7F) as u8 && after.sh7604.interrupts.bsc_vector == (value & 0x7F) as u8
    &&& address == 0xFFFFFF40 ==> after.sh7604.break_registers.break_address_a == (before.sh7604.break_registers.break_address_a & 0xFFFF) | ((value as u32) << 16)
    &&& address == 0xFFFFFF42 ==> after.sh7604.break_registers.break_address_a == (before.sh7604.break_registers.break_address_a & !0xFFFFu32) | (value as u32)
    &&& address == 0xFFFFFF60 ==> after.sh7604.break_registers.break_address_b == (before.sh7604.break_registers.break_address_b & 0xFFFF) | ((value as u32) << 16)
    &&& address == 0xFFFFFF62 ==> after.sh7604.break_registers.break_address_b == (before.sh7604.break_registers.break_address_b & !0xFFFFu32) | (value as u32)
}

/// A longword write to the on-chip registers, as far as it is emulated.
pub open spec fn internal_longword_written(after: Sh2, before: Sh2, address: u32, value: u32) -> bool {
    &&& access_frame(after, before)
    &&& 0xFFFFFF00 <= address <= 0xFFFFFF1F && !divu_write_overflows(before.divu, address, value)
                    ==> after.divu == before.divu.write_spec(address, value)
    &&& address == 0xFFFFFF40 ==> after.sh7604.break_registers.break_address_a == value
    &&& address == 0xFFFFFF60 ==> after.sh7604.break_registers.break_address_b == value
    &&& dmac_writable(address) ==> crate::sh2::dma::DmaController::write_rel(after.dmac, before.dmac, address, value)
    &&& address == 0xFFFFFFA8 ==> after.sh7604.interrupts.dma1_vector == value as u8
}

/// What a byte write does inside the CPU (the bus side is the bus's own): written through the
/// cache for a cached address, nothing for an uncached one, a purge of the address's cache line
/// for an associative purge, a write to the cache data array or to the on-chip registers; other
/// regions ignore byte writes.
pub open spec fn byte_written(after: Sh2, before: Sh2, address: u32, value: u8) -> bool {
    &&& access_frame(after, before)
    &&& region(address) == 0 ==> after == (Sh2 {
        cache: after.cache,
        bus_accesses: Ghost(before.bus_accesses@.push(external_access(address, 1, true, value as u32))),
        ..before
    }) && write_through_u8_post(after.cache, before.cache, address, value)
    &&& region(address) == 1 ==> after == (Sh2 {
        bus_accesses: Ghost(before.bus_accesses@.push(external_access(address, 1, true, value as u32))),
        ..before
    })
    &&& region(address) == 2 ==> after == (Sh2 { cache: after.cache, ..before })
        && purge_post(after.cache, before.cache, address)
    &&& region(address) == 6 ==> after == (Sh2 { cache: after.cache, ..before })
        && data_array_u8_written(after.cache, before.cache, address, value)
    &&& region(address) == 7 ==> internal_byte_written(after, before, address, value)
    &&& region(address) != 0 && region(address) != 1 && region(address) != 2 && region(address) != 6
        && region(address) != 7 ==> after == before
}

/// What a word write does inside the CPU, as for a byte write.
pub open spec fn word_written(after: Sh2, before: Sh2, address: u32, value: u16) -> bool {
    &&& access_frame(after, before)
    &&& region(address) == 0 ==> after == (Sh2 {
        cache: after.cache,
        bus_accesses: Ghost(before.bus_accesses@.push(external_access(address, 2, true, value as u32))),
        ..before
    }) && write_through_u16_post(after.cache, before.cache, address, value)
    &&& region(address) == 1 ==> after == (Sh2 {
        bus_accesses: Ghost(before.bus_accesses@.push(external_access(address, 2, true, value as u32))),
        ..before
    })
    &&& region(address) == 2 ==> after == (Sh2 { cache: after.cache, ..before })
        && purge_post(after.cache, before.cache, address)
    &&& region(address) == 6 ==> after == (Sh2 { cache: after.cache, ..before })
        && data_array_u16_written(after.cache, before.cache, address, value)
    &&& region(address) == 7 ==> internal_word_written(after, before, address, value)
    &&& region(address) != 0 && region(address) != 1 && region(address) != 2 && region(address) != 6
        && region(address) != 7 ==> after == before
}

/// What a longword write does inside the CPU, as for a byte write; longword writes also reach
/// the cache address array.
pub open spec fn longword_written(after: Sh2, before: Sh2, address: u32, value: u32) -> bool {
    &&& access_frame(after, before)
    &&& region(address) == 0 ==> after == (Sh2 {
        cache: after.cache,
        bus_accesses: Ghost(before.bus_accesses@.push(external_access(address, 4, true, value as u32))),
        ..before
    }) && write_through_u32_post(after.cache, before.cache, address, value)
    &&& region(address) == 1 ==> after == (Sh2 {
        bus_accesses: Ghost(before.bus_accesses@.push(external_access(address, 4, true, value as u32))),
        ..before
    })
    &&& region(address) == 2 ==> after == (Sh2 { cache: after.cache, ..before })
        && purge_post(after.cache, before.cache, address)
    &&& region(address) == 3 ==> after == (Sh2 { cache: after.cache, ..before })
        && address_array_written(after.cache, before.cache, address, value)
    &&& region(address) == 6 ==> after == (Sh2 { cache: after.cache, ..before })
        && data_array_u32_written(after.cache, before.cache, address, value)
    &&& region(address) == 7 ==> internal_longword_written(after, before, address, value)
    &&& region(address) != 0 && region(address) != 1 && region(address) != 2 && region(address) != 3
        && region(address) != 6 && region(address) != 7 ==> after == before
}

/// What a byte read returns and does inside the CPU: the cache data array and the on-chip
/// registers are read without change; a cached read that hits returns the byte of the line;
/// otherwise the value comes from the bus (and a cache miss may refill a line).
pub open spec fn byte_read(after: Sh2, before: Sh2, address: u32, r: u8) -> bool {
    &&& access_frame(after, before)
    &&& region(address) == 1 ==> after == (Sh2 {
        bus_accesses: Ghost(before.bus_accesses@.push(external_access(address, 1, false, r as u32))),
        ..before
    })
    &&& region(address) == 6 ==> r == before.cache.ram[(address & 0xFFF) as int] && after == before
    &&& region(address) == 7 ==> after == before && r == internal_byte_spec(before, address)
    &&& region(address) == 0 && before.cache.control.cache_enabled && hit_way(before.cache, address)
        is Some ==> r == before.cache.ram[ram_addr_spec(
        hit_way(before.cache, address)->0 as int,
        entry_index(address),
    ) + (address & 0xF)]
}

} // verus!
