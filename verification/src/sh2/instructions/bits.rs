//! SH-2 logical and bitwise instructions
use crate::sh2::bus::BusInterface;
use crate::sh2::instructions::{gpr_write, rm, rn, rn_spec, rm_spec, same_control, sign_bit, sr_with_t, t_write, byte_test, is_zero_byte};
use crate::sh2::memory::{byte_read, byte_written};
use crate::sh2::registers::Sh2Registers;
use crate::sh2::{Sh2, EXTERNAL_ADDRESS_MASK};
use vstd::prelude::*;

verus! {

/// The address of the GBR-indexed logical operations: GBR plus R0, modulo 2^32.
pub open spec fn gbr_indexed(registers: Sh2Registers) -> u32 {
    registers.gbr.wrapping_add(registers.gpr[0])
}

impl Sh2 {
    // AND Rm, Rn
    // Logical and
    pub fn and_rm_rn(&mut self, opcode: u16)
        ensures
            crate::sh2::bus_addresses_in_range(*old(self)) ==> crate::sh2::bus_addresses_in_range(*final(self)),
            gpr_write(*final(self), *old(self), rn_spec(opcode), old(self).registers.gpr[rn_spec(opcode)] & old(self).registers.gpr[rm_spec(opcode)], old(self).registers.sr.t),
    {
        let m = rm(opcode);
        let n = rn(opcode);
        self.registers.gpr[n] = self.registers.gpr[n] & self.registers.gpr[m];
    }

    // AND #imm, R0
    // Logical and
    pub fn and_imm_r0(&mut self, opcode: u16)
        ensures
            crate::sh2::bus_addresses_in_range(*old(self)) ==> crate::sh2::bus_addresses_in_range(*final(self)),
            gpr_write(*final(self), *old(self), 0, old(self).registers.gpr[0] & ((opcode & 0xFF) as u32), old(self).registers.sr.t),
    {
        let imm = (opcode & 0xFF) as u32;
        self.registers.gpr[0] = self.registers.gpr[0] & imm;
    }

    // AND.B #imm, @(R0,GBR)
    // Logical and, in memory
    pub fn and_imm_gbr_indexed<B: BusInterface>(&mut self, opcode: u16, bus: &mut B)
        ensures
            crate::sh2::bus_addresses_in_range(*old(self)) ==> crate::sh2::bus_addresses_in_range(*final(self)),
            final(self).name == old(self).name,
            final(self).registers == old(self).registers,
            exists|value: u8, mid: Sh2|
                #![trigger byte_read(mid, *old(self), gbr_indexed(old(self).registers), value)]
                byte_read(mid, *old(self), gbr_indexed(old(self).registers), value) && byte_written(
                    *final(self),
                    mid,
                    gbr_indexed(old(self).registers),
                    value & (opcode as u8),
                ),
    {
        bus.increment_cycle_counter(2);

        let imm = opcode as u8;
        let address = self.registers.gbr.wrapping_add(self.registers.gpr[0]);
        let value = self.read_byte(address, bus);
        let ghost mid = *self;
        self.write_byte(address, value & imm, bus);
        assert(byte_read(mid, *old(self), gbr_indexed(old(self).registers), value));
    }

    // OR Rm, Rn
    // Logical or
    pub fn or_rm_rn(&mut self, opcode: u16)
        ensures
            crate::sh2::bus_addresses_in_range(*old(self)) ==> crate::sh2::bus_addresses_in_range(*final(self)),
            gpr_write(*final(self), *old(self), rn_spec(opcode), old(self).registers.gpr[rn_spec(opcode)] | old(self).registers.gpr[rm_spec(opcode)], old(self).registers.sr.t),
    {
        let m = rm(opcode);
        let n = rn(opcode);
        self.registers.gpr[n] = self.registers.gpr[n] | self.registers.gpr[m];
    }

    // OR #imm, R0
    // Logical or
    pub fn or_imm_r0(&mut self, opcode: u16)
        ensures
            crate::sh2::bus_addresses_in_range(*old(self)) ==> crate::sh2::bus_addresses_in_range(*final(self)),
            gpr_write(*final(self), *old(self), 0, old(self).registers.gpr[0] | ((opcode & 0xFF) as u32), old(self).registers.sr.t),
    {
        let imm = (opcode & 0xFF) as u32;
        self.registers.gpr[0] = self.registers.gpr[0] | imm;
    }

    // OR.B #imm, @(R0,GBR)
    // Logical or, in memory
    pub fn or_imm_gbr_indexed<B: BusInterface>(&mut self, opcode: u16, bus: &mut B)
        ensures
            crate::sh2::bus_addresses_in_range(*old(self)) ==> crate::sh2::bus_addresses_in_range(*final(self)),
            final(self).name == old(self).name,
            final(self).registers == old(self).registers,
            exists|value: u8, mid: Sh2|
                #![trigger byte_read(mid, *old(self), gbr_indexed(old(self).registers), value)]
                byte_read(mid, *old(self), gbr_indexed(old(self).registers), value) && byte_written(
                    *final(self),
                    mid,
                    gbr_indexed(old(self).registers),
                    value | (opcode as u8),
                ),
    {
        bus.increment_cycle_counter(2);

        let imm = opcode as u8;
        let address = self.registers.gbr.wrapping_add(self.registers.gpr[0]);
        let value = self.read_byte(address, bus);
        let ghost mid = *self;
        self.write_byte(address, value | imm, bus);
        assert(byte_read(mid, *old(self), gbr_indexed(old(self).registers), value));
    }

    // XOR Rm, Rn
    // Exclusive or
    pub fn xor_rm_rn(&mut self, opcode: u16)
        ensures
            crate::sh2::bus_addresses_in_range(*old(self)) ==> crate::sh2::bus_addresses_in_range(*final(self)),
            gpr_write(*final(self), *old(self), rn_spec(opcode), old(self).registers.gpr[rn_spec(opcode)] ^ old(self).registers.gpr[rm_spec(opcode)], old(self).registers.sr.t),
    {
        let m = rm(opcode);
        let n = rn(opcode);
        self.registers.gpr[n] = self.registers.gpr[n] ^ self.registers.gpr[m];
    }

    // XOR #imm, R0
    // Exclusive or
    pub fn xor_imm_r0(&mut self, opcode: u16)
        ensures
            crate::sh2::bus_addresses_in_range(*old(self)) ==> crate::sh2::bus_addresses_in_range(*final(self)),
            gpr_write(*final(self), *old(self), 0, old(self).registers.gpr[0] ^ ((opcode & 0xFF) as u32), old(self).registers.sr.t),
    {
        let imm = (opcode & 0xFF) as u32;
        self.registers.gpr[0] = self.registers.gpr[0] ^ imm;
    }

    // XOR.B #imm, @(R0,GBR)
    // Exclusive or, in memory
    pub fn xor_imm_gbr_indexed<B: BusInterface>(&mut self, opcode: u16, bus: &mut B)
        ensures
            crate::sh2::bus_addresses_in_range(*old(self)) ==> crate::sh2::bus_addresses_in_range(*final(self)),
            final(self).name == old(self).name,
            final(self).registers == old(self).registers,
            exists|value: u8, mid: Sh2|
                #![trigger byte_read(mid, *old(self), gbr_indexed(old(self).registers), value)]
                byte_read(mid, *old(self), gbr_indexed(old(self).registers), value) && byte_written(
                    *final(self),
                    mid,
                    gbr_indexed(old(self).registers),
                    value ^ (opcode as u8),
                ),
    {
        bus.increment_cycle_counter(2);

        let imm = opcode as u8;
        let address = self.registers.gbr.wrapping_add(self.registers.gpr[0]);
        let value = self.read_byte(address, bus);
        let ghost mid = *self;
        self.write_byte(address, value ^ imm, bus);
        assert(byte_read(mid, *old(self), gbr_indexed(old(self).registers), value));
    }

    // NOT Rm, Rn
    // Logical complement
    pub fn not(&mut self, opcode: u16)
        ensures
            crate::sh2::bus_addresses_in_range(*old(self)) ==> crate::sh2::bus_addresses_in_range(*final(self)),
            gpr_write(*final(self), *old(self), rn_spec(opcode), !old(self).registers.gpr[rm_spec(opcode)], old(self).registers.sr.t),
    {
        let m = rm(opcode);
        let n = rn(opcode);
        self.registers.gpr[n] = !self.registers.gpr[m];
    }

    // SHLL Rn
    // Logical shift left
    pub fn shll(&mut self, opcode: u16)
        ensures
            crate::sh2::bus_addresses_in_range(*old(self)) ==> crate::sh2::bus_addresses_in_range(*final(self)),
            gpr_write(*final(self), *old(self), rn_spec(opcode), old(self).registers.gpr[rn_spec(opcode)] << 1, sign_bit(old(self).registers.gpr[rn_spec(opcode)])),
    {
        let n = rn(opcode);
        self.registers.sr.t = self.registers.gpr[n] >> 31 == 1;
        self.registers.gpr[n] = self.registers.gpr[n] << 1;
    }

    // SHLLn Rn
    // Logical shift left by N bits (N is 2, 8 or 16)
    pub fn shlln(&mut self, opcode: u16, shift: u32)
        requires
            shift < 32,
        ensures
            crate::sh2::bus_addresses_in_range(*old(self)) ==> crate::sh2::bus_addresses_in_range(*final(self)),
            gpr_write(*final(self), *old(self), rn_spec(opcode), old(self).registers.gpr[rn_spec(opcode)] << shift, old(self).registers.sr.t),
    {
        let n = rn(opcode);
        self.registers.gpr[n] = self.registers.gpr[n] << shift;
    }

    // SHAR Rn
    // Arithmetic shift right
    pub fn shar(&mut self, opcode: u16)
        ensures
            crate::sh2::bus_addresses_in_range(*old(self)) ==> crate::sh2::bus_addresses_in_range(*final(self)),
            gpr_write(*final(self), *old(self), rn_spec(opcode), (old(self).registers.gpr[rn_spec(opcode)] >> 1) | (old(self).registers.gpr[rn_spec(opcode)] & 0x8000_0000), old(self).registers.gpr[rn_spec(opcode)] & 1 == 1),
    {
        let n = rn(opcode);
        self.registers.sr.t = self.registers.gpr[n] & 1 == 1;
        self.registers.gpr[n] = (self.registers.gpr[n] >> 1) | (self.registers.gpr[n] & 0x8000_0000);
    }

    // SHLR Rn
    // Logical shift right
    pub fn shlr(&mut self, opcode: u16)
        ensures
            crate::sh2::bus_addresses_in_range(*old(self)) ==> crate::sh2::bus_addresses_in_range(*final(self)),
            gpr_write(*final(self), *old(self), rn_spec(opcode), old(self).registers.gpr[rn_spec(opcode)] >> 1, old(self).registers.gpr[rn_spec(opcode)] & 1 == 1),
    {
        let n = rn(opcode);
        self.registers.sr.t = self.registers.gpr[n] & 1 == 1;
        self.registers.gpr[n] = self.registers.gpr[n] >> 1;
    }

    // SHLRn Rn
    // Logical shift right by N bits (N is 2, 8 or 16)
    pub fn shlrn(&mut self, opcode: u16, shift: u32)
        requires
            shift < 32,
        ensures
            crate::sh2::bus_addresses_in_range(*old(self)) ==> crate::sh2::bus_addresses_in_range(*final(self)),
            gpr_write(*final(self), *old(self), rn_spec(opcode), old(self).registers.gpr[rn_spec(opcode)] >> shift, old(self).registers.sr.t),
    {
        let n = rn(opcode);
        self.registers.gpr[n] = self.registers.gpr[n] >> shift;
    }

    // ROTL Rn
    // Rotate left
    pub fn rotl(&mut self, opcode: u16)
        ensures
            crate::sh2::bus_addresses_in_range(*old(self)) ==> crate::sh2::bus_addresses_in_range(*final(self)),
            gpr_write(*final(self), *old(self), rn_spec(opcode), (old(self).registers.gpr[rn_spec(opcode)] << 1) | (old(self).registers.gpr[rn_spec(opcode)] >> 31), sign_bit(old(self).registers.gpr[rn_spec(opcode)])),
    {
        let n = rn(opcode);
        let value = self.registers.gpr[n];
        self.registers.sr.t = value >> 31 == 1;
        self.registers.gpr[n] = (value << 1) | (value >> 31);
    }

    // ROTCL Rn
    // Rotate with carry left
    pub fn rotcl(&mut self, opcode: u16)
        ensures
            crate::sh2::bus_addresses_in_range(*old(self)) ==> crate::sh2::bus_addresses_in_range(*final(self)),
            gpr_write(*final(self), *old(self), rn_spec(opcode), (old(self).registers.gpr[rn_spec(opcode)] << 1) | (if old(self).registers.sr.t { 1u32 } else { 0u32 }), sign_bit(old(self).registers.gpr[rn_spec(opcode)])),
    {
        let n = rn(opcode);
        let carry_out = self.registers.gpr[n] >> 31 == 1;
        self.registers.gpr[n] = (self.registers.gpr[n] << 1) | (if self.registers.sr.t { 1u32 } else { 0u32 });
        self.registers.sr.t = carry_out;
    }

    // ROTR Rn
    // Rotate right
    pub fn rotr(&mut self, opcode: u16)
        ensures
            crate::sh2::bus_addresses_in_range(*old(self)) ==> crate::sh2::bus_addresses_in_range(*final(self)),
            gpr_write(*final(self), *old(self), rn_spec(opcode), (old(self).registers.gpr[rn_spec(opcode)] >> 1) | (old(self).registers.gpr[rn_spec(opcode)] << 31), old(self).registers.gpr[rn_spec(opcode)] & 1 == 1),
    {
        let n = rn(opcode);
        let value = self.registers.gpr[n];
        self.registers.sr.t = value & 1 == 1;
        self.registers.gpr[n] = (value >> 1) | (value << 31);
    }

    // ROTCR Rn
    // Rotate with carry right
    pub fn rotcr(&mut self, opcode: u16)
        ensures
            crate::sh2::bus_addresses_in_range(*old(self)) ==> crate::sh2::bus_addresses_in_range(*final(self)),
            gpr_write(*final(self), *old(self), rn_spec(opcode), (old(self).registers.gpr[rn_spec(opcode)] >> 1) | ((if old(self).registers.sr.t { 1u32 } else { 0u32 }) << 31), old(self).registers.gpr[rn_spec(opcode)] & 1 == 1),
    {
        let n = rn(opcode);
        let carry_out = self.registers.gpr[n] & 1 == 1;
        self.registers.gpr[n] = (self.registers.gpr[n] >> 1) | ((if self.registers.sr.t { 1u32 } else { 0u32 }) << 31);
        self.registers.sr.t = carry_out;
    }

    // TST Rm, Rn
    // Sets the T bit if (Rm & Rn) is 0
    pub fn tst_rm_rn(&mut self, opcode: u16)
        ensures
            crate::sh2::bus_addresses_in_range(*old(self)) ==> crate::sh2::bus_addresses_in_range(*final(self)),
            t_write(*final(self), *old(self), old(self).registers.gpr[rm_spec(opcode)] & old(self).registers.gpr[rn_spec(opcode)] == 0),
    {
        let m = rm(opcode);
        let n = rn(opcode);
        self.registers.sr.t = self.registers.gpr[m] & self.registers.gpr[n] == 0;
    }

    // TST #imm, R0
    // Sets the T bit if (#imm & R0) is 0
    pub fn tst_imm_r0(&mut self, opcode: u16)
        ensures
            crate::sh2::bus_addresses_in_range(*old(self)) ==> crate::sh2::bus_addresses_in_range(*final(self)),
            t_write(*final(self), *old(self), ((opcode & 0xFF) as u32) & old(self).registers.gpr[0] == 0),
    {
        let imm = (opcode & 0xFF) as u32;
        self.registers.sr.t = imm & self.registers.gpr[0] == 0;
    }

    // TST.B #imm, @(R0,GBR)
    // Sets the T bit if (#imm & MEM[GBR+R0]) is 0
    pub fn tst_imm_gbr_indexed<B: BusInterface>(&mut self, opcode: u16, bus: &mut B)
        ensures
            crate::sh2::bus_addresses_in_range(*old(self)) ==> crate::sh2::bus_addresses_in_range(*final(self)),
            final(self).name == old(self).name,
            final(self).registers.gpr == old(self).registers.gpr && same_control(final(self).registers, old(self).registers),
            exists|v: u8| final(self).registers.sr == sr_with_t(old(self).registers.sr, #[trigger] byte_test(opcode as u8, v)),
    {
        bus.increment_cycle_counter(2);

        let imm = opcode as u8;
        let address = self.registers.gbr.wrapping_add(self.registers.gpr[0]);
        let value = self.read_byte(address, bus);
        self.registers.sr.t = imm & value == 0;
        assert(self.registers.sr == sr_with_t(old(self).registers.sr, byte_test(opcode as u8, value)));
    }

    // TAS.B @Rn
    // Tests the value at the specified address and sets bit 7
    pub fn tas<B: BusInterface>(&mut self, opcode: u16, bus: &mut B)
        ensures
            crate::sh2::bus_addresses_in_range(*old(self)) ==> crate::sh2::bus_addresses_in_range(*final(self)),
            final(self).name == old(self).name,
            final(self).registers.gpr == old(self).registers.gpr && same_control(final(self).registers, old(self).registers),
            exists|v: u8| final(self).registers.sr == sr_with_t(old(self).registers.sr, #[trigger] is_zero_byte(v)),
    {
        bus.increment_cycle_counter(3);

        let n = rn(opcode);
        let address = self.registers.gpr[n];

        // TAS never performs cached reads; read from the bus directly
        let value = bus.read_byte(address & EXTERNAL_ADDRESS_MASK, self.data_ctx);
        self.write_byte(address, value | 0x80, bus);

        self.registers.sr.t = value == 0;
        assert(self.registers.sr == sr_with_t(old(self).registers.sr, is_zero_byte(value)));
    }
}

} // verus!
