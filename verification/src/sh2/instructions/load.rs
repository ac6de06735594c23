//! SH-2 load and store instructions
use crate::sh2::bus::BusInterface;
use crate::sh2::instructions::{
    ext16, ext32, ext8, extend_i16, extend_i8, gpr_write, imm8_ext, imm8_extended, mem_gpr,
    regs_write, rm, rm_spec, rn, rn_spec, same_control, t_write,
};
use crate::sh2::registers::{sr_from_u32, sr_to_u32, Sh2Registers, StatusRegister};
use crate::sh2::memory::{byte_written, longword_written, word_written};
use crate::sh2::Sh2;
use vstd::prelude::*;

verus! {

impl Sh2 {
    // MOV Rm, Rn
    // Load from a register
    pub fn mov_rm_rn(&mut self, opcode: u16)
        ensures
            crate::sh2::bus_addresses_in_range(*old(self)) ==> crate::sh2::bus_addresses_in_range(*final(self)),
            gpr_write(*final(self), *old(self), rn_spec(opcode), old(self).registers.gpr[rm_spec(opcode)], old(self).registers.sr.t),
    {
        let m = rm(opcode);
        let n = rn(opcode);
        self.registers.gpr[n] = self.registers.gpr[m];
    }

    // MOV #imm, Rn
    // Loads an 8-bit immediate (sign extended) into a register
    pub fn mov_b_immediate_rn(&mut self, opcode: u16)
        ensures
            crate::sh2::bus_addresses_in_range(*old(self)) ==> crate::sh2::bus_addresses_in_range(*final(self)),
            gpr_write(*final(self), *old(self), rn_spec(opcode), imm8_ext(opcode), old(self).registers.sr.t),
    {
        let n = rn(opcode);
        self.registers.gpr[n] = imm8_extended(opcode);
    }

    // MOV.B @Rm, Rn
    // Loads a byte from memory using indirect register addressing
    pub fn mov_b_indirect_rn<B: BusInterface>(&mut self, opcode: u16, bus: &mut B)
        ensures
            crate::sh2::bus_addresses_in_range(*old(self)) ==> crate::sh2::bus_addresses_in_range(*final(self)),
            final(self).name == old(self).name,
            exists|v: u8| mem_gpr(*final(self), *old(self), old(self).registers.gpr@.update(rn_spec(opcode), #[trigger] ext8(v))),
    {
        let m = rm(opcode);
        let n = rn(opcode);
        let value = self.read_byte(self.registers.gpr[m], bus);
        self.registers.gpr[n] = extend_i8(value);
        assert(mem_gpr(*self, *old(self), old(self).registers.gpr@.update(n as int, ext8(value))));
    }

    // MOV.W @Rm, Rn
    // Loads a word from memory using indirect register addressing
    pub fn mov_w_indirect_rn<B: BusInterface>(&mut self, opcode: u16, bus: &mut B)
        ensures
            crate::sh2::bus_addresses_in_range(*old(self)) ==> crate::sh2::bus_addresses_in_range(*final(self)),
            final(self).name == old(self).name,
            exists|v: u16| mem_gpr(*final(self), *old(self), old(self).registers.gpr@.update(rn_spec(opcode), #[trigger] ext16(v))),
    {
        let m = rm(opcode);
        let n = rn(opcode);
        let value = self.read_word(self.registers.gpr[m], bus);
        self.registers.gpr[n] = extend_i16(value);
        assert(mem_gpr(*self, *old(self), old(self).registers.gpr@.update(n as int, ext16(value))));
    }

    // MOV.L @Rm, Rn
    // Loads a longword from memory using indirect register addressing
    pub fn mov_l_indirect_rn<B: BusInterface>(&mut self, opcode: u16, bus: &mut B)
        ensures
            crate::sh2::bus_addresses_in_range(*old(self)) ==> crate::sh2::bus_addresses_in_range(*final(self)),
            final(self).name == old(self).name,
            exists|v: u32| mem_gpr(*final(self), *old(self), old(self).registers.gpr@.update(rn_spec(opcode), #[trigger] ext32(v))),
    {
        let m = rm(opcode);
        let n = rn(opcode);
        let value = self.read_longword(self.registers.gpr[m], bus);
        self.registers.gpr[n] = value;
        assert(mem_gpr(*self, *old(self), old(self).registers.gpr@.update(n as int, ext32(value))));
    }

    // MOV.B Rm, @Rn
    // Stores a byte into memory using indirect register addressing
    pub fn mov_b_rm_indirect<B: BusInterface>(&mut self, opcode: u16, bus: &mut B)
        ensures
            crate::sh2::bus_addresses_in_range(*old(self)) ==> crate::sh2::bus_addresses_in_range(*final(self)),
            final(self).name == old(self).name,
            mem_gpr(*final(self), *old(self), old(self).registers.gpr@),
            byte_written(*final(self), *old(self), old(self).registers.gpr[rn_spec(opcode)], old(self).registers.gpr[rm_spec(opcode)] as u8),
    {
        let m = rm(opcode);
        let n = rn(opcode);
        let value = self.registers.gpr[m] as u8;
        self.write_byte(self.registers.gpr[n], value, bus);
    }

    // MOV.W Rm, @Rn
    // Stores a word into memory using indirect register addressing
    pub fn mov_w_rm_indirect<B: BusInterface>(&mut self, opcode: u16, bus: &mut B)
        ensures
            crate::sh2::bus_addresses_in_range(*old(self)) ==> crate::sh2::bus_addresses_in_range(*final(self)),
            final(self).name == old(self).name,
            mem_gpr(*final(self), *old(self), old(self).registers.gpr@),
            word_written(*final(self), *old(self), old(self).registers.gpr[rn_spec(opcode)], old(self).registers.gpr[rm_spec(opcode)] as u16),
    {
        let m = rm(opcode);
        let n = rn(opcode);
        let value = self.registers.gpr[m] as u16;
        self.write_word(self.registers.gpr[n], value, bus);
    }

    // MOV.L Rm, @Rn
    // Stores a longword into memory using indirect register addressing
    pub fn mov_l_rm_indirect<B: BusInterface>(&mut self, opcode: u16, bus: &mut B)
        ensures
            crate::sh2::bus_addresses_in_range(*old(self)) ==> crate::sh2::bus_addresses_in_range(*final(self)),
            final(self).name == old(self).name,
            mem_gpr(*final(self), *old(self), old(self).registers.gpr@),
            longword_written(*final(self), *old(self), old(self).registers.gpr[rn_spec(opcode)], old(self).registers.gpr[rm_spec(opcode)]),
    {
        let m = rm(opcode);
        let n = rn(opcode);
        let value = self.registers.gpr[m];
        self.write_longword(self.registers.gpr[n], value, bus);
    }

    // MOV.B @Rm+, Rn
    // Loads a byte into a register using post-increment indirect register addressing
    pub fn mov_b_postinc_rn<B: BusInterface>(&mut self, opcode: u16, bus: &mut B)
        ensures
            crate::sh2::bus_addresses_in_range(*old(self)) ==> crate::sh2::bus_addresses_in_range(*final(self)),
            final(self).name == old(self).name,
            exists|v: u8| mem_gpr(*final(self), *old(self), old(self).registers.gpr@.update(rm_spec(opcode), old(self).registers.gpr[rm_spec(opcode)].wrapping_add(1)).update(rn_spec(opcode), #[trigger] ext8(v))),
    {
        let m = rm(opcode);
        let n = rn(opcode);
        let value = self.read_byte(self.registers.gpr[m], bus);
        self.registers.gpr[m] = self.registers.gpr[m].wrapping_add(1);
        self.registers.gpr[n] = extend_i8(value);
        assert(mem_gpr(*self, *old(self), old(self).registers.gpr@.update(m as int, old(self).registers.gpr[m as int].wrapping_add(1)).update(n as int, ext8(value))));
    }

    // MOV.W @Rm+, Rn
    // Loads a word into a register using post-increment indirect register addressing
    pub fn mov_w_postinc_rn<B: BusInterface>(&mut self, opcode: u16, bus: &mut B)
        ensures
            crate::sh2::bus_addresses_in_range(*old(self)) ==> crate::sh2::bus_addresses_in_range(*final(self)),
            final(self).name == old(self).name,
            exists|v: u16| mem_gpr(*final(self), *old(self), old(self).registers.gpr@.update(rm_spec(opcode), old(self).registers.gpr[rm_spec(opcode)].wrapping_add(2)).update(rn_spec(opcode), #[trigger] ext16(v))),
    {
        let m = rm(opcode);
        let n = rn(opcode);
        let value = self.read_word(self.registers.gpr[m], bus);
        self.registers.gpr[m] = self.registers.gpr[m].wrapping_add(2);
        self.registers.gpr[n] = extend_i16(value);
        assert(mem_gpr(*self, *old(self), old(self).registers.gpr@.update(m as int, old(self).registers.gpr[m as int].wrapping_add(2)).update(n as int, ext16(value))));
    }

    // MOV.L @Rm+, Rn
    // Loads a longword into a register using post-increment indirect register addressing
    pub fn mov_l_postinc_rn<B: BusInterface>(&mut self, opcode: u16, bus: &mut B)
        ensures
            crate::sh2::bus_addresses_in_range(*old(self)) ==> crate::sh2::bus_addresses_in_range(*final(self)),
            final(self).name == old(self).name,
            exists|v: u32| mem_gpr(*final(self), *old(self), old(self).registers.gpr@.update(rm_spec(opcode), old(self).registers.gpr[rm_spec(opcode)].wrapping_add(4)).update(rn_spec(opcode), #[trigger] ext32(v))),
    {
        let m = rm(opcode);
        let n = rn(opcode);
        let value = self.read_longword(self.registers.gpr[m], bus);
        self.registers.gpr[m] = self.registers.gpr[m].wrapping_add(4);
        self.registers.gpr[n] = value;
        assert(mem_gpr(*self, *old(self), old(self).registers.gpr@.update(m as int, old(self).registers.gpr[m as int].wrapping_add(4)).update(n as int, ext32(value))));
    }

    // MOV.B Rm, @-Rn
    // Stores a byte into memory using pre-decrement indirect register addressing
    pub fn mov_b_rm_predec<B: BusInterface>(&mut self, opcode: u16, bus: &mut B)
        ensures
            crate::sh2::bus_addresses_in_range(*old(self)) ==> crate::sh2::bus_addresses_in_range(*final(self)),
            final(self).name == old(self).name,
            mem_gpr(*final(self), *old(self), old(self).registers.gpr@.update(rn_spec(opcode), old(self).registers.gpr[rn_spec(opcode)].wrapping_sub(1))),
    {
        let m = rm(opcode);
        let n = rn(opcode);
        let value = self.registers.gpr[m] as u8;

        let address = self.registers.gpr[n].wrapping_sub(1);
        self.registers.gpr[n] = address;

        self.write_byte(address, value, bus);
    }

    // MOV.W Rm, @-Rn
    // Stores a word into memory using pre-decrement indirect register addressing
    pub fn mov_w_rm_predec<B: BusInterface>(&mut self, opcode: u16, bus: &mut B)
        ensures
            crate::sh2::bus_addresses_in_range(*old(self)) ==> crate::sh2::bus_addresses_in_range(*final(self)),
            final(self).name == old(self).name,
            mem_gpr(*final(self), *old(self), old(self).registers.gpr@.update(rn_spec(opcode), old(self).registers.gpr[rn_spec(opcode)].wrapping_sub(2))),
    {
        let m = rm(opcode);
        let n = rn(opcode);
        let value = self.registers.gpr[m] as u16;

        let address = self.registers.gpr[n].wrapping_sub(2);
        self.registers.gpr[n] = address;

        self.write_word(address, value, bus);
    }

    // MOV.L Rm, @-Rn
    // Stores a longword into memory using pre-decrement indirect register addressing
    pub fn mov_l_rm_predec<B: BusInterface>(&mut self, opcode: u16, bus: &mut B)
        ensures
            crate::sh2::bus_addresses_in_range(*old(self)) ==> crate::sh2::bus_addresses_in_range(*final(self)),
            final(self).name == old(self).name,
            mem_gpr(*final(self), *old(self), old(self).registers.gpr@.update(rn_spec(opcode), old(self).registers.gpr[rn_spec(opcode)].wrapping_sub(4))),
    {
        let m = rm(opcode);
        let n = rn(opcode);
        let value = self.registers.gpr[m];

        let address = self.registers.gpr[n].wrapping_sub(4);
        self.registers.gpr[n] = address;

        self.write_longword(address, value, bus);
    }

    // MOV.W @(disp,PC), Rn
    // Loads a word (sign extended) into a register using PC relative with displacement addressing
    pub fn mov_w_immediate_rn<B: BusInterface>(&mut self, opcode: u16, bus: &mut B)
        ensures
            crate::sh2::bus_addresses_in_range(*old(self)) ==> crate::sh2::bus_addresses_in_range(*final(self)),
            final(self).name == old(self).name,
            exists|v: u16| mem_gpr(*final(self), *old(self), old(self).registers.gpr@.update(rn_spec(opcode), #[trigger] ext16(v))),
    {
        let disp = ((opcode & 0xFF) as u32) * 2;
        let address = self.registers.next_pc.wrapping_add(disp);
        let value = self.read_word(address, bus);

        let n = rn(opcode);
        self.registers.gpr[n] = extend_i16(value);
        assert(mem_gpr(*self, *old(self), old(self).registers.gpr@.update(n as int, ext16(value))));
    }

    // MOV.L @(disp,PC), Rn
    // Loads a longword into a register using PC relative with displacement addressing
    pub fn mov_l_immediate_rn<B: BusInterface>(&mut self, opcode: u16, bus: &mut B)
        ensures
            crate::sh2::bus_addresses_in_range(*old(self)) ==> crate::sh2::bus_addresses_in_range(*final(self)),
            final(self).name == old(self).name,
            exists|v: u32| mem_gpr(*final(self), *old(self), old(self).registers.gpr@.update(rn_spec(opcode), #[trigger] ext32(v))),
    {
        let disp = ((opcode & 0xFF) as u32) * 4;
        let address = (self.registers.next_pc & !3u32).wrapping_add(disp);
        let value = self.read_longword(address, bus);

        let n = rn(opcode);
        self.registers.gpr[n] = value;
        assert(mem_gpr(*self, *old(self), old(self).registers.gpr@.update(n as int, ext32(value))));
    }

    // MOV.B R0, @(disp,Rn)
    // Stores a byte into memory using indirect register with displacement addressing
    pub fn mov_b_r0_rn_displacement<B: BusInterface>(&mut self, opcode: u16, bus: &mut B)
        ensures
            crate::sh2::bus_addresses_in_range(*old(self)) ==> crate::sh2::bus_addresses_in_range(*final(self)),
            final(self).name == old(self).name,
            mem_gpr(*final(self), *old(self), old(self).registers.gpr@),
            byte_written(*final(self), *old(self), old(self).registers.gpr[rm_spec(opcode)].wrapping_add((opcode & 0xF) as u32), old(self).registers.gpr[0] as u8),
    {
        let disp = ((opcode & 0xF) as u32) * 1;
        let n = rm(opcode);
        let address = self.registers.gpr[n].wrapping_add(disp);
        let value = self.registers.gpr[0] as u8;
        self.write_byte(address, value, bus);
    }

    // MOV.W R0, @(disp,Rn)
    // Stores a word into memory using indirect register with displacement addressing
    pub fn mov_w_r0_rn_displacement<B: BusInterface>(&mut self, opcode: u16, bus: &mut B)
        ensures
            crate::sh2::bus_addresses_in_range(*old(self)) ==> crate::sh2::bus_addresses_in_range(*final(self)),
            final(self).name == old(self).name,
            mem_gpr(*final(self), *old(self), old(self).registers.gpr@),
            word_written(*final(self), *old(self), old(self).registers.gpr[rm_spec(opcode)].wrapping_add(((opcode & 0xF) * 2) as u32), old(self).registers.gpr[0] as u16),
    {
        let disp = ((opcode & 0xF) as u32) * 2;
        let n = rm(opcode);
        let address = self.registers.gpr[n].wrapping_add(disp);
        let value = self.registers.gpr[0] as u16;
        self.write_word(address, value, bus);
    }

    // MOV.B @(disp,Rm), R0
    // Load a byte from memory using indirect register with displacement addressing
    pub fn mov_b_rm_displacement_r0<B: BusInterface>(&mut self, opcode: u16, bus: &mut B)
        ensures
            crate::sh2::bus_addresses_in_range(*old(self)) ==> crate::sh2::bus_addresses_in_range(*final(self)),
            final(self).name == old(self).name,
            exists|v: u8| mem_gpr(*final(self), *old(self), old(self).registers.gpr@.update(0, #[trigger] ext8(v))),
    {
        let disp = ((opcode & 0xF) as u32) * 1;
        let m = rm(opcode);

        let address = self.registers.gpr[m].wrapping_add(disp);
        let value = self.read_byte(address, bus);
        self.registers.gpr[0] = extend_i8(value);
        assert(mem_gpr(*self, *old(self), old(self).registers.gpr@.update(0, ext8(value))));
    }

    // MOV.W @(disp,Rm), R0
    // Load a word from memory using indirect register with displacement addressing
    pub fn mov_w_rm_displacement_r0<B: BusInterface>(&mut self, opcode: u16, bus: &mut B)
        ensures
            crate::sh2::bus_addresses_in_range(*old(self)) ==> crate::sh2::bus_addresses_in_range(*final(self)),
            final(self).name == old(self).name,
            exists|v: u16| mem_gpr(*final(self), *old(self), old(self).registers.gpr@.update(0, #[trigger] ext16(v))),
    {
        let disp = ((opcode & 0xF) as u32) * 2;
        let m = rm(opcode);

        let address = self.registers.gpr[m].wrapping_add(disp);
        let value = self.read_word(address, bus);
        self.registers.gpr[0] = extend_i16(value);
        assert(mem_gpr(*self, *old(self), old(self).registers.gpr@.update(0, ext16(value))));
    }

    // MOV.L Rm, @(disp,Rn)
    // Stores a longword into memory using indirect register with displacement addressing
    pub fn mov_l_rm_rn_displacement<B: BusInterface>(&mut self, opcode: u16, bus: &mut B)
        ensures
            crate::sh2::bus_addresses_in_range(*old(self)) ==> crate::sh2::bus_addresses_in_range(*final(self)),
            final(self).name == old(self).name,
            mem_gpr(*final(self), *old(self), old(self).registers.gpr@),
            longword_written(*final(self), *old(self), old(self).registers.gpr[rn_spec(opcode)].wrapping_add(((opcode & 0xF) * 4) as u32), old(self).registers.gpr[rm_spec(opcode)]),
    {
        let m = rm(opcode);
        let n = rn(opcode);

        let disp = ((opcode & 0xF) as u32) * 4;
        let address = self.registers.gpr[n].wrapping_add(disp);
        let value = self.registers.gpr[m];
        self.write_longword(address, value, bus);
    }

    // MOV.L @(disp,Rm), Rn
    // Loads a longword from memory using indirect register with displacement addressing
    pub fn mov_l_rm_displacement_rn<B: BusInterface>(&mut self, opcode: u16, bus: &mut B)
        ensures
            crate::sh2::bus_addresses_in_range(*old(self)) ==> crate::sh2::bus_addresses_in_range(*final(self)),
            final(self).name == old(self).name,
            exists|v: u32| mem_gpr(*final(self), *old(self), old(self).registers.gpr@.update(rn_spec(opcode), #[trigger] ext32(v))),
    {
        let m = rm(opcode);
        let n = rn(opcode);

        let disp = ((opcode & 0xF) as u32) * 4;
        let address = self.registers.gpr[m].wrapping_add(disp);
        let value = self.read_longword(address, bus);
        self.registers.gpr[n] = value;
        assert(mem_gpr(*self, *old(self), old(self).registers.gpr@.update(n as int, ext32(value))));
    }

    // MOV.B Rm, @(R0,Rn)
    // Stores a byte into memory using indirect indexed register addressing
    pub fn mov_b_rm_indirect_indexed<B: BusInterface>(&mut self, opcode: u16, bus: &mut B)
        ensures
            crate::sh2::bus_addresses_in_range(*old(self)) ==> crate::sh2::bus_addresses_in_range(*final(self)),
            final(self).name == old(self).name,
            mem_gpr(*final(self), *old(self), old(self).registers.gpr@),
            byte_written(*final(self), *old(self), old(self).registers.gpr[0].wrapping_add(old(self).registers.gpr[rn_spec(opcode)]), old(self).registers.gpr[rm_spec(opcode)] as u8),
    {
        let m = rm(opcode);
        let n = rn(opcode);

        let address = self.registers.gpr[0].wrapping_add(self.registers.gpr[n]);
        let value = self.registers.gpr[m] as u8;
        self.write_byte(address, value, bus);
    }

    // MOV.W Rm, @(R0,Rn)
    // Stores a word into memory using indirect indexed register addressing
    pub fn mov_w_rm_indirect_indexed<B: BusInterface>(&mut self, opcode: u16, bus: &mut B)
        ensures
            crate::sh2::bus_addresses_in_range(*old(self)) ==> crate::sh2::bus_addresses_in_range(*final(self)),
            final(self).name == old(self).name,
            mem_gpr(*final(self), *old(self), old(self).registers.gpr@),
            word_written(*final(self), *old(self), old(self).registers.gpr[0].wrapping_add(old(self).registers.gpr[rn_spec(opcode)]), old(self).registers.gpr[rm_spec(opcode)] as u16),
    {
        let m = rm(opcode);
        let n = rn(opcode);

        let address = self.registers.gpr[0].wrapping_add(self.registers.gpr[n]);
        let value = self.registers.gpr[m] as u16;
        self.write_word(address, value, bus);
    }

    // MOV.L Rm, @(R0,Rn)
    // Stores a longword into memory using indirect indexed register addressing
    pub fn mov_l_rm_indirect_indexed<B: BusInterface>(&mut self, opcode: u16, bus: &mut B)
        ensures
            crate::sh2::bus_addresses_in_range(*old(self)) ==> crate::sh2::bus_addresses_in_range(*final(self)),
            final(self).name == old(self).name,
            mem_gpr(*final(self), *old(self), old(self).registers.gpr@),
            longword_written(*final(self), *old(self), old(self).registers.gpr[0].wrapping_add(old(self).registers.gpr[rn_spec(opcode)]), old(self).registers.gpr[rm_spec(opcode)]),
    {
        let m = rm(opcode);
        let n = rn(opcode);

        let address = self.registers.gpr[0].wrapping_add(self.registers.gpr[n]);
        let value = self.registers.gpr[m];
        self.write_longword(address, value, bus);
    }

    // MOV.B @(R0,Rm), Rn
    // Loads a byte from memory using indirect indexed register addressing
    pub fn mov_b_indirect_indexed_rn<B: BusInterface>(&mut self, opcode: u16, bus: &mut B)
        ensures
            crate::sh2::bus_addresses_in_range(*old(self)) ==> crate::sh2::bus_addresses_in_range(*final(self)),
            final(self).name == old(self).name,
            exists|v: u8| mem_gpr(*final(self), *old(self), old(self).registers.gpr@.update(rn_spec(opcode), #[trigger] ext8(v))),
    {
        let m = rm(opcode);
        let n = rn(opcode);

        let address = self.registers.gpr[0].wrapping_add(self.registers.gpr[m]);
        let value = self.read_byte(address, bus);
        self.registers.gpr[n] = extend_i8(value);
        assert(mem_gpr(*self, *old(self), old(self).registers.gpr@.update(n as int, ext8(value))));
    }

    // MOV.W @(R0,Rm), Rn
    // Loads a word from memory using indirect indexed register addressing
    pub fn mov_w_indirect_indexed_rn<B: BusInterface>(&mut self, opcode: u16, bus: &mut B)
        ensures
            crate::sh2::bus_addresses_in_range(*old(self)) ==> crate::sh2::bus_addresses_in_range(*final(self)),
            final(self).name == old(self).name,
            exists|v: u16| mem_gpr(*final(self), *old(self), old(self).registers.gpr@.update(rn_spec(opcode), #[trigger] ext16(v))),
    {
        let m = rm(opcode);
        let n = rn(opcode);

        let address = self.registers.gpr[0].wrapping_add(self.registers.gpr[m]);
        let value = self.read_word(address, bus);
        self.registers.gpr[n] = extend_i16(value);
        assert(mem_gpr(*self, *old(self), old(self).registers.gpr@.update(n as int, ext16(value))));
    }

    // MOV.L @(R0,Rm), Rn
    // Loads a longword from memory using indirect indexed register addressing
    pub fn mov_l_indirect_indexed_rn<B: BusInterface>(&mut self, opcode: u16, bus: &mut B)
        ensures
            crate::sh2::bus_addresses_in_range(*old(self)) ==> crate::sh2::bus_addresses_in_range(*final(self)),
            final(self).name == old(self).name,
            exists|v: u32| mem_gpr(*final(self), *old(self), old(self).registers.gpr@.update(rn_spec(opcode), #[trigger] ext32(v))),
    {
        let m = rm(opcode);
        let n = rn(opcode);

        let address = self.registers.gpr[0].wrapping_add(self.registers.gpr[m]);
        let value = self.read_longword(address, bus);
        self.registers.gpr[n] = value;
        assert(mem_gpr(*self, *old(self), old(self).registers.gpr@.update(n as int, ext32(value))));
    }

    // MOV.B @(disp,GBR), R0
    // Loads a byte into R0 using indirect GBR with displacement addressing
    pub fn mov_b_disp_gbr_r0<B: BusInterface>(&mut self, opcode: u16, bus: &mut B)
        ensures
            crate::sh2::bus_addresses_in_range(*old(self)) ==> crate::sh2::bus_addresses_in_range(*final(self)),
            final(self).name == old(self).name,
            exists|v: u8| mem_gpr(*final(self), *old(self), old(self).registers.gpr@.update(0, #[trigger] ext8(v))),
    {
        let disp = ((opcode & 0xFF) as u32) * 1;
        let address = self.registers.gbr.wrapping_add(disp);
        let value = self.read_byte(address, bus);
        self.registers.gpr[0] = extend_i8(value);
        assert(mem_gpr(*self, *old(self), old(self).registers.gpr@.update(0, ext8(value))));
    }

    // MOV.W @(disp,GBR), R0
    // Loads a word into R0 using indirect GBR with displacement addressing
    pub fn mov_w_disp_gbr_r0<B: BusInterface>(&mut self, opcode: u16, bus: &mut B)
        ensures
            crate::sh2::bus_addresses_in_range(*old(self)) ==> crate::sh2::bus_addresses_in_range(*final(self)),
            final(self).name == old(self).name,
            exists|v: u16| mem_gpr(*final(self), *old(self), old(self).registers.gpr@.update(0, #[trigger] ext16(v))),
    {
        let disp = ((opcode & 0xFF) as u32) * 2;
        let address = self.registers.gbr.wrapping_add(disp);
        let value = self.read_word(address, bus);
        self.registers.gpr[0] = extend_i16(value);
        assert(mem_gpr(*self, *old(self), old(self).registers.gpr@.update(0, ext16(value))));
    }

    // MOV.L @(disp,GBR), R0
    // Loads a longword into R0 using indirect GBR with displacement addressing
    pub fn mov_l_disp_gbr_r0<B: BusInterface>(&mut self, opcode: u16, bus: &mut B)
        ensures
            crate::sh2::bus_addresses_in_range(*old(self)) ==> crate::sh2::bus_addresses_in_range(*final(self)),
            final(self).name == old(self).name,
            exists|v: u32| mem_gpr(*final(self), *old(self), old(self).registers.gpr@.update(0, #[trigger] ext32(v))),
    {
        let disp = ((opcode & 0xFF) as u32) * 4;
        let address = self.registers.gbr.wrapping_add(disp);
        let value = self.read_longword(address, bus);
        self.registers.gpr[0] = value;
        assert(mem_gpr(*self, *old(self), old(self).registers.gpr@.update(0, ext32(value))));
    }

    // MOV.B R0, @(disp,GBR)
    // Stores a byte into memory using indirect GBR with displacement addressing
    pub fn mov_b_r0_disp_gbr<B: BusInterface>(&mut self, opcode: u16, bus: &mut B)
        ensures
            crate::sh2::bus_addresses_in_range(*old(self)) ==> crate::sh2::bus_addresses_in_range(*final(self)),
            final(self).name == old(self).name,
            mem_gpr(*final(self), *old(self), old(self).registers.gpr@),
            byte_written(*final(self), *old(self), old(self).registers.gbr.wrapping_add((opcode & 0xFF) as u32), old(self).registers.gpr[0] as u8),
    {
        let disp = ((opcode & 0xFF) as u32) * 1;
        let address = self.registers.gbr.wrapping_add(disp);
        let value = self.registers.gpr[0] as u8;
        self.write_byte(address, value, bus);
    }

    // MOV.W R0, @(disp,GBR)
    // Stores a word into memory using indirect GBR with displacement addressing
    pub fn mov_w_r0_disp_gbr<B: BusInterface>(&mut self, opcode: u16, bus: &mut B)
        ensures
            crate::sh2::bus_addresses_in_range(*old(self)) ==> crate::sh2::bus_addresses_in_range(*final(self)),
            final(self).name == old(self).name,
            mem_gpr(*final(self), *old(self), old(self).registers.gpr@),
            word_written(*final(self), *old(self), old(self).registers.gbr.wrapping_add(((opcode & 0xFF) * 2) as u32), old(self).registers.gpr[0] as u16),
    {
        let disp = ((opcode & 0xFF) as u32) * 2;
        let address = self.registers.gbr.wrapping_add(disp);
        let value = self.registers.gpr[0] as u16;
        self.write_word(address, value, bus);
    }

    // MOV.L R0, @(disp,GBR)
    // Stores a longword into memory using indirect GBR with displacement addressing
    pub fn mov_l_r0_disp_gbr<B: BusInterface>(&mut self, opcode: u16, bus: &mut B)
        ensures
            crate::sh2::bus_addresses_in_range(*old(self)) ==> crate::sh2::bus_addresses_in_range(*final(self)),
            final(self).name == old(self).name,
            mem_gpr(*final(self), *old(self), old(self).registers.gpr@),
            longword_written(*final(self), *old(self), old(self).registers.gbr.wrapping_add(((opcode & 0xFF) * 4) as u32), old(self).registers.gpr[0]),
    {
        let disp = ((opcode & 0xFF) as u32) * 4;
        let address = self.registers.gbr.wrapping_add(disp);
        let value = self.registers.gpr[0];
        self.write_longword(address, value, bus);
    }

    // MOVA @(disp,PC), R0
    // Move effective address
    pub fn mova(&mut self, opcode: u16)
        ensures
            crate::sh2::bus_addresses_in_range(*old(self)) ==> crate::sh2::bus_addresses_in_range(*final(self)),
            gpr_write(*final(self), *old(self), 0, (old(self).registers.next_pc & !3u32).wrapping_add((((opcode & 0xFF) as u32) * 4) as u32), old(self).registers.sr.t),
    {
        let disp = ((opcode & 0xFF) as u32) * 4;
        self.registers.gpr[0] = (self.registers.next_pc & !3u32).wrapping_add(disp);
    }

    // MOVT Rn
    // Loads T into a general-purpose register
    pub fn movt(&mut self, opcode: u16)
        ensures
            crate::sh2::bus_addresses_in_range(*old(self)) ==> crate::sh2::bus_addresses_in_range(*final(self)),
            gpr_write(*final(self), *old(self), rn_spec(opcode), if old(self).registers.sr.t { 1u32 } else { 0u32 }, old(self).registers.sr.t),
    {
        let n = rn(opcode);
        self.registers.gpr[n] = if self.registers.sr.t { 1 } else { 0 };
    }

    // LDC Rm, SR
    // Loads the status register from a general-purpose register
    pub fn ldc_rm_sr(&mut self, opcode: u16)
        ensures
            crate::sh2::bus_addresses_in_range(*old(self)) ==> crate::sh2::bus_addresses_in_range(*final(self)),
            regs_write(*final(self), *old(self), Sh2Registers { sr: sr_from_u32(old(self).registers.gpr[rn_spec(opcode)]), ..old(self).registers }),
    {
        let n = rn(opcode);
        self.registers.sr = StatusRegister::from_u32(self.registers.gpr[n]);
    }

    // LDC Rm, GBR
    // Loads GBR from a general-purpose register
    pub fn ldc_rm_gbr(&mut self, opcode: u16)
        ensures
            crate::sh2::bus_addresses_in_range(*old(self)) ==> crate::sh2::bus_addresses_in_range(*final(self)),
            regs_write(*final(self), *old(self), Sh2Registers { gbr: old(self).registers.gpr[rn_spec(opcode)], ..old(self).registers }),
    {
        let n = rn(opcode);
        self.registers.gbr = self.registers.gpr[n];
    }

    // LDC Rm, VBR
    // Loads VBR from a general-purpose register
    pub fn ldc_rm_vbr(&mut self, opcode: u16)
        ensures
            crate::sh2::bus_addresses_in_range(*old(self)) ==> crate::sh2::bus_addresses_in_range(*final(self)),
            regs_write(*final(self), *old(self), Sh2Registers { vbr: old(self).registers.gpr[rn_spec(opcode)], ..old(self).registers }),
    {
        let n = rn(opcode);
        self.registers.vbr = self.registers.gpr[n];
    }

    // LDS Rm, MACH
    // Loads MACH from a general-purpose register
    pub fn lds_rm_mach(&mut self, opcode: u16)
        ensures
            crate::sh2::bus_addresses_in_range(*old(self)) ==> crate::sh2::bus_addresses_in_range(*final(self)),
            regs_write(*final(self), *old(self), Sh2Registers { mach: old(self).registers.gpr[rn_spec(opcode)], ..old(self).registers }),
    {
        let n = rn(opcode);
        self.registers.mach = self.registers.gpr[n];
    }

    // LDS Rm, MACL
    // Loads MACL from a general-purpose register
    pub fn lds_rm_macl(&mut self, opcode: u16)
        ensures
            crate::sh2::bus_addresses_in_range(*old(self)) ==> crate::sh2::bus_addresses_in_range(*final(self)),
            regs_write(*final(self), *old(self), Sh2Registers { macl: old(self).registers.gpr[rn_spec(opcode)], ..old(self).registers }),
    {
        let n = rn(opcode);
        self.registers.macl = self.registers.gpr[n];
    }

    // LDS Rm, PR
    // Loads PR from a general-purpose register
    pub fn lds_rm_pr(&mut self, opcode: u16)
        ensures
            crate::sh2::bus_addresses_in_range(*old(self)) ==> crate::sh2::bus_addresses_in_range(*final(self)),
            regs_write(*final(self), *old(self), Sh2Registers { pr: old(self).registers.gpr[rn_spec(opcode)], ..old(self).registers }),
    {
        let n = rn(opcode);
        self.registers.pr = self.registers.gpr[n];
    }

    // LDC.L @Rm+, SR
    // Load SR from memory using post-increment register indirect addressing
    pub fn ldc_postinc_sr<B: BusInterface>(&mut self, opcode: u16, bus: &mut B)
        ensures
            crate::sh2::bus_addresses_in_range(*old(self)) ==> crate::sh2::bus_addresses_in_range(*final(self)),
            final(self).name == old(self).name,
            final(self).registers.gpr@ == old(self).registers.gpr@.update(rn_spec(opcode), old(self).registers.gpr[rn_spec(opcode)].wrapping_add(4)),
            same_control(final(self).registers, old(self).registers),
            exists|v: u32| final(self).registers.sr == #[trigger] sr_from_u32(v),
    {
        let m = rn(opcode);
        let address = self.registers.gpr[m];
        self.registers.gpr[m] = address.wrapping_add(4);

        let value = self.read_longword(address, bus);
        self.registers.sr = StatusRegister::from_u32(value);

        bus.increment_cycle_counter(2);
    }

    // LDC.L @Rm+, GBR
    // Load GBR from memory using post-increment register indirect addressing
    pub fn ldc_postinc_gbr<B: BusInterface>(&mut self, opcode: u16, bus: &mut B)
        ensures
            crate::sh2::bus_addresses_in_range(*old(self)) ==> crate::sh2::bus_addresses_in_range(*final(self)),
            final(self).name == old(self).name,
            final(self).registers.gpr@ == old(self).registers.gpr@.update(rn_spec(opcode), old(self).registers.gpr[rn_spec(opcode)].wrapping_add(4)),
            final(self).registers == (Sh2Registers { gpr: final(self).registers.gpr, gbr: final(self).registers.gbr, ..old(self).registers }),
    {
        let m = rn(opcode);
        let address = self.registers.gpr[m];
        self.registers.gpr[m] = address.wrapping_add(4);

        let value = self.read_longword(address, bus);
        self.registers.gbr = value;

        bus.increment_cycle_counter(2);
    }

    // LDC.L @Rm+, VBR
    // Load VBR from memory using post-increment register indirect addressing
    pub fn ldc_postinc_vbr<B: BusInterface>(&mut self, opcode: u16, bus: &mut B)
        ensures
            crate::sh2::bus_addresses_in_range(*old(self)) ==> crate::sh2::bus_addresses_in_range(*final(self)),
            final(self).name == old(self).name,
            final(self).registers.gpr@ == old(self).registers.gpr@.update(rn_spec(opcode), old(self).registers.gpr[rn_spec(opcode)].wrapping_add(4)),
            final(self).registers == (Sh2Registers { gpr: final(self).registers.gpr, vbr: final(self).registers.vbr, ..old(self).registers }),
    {
        let m = rn(opcode);
        let address = self.registers.gpr[m];
        self.registers.gpr[m] = address.wrapping_add(4);

        let value = self.read_longword(address, bus);
        self.registers.vbr = value;

        bus.increment_cycle_counter(2);
    }

    // LDS.L @Rm+, MACH
    // Loads MACH from memory using post-increment indirect register addressing
    pub fn lds_postinc_mach<B: BusInterface>(&mut self, opcode: u16, bus: &mut B)
        ensures
            crate::sh2::bus_addresses_in_range(*old(self)) ==> crate::sh2::bus_addresses_in_range(*final(self)),
            final(self).name == old(self).name,
            final(self).registers.gpr@ == old(self).registers.gpr@.update(rn_spec(opcode), old(self).registers.gpr[rn_spec(opcode)].wrapping_add(4)),
            final(self).registers == (Sh2Registers { gpr: final(self).registers.gpr, mach: final(self).registers.mach, ..old(self).registers }),
    {
        let m = rn(opcode);
        let address = self.registers.gpr[m];
        self.registers.gpr[m] = address.wrapping_add(4);

        let value = self.read_longword(address, bus);
        self.registers.mach = value;
    }

    // LDS.L @Rm+, MACL
    // Loads MACL from memory using post-increment indirect register addressing
    pub fn lds_postinc_macl<B: BusInterface>(&mut self, opcode: u16, bus: &mut B)
        ensures
            crate::sh2::bus_addresses_in_range(*old(self)) ==> crate::sh2::bus_addresses_in_range(*final(self)),
            final(self).name == old(self).name,
            final(self).registers.gpr@ == old(self).registers.gpr@.update(rn_spec(opcode), old(self).registers.gpr[rn_spec(opcode)].wrapping_add(4)),
            final(self).registers == (Sh2Registers { gpr: final(self).registers.gpr, macl: final(self).registers.macl, ..old(self).registers }),
    {
        let m = rn(opcode);
        let address = self.registers.gpr[m];
        self.registers.gpr[m] = address.wrapping_add(4);

        let value = self.read_longword(address, bus);
        self.registers.macl = value;
    }

    // LDS.L @Rm+, PR
    // Loads PR from memory using post-increment indirect register addressing
    pub fn lds_postinc_pr<B: BusInterface>(&mut self, opcode: u16, bus: &mut B)
        ensures
            crate::sh2::bus_addresses_in_range(*old(self)) ==> crate::sh2::bus_addresses_in_range(*final(self)),
            final(self).name == old(self).name,
            final(self).registers.gpr@ == old(self).registers.gpr@.update(rn_spec(opcode), old(self).registers.gpr[rn_spec(opcode)].wrapping_add(4)),
            final(self).registers == (Sh2Registers { gpr: final(self).registers.gpr, pr: final(self).registers.pr, ..old(self).registers }),
    {
        let m = rn(opcode);
        let address = self.registers.gpr[m];
        self.registers.gpr[m] = address.wrapping_add(4);

        let value = self.read_longword(address, bus);
        self.registers.pr = value;
    }

    // STC SR, Rn
    // Store SR into a general-purpose register
    pub fn stc_sr_rn(&mut self, opcode: u16)
        ensures
            crate::sh2::bus_addresses_in_range(*old(self)) ==> crate::sh2::bus_addresses_in_range(*final(self)),
            gpr_write(*final(self), *old(self), rn_spec(opcode), sr_to_u32(old(self).registers.sr), old(self).registers.sr.t),
    {
        let n = rn(opcode);
        self.registers.gpr[n] = self.registers.sr.to_u32();
    }

    // STC GBR, Rn
    // Store GBR into a general-purpose register
    pub fn stc_gbr_rn(&mut self, opcode: u16)
        ensures
            crate::sh2::bus_addresses_in_range(*old(self)) ==> crate::sh2::bus_addresses_in_range(*final(self)),
            gpr_write(*final(self), *old(self), rn_spec(opcode), old(self).registers.gbr, old(self).registers.sr.t),
    {
        let n = rn(opcode);
        self.registers.gpr[n] = self.registers.gbr;
    }

    // STC VBR, Rn
    // Store VBR into a general-purpose register
    pub fn stc_vbr_rn(&mut self, opcode: u16)
        ensures
            crate::sh2::bus_addresses_in_range(*old(self)) ==> crate::sh2::bus_addresses_in_range(*final(self)),
            gpr_write(*final(self), *old(self), rn_spec(opcode), old(self).registers.vbr, old(self).registers.sr.t),
    {
        let n = rn(opcode);
        self.registers.gpr[n] = self.registers.vbr;
    }

    // STS MACH, Rn
    // Store MACH into a general-purpose register
    pub fn sts_mach_rn(&mut self, opcode: u16)
        ensures
            crate::sh2::bus_addresses_in_range(*old(self)) ==> crate::sh2::bus_addresses_in_range(*final(self)),
            gpr_write(*final(self), *old(self), rn_spec(opcode), old(self).registers.mach, old(self).registers.sr.t),
    {
        let n = rn(opcode);
        self.registers.gpr[n] = self.registers.mach;
    }

    // STS MACL, Rn
    // Store MACL into a general-purpose register
    pub fn sts_macl_rn(&mut self, opcode: u16)
        ensures
            crate::sh2::bus_addresses_in_range(*old(self)) ==> crate::sh2::bus_addresses_in_range(*final(self)),
            gpr_write(*final(self), *old(self), rn_spec(opcode), old(self).registers.macl, old(self).registers.sr.t),
    {
        let n = rn(opcode);
        self.registers.gpr[n] = self.registers.macl;
    }

    // STS PR, Rn
    // Store PR into a general-purpose register
    pub fn sts_pr_rn(&mut self, opcode: u16)
        ensures
            crate::sh2::bus_addresses_in_range(*old(self)) ==> crate::sh2::bus_addresses_in_range(*final(self)),
            gpr_write(*final(self), *old(self), rn_spec(opcode), old(self).registers.pr, old(self).registers.sr.t),
    {
        let n = rn(opcode);
        self.registers.gpr[n] = self.registers.pr;
    }

    // STC.L SR, @-Rn
    // Store SR in memory using pre-decrement register addressing
    pub fn stc_sr_rn_predec<B: BusInterface>(&mut self, opcode: u16, bus: &mut B)
        ensures
            crate::sh2::bus_addresses_in_range(*old(self)) ==> crate::sh2::bus_addresses_in_range(*final(self)),
            final(self).name == old(self).name,
            mem_gpr(*final(self), *old(self), old(self).registers.gpr@.update(rn_spec(opcode), old(self).registers.gpr[rn_spec(opcode)].wrapping_sub(4))),
    {
        let n = rn(opcode);
        let address = self.registers.gpr[n].wrapping_sub(4);
        self.registers.gpr[n] = address;

        let value = self.registers.sr.to_u32();
        self.write_longword(address, value, bus);

        bus.increment_cycle_counter(1);
    }

    // STC.L GBR, @-Rn
    // Store GBR in memory using pre-decrement register addressing
    pub fn stc_gbr_rn_predec<B: BusInterface>(&mut self, opcode: u16, bus: &mut B)
        ensures
            crate::sh2::bus_addresses_in_range(*old(self)) ==> crate::sh2::bus_addresses_in_range(*final(self)),
            final(self).name == old(self).name,
            mem_gpr(*final(self), *old(self), old(self).registers.gpr@.update(rn_spec(opcode), old(self).registers.gpr[rn_spec(opcode)].wrapping_sub(4))),
    {
        let n = rn(opcode);
        let address = self.registers.gpr[n].wrapping_sub(4);
        self.registers.gpr[n] = address;

        let value = self.registers.gbr;
        self.write_longword(address, value, bus);

        bus.increment_cycle_counter(1);
    }

    // STC.L VBR, @-Rn
    // Store VBR in memory using pre-decrement register addressing
    pub fn stc_vbr_rn_predec<B: BusInterface>(&mut self, opcode: u16, bus: &mut B)
        ensures
            crate::sh2::bus_addresses_in_range(*old(self)) ==> crate::sh2::bus_addresses_in_range(*final(self)),
            final(self).name == old(self).name,
            mem_gpr(*final(self), *old(self), old(self).registers.gpr@.update(rn_spec(opcode), old(self).registers.gpr[rn_spec(opcode)].wrapping_sub(4))),
    {
        let n = rn(opcode);
        let address = self.registers.gpr[n].wrapping_sub(4);
        self.registers.gpr[n] = address;

        let value = self.registers.vbr;
        self.write_longword(address, value, bus);

        bus.increment_cycle_counter(1);
    }

    // STS.L MACH, @-Rn
    // Store MACH in memory using pre-decrement register addressing
    pub fn sts_mach_rn_predec<B: BusInterface>(&mut self, opcode: u16, bus: &mut B)
        ensures
            crate::sh2::bus_addresses_in_range(*old(self)) ==> crate::sh2::bus_addresses_in_range(*final(self)),
            final(self).name == old(self).name,
            mem_gpr(*final(self), *old(self), old(self).registers.gpr@.update(rn_spec(opcode), old(self).registers.gpr[rn_spec(opcode)].wrapping_sub(4))),
    {
        let n = rn(opcode);
        let address = self.registers.gpr[n].wrapping_sub(4);
        self.registers.gpr[n] = address;

        let value = self.registers.mach;
        self.write_longword(address, value, bus);
    }

    // STS.L MACL, @-Rn
    // Store MACL in memory using pre-decrement register addressing
    pub fn sts_macl_rn_predec<B: BusInterface>(&mut self, opcode: u16, bus: &mut B)
        ensures
            crate::sh2::bus_addresses_in_range(*old(self)) ==> crate::sh2::bus_addresses_in_range(*final(self)),
            final(self).name == old(self).name,
            mem_gpr(*final(self), *old(self), old(self).registers.gpr@.update(rn_spec(opcode), old(self).registers.gpr[rn_spec(opcode)].wrapping_sub(4))),
    {
        let n = rn(opcode);
        let address = self.registers.gpr[n].wrapping_sub(4);
        self.registers.gpr[n] = address;

        let value = self.registers.macl;
        self.write_longword(address, value, bus);
    }

    // STS.L PR, @-Rn
    // Store PR in memory using pre-decrement register addressing
    pub fn sts_pr_rn_predec<B: BusInterface>(&mut self, opcode: u16, bus: &mut B)
        ensures
            crate::sh2::bus_addresses_in_range(*old(self)) ==> crate::sh2::bus_addresses_in_range(*final(self)),
            final(self).name == old(self).name,
            mem_gpr(*final(self), *old(self), old(self).registers.gpr@.update(rn_spec(opcode), old(self).registers.gpr[rn_spec(opcode)].wrapping_sub(4))),
    {
        let n = rn(opcode);
        let address = self.registers.gpr[n].wrapping_sub(4);
        self.registers.gpr[n] = address;

        let value = self.registers.pr;
        self.write_longword(address, value, bus);
    }

    // CLRT
    // Clear the T flag
    pub fn clrt(&mut self)
        ensures
            crate::sh2::bus_addresses_in_range(*old(self)) ==> crate::sh2::bus_addresses_in_range(*final(self)),
            t_write(*final(self), *old(self), false),
    {
        self.registers.sr.t = false;
    }

    // SETT
    // Set the T flag
    pub fn sett(&mut self)
        ensures
            crate::sh2::bus_addresses_in_range(*old(self)) ==> crate::sh2::bus_addresses_in_range(*final(self)),
            t_write(*final(self), *old(self), true),
    {
        self.registers.sr.t = true;
    }

    // CLRMAC
    // Clear the MAC registers
    pub fn clrmac(&mut self)
        ensures
            crate::sh2::bus_addresses_in_range(*old(self)) ==> crate::sh2::bus_addresses_in_range(*final(self)),
            regs_write(*final(self), *old(self), Sh2Registers { macl: 0, mach: 0, ..old(self).registers }),
    {
        self.registers.macl = 0;
        self.registers.mach = 0;
    }

    // SWAP.B Rm, Rn
    // Swaps the lowest two bytes of a register
    pub fn swap_b(&mut self, opcode: u16)
        ensures
            crate::sh2::bus_addresses_in_range(*old(self)) ==> crate::sh2::bus_addresses_in_range(*final(self)),
            gpr_write(*final(self), *old(self), rn_spec(opcode), (old(self).registers.gpr[rm_spec(opcode)] & 0xFFFF0000) | ((old(self).registers.gpr[rm_spec(opcode)] & 0xFF) << 8) | ((old(self).registers.gpr[rm_spec(opcode)] >> 8) & 0xFF), old(self).registers.sr.t),
    {
        let m = rm(opcode);
        let n = rn(opcode);

        let value = self.registers.gpr[m];
        self.registers.gpr[n] = (value & 0xFFFF0000) | ((value & 0xFF) << 8) | ((value >> 8) & 0xFF);
    }

    // SWAP.W Rm, Rn
    // Swaps the words of a register
    pub fn swap_w(&mut self, opcode: u16)
        ensures
            crate::sh2::bus_addresses_in_range(*old(self)) ==> crate::sh2::bus_addresses_in_range(*final(self)),
            gpr_write(*final(self), *old(self), rn_spec(opcode), (old(self).registers.gpr[rm_spec(opcode)] << 16) | (old(self).registers.gpr[rm_spec(opcode)] >> 16), old(self).registers.sr.t),
    {
        let m = rm(opcode);
        let n = rn(opcode);

        let value = self.registers.gpr[m];
        self.registers.gpr[n] = (value << 16) | (value >> 16);
    }

    // XTRCT Rm, Rn
    // Extract the center 32 bits of the 64-bit value formed by Rm and Rn
    pub fn xtrct(&mut self, opcode: u16)
        ensures
            crate::sh2::bus_addresses_in_range(*old(self)) ==> crate::sh2::bus_addresses_in_range(*final(self)),
            gpr_write(*final(self), *old(self), rn_spec(opcode), (old(self).registers.gpr[rm_spec(opcode)] << 16) | (old(self).registers.gpr[rn_spec(opcode)] >> 16), old(self).registers.sr.t),
    {
        let m = rm(opcode);
        let n = rn(opcode);

        self.registers.gpr[n] = (self.registers.gpr[m] << 16) | (self.registers.gpr[n] >> 16);
    }
}

} // verus!
