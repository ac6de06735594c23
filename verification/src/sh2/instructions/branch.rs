//! SH-2 branch and jump instructions
use crate::sh2::bus::BusInterface;
use crate::sh2::instructions::{i12, i12_spec, regs_write, rn, rn_spec};
use crate::sh2::registers::{sr_from_u32, Sh2Registers, StatusRegister};
use crate::sh2::{Sh2, SP};
use vstd::prelude::*;

verus! {

impl Sh2 {
    // JMP @Rm
    // Unconditional jump
    pub fn jmp<B: BusInterface>(&mut self, opcode: u16, bus: &mut B)
        ensures
            crate::sh2::bus_addresses_in_range(*old(self)) ==> crate::sh2::bus_addresses_in_range(*final(self)),
            regs_write(*final(self), *old(self), Sh2Registers { next_pc: old(self).registers.gpr[rn_spec(opcode)], next_op_in_delay_slot: true, ..old(self).registers }),
    {
        let n = rn(opcode);
        self.registers.next_pc = self.registers.gpr[n];
        self.registers.next_op_in_delay_slot = true;

        bus.increment_cycle_counter(1);
    }

    // JSR @Rm
    // Jump to subroutine
    pub fn jsr<B: BusInterface>(&mut self, opcode: u16, bus: &mut B)
        ensures
            crate::sh2::bus_addresses_in_range(*old(self)) ==> crate::sh2::bus_addresses_in_range(*final(self)),
            regs_write(*final(self), *old(self), Sh2Registers { pr: old(self).registers.next_pc, next_pc: old(self).registers.gpr[rn_spec(opcode)], next_op_in_delay_slot: true, ..old(self).registers }),
    {
        self.registers.pr = self.registers.next_pc;
        self.jmp(opcode, bus);
    }

    // BRA label
    // Unconditional branch
    pub fn bra<B: BusInterface>(&mut self, opcode: u16, bus: &mut B)
        ensures
            crate::sh2::bus_addresses_in_range(*old(self)) ==> crate::sh2::bus_addresses_in_range(*final(self)),
            regs_write(*final(self), *old(self), Sh2Registers { next_pc: old(self).registers.next_pc.wrapping_add((2 * i12_spec(opcode)) as u32), next_op_in_delay_slot: true, ..old(self).registers }),
    {
        let disp = 2 * i12(opcode);
        self.registers.next_pc = self.registers.next_pc.wrapping_add(disp as u32);
        self.registers.next_op_in_delay_slot = true;

        bus.increment_cycle_counter(1);
    }

    // BRAF Rm
    // Unconditional branch far
    pub fn braf<B: BusInterface>(&mut self, opcode: u16, bus: &mut B)
        ensures
            crate::sh2::bus_addresses_in_range(*old(self)) ==> crate::sh2::bus_addresses_in_range(*final(self)),
            regs_write(*final(self), *old(self), Sh2Registers { next_pc: old(self).registers.next_pc.wrapping_add(old(self).registers.gpr[rn_spec(opcode)]), next_op_in_delay_slot: true, ..old(self).registers }),
    {
        let n = rn(opcode);
        self.registers.next_pc = self.registers.next_pc.wrapping_add(self.registers.gpr[n]);
        self.registers.next_op_in_delay_slot = true;

        bus.increment_cycle_counter(1);
    }

    // BSR label
    // Branch to subroutine
    pub fn bsr<B: BusInterface>(&mut self, opcode: u16, bus: &mut B)
        ensures
            crate::sh2::bus_addresses_in_range(*old(self)) ==> crate::sh2::bus_addresses_in_range(*final(self)),
            regs_write(*final(self), *old(self), Sh2Registers { pr: old(self).registers.next_pc, next_pc: old(self).registers.next_pc.wrapping_add((2 * i12_spec(opcode)) as u32), next_op_in_delay_slot: true, ..old(self).registers }),
    {
        self.registers.pr = self.registers.next_pc;
        self.bra(opcode, bus);
    }

    // BSRF Rm
    // Branch to subroutine far
    pub fn bsrf<B: BusInterface>(&mut self, opcode: u16, bus: &mut B)
        ensures
            crate::sh2::bus_addresses_in_range(*old(self)) ==> crate::sh2::bus_addresses_in_range(*final(self)),
            regs_write(*final(self), *old(self), Sh2Registers { pr: old(self).registers.next_pc, next_pc: old(self).registers.next_pc.wrapping_add(old(self).registers.gpr[rn_spec(opcode)]), next_op_in_delay_slot: true, ..old(self).registers }),
    {
        self.registers.pr = self.registers.next_pc;
        self.braf(opcode, bus);
    }

    // BF label
    // Branch if false
    pub fn bf<B: BusInterface>(&mut self, opcode: u16, bus: &mut B)
        ensures
            crate::sh2::bus_addresses_in_range(*old(self)) ==> crate::sh2::bus_addresses_in_range(*final(self)),
            !old(self).registers.sr.t ==> regs_write(*final(self), *old(self), Sh2Registers { pc: old(self).registers.next_pc.wrapping_add((2 * (opcode as i8)) as u32), next_pc: old(self).registers.next_pc.wrapping_add((2 * (opcode as i8)) as u32).wrapping_add(2), ..old(self).registers }),
            !(!old(self).registers.sr.t) ==> *final(self) == *old(self),
    {
        if !self.registers.sr.t {
            let disp = 2 * (opcode as i8 as i32);
            self.registers.pc = self.registers.next_pc.wrapping_add(disp as u32);
            self.registers.next_pc = self.registers.pc.wrapping_add(2);

            bus.increment_cycle_counter(2);
        }
    }

    // BT label
    // Branch if true
    pub fn bt<B: BusInterface>(&mut self, opcode: u16, bus: &mut B)
        ensures
            crate::sh2::bus_addresses_in_range(*old(self)) ==> crate::sh2::bus_addresses_in_range(*final(self)),
            old(self).registers.sr.t ==> regs_write(*final(self), *old(self), Sh2Registers { pc: old(self).registers.next_pc.wrapping_add((2 * (opcode as i8)) as u32), next_pc: old(self).registers.next_pc.wrapping_add((2 * (opcode as i8)) as u32).wrapping_add(2), ..old(self).registers }),
            !(old(self).registers.sr.t) ==> *final(self) == *old(self),
    {
        if self.registers.sr.t {
            let disp = 2 * (opcode as i8 as i32);
            self.registers.pc = self.registers.next_pc.wrapping_add(disp as u32);
            self.registers.next_pc = self.registers.pc.wrapping_add(2);

            bus.increment_cycle_counter(2);
        }
    }

    // BF/S label
    // Branch if false with delay slot
    pub fn bf_s<B: BusInterface>(&mut self, opcode: u16, bus: &mut B)
        ensures
            crate::sh2::bus_addresses_in_range(*old(self)) ==> crate::sh2::bus_addresses_in_range(*final(self)),
            !old(self).registers.sr.t ==> regs_write(*final(self), *old(self), Sh2Registers { next_pc: old(self).registers.next_pc.wrapping_add((2 * (opcode as i8)) as u32), next_op_in_delay_slot: true, ..old(self).registers }),
            !(!old(self).registers.sr.t) ==> *final(self) == *old(self),
    {
        if !self.registers.sr.t {
            let disp = 2 * (opcode as i8 as i32);
            self.registers.next_pc = self.registers.next_pc.wrapping_add(disp as u32);
            self.registers.next_op_in_delay_slot = true;

            bus.increment_cycle_counter(1);
        }
    }

    // BT/S label
    // Branch if true with delay slot
    pub fn bt_s<B: BusInterface>(&mut self, opcode: u16, bus: &mut B)
        ensures
            crate::sh2::bus_addresses_in_range(*old(self)) ==> crate::sh2::bus_addresses_in_range(*final(self)),
            old(self).registers.sr.t ==> regs_write(*final(self), *old(self), Sh2Registers { next_pc: old(self).registers.next_pc.wrapping_add((2 * (opcode as i8)) as u32), next_op_in_delay_slot: true, ..old(self).registers }),
            !(old(self).registers.sr.t) ==> *final(self) == *old(self),
    {
        if self.registers.sr.t {
            let disp = 2 * (opcode as i8 as i32);
            self.registers.next_pc = self.registers.next_pc.wrapping_add(disp as u32);
            self.registers.next_op_in_delay_slot = true;

            bus.increment_cycle_counter(1);
        }
    }

    // RTS
    // Return from subroutine
    pub fn rts<B: BusInterface>(&mut self, bus: &mut B)
        ensures
            crate::sh2::bus_addresses_in_range(*old(self)) ==> crate::sh2::bus_addresses_in_range(*final(self)),
            regs_write(*final(self), *old(self), Sh2Registers { next_pc: old(self).registers.pr, next_op_in_delay_slot: true, ..old(self).registers }),
    {
        self.registers.next_pc = self.registers.pr;
        self.registers.next_op_in_delay_slot = true;

        bus.increment_cycle_counter(1);
    }

    // RTE
    // Return from exception
    pub fn rte<B: BusInterface>(&mut self, bus: &mut B)
        ensures
            crate::sh2::bus_addresses_in_range(*old(self)) ==> crate::sh2::bus_addresses_in_range(*final(self)),
            final(self).name == old(self).name,
            final(self).registers.gpr@ == old(self).registers.gpr@.update(15, old(self).registers.gpr[15].wrapping_add(8)),
            exists|v: u32| final(self).registers.sr == #[trigger] sr_from_u32(v),
            final(self).registers.next_op_in_delay_slot,
            final(self).registers.pc == old(self).registers.pc && final(self).registers.pr == old(self).registers.pr,
            final(self).registers.gbr == old(self).registers.gbr && final(self).registers.vbr == old(self).registers.vbr,
            final(self).registers.mach == old(self).registers.mach && final(self).registers.macl == old(self).registers.macl,
    {
        let next_pc = self.read_longword(self.registers.gpr[SP], bus);
        self.registers.next_pc = next_pc;
        self.registers.next_op_in_delay_slot = true;
        self.registers.gpr[SP] = self.registers.gpr[SP].wrapping_add(4);

        let sr = self.read_longword(self.registers.gpr[SP], bus);
        self.registers.sr = StatusRegister::from_u32(sr);
        self.registers.gpr[SP] = self.registers.gpr[SP].wrapping_add(4);
        assert(old(self).registers.gpr[15].wrapping_add(4).wrapping_add(4) == old(self).registers.gpr[15].wrapping_add(8));
    }

    // TRAPA #imm
    // Trap always
    pub fn trapa<B: BusInterface>(&mut self, opcode: u16, bus: &mut B)
        ensures
            crate::sh2::bus_addresses_in_range(*old(self)) ==> crate::sh2::bus_addresses_in_range(*final(self)),
            final(self).name == old(self).name,
            final(self).registers.gpr@ == old(self).registers.gpr@.update(15, old(self).registers.gpr[15].wrapping_sub(8)),
            final(self).registers.next_pc == final(self).registers.pc.wrapping_add(2),
            final(self).registers.sr == old(self).registers.sr && final(self).registers.pr == old(self).registers.pr,
            final(self).registers.gbr == old(self).registers.gbr && final(self).registers.vbr == old(self).registers.vbr,
            final(self).registers.next_op_in_delay_slot == old(self).registers.next_op_in_delay_slot,
            final(self).registers.mach == old(self).registers.mach && final(self).registers.macl == old(self).registers.macl,
    {
        self.registers.gpr[SP] = self.registers.gpr[SP].wrapping_sub(4);
        let sr = self.registers.sr.to_u32();
        self.write_longword(self.registers.gpr[SP], sr, bus);

        self.registers.gpr[SP] = self.registers.gpr[SP].wrapping_sub(4);
        let next_pc = self.registers.next_pc;
        self.write_longword(self.registers.gpr[SP], next_pc, bus);

        let vector_number = (opcode & 0xFF) as u32;
        let vector_addr = self.registers.vbr.wrapping_add(vector_number * 4);
        let pc = self.read_longword(vector_addr, bus);
        self.registers.pc = pc;
        self.registers.next_pc = pc.wrapping_add(2);

        bus.increment_cycle_counter(7);
        assert(old(self).registers.gpr[15].wrapping_sub(4).wrapping_sub(4) == old(self).registers.gpr[15].wrapping_sub(8));
    }
}

} // verus!
