//! Branches, PSR transfers and software interrupts.
use crate::arm7tdmi::bus::BusInterface;
use crate::arm7tdmi::instructions::alu::{ror, rotate_right, rotated_immediate_fields, arm_parse_rotated_immediate};
use crate::arm7tdmi::instructions::ARM_OPCODE_LEN;
use crate::arm7tdmi::{
    bit32, continued, cpu_state_from_bit, read_register_spec, refilled, spsr_of, sr_from_u32,
    sr_to_u32, with_spsr, write_cpsr_spec, Arm7Tdmi, CpuMode, CpuState, Exception, RegistersView,
    StatusRegister,
};
use vstd::prelude::*;

verus! {

/// A 24-bit value sign-extended to 32 bits.
pub open spec fn sign_extend_24(value: u32) -> u32 {
    if bit32(value, 23) {
        value | 0xFF00_0000
    } else {
        value
    }
}

/// The byte offset of an ARM branch: the 24-bit field sign-extended and shifted left 2.
pub open spec fn arm_branch_offset(opcode: u32) -> u32 {
    sign_extend_24(opcode & 0xFF_FFFF) << 2u32
}

/// The register file after a branch by `offset` (two's complement) from R15 as it was before the
/// last fetch; with `link`, R14 receives the address of the next instruction.
pub open spec fn branch_regs(old: Arm7Tdmi, link: bool, opcode_len: u32, offset: u32) -> RegistersView {
    let v = old.registers@;
    let v1 = if link {
        RegistersView { r: v.r.update(14, old.prev_r15.wrapping_sub(opcode_len)), ..v }
    } else {
        v
    };
    RegistersView { r: v1.r.update(15, old.prev_r15.wrapping_add(offset)), ..v1 }
}

/// Executing an ARM B/BL opcode.
pub open spec fn arm_branch_post(new: Arm7Tdmi, old: Arm7Tdmi, opcode: u32, link: bool) -> bool {
    refilled(new, branch_regs(old, link, ARM_OPCODE_LEN, arm_branch_offset(opcode)))
}

/// The register file after BX: R15 takes the register's value and bit 0 of it selects the state.
pub open spec fn branch_exchange_regs(old: Arm7Tdmi, rn: int) -> RegistersView {
    let new_pc = read_register_spec(old, rn);
    let v = old.registers@;
    RegistersView {
        cpsr: StatusRegister { state: cpu_state_from_bit(bit32(new_pc, 0)), ..v.cpsr },
        r: v.r.update(15, new_pc),
        ..v
    }
}

pub open spec fn bx_post(new: Arm7Tdmi, old: Arm7Tdmi, rn: int) -> bool {
    refilled(new, branch_exchange_regs(old, rn))
}

/// The PSR value that MRS reads: the current mode's SPSR when asked for and it has one, else
/// CPSR.
pub open spec fn mrs_value(v: RegistersView, spsr: bool) -> u32 {
    if spsr {
        match spsr_of(v, v.cpsr.mode) {
            Some(s) => sr_to_u32(s),
            None => sr_to_u32(v.cpsr),
        }
    } else {
        sr_to_u32(v.cpsr)
    }
}

/// Executing an MRS opcode: Rd receives the PSR value.
pub open spec fn arm_mrs_post(new: Arm7Tdmi, old: Arm7Tdmi, opcode: u32) -> bool {
    let v = old.registers@;
    continued(
        new,
        old,
        RegistersView {
            r: v.r.update(((opcode >> 12u32) & 0xF) as int, mrs_value(v, bit32(opcode, 22))),
            ..v
        },
    )
}

/// The value MSR writes: the control byte and the flag bits come from the operand only when
/// their field is selected, and are kept from the PSR otherwise.
pub open spec fn msr_value(operand: u32, psr: u32, control: bool, flags: bool) -> u32 {
    let a = if !control {
        (operand & !0xFFu32) | (psr & 0xFF)
    } else {
        operand
    };
    if !flags {
        (a & !0xF000_0000u32) | (psr & 0xF000_0000)
    } else {
        a
    }
}

/// The operand of an MSR opcode: a rotated immediate or Rm.
pub open spec fn msr_operand(old: Arm7Tdmi, opcode: u32, immediate: bool) -> u32 {
    if immediate {
        let (imm, rotation) = rotated_immediate_fields(opcode);
        ror(imm, rotation)
    } else {
        read_register_spec(old, (opcode & 0xF) as int)
    }
}

/// Executing an MSR opcode: the selected fields of the operand go to the current mode's SPSR
/// (nothing happens in a mode without one) or to CPSR (only the flags in user mode).
pub open spec fn arm_msr_post(new: Arm7Tdmi, old: Arm7Tdmi, opcode: u32, immediate: bool) -> bool {
    let v = old.registers@;
    let operand = msr_operand(old, opcode, immediate);
    let control = bit32(opcode, 16);
    let flags = bit32(opcode, 19);
    if bit32(opcode, 22) {
        match spsr_of(v, v.cpsr.mode) {
            Some(s) => continued(
                new,
                old,
                with_spsr(v, v.cpsr.mode, sr_from_u32(msr_value(operand, sr_to_u32(s), control, flags))),
            ),
            None => new == old,
        }
    } else {
        continued(new, old, write_cpsr_spec(v, msr_value(operand, sr_to_u32(v.cpsr), control, flags)))
    }
}

impl Arm7Tdmi {
    // B: Branch
    // BL: Branch and link
    pub fn arm_branch<B: BusInterface>(&mut self, opcode: u32, link: bool, bus: &mut B)
        ensures
            arm_branch_post(*final(self), *old(self), opcode, link),
    {
        // Offset is a 24-bit signed value, shifted left 2
        let field = opcode & 0xFF_FFFF;
        let extended = if (field >> 23u32) & 1 == 1 {
            field | 0xFF00_0000
        } else {
            field
        };
        self.branch(link, ARM_OPCODE_LEN, extended << 2u32, bus);
    }

    /// Branches by `offset` (two's complement) from R15 as it was before the last fetch, with
    /// R14 receiving the address of the next instruction when `link`.
    pub fn branch<B: BusInterface>(&mut self, link: bool, opcode_len: u32, offset: u32, bus: &mut B)
        ensures
            refilled(*final(self), branch_regs(*old(self), link, opcode_len, offset)),
    {
        if link {
            let lr = self.prev_r15.wrapping_sub(opcode_len);
            self.registers.set_r(14, lr);
        }

        let pc = self.prev_r15.wrapping_add(offset);
        self.registers.set_r(15, pc);
        self.refill_prefetch(bus);
    }

    // BX: Branch and exchange ARM/Thumb state
    pub fn arm_bx<B: BusInterface>(&mut self, opcode: u32, bus: &mut B)
        ensures
            bx_post(*final(self), *old(self), (opcode & 0xF) as int),
    {
        proof {
            crate::bit_facts::lemma_word_fields(opcode);
        }
        self.branch_exchange(opcode & 0xF, bus);
    }

    pub fn branch_exchange<B: BusInterface>(&mut self, rn: u32, bus: &mut B)
        requires
            rn < 16,
        ensures
            bx_post(*final(self), *old(self), rn as int),
    {
        let new_pc = self.read_register(rn);
        self.registers.cpsr.state = CpuState::from_bit(new_pc & 1 == 1);
        proof {
            crate::bit_facts::lemma_word_fields(new_pc);
        }

        self.registers.set_r(15, new_pc);
        self.refill_prefetch(bus);
    }

    // MRS: Transfer PSR contents to register
    pub fn arm_mrs<B: BusInterface>(&mut self, opcode: u32, bus: &mut B)
        ensures
            arm_mrs_post(*final(self), *old(self), opcode),
    {
        let rd = (opcode >> 12u32) & 0xF;
        proof {
            crate::bit_facts::lemma_word_fields(opcode);
        }
        let spsr = (opcode >> 22u32) & 1 == 1;

        let value = if spsr {
            match self.current_spsr() {
                Some(spsr) => spsr.to_u32(),
                // SPSR reads in user/system mode access CPSR
                None => self.registers.cpsr.to_u32(),
            }
        } else {
            self.registers.cpsr.to_u32()
        };
        self.registers.set_r(rd as usize, value);
    }

    // MSR: Transfer register contents to PSR
    pub fn arm_msr<B: BusInterface>(&mut self, opcode: u32, immediate: bool, bus: &mut B)
        ensures
            arm_msr_post(*final(self), *old(self), opcode, immediate),
    {
        let control_mask: u32 = 0xFF;
        let flags_mask: u32 = 0xF000_0000;

        let mut operand = if immediate {
            let (immediate, rotation) = arm_parse_rotated_immediate(opcode);
            rotate_right(immediate, rotation)
        } else {
            proof {
                crate::bit_facts::lemma_word_fields(opcode);
            }
            self.read_register(opcode & 0xF)
        };

        let spsr = (opcode >> 22u32) & 1 == 1;
        let psr = if spsr {
            match self.current_spsr() {
                Some(spsr) => spsr,
                None => {
                    // SPSR writes in user/system mode do nothing
                    return;
                },
            }
        } else {
            self.registers.cpsr
        };
        let psr_value = psr.to_u32();

        let control = (opcode >> 16u32) & 1 == 1;
        let flags = (opcode >> 19u32) & 1 == 1;

        if !control {
            operand = (operand & !control_mask) | (psr_value & control_mask);
        }
        if !flags {
            operand = (operand & !flags_mask) | (psr_value & flags_mask);
        }

        if spsr {
            let mode = self.registers.cpsr.mode;
            self.set_spsr(mode, StatusRegister::from_u32(operand));
        } else {
            self.write_cpsr(operand);
        }
    }

    pub fn arm_swi<B: BusInterface>(&mut self, opcode: u32, bus: &mut B)
        ensures
            refilled(
                *final(self),
                crate::arm7tdmi::exception_entry(old(self).registers@, old(self).prev_r15, Exception::SoftwareInterrupt),
            ),
    {
        self.handle_exception(Exception::SoftwareInterrupt, bus);
    }
}

} // verus!
