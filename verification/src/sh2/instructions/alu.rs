//! SH-2 arithmetic instructions
use crate::sh2::bus::BusInterface;
use crate::sh2::instructions::{
    any_byte_equal, div1_spec, imm8_ext, imm8_extended, signed, to_signed, gpr_write, lemma_xor_bytes, mac_l_result, mac_w_result, regs_write,
    rm, rm_spec, rn, rn_spec, same_control, sign_bit, t_write,
};
use crate::sh2::registers::{lemma_mac_roundtrip, mac_spec, Sh2Registers, StatusRegister};
use crate::sh2::{same_peripherals, Sh2};
use vstd::prelude::*;

verus! {

impl Sh2 {
    // ADD Rm, Rn
    // Addition
    pub fn add_rm_rn(&mut self, opcode: u16)
        ensures
            crate::sh2::bus_addresses_in_range(*old(self)) ==> crate::sh2::bus_addresses_in_range(*final(self)),
            gpr_write(*final(self), *old(self), rn_spec(opcode), old(self).registers.gpr[rn_spec(opcode)].wrapping_add(old(self).registers.gpr[rm_spec(opcode)]), old(self).registers.sr.t),
    {
        let m = rm(opcode);
        let n = rn(opcode);
        self.registers.gpr[n] = self.registers.gpr[n].wrapping_add(self.registers.gpr[m]);
    }

    // ADD #imm, Rn
    // Addition with immediate operand
    pub fn add_imm_rn(&mut self, opcode: u16)
        ensures
            crate::sh2::bus_addresses_in_range(*old(self)) ==> crate::sh2::bus_addresses_in_range(*final(self)),
            gpr_write(*final(self), *old(self), rn_spec(opcode), old(self).registers.gpr[rn_spec(opcode)].wrapping_add(opcode as i8 as u32), old(self).registers.sr.t),
    {
        let n = rn(opcode);
        let imm = opcode as i8;
        self.registers.gpr[n] = self.registers.gpr[n].wrapping_add(imm as u32);
    }

    // ADDC Rm, Rn
    // Addition with carry
    pub fn addc(&mut self, opcode: u16)
        ensures
            crate::sh2::bus_addresses_in_range(*old(self)) ==> crate::sh2::bus_addresses_in_range(*final(self)),
            gpr_write(*final(self), *old(self), rn_spec(opcode), (old(self).registers.gpr[rn_spec(opcode)] + old(self).registers.gpr[rm_spec(opcode)] + (if old(self).registers.sr.t { 1int } else { 0int })) as u32, old(self).registers.gpr[rn_spec(opcode)] + old(self).registers.gpr[rm_spec(opcode)] + (if old(self).registers.sr.t { 1int } else { 0int }) > u32::MAX),
    {
        let m = rm(opcode);
        let n = rn(opcode);
        let sum = (self.registers.gpr[m] as u64) + (self.registers.gpr[n] as u64) + (if self.registers.sr.t { 1u64 } else { 0u64 });
        self.registers.gpr[n] = sum as u32;
        self.registers.sr.t = sum > 0xFFFF_FFFF;
    }

    // ADDV Rm, Rn
    // Addition with signed overflow check
    pub fn addv(&mut self, opcode: u16)
        ensures
            crate::sh2::bus_addresses_in_range(*old(self)) ==> crate::sh2::bus_addresses_in_range(*final(self)),
            gpr_write(*final(self), *old(self), rn_spec(opcode), old(self).registers.gpr[rn_spec(opcode)].wrapping_add(old(self).registers.gpr[rm_spec(opcode)]), sign_bit(old(self).registers.gpr[rm_spec(opcode)]) == sign_bit(old(self).registers.gpr[rn_spec(opcode)]) && sign_bit(old(self).registers.gpr[rm_spec(opcode)]) != sign_bit(old(self).registers.gpr[rn_spec(opcode)].wrapping_add(old(self).registers.gpr[rm_spec(opcode)]))),
    {
        let m = rm(opcode);
        let n = rn(opcode);
        let source_sign = self.registers.gpr[m] >> 31 == 1;
        let destination_sign = self.registers.gpr[n] >> 31 == 1;
        self.registers.gpr[n] = self.registers.gpr[n].wrapping_add(self.registers.gpr[m]);

        // Signed overflow occurs when the operands have the same sign and the sum has a different sign
        let sum_sign = self.registers.gpr[n] >> 31 == 1;
        self.registers.sr.t = source_sign == destination_sign && source_sign != sum_sign;
    }

    // SUB Rm, Rn
    // Subtraction
    pub fn sub_rm_rn(&mut self, opcode: u16)
        ensures
            crate::sh2::bus_addresses_in_range(*old(self)) ==> crate::sh2::bus_addresses_in_range(*final(self)),
            gpr_write(*final(self), *old(self), rn_spec(opcode), old(self).registers.gpr[rn_spec(opcode)].wrapping_sub(old(self).registers.gpr[rm_spec(opcode)]), old(self).registers.sr.t),
    {
        let m = rm(opcode);
        let n = rn(opcode);
        self.registers.gpr[n] = self.registers.gpr[n].wrapping_sub(self.registers.gpr[m]);
    }

    // SUBC Rm, Rn
    // Subtraction with carry
    pub fn subc(&mut self, opcode: u16)
        ensures
            crate::sh2::bus_addresses_in_range(*old(self)) ==> crate::sh2::bus_addresses_in_range(*final(self)),
            gpr_write(*final(self), *old(self), rn_spec(opcode), (old(self).registers.gpr[rn_spec(opcode)] - old(self).registers.gpr[rm_spec(opcode)] - (if old(self).registers.sr.t { 1int } else { 0int })) as u32, old(self).registers.gpr[rn_spec(opcode)] - old(self).registers.gpr[rm_spec(opcode)] - (if old(self).registers.sr.t { 1int } else { 0int }) < 0),
    {
        let m = rm(opcode);
        let n = rn(opcode);
        let rmv = self.registers.gpr[m] as i64;
        let rnv = self.registers.gpr[n] as i64;
        let difference = rnv - rmv - (if self.registers.sr.t { 1i64 } else { 0i64 });
        self.registers.gpr[n] = difference as u32;
        self.registers.sr.t = difference < 0;
    }

    // SUBV Rm, Rn
    // Subtraction with signed underflow check
    pub fn subv(&mut self, opcode: u16)
        ensures
            crate::sh2::bus_addresses_in_range(*old(self)) ==> crate::sh2::bus_addresses_in_range(*final(self)),
            gpr_write(*final(self), *old(self), rn_spec(opcode), old(self).registers.gpr[rn_spec(opcode)].wrapping_sub(old(self).registers.gpr[rm_spec(opcode)]), sign_bit(old(self).registers.gpr[rm_spec(opcode)]) != sign_bit(old(self).registers.gpr[rn_spec(opcode)]) && sign_bit(old(self).registers.gpr[rn_spec(opcode)].wrapping_sub(old(self).registers.gpr[rm_spec(opcode)])) != sign_bit(old(self).registers.gpr[rn_spec(opcode)])),
    {
        let m = rm(opcode);
        let n = rn(opcode);
        let source_sign = self.registers.gpr[m] >> 31 == 1;
        let dest_sign = self.registers.gpr[n] >> 31 == 1;
        self.registers.gpr[n] = self.registers.gpr[n].wrapping_sub(self.registers.gpr[m]);

        // Signed overflow occurs when the operands have different signs and the difference sign does
        // not match the left operand's sign
        let difference_sign = self.registers.gpr[n] >> 31 == 1;
        self.registers.sr.t = source_sign != dest_sign && difference_sign != dest_sign;
    }

    // NEG Rm, Rn
    // Negate
    pub fn neg(&mut self, opcode: u16)
        ensures
            crate::sh2::bus_addresses_in_range(*old(self)) ==> crate::sh2::bus_addresses_in_range(*final(self)),
            gpr_write(*final(self), *old(self), rn_spec(opcode), 0u32.wrapping_sub(old(self).registers.gpr[rm_spec(opcode)]), old(self).registers.sr.t),
    {
        let m = rm(opcode);
        let n = rn(opcode);
        self.registers.gpr[n] = 0u32.wrapping_sub(self.registers.gpr[m]);
    }

    // NEGC Rm, Rn
    // Negate with carry
    pub fn negc(&mut self, opcode: u16)
        ensures
            crate::sh2::bus_addresses_in_range(*old(self)) ==> crate::sh2::bus_addresses_in_range(*final(self)),
            gpr_write(*final(self), *old(self), rn_spec(opcode), (0 - old(self).registers.gpr[rm_spec(opcode)] - (if old(self).registers.sr.t { 1int } else { 0int })) as u32, old(self).registers.gpr[rm_spec(opcode)] > 0 || old(self).registers.sr.t),
    {
        let m = rm(opcode);
        let n = rn(opcode);
        let difference = 0i64 - (self.registers.gpr[m] as i64) - (if self.registers.sr.t { 1i64 } else { 0i64 });
        self.registers.gpr[n] = difference as u32;
        self.registers.sr.t = difference < 0;
    }

    // CMP/EQ Rm, Rn
    // Set the T flag if Rm = Rn
    pub fn cmp_eq_rm_rn(&mut self, opcode: u16)
        ensures
            crate::sh2::bus_addresses_in_range(*old(self)) ==> crate::sh2::bus_addresses_in_range(*final(self)),
            t_write(*final(self), *old(self), old(self).registers.gpr[rn_spec(opcode)] == old(self).registers.gpr[rm_spec(opcode)]),
    {
        let rm_value = self.registers.gpr[rm(opcode)];
        let rn_value = self.registers.gpr[rn(opcode)];
        self.registers.sr.t = rm_value == rn_value;
    }

    // CMP/EQ #imm, R0
    // Set the T flag if R0 = #imm
    pub fn cmp_eq_imm_r0(&mut self, opcode: u16)
        ensures
            crate::sh2::bus_addresses_in_range(*old(self)) ==> crate::sh2::bus_addresses_in_range(*final(self)),
            t_write(*final(self), *old(self), old(self).registers.gpr[0] == imm8_ext(opcode)),
    {
        self.registers.sr.t = self.registers.gpr[0] == imm8_extended(opcode);
    }

    // CMP/GE Rm, Rn
    // Set the T flag if Rn >= Rm (signed)
    pub fn cmp_ge(&mut self, opcode: u16)
        ensures
            crate::sh2::bus_addresses_in_range(*old(self)) ==> crate::sh2::bus_addresses_in_range(*final(self)),
            t_write(*final(self), *old(self), signed(old(self).registers.gpr[rn_spec(opcode)]) >= signed(old(self).registers.gpr[rm_spec(opcode)])),
    {
        let rm_value = self.registers.gpr[rm(opcode)];
        let rn_value = self.registers.gpr[rn(opcode)];
        self.registers.sr.t = to_signed(rn_value) >= to_signed(rm_value);
    }

    // CMP/GT Rm, Rn
    // Set the T flag if Rn > Rm (signed)
    pub fn cmp_gt(&mut self, opcode: u16)
        ensures
            crate::sh2::bus_addresses_in_range(*old(self)) ==> crate::sh2::bus_addresses_in_range(*final(self)),
            t_write(*final(self), *old(self), signed(old(self).registers.gpr[rn_spec(opcode)]) > signed(old(self).registers.gpr[rm_spec(opcode)])),
    {
        let rm_value = self.registers.gpr[rm(opcode)];
        let rn_value = self.registers.gpr[rn(opcode)];
        self.registers.sr.t = to_signed(rn_value) > to_signed(rm_value);
    }

    // CMP/HI Rm, Rn
    // Set the T flag if Rn > Rm (unsigned)
    pub fn cmp_hi(&mut self, opcode: u16)
        ensures
            crate::sh2::bus_addresses_in_range(*old(self)) ==> crate::sh2::bus_addresses_in_range(*final(self)),
            t_write(*final(self), *old(self), old(self).registers.gpr[rn_spec(opcode)] > old(self).registers.gpr[rm_spec(opcode)]),
    {
        let rm_value = self.registers.gpr[rm(opcode)];
        let rn_value = self.registers.gpr[rn(opcode)];
        self.registers.sr.t = rn_value > rm_value;
    }

    // CMP/HS Rm, Rn
    // Set the T flag if Rn >= Rm (unsigned)
    pub fn cmp_hs(&mut self, opcode: u16)
        ensures
            crate::sh2::bus_addresses_in_range(*old(self)) ==> crate::sh2::bus_addresses_in_range(*final(self)),
            t_write(*final(self), *old(self), old(self).registers.gpr[rn_spec(opcode)] >= old(self).registers.gpr[rm_spec(opcode)]),
    {
        let rm_value = self.registers.gpr[rm(opcode)];
        let rn_value = self.registers.gpr[rn(opcode)];
        self.registers.sr.t = rn_value >= rm_value;
    }

    // CMP/PL Rn
    // Set the T flag if Rn > 0
    pub fn cmp_pl(&mut self, opcode: u16)
        ensures
            crate::sh2::bus_addresses_in_range(*old(self)) ==> crate::sh2::bus_addresses_in_range(*final(self)),
            t_write(*final(self), *old(self), signed(old(self).registers.gpr[rn_spec(opcode)]) > 0),
    {
        let rn_value = self.registers.gpr[rn(opcode)];
        self.registers.sr.t = to_signed(rn_value) > 0;
    }

    // CMP/PZ Rn
    // Set the T flag if Rn >= 0
    pub fn cmp_pz(&mut self, opcode: u16)
        ensures
            crate::sh2::bus_addresses_in_range(*old(self)) ==> crate::sh2::bus_addresses_in_range(*final(self)),
            t_write(*final(self), *old(self), signed(old(self).registers.gpr[rn_spec(opcode)]) >= 0),
    {
        let rn_value = self.registers.gpr[rn(opcode)];
        self.registers.sr.t = to_signed(rn_value) >= 0;
    }

    // CMP/STR Rm, Rn
    // Set the T flag if any individual byte is equal in Rm and Rn
    pub fn cmp_str(&mut self, opcode: u16)
        ensures
            crate::sh2::bus_addresses_in_range(*old(self)) ==> crate::sh2::bus_addresses_in_range(*final(self)),
            t_write(*final(self), *old(self), any_byte_equal(old(self).registers.gpr[rm_spec(opcode)], old(self).registers.gpr[rn_spec(opcode)])),
    {
        let m = rm(opcode);
        let n = rn(opcode);
        let rm_value = self.registers.gpr[m];
        let rn_value = self.registers.gpr[n];
        let xor = rm_value ^ rn_value;
        let t = (xor & 0xFF == 0) || ((xor >> 8) & 0xFF == 0) || ((xor >> 16) & 0xFF == 0) || ((xor >> 24) & 0xFF == 0);
        proof {
            lemma_xor_bytes(rm_value, rn_value);
        }
        self.registers.sr.t = t;
    }

    // EXTS.B Rm, Rn
    // Sign extend byte
    pub fn exts_b(&mut self, opcode: u16)
        ensures
            crate::sh2::bus_addresses_in_range(*old(self)) ==> crate::sh2::bus_addresses_in_range(*final(self)),
            gpr_write(*final(self), *old(self), rn_spec(opcode), old(self).registers.gpr[rm_spec(opcode)] as i8 as u32, old(self).registers.sr.t),
    {
        let m = rm(opcode);
        let n = rn(opcode);
        self.registers.gpr[n] = self.registers.gpr[m] as i8 as u32;
    }

    // EXTS.W Rm, Rn
    // Sign extend word
    pub fn exts_w(&mut self, opcode: u16)
        ensures
            crate::sh2::bus_addresses_in_range(*old(self)) ==> crate::sh2::bus_addresses_in_range(*final(self)),
            gpr_write(*final(self), *old(self), rn_spec(opcode), old(self).registers.gpr[rm_spec(opcode)] as i16 as u32, old(self).registers.sr.t),
    {
        let m = rm(opcode);
        let n = rn(opcode);
        self.registers.gpr[n] = self.registers.gpr[m] as i16 as u32;
    }

    // EXTU.B Rm, Rn
    // Zero extend byte
    pub fn extu_b(&mut self, opcode: u16)
        ensures
            crate::sh2::bus_addresses_in_range(*old(self)) ==> crate::sh2::bus_addresses_in_range(*final(self)),
            gpr_write(*final(self), *old(self), rn_spec(opcode), old(self).registers.gpr[rm_spec(opcode)] & 0xFF, old(self).registers.sr.t),
    {
        let m = rm(opcode);
        let n = rn(opcode);
        self.registers.gpr[n] = self.registers.gpr[m] & 0xFF;
    }

    // EXTU.W Rm, Rn
    // Zero extend word
    pub fn extu_w(&mut self, opcode: u16)
        ensures
            crate::sh2::bus_addresses_in_range(*old(self)) ==> crate::sh2::bus_addresses_in_range(*final(self)),
            gpr_write(*final(self), *old(self), rn_spec(opcode), old(self).registers.gpr[rm_spec(opcode)] & 0xFFFF, old(self).registers.sr.t),
    {
        let m = rm(opcode);
        let n = rn(opcode);
        self.registers.gpr[n] = self.registers.gpr[m] & 0xFFFF;
    }

    // DT Rn
    // Decrement and test
    pub fn dt(&mut self, opcode: u16)
        ensures
            crate::sh2::bus_addresses_in_range(*old(self)) ==> crate::sh2::bus_addresses_in_range(*final(self)),
            gpr_write(*final(self), *old(self), rn_spec(opcode), old(self).registers.gpr[rn_spec(opcode)].wrapping_sub(1), old(self).registers.gpr[rn_spec(opcode)] == 1),
    {
        let n = rn(opcode);
        self.registers.gpr[n] = self.registers.gpr[n].wrapping_sub(1);
        self.registers.sr.t = self.registers.gpr[n] == 0;
    }

    // MUL.L Rm, Rn
    // 32-bit x 32-bit -> 32-bit multiplication
    pub fn mul(&mut self, opcode: u16)
        ensures
            crate::sh2::bus_addresses_in_range(*old(self)) ==> crate::sh2::bus_addresses_in_range(*final(self)),
            regs_write(*final(self), *old(self), Sh2Registers { macl: old(self).registers.gpr[rm_spec(opcode)].wrapping_mul(old(self).registers.gpr[rn_spec(opcode)]), ..old(self).registers }),
    {
        let m = rm(opcode);
        let n = rn(opcode);
        self.registers.macl = self.registers.gpr[m].wrapping_mul(self.registers.gpr[n]);
    }

    // MULS.W Rm, Rn
    // Signed 16-bit x 16-bit -> 32-bit multiplication
    pub fn muls(&mut self, opcode: u16)
        ensures
            crate::sh2::bus_addresses_in_range(*old(self)) ==> crate::sh2::bus_addresses_in_range(*final(self)),
            regs_write(*final(self), *old(self), Sh2Registers { macl: ((old(self).registers.gpr[rm_spec(opcode)] as i16) * (old(self).registers.gpr[rn_spec(opcode)] as i16)) as u32, ..old(self).registers }),
    {
        let m = rm(opcode);
        let n = rn(opcode);
        let operand_l = self.registers.gpr[m] as i16 as i32;
        let operand_r = self.registers.gpr[n] as i16 as i32;
        assert(-0x8000 <= operand_l < 0x8000 && -0x8000 <= operand_r < 0x8000);
        assert(-0x4000_0000 <= operand_l * operand_r <= 0x4000_0000) by (nonlinear_arith)
            requires
                -0x8000 <= operand_l < 0x8000,
                -0x8000 <= operand_r < 0x8000,
        ;
        self.registers.macl = (operand_l * operand_r) as u32;
    }

    // MULU.W Rm, Rn
    // Unsigned 16-bit x 16-bit -> 32-bit multiplication
    pub fn mulu(&mut self, opcode: u16)
        ensures
            crate::sh2::bus_addresses_in_range(*old(self)) ==> crate::sh2::bus_addresses_in_range(*final(self)),
            regs_write(*final(self), *old(self), Sh2Registers { macl: ((old(self).registers.gpr[rm_spec(opcode)] & 0xFFFF) * (old(self).registers.gpr[rn_spec(opcode)] & 0xFFFF)) as u32, ..old(self).registers }),
    {
        let m = rm(opcode);
        let n = rn(opcode);
        let operand_l = self.registers.gpr[m] & 0xFFFF;
        let operand_r = self.registers.gpr[n] & 0xFFFF;
        let a = self.registers.gpr[m];
        let b = self.registers.gpr[n];
        proof {
            crate::bit_facts::lemma_u32_fields(a);
            crate::bit_facts::lemma_u32_fields(b);
        }
        assert(operand_l * operand_r <= 0xFFFF * 0xFFFF) by (nonlinear_arith)
            requires
                operand_l <= 0xFFFF,
                operand_r <= 0xFFFF,
        ;
        self.registers.macl = operand_l * operand_r;
    }

    // DMULS.L Rm, Rn
    // Signed 32-bit x 32-bit -> 64-bit multiplication
    pub fn dmuls(&mut self, opcode: u16)
        ensures
            crate::sh2::bus_addresses_in_range(*old(self)) ==> crate::sh2::bus_addresses_in_range(*final(self)),
            regs_write(*final(self), *old(self), Sh2Registers { macl: ((old(self).registers.gpr[rm_spec(opcode)] as i32) * (old(self).registers.gpr[rn_spec(opcode)] as i32)) as i64 as u32, mach: ((((old(self).registers.gpr[rm_spec(opcode)] as i32) * (old(self).registers.gpr[rn_spec(opcode)] as i32)) as i64 as u64) >> 32) as u32, ..old(self).registers }),
            mac_spec(final(self).registers.mach, final(self).registers.macl) == (old(self).registers.gpr[rm_spec(opcode)] as i32) * (old(self).registers.gpr[rn_spec(opcode)] as i32),
    {
        let m = rm(opcode);
        let n = rn(opcode);
        let operand_l = self.registers.gpr[m] as i32 as i64;
        let operand_r = self.registers.gpr[n] as i32 as i64;
        assert(-0x4000_0000_0000_0000 <= operand_l * operand_r <= 0x4000_0000_0000_0000) by (nonlinear_arith)
            requires
                -0x8000_0000 <= operand_l < 0x8000_0000,
                -0x8000_0000 <= operand_r < 0x8000_0000,
        ;
        let product = operand_l * operand_r;
        self.registers.set_mac(product);
        proof {
            lemma_mac_roundtrip(product);
        }
    }

    // DMULU Rm, Rn
    // Unsigned 32-bit x 32-bit -> 64-bit multiplication
    pub fn dmulu(&mut self, opcode: u16)
        ensures
            crate::sh2::bus_addresses_in_range(*old(self)) ==> crate::sh2::bus_addresses_in_range(*final(self)),
            regs_write(*final(self), *old(self), Sh2Registers { macl: (old(self).registers.gpr[rm_spec(opcode)] * old(self).registers.gpr[rn_spec(opcode)]) as u64 as u32, mach: (((old(self).registers.gpr[rm_spec(opcode)] * old(self).registers.gpr[rn_spec(opcode)]) as u64) >> 32) as u32, ..old(self).registers }),
    {
        let m = rm(opcode);
        let n = rn(opcode);
        let operand_l = self.registers.gpr[m] as u64;
        let operand_r = self.registers.gpr[n] as u64;
        assert(operand_l * operand_r <= 0xFFFF_FFFF * 0xFFFF_FFFF) by (nonlinear_arith)
            requires
                operand_l <= 0xFFFF_FFFF,
                operand_r <= 0xFFFF_FFFF,
        ;
        let product = operand_l * operand_r;
        self.registers.macl = product as u32;
        self.registers.mach = (product >> 32) as u32;
    }

    // MAC.W @Rm+, @Rn+
    // Multiply and accumulate with word operands
    pub fn mac_w<B: BusInterface>(&mut self, opcode: u16, bus: &mut B)
        ensures
            crate::sh2::bus_addresses_in_range(*old(self)) ==> crate::sh2::bus_addresses_in_range(*final(self)),
            final(self).name == old(self).name,
            exists|l: u16, r: u16| #[trigger] mac_w_result(old(self).registers, l, r) == (final(self).registers.mach, final(self).registers.macl),
            final(self).registers.gpr@ == old(self).registers.gpr@.update(rm_spec(opcode), old(self).registers.gpr[rm_spec(opcode)].wrapping_add(2)).update(rn_spec(opcode), old(self).registers.gpr@.update(rm_spec(opcode), old(self).registers.gpr[rm_spec(opcode)].wrapping_add(2))[rn_spec(opcode)].wrapping_add(2)),
            final(self).registers.sr == old(self).registers.sr && final(self).registers.pc == old(self).registers.pc && final(self).registers.next_pc == old(self).registers.next_pc,
            final(self).registers.gbr == old(self).registers.gbr && final(self).registers.vbr == old(self).registers.vbr && final(self).registers.pr == old(self).registers.pr,
            final(self).registers.next_op_in_delay_slot == old(self).registers.next_op_in_delay_slot,
    {
        let m = rm(opcode);
        let n = rn(opcode);

        let l = self.read_word(self.registers.gpr[m], bus);
        self.registers.gpr[m] = self.registers.gpr[m].wrapping_add(2);

        let r = self.read_word(self.registers.gpr[n], bus);
        self.registers.gpr[n] = self.registers.gpr[n].wrapping_add(2);

        let operand_l = l as i16 as i64;
        let operand_r = r as i16 as i64;
        assert(-0x4000_0000 <= operand_l * operand_r <= 0x4000_0000) by (nonlinear_arith)
            requires
                -0x8000 <= operand_l < 0x8000,
                -0x8000 <= operand_r < 0x8000,
        ;
        let product = operand_l * operand_r;

        if self.registers.sr.s {
            // 16-bit x 16-bit + 32-bit -> 32-bit, with saturation
            let sum = (self.registers.macl as i32 as i64) + product;
            let clamped = if sum > 0x7FFF_FFFF { 0x7FFF_FFFFi64 } else if sum < -0x8000_0000 { -0x8000_0000i64 } else { sum };
            self.registers.macl = clamped as u32;
        } else {
            // 16-bit x 16-bit + 64-bit -> 64-bit
            let sum = product.wrapping_add(self.registers.mac());
            self.registers.set_mac(sum);
        }
        assert(mac_w_result(old(self).registers, l, r) == (self.registers.mach, self.registers.macl));
    }

    // MAC.L @Rm+, @Rn+
    // Multiply and accumulate with longword operands
    pub fn mac_l<B: BusInterface>(&mut self, opcode: u16, bus: &mut B)
        ensures
            crate::sh2::bus_addresses_in_range(*old(self)) ==> crate::sh2::bus_addresses_in_range(*final(self)),
            final(self).name == old(self).name,
            exists|l: u32, r: u32| #[trigger] mac_l_result(old(self).registers, l, r) == (final(self).registers.mach, final(self).registers.macl),
            final(self).registers.gpr@ == old(self).registers.gpr@.update(rm_spec(opcode), old(self).registers.gpr[rm_spec(opcode)].wrapping_add(4)).update(rn_spec(opcode), old(self).registers.gpr@.update(rm_spec(opcode), old(self).registers.gpr[rm_spec(opcode)].wrapping_add(4))[rn_spec(opcode)].wrapping_add(4)),
            final(self).registers.sr == old(self).registers.sr && final(self).registers.pc == old(self).registers.pc && final(self).registers.next_pc == old(self).registers.next_pc,
            final(self).registers.gbr == old(self).registers.gbr && final(self).registers.vbr == old(self).registers.vbr && final(self).registers.pr == old(self).registers.pr,
            final(self).registers.next_op_in_delay_slot == old(self).registers.next_op_in_delay_slot,
    {
        let m = rm(opcode);
        let n = rn(opcode);

        let l = self.read_longword(self.registers.gpr[m], bus);
        self.registers.gpr[m] = self.registers.gpr[m].wrapping_add(4);

        let r = self.read_longword(self.registers.gpr[n], bus);
        self.registers.gpr[n] = self.registers.gpr[n].wrapping_add(4);

        let operand_l = l as i32 as i64;
        let operand_r = r as i32 as i64;
        assert(-0x4000_0000_0000_0000 <= operand_l * operand_r <= 0x4000_0000_0000_0000) by (nonlinear_arith)
            requires
                -0x8000_0000 <= operand_l < 0x8000_0000,
                -0x8000_0000 <= operand_r < 0x8000_0000,
        ;
        let product = operand_l * operand_r;
        let product_sum = product.wrapping_add(self.registers.mac());

        if self.registers.sr.s {
            // Saturate to signed 48-bit
            let clamped = if product_sum > 0x7FFF_FFFF_FFFF { 0x7FFF_FFFF_FFFFi64 } else if product_sum < -0x8000_0000_0000 { -0x8000_0000_0000i64 } else { product_sum };
            self.registers.set_mac(clamped);
        } else {
            self.registers.set_mac(product_sum);
        }
        assert(mac_l_result(old(self).registers, l, r) == (self.registers.mach, self.registers.macl));
    }

    // DIV0U
    // Initialization step for unsigned division
    pub fn div0u(&mut self)
        ensures
            crate::sh2::bus_addresses_in_range(*old(self)) ==> crate::sh2::bus_addresses_in_range(*final(self)),
            regs_write(*final(self), *old(self), Sh2Registers { sr: StatusRegister { m: false, q: false, t: false, ..old(self).registers.sr }, ..old(self).registers }),
    {
        self.registers.sr.m = false;
        self.registers.sr.q = false;
        self.registers.sr.t = false;
    }

    // DIV0S Rm, Rn
    // Initialization step for signed division
    pub fn div0s(&mut self, opcode: u16)
        ensures
            crate::sh2::bus_addresses_in_range(*old(self)) ==> crate::sh2::bus_addresses_in_range(*final(self)),
            regs_write(*final(self), *old(self), Sh2Registers { sr: StatusRegister { m: sign_bit(old(self).registers.gpr[rm_spec(opcode)]), q: sign_bit(old(self).registers.gpr[rn_spec(opcode)]), t: sign_bit(old(self).registers.gpr[rm_spec(opcode)]) != sign_bit(old(self).registers.gpr[rn_spec(opcode)]), ..old(self).registers.sr }, ..old(self).registers }),
    {
        let divisor = self.registers.gpr[rm(opcode)];
        let dividend = self.registers.gpr[rn(opcode)];

        self.registers.sr.m = divisor >> 31 == 1;
        self.registers.sr.q = dividend >> 31 == 1;
        self.registers.sr.t = self.registers.sr.m != self.registers.sr.q;
    }

    // DIV1 Rm, Rn
    // Division single step
    pub fn div1(&mut self, opcode: u16)
        ensures
            crate::sh2::bus_addresses_in_range(*old(self)) ==> crate::sh2::bus_addresses_in_range(*final(self)),
            same_peripherals(*final(self), *old(self)),
            same_control(final(self).registers, old(self).registers),
            final(self).registers.gpr@ == old(self).registers.gpr@.update(rn_spec(opcode), div1_spec(old(self).registers.gpr[rn_spec(opcode)], old(self).registers.gpr[rm_spec(opcode)], old(self).registers.sr).0),
            final(self).registers.sr == (StatusRegister { q: div1_spec(old(self).registers.gpr[rn_spec(opcode)], old(self).registers.gpr[rm_spec(opcode)], old(self).registers.sr).1, t: div1_spec(old(self).registers.gpr[rn_spec(opcode)], old(self).registers.gpr[rm_spec(opcode)], old(self).registers.sr).2, ..old(self).registers.sr }),
    {
        let m = rm(opcode);
        let n = rn(opcode);

        let divisor = self.registers.gpr[m];
        let dividend0 = self.registers.gpr[n];

        let prev_sign_bit = dividend0 >> 31 == 1;
        let shifted = (dividend0 << 1) | (if self.registers.sr.t { 1u32 } else { 0u32 });
        assert(shifted as int == (dividend0 as int * 2 + (if old(self).registers.sr.t { 1int } else { 0int })) % 0x1_0000_0000) by {
            let tt: u32 = if old(self).registers.sr.t { 1 } else { 0 };
            assert((dividend0 << 1) | tt == ((dividend0 as int * 2 + tt as int) % 0x1_0000_0000) as u32) by (bit_vector)
                requires tt <= 1;
        }

        let dividend;
        let overflowed;
        if self.registers.sr.q == self.registers.sr.m {
            dividend = shifted.wrapping_sub(divisor);
            overflowed = dividend > shifted;
        } else {
            dividend = shifted.wrapping_add(divisor);
            overflowed = dividend < shifted;
        }

        let q = overflowed ^ prev_sign_bit ^ self.registers.sr.m;
        self.registers.sr.q = q;
        self.registers.sr.t = q == self.registers.sr.m;
        self.registers.gpr[n] = dividend;
    }
}

} // verus!
