//! SH-2 instruction implementations and decoding.
mod alu;
mod bits;
mod branch;
mod load;

use crate::sh2::bus::BusInterface;
use crate::sh2::instructions::bits::gbr_indexed;
use crate::sh2::memory::{byte_read, byte_written, longword_written, word_written};
use crate::sh2::registers::{mac_spec, sr_from_u32, sr_to_u32, Sh2Registers, StatusRegister};
use crate::sh2::{same_peripherals, Sh2};
use vstd::prelude::*;

verus! {

/// Index of the Rn operand (bits 11-8).
pub open spec fn rn_spec(opcode: u16) -> int {
    ((opcode >> 8) & 0xF) as int
}

/// Index of the Rm operand (bits 7-4).
pub open spec fn rm_spec(opcode: u16) -> int {
    ((opcode >> 4) & 0xF) as int
}

pub fn rn(opcode: u16) -> (r: usize)
    ensures
        r == rn_spec(opcode),
        r < 16,
{
    proof {
        crate::bit_facts::lemma_u16_fields(opcode);
    }
    ((opcode >> 8) & 0xF) as usize
}

pub fn rm(opcode: u16) -> (r: usize)
    ensures
        r == rm_spec(opcode),
        r < 16,
{
    proof {
        crate::bit_facts::lemma_u16_fields(opcode);
    }
    ((opcode >> 4) & 0xF) as usize
}

pub fn extend_i8(value: u8) -> (r: u32)
    ensures
        r == value as i8 as u32,
{
    value as i8 as u32
}

pub fn extend_i16(value: u16) -> (r: u32)
    ensures
        r == value as i16 as u32,
{
    value as i16 as u32
}

/// A register read as a signed 32-bit integer.
pub open spec fn signed(value: u32) -> int {
    value as i32 as int
}

pub fn to_signed(value: u32) -> (r: i32)
    ensures
        r == signed(value),
{
    value as i32
}

/// The 8-bit immediate (bits 7-0) sign-extended to 32 bits.
pub open spec fn imm8_ext(opcode: u16) -> u32 {
    opcode as i8 as u32
}

pub fn imm8_extended(opcode: u16) -> (r: u32)
    ensures
        r == imm8_ext(opcode),
{
    opcode as i8 as u32
}

/// Bit 31 of a register: the sign of the value read as a signed integer.
pub open spec fn sign_bit(value: u32) -> bool {
    value >> 31 == 1
}

/// Registers other than the general registers and SR are unchanged.
pub open spec fn same_control(a: Sh2Registers, b: Sh2Registers) -> bool {
    &&& a.gbr == b.gbr
    &&& a.vbr == b.vbr
    &&& a.macl == b.macl
    &&& a.mach == b.mach
    &&& a.pr == b.pr
    &&& a.pc == b.pc
    &&& a.next_pc == b.next_pc
    &&& a.next_op_in_delay_slot == b.next_op_in_delay_slot
}

/// Only general register `n` changes (to `v`) and the T flag (to `t`).
pub open spec fn gpr_write(new: Sh2, old: Sh2, n: int, v: u32, t: bool) -> bool {
    &&& same_peripherals(new, old)
    &&& new.registers.gpr@ == old.registers.gpr@.update(n, v)
    &&& new.registers.sr == (StatusRegister { t: t, ..old.registers.sr })
    &&& same_control(new.registers, old.registers)
}

/// Only the T flag changes (to `t`).
pub open spec fn t_write(new: Sh2, old: Sh2, t: bool) -> bool {
    &&& same_peripherals(new, old)
    &&& new.registers.gpr@ == old.registers.gpr@
    &&& new.registers.sr == (StatusRegister { t: t, ..old.registers.sr })
    &&& same_control(new.registers, old.registers)
}

/// The registers become `regs`; nothing else changes.
pub open spec fn regs_write(new: Sh2, old: Sh2, regs: Sh2Registers) -> bool {
    &&& same_peripherals(new, old)
    &&& new.registers == regs
}

/// Whether any of the four bytes of two values are equal.
pub open spec fn any_byte_equal(a: u32, b: u32) -> bool {
    (a & 0xFF) == (b & 0xFF) || ((a >> 8) & 0xFF) == ((b >> 8) & 0xFF) || ((a >> 16) & 0xFF) == ((b
        >> 16) & 0xFF) || ((a >> 24) & 0xFF) == ((b >> 24) & 0xFF)
}

/// Two values agree in some byte lane exactly when their exclusive or has a zero byte there,
/// which is how CMP/STR compares strings four bytes at a time.
pub proof fn lemma_xor_bytes(a: u32, b: u32)
    ensures
        ((a ^ b) & 0xFF == 0 || ((a ^ b) >> 8) & 0xFF == 0 || ((a ^ b) >> 16) & 0xFF == 0 || ((a ^ b)
            >> 24) & 0xFF == 0) == any_byte_equal(a, b),
{
    assert(((a ^ b) & 0xFF == 0) == ((a & 0xFF) == (b & 0xFF)) && (((a ^ b) >> 8) & 0xFF == 0) == (((a
        >> 8) & 0xFF) == ((b >> 8) & 0xFF)) && (((a ^ b) >> 16) & 0xFF == 0) == (((a >> 16) & 0xFF)
        == ((b >> 16) & 0xFF)) && (((a ^ b) >> 24) & 0xFF == 0) == (((a >> 24) & 0xFF) == ((b >> 24)
        & 0xFF))) by (bit_vector);
}

/// One step of the non-restoring division performed by DIV1: shift the dividend left with T
/// entering bit 0, subtract the divisor when Q == M (else add it), then set Q from the carry or
/// borrow, the sign bit shifted out and M, and set T to whether Q == M.
/// Returns (new dividend, new Q, new T).
pub open spec fn div1_spec(dividend: u32, divisor: u32, sr: StatusRegister) -> (u32, bool, bool) {
    let shifted = ((dividend as int * 2 + (if sr.t { 1int } else { 0int })) % 0x1_0000_0000) as u32;
    let prev_sign = sign_bit(dividend);
    let (result, overflowed) = if sr.q == sr.m {
        (shifted.wrapping_sub(divisor), shifted < divisor)
    } else {
        (shifted.wrapping_add(divisor), shifted as int + divisor as int >= 0x1_0000_0000)
    };
    let q = (overflowed != prev_sign) != sr.m;
    (result, q, q == sr.m)
}

/// MACH and MACL after MAC.W with the given word operands: with S set, MACL accumulates with
/// saturation to 32 bits (MACH kept); otherwise the 64-bit MAC accumulates with wraparound.
pub open spec fn mac_w_result(regs: Sh2Registers, l: u16, r: u16) -> (u32, u32) {
    let product = (l as i16) * (r as i16);
    if regs.sr.s {
        let sum = (regs.macl as i32) + product;
        let clamped = if sum > i32::MAX {
            i32::MAX as int
        } else if sum < i32::MIN {
            i32::MIN as int
        } else {
            sum
        };
        (regs.mach, clamped as u32)
    } else {
        let sum = (product as i64).wrapping_add(mac_spec(regs.mach, regs.macl));
        (((sum as u64) >> 32) as u32, sum as u32)
    }
}

/// MACH and MACL after MAC.L with the given longword operands: the 64-bit MAC accumulates with
/// wraparound, then with S set saturates to signed 48 bits.
pub open spec fn mac_l_result(regs: Sh2Registers, l: u32, r: u32) -> (u32, u32) {
    let product = ((l as i32) * (r as i32)) as i64;
    let sum = product.wrapping_add(mac_spec(regs.mach, regs.macl));
    let value = if regs.sr.s {
        if sum > 0x7FFF_FFFF_FFFF {
            0x7FFF_FFFF_FFFFi64
        } else if sum < -0x8000_0000_0000 {
            -0x8000_0000_0000i64
        } else {
            sum
        }
    } else {
        sum
    };
    (((value as u64) >> 32) as u32, value as u32)
}

pub open spec fn ext8(v: u8) -> u32 {
    v as i8 as u32
}

pub open spec fn ext16(v: u16) -> u32 {
    v as i16 as u32
}

pub open spec fn ext32(v: u32) -> u32 {
    v
}

/// Whether an immediate and a byte have no set bit in common.
pub open spec fn byte_test(imm: u8, v: u8) -> bool {
    imm & v == 0
}

pub open spec fn is_zero_byte(v: u8) -> bool {
    v == 0
}

/// SR with the T flag replaced.
pub open spec fn sr_with_t(sr: StatusRegister, t: bool) -> StatusRegister {
    StatusRegister { t: t, ..sr }
}

/// A memory instruction sets the general registers to `gpr` and leaves the other registers, the
/// pending reset, the access context and the name as they were (the access itself may change the
/// cache and on-chip peripherals).
pub open spec fn mem_gpr(new: Sh2, old: Sh2, gpr: Seq<u32>) -> bool {
    &&& new.registers.gpr@ == gpr
    &&& new.registers.sr == old.registers.sr
    &&& same_control(new.registers, old.registers)
    &&& new.name == old.name
    &&& new.reset_pending == old.reset_pending
    &&& new.data_ctx == old.data_ctx
    &&& crate::sh2::bus_addresses_in_range(old) ==> crate::sh2::bus_addresses_in_range(new)
}

/// The 12-bit displacement of BRA/BSR (bits 11-0), sign-extended.
pub open spec fn i12_spec(opcode: u16) -> int {
    let v = (opcode & 0xFFF) as int;
    if v >= 0x800 {
        v - 0x1000
    } else {
        v
    }
}

pub fn i12(opcode: u16) -> (r: i32)
    ensures
        r == i12_spec(opcode),
        -0x800 <= r < 0x800,
{
    proof {
        crate::bit_facts::lemma_u16_fields(opcode);
    }
    let v = (opcode & 0xFFF) as i32;
    if v >= 0x800 {
        v - 0x1000
    } else {
        v
    }
}

pub const ILLEGAL_OPCODE_VECTOR_NUMBER: u32 = 4;

impl Sh2 {
    // NOP
    pub fn nop(&mut self)
        ensures
            *final(self) == *old(self),
    {
    }

    // SLEEP
    // In actual hardware, SLEEP causes the CPU to enter a low-power state.
    // Since nothing uses SLEEP except for a handful of demos, use a simpler implementation that
    // is inefficient but doesn't require checking whether the CPU is sleeping after every instruction
    pub fn sleep(&mut self)
        ensures
            regs_write(
                *final(self),
                *old(self),
                Sh2Registers {
                    next_pc: old(self).registers.pc,
                    pc: old(self).registers.pc.wrapping_sub(2),
                    ..old(self).registers
                },
            ),
    {
        self.registers.next_pc = self.registers.pc;
        self.registers.pc = self.registers.pc.wrapping_sub(2);
    }

    /// Raises the illegal instruction exception, with PC pointing back at the illegal opcode.
    pub fn illegal_opcode<B: BusInterface>(&mut self, bus: &mut B)
        ensures
            crate::sh2::bus_addresses_in_range(*old(self)) ==> crate::sh2::bus_addresses_in_range(*final(self)),
            final(self).name == old(self).name,
            final(self).registers.gpr@ == old(self).registers.gpr@.update(
                15,
                old(self).registers.gpr[15].wrapping_sub(8),
            ),
            final(self).registers.sr == old(self).registers.sr,
            final(self).registers.next_pc == final(self).registers.pc.wrapping_add(2),
            !final(self).registers.next_op_in_delay_slot,
    {
        // Roll back PC to point to the illegal opcode
        self.registers.pc = self.registers.pc.wrapping_sub(2);
        self.handle_exception(None, ILLEGAL_OPCODE_VECTOR_NUMBER, bus);
    }
}

/// The CPU is between instructions: in the delay slot of a branch, or with the next PC just
/// after the PC.
pub open spec fn between_instructions(cpu: Sh2) -> bool {
    cpu.registers.next_op_in_delay_slot || cpu.registers.next_pc == cpu.registers.pc.wrapping_add(2)
}

/// The register-to-register arithmetic and logic instructions, as arithmetic and set relations
/// between Rn, Rm and the result in Rn: ADD and SUB add and subtract modulo 2^32, NEG negates;
/// EXTU.B and EXTU.W keep the low byte or halfword of Rm; AND keeps only bits of both registers,
/// OR sets every bit of both, XOR is undone by a second XOR with Rm, NOT complements Rm; TST sets
/// T when Rn and Rm share no bit; CMP/EQ, CMP/HS and CMP/HI compare unsigned. Registers other
/// than Rn are unchanged.
pub proof fn lemma_register_arithmetic(opcode: u16, after: Sh2, before: Sh2)
    requires
        instruction_post(opcode, after, before),
    ensures
        ({
            let n = before.registers.gpr[rn_spec(opcode)];
            let m = before.registers.gpr[rm_spec(opcode)];
            let result = after.registers.gpr[rn_spec(opcode)];
            let kind = opcode & 0xF00F;
            &&& kind == 0x300C ==> result == (n + m) % 0x1_0000_0000
            &&& kind == 0x3008 ==> result == (n - m + 0x1_0000_0000) % 0x1_0000_0000
            &&& kind == 0x600B ==> result == (0x1_0000_0000 - m) % 0x1_0000_0000
            &&& kind == 0x600C ==> result == m % 0x100
            &&& kind == 0x600D ==> result == m % 0x1_0000
            &&& kind == 0x2009 ==> result & n == result && result & m == result
            &&& kind == 0x200B ==> result & n == n && result & m == m
            &&& kind == 0x200A ==> result ^ m == n
            &&& kind == 0x6007 ==> result ^ m == 0xFFFF_FFFF
            &&& kind == 0x2008 ==> after.registers.sr.t == (n & m == 0) && after.registers.gpr == before.registers.gpr
            &&& kind == 0x3000 ==> after.registers.sr.t == (n == m) && after.registers.gpr == before.registers.gpr
            &&& kind == 0x3002 ==> after.registers.sr.t == (n >= m) && after.registers.gpr == before.registers.gpr
            &&& kind == 0x3006 ==> after.registers.sr.t == (n > m) && after.registers.gpr == before.registers.gpr
            &&& (kind == 0x300C || kind == 0x3008 || kind == 0x600B || kind == 0x600C || kind == 0x600D
                || kind == 0x2009 || kind == 0x200B || kind == 0x200A || kind == 0x6007) ==> forall|i: int|
                0 <= i < 16 && i != rn_spec(opcode) ==> #[trigger] after.registers.gpr[i] == before.registers.gpr[i]
        }),
{
    let n = before.registers.gpr[rn_spec(opcode)];
    let m = before.registers.gpr[rm_spec(opcode)];
    crate::bit_facts::lemma_u16_fields(opcode);
    crate::arm7tdmi::instructions::alu::lemma_word_bitwise(n, m);
    crate::arm7tdmi::instructions::alu::lemma_word_bitwise(m, n);
    vstd::bits::lemma_u32_low_bits_mask_is_mod(m, 8);
    vstd::bits::lemma_u32_low_bits_mask_is_mod(m, 16);
    vstd::bits::lemma_low_bits_mask_values();
    vstd::arithmetic::power2::lemma2_to64();
    assert(m & 0xFF == m % 0x100);
    assert(m & 0xFFFF == m % 0x1_0000);
    assert((n + m) % 0x1_0000_0000 == if n + m > u32::MAX { n + m - 0x1_0000_0000 } else { n + m });
    assert((n - m + 0x1_0000_0000) % 0x1_0000_0000 == if n >= m { n - m } else { n - m + 0x1_0000_0000 });
    assert((0x1_0000_0000 - m) % 0x1_0000_0000 == if m == 0 { 0 } else { 0x1_0000_0000 - m });
    assert(n.wrapping_add(m) == (n + m) % 0x1_0000_0000);
    assert(n.wrapping_sub(m) == (n - m + 0x1_0000_0000) % 0x1_0000_0000);
    assert(0u32.wrapping_sub(m) == (0x1_0000_0000 - m) % 0x1_0000_0000);
}

/// The logical right shifts and DT as arithmetic on Rn: SHLR halves Rn and moves bit 0 into T;
/// SHLR2, SHLR8 and SHLR16 divide by 4, 256 and 65536 and keep T; DT decrements Rn modulo 2^32
/// and sets T exactly when the result is zero.
pub proof fn lemma_shift_right_arithmetic(opcode: u16, after: Sh2, before: Sh2)
    requires
        instruction_post(opcode, after, before),
    ensures
        ({
            let n = before.registers.gpr[rn_spec(opcode)];
            let result = after.registers.gpr[rn_spec(opcode)];
            let kind = opcode & 0xF0FF;
            &&& kind == 0x4001 ==> result == n / 2 && after.registers.sr.t == (n % 2 == 1)
            &&& kind == 0x4009 ==> result == n / 4 && after.registers.sr.t == before.registers.sr.t
            &&& kind == 0x4019 ==> result == n / 256 && after.registers.sr.t == before.registers.sr.t
            &&& kind == 0x4029 ==> result == n / 0x1_0000 && after.registers.sr.t == before.registers.sr.t
            &&& kind == 0x4010 ==> result == (n + 0xFFFF_FFFF) % 0x1_0000_0000 && after.registers.sr.t == (result == 0)
        }),
{
    let n = before.registers.gpr[rn_spec(opcode)];
    crate::bit_facts::lemma_u16_fields(opcode);
    crate::bit_facts::lemma_constants();
    vstd::bits::lemma_u32_shr_is_div(n, 1);
    vstd::bits::lemma_u32_shr_is_div(n, 2);
    vstd::bits::lemma_u32_shr_is_div(n, 8);
    vstd::bits::lemma_u32_shr_is_div(n, 16);
    vstd::bits::lemma_u32_low_bits_mask_is_mod(n, 1);
    vstd::bits::lemma_low_bits_mask_values();
    vstd::arithmetic::power2::lemma2_to64();
    assert(n & 1 == n % 2);
    assert((n + 0xFFFF_FFFF) % 0x1_0000_0000 == if n == 0 { 0xFFFF_FFFF } else { n - 1 });
    assert(n.wrapping_sub(1) == (n + 0xFFFF_FFFF) % 0x1_0000_0000);
}

/// Rotating Rn left then right (ROTL, ROTR), or left then right through T (ROTCL, ROTCR), or
/// right then left through T, gives back every register; through T, T comes back too.
pub proof fn lemma_rotate_round_trips(first: u16, second: u16, before: Sh2, mid: Sh2, after: Sh2)
    requires
        instruction_post(first, mid, before),
        instruction_post(second, after, mid),
        rn_spec(first) == rn_spec(second),
        (first & 0xF0FF == 0x4004 && second & 0xF0FF == 0x4005) || (first & 0xF0FF == 0x4024
            && second & 0xF0FF == 0x4025) || (first & 0xF0FF == 0x4025 && second & 0xF0FF == 0x4024),
    ensures
        after.registers.gpr@ == before.registers.gpr@,
        first & 0xF0FF != 0x4004 ==> after.registers.sr.t == before.registers.sr.t,
{
    let x = before.registers.gpr[rn_spec(first)];
    let y = mid.registers.gpr[rn_spec(first)];
    crate::bit_facts::lemma_u16_fields(first);
    crate::bit_facts::lemma_u16_fields(second);
    crate::bit_facts::lemma_constants();
    crate::bit_facts::lemma_word_fields(x);
    crate::bit_facts::lemma_word_fields(y);
    assert(sign_bit(x) == (x >> 31 == 1));
    if before.registers.sr.t {
        assert(after.registers.gpr@ =~= before.registers.gpr@);
    } else {
        assert(after.registers.gpr@ =~= before.registers.gpr@);
    }
}

/// Every instruction started between instructions, outside a delay slot, ends between
/// instructions.
pub proof fn lemma_instruction_ends_between(opcode: u16, after: Sh2, before: Sh2)
    requires
        instruction_post(opcode, after, before),
        !before.registers.next_op_in_delay_slot,
        before.registers.next_pc == before.registers.pc.wrapping_add(2),
    ensures
        between_instructions(after),
{
}

/// Every instruction hands the bus only addresses of the external address space.
pub proof fn lemma_instruction_keeps_bus_range(opcode: u16, after: Sh2, before: Sh2)
    requires
        instruction_post(opcode, after, before),
        crate::sh2::bus_addresses_in_range(before),
    ensures
        crate::sh2::bus_addresses_in_range(after),
{
}

/// What executing an opcode does, as each instruction's own contract states it; values read
/// from the bus are left open.
pub closed spec fn instruction_post(opcode: u16, after: Sh2, before: Sh2) -> bool {
    &&& crate::sh2::bus_addresses_in_range(before) ==> crate::sh2::bus_addresses_in_range(after)
    &&& match opcode & 0b1111_0000_0000_1111 {
        0b0110_0000_0000_0011 => {
            &&& gpr_write(after, before, rn_spec(opcode), before.registers.gpr[rm_spec(opcode)], before.registers.sr.t)
        },
        0b0010_0000_0000_0000 => {
            &&& after.name == before.name
            &&& mem_gpr(after, before, before.registers.gpr@)
            &&& byte_written(after, before, before.registers.gpr[rn_spec(opcode)], before.registers.gpr[rm_spec(opcode)] as u8)
        },
        0b0010_0000_0000_0001 => {
            &&& after.name == before.name
            &&& mem_gpr(after, before, before.registers.gpr@)
            &&& word_written(after, before, before.registers.gpr[rn_spec(opcode)], before.registers.gpr[rm_spec(opcode)] as u16)
        },
        0b0010_0000_0000_0010 => {
            &&& after.name == before.name
            &&& mem_gpr(after, before, before.registers.gpr@)
            &&& longword_written(after, before, before.registers.gpr[rn_spec(opcode)], before.registers.gpr[rm_spec(opcode)])
        },
        0b0110_0000_0000_0000 => {
            &&& after.name == before.name
            &&& exists|v: u8| mem_gpr(after, before, before.registers.gpr@.update(rn_spec(opcode), #[trigger] ext8(v)))
        },
        0b0110_0000_0000_0001 => {
            &&& after.name == before.name
            &&& exists|v: u16| mem_gpr(after, before, before.registers.gpr@.update(rn_spec(opcode), #[trigger] ext16(v)))
        },
        0b0110_0000_0000_0010 => {
            &&& after.name == before.name
            &&& exists|v: u32| mem_gpr(after, before, before.registers.gpr@.update(rn_spec(opcode), #[trigger] ext32(v)))
        },
        0b0010_0000_0000_0100 => {
            &&& after.name == before.name
            &&& mem_gpr(after, before, before.registers.gpr@.update(rn_spec(opcode), before.registers.gpr[rn_spec(opcode)].wrapping_sub(1)))
        },
        0b0010_0000_0000_0101 => {
            &&& after.name == before.name
            &&& mem_gpr(after, before, before.registers.gpr@.update(rn_spec(opcode), before.registers.gpr[rn_spec(opcode)].wrapping_sub(2)))
        },
        0b0010_0000_0000_0110 => {
            &&& after.name == before.name
            &&& mem_gpr(after, before, before.registers.gpr@.update(rn_spec(opcode), before.registers.gpr[rn_spec(opcode)].wrapping_sub(4)))
        },
        0b0110_0000_0000_0100 => {
            &&& after.name == before.name
            &&& exists|v: u8| mem_gpr(after, before, before.registers.gpr@.update(rm_spec(opcode), before.registers.gpr[rm_spec(opcode)].wrapping_add(1)).update(rn_spec(opcode), #[trigger] ext8(v)))
        },
        0b0110_0000_0000_0101 => {
            &&& after.name == before.name
            &&& exists|v: u16| mem_gpr(after, before, before.registers.gpr@.update(rm_spec(opcode), before.registers.gpr[rm_spec(opcode)].wrapping_add(2)).update(rn_spec(opcode), #[trigger] ext16(v)))
        },
        0b0110_0000_0000_0110 => {
            &&& after.name == before.name
            &&& exists|v: u32| mem_gpr(after, before, before.registers.gpr@.update(rm_spec(opcode), before.registers.gpr[rm_spec(opcode)].wrapping_add(4)).update(rn_spec(opcode), #[trigger] ext32(v)))
        },
        0b0000_0000_0000_0100 => {
            &&& after.name == before.name
            &&& mem_gpr(after, before, before.registers.gpr@)
            &&& byte_written(after, before, before.registers.gpr[0].wrapping_add(before.registers.gpr[rn_spec(opcode)]), before.registers.gpr[rm_spec(opcode)] as u8)
        },
        0b0000_0000_0000_0101 => {
            &&& after.name == before.name
            &&& mem_gpr(after, before, before.registers.gpr@)
            &&& word_written(after, before, before.registers.gpr[0].wrapping_add(before.registers.gpr[rn_spec(opcode)]), before.registers.gpr[rm_spec(opcode)] as u16)
        },
        0b0000_0000_0000_0110 => {
            &&& after.name == before.name
            &&& mem_gpr(after, before, before.registers.gpr@)
            &&& longword_written(after, before, before.registers.gpr[0].wrapping_add(before.registers.gpr[rn_spec(opcode)]), before.registers.gpr[rm_spec(opcode)])
        },
        0b0000_0000_0000_1100 => {
            &&& after.name == before.name
            &&& exists|v: u8| mem_gpr(after, before, before.registers.gpr@.update(rn_spec(opcode), #[trigger] ext8(v)))
        },
        0b0000_0000_0000_1101 => {
            &&& after.name == before.name
            &&& exists|v: u16| mem_gpr(after, before, before.registers.gpr@.update(rn_spec(opcode), #[trigger] ext16(v)))
        },
        0b0000_0000_0000_1110 => {
            &&& after.name == before.name
            &&& exists|v: u32| mem_gpr(after, before, before.registers.gpr@.update(rn_spec(opcode), #[trigger] ext32(v)))
        },
        0b0110_0000_0000_1000 => {
            &&& gpr_write(after, before, rn_spec(opcode), (before.registers.gpr[rm_spec(opcode)] & 0xFFFF0000) | ((before.registers.gpr[rm_spec(opcode)] & 0xFF) << 8) | ((before.registers.gpr[rm_spec(opcode)] >> 8) & 0xFF), before.registers.sr.t)
        },
        0b0110_0000_0000_1001 => {
            &&& gpr_write(after, before, rn_spec(opcode), (before.registers.gpr[rm_spec(opcode)] << 16) | (before.registers.gpr[rm_spec(opcode)] >> 16), before.registers.sr.t)
        },
        0b0010_0000_0000_1101 => {
            &&& gpr_write(after, before, rn_spec(opcode), (before.registers.gpr[rm_spec(opcode)] << 16) | (before.registers.gpr[rn_spec(opcode)] >> 16), before.registers.sr.t)
        },
        0b0011_0000_0000_1100 => {
            &&& gpr_write(after, before, rn_spec(opcode), before.registers.gpr[rn_spec(opcode)].wrapping_add(before.registers.gpr[rm_spec(opcode)]), before.registers.sr.t)
        },
        0b0011_0000_0000_1110 => {
            &&& gpr_write(after, before, rn_spec(opcode), (before.registers.gpr[rn_spec(opcode)] + before.registers.gpr[rm_spec(opcode)] + (if before.registers.sr.t { 1int } else { 0int })) as u32, before.registers.gpr[rn_spec(opcode)] + before.registers.gpr[rm_spec(opcode)] + (if before.registers.sr.t { 1int } else { 0int }) > u32::MAX)
        },
        0b0011_0000_0000_1111 => {
            &&& gpr_write(after, before, rn_spec(opcode), before.registers.gpr[rn_spec(opcode)].wrapping_add(before.registers.gpr[rm_spec(opcode)]), sign_bit(before.registers.gpr[rm_spec(opcode)]) == sign_bit(before.registers.gpr[rn_spec(opcode)]) && sign_bit(before.registers.gpr[rm_spec(opcode)]) != sign_bit(before.registers.gpr[rn_spec(opcode)].wrapping_add(before.registers.gpr[rm_spec(opcode)])))
        },
        0b0011_0000_0000_0000 => {
            &&& t_write(after, before, before.registers.gpr[rn_spec(opcode)] == before.registers.gpr[rm_spec(opcode)])
        },
        0b0011_0000_0000_0010 => {
            &&& t_write(after, before, before.registers.gpr[rn_spec(opcode)] >= before.registers.gpr[rm_spec(opcode)])
        },
        0b0011_0000_0000_0011 => {
            &&& t_write(after, before, signed(before.registers.gpr[rn_spec(opcode)]) >= signed(before.registers.gpr[rm_spec(opcode)]))
        },
        0b0011_0000_0000_0110 => {
            &&& t_write(after, before, before.registers.gpr[rn_spec(opcode)] > before.registers.gpr[rm_spec(opcode)])
        },
        0b0011_0000_0000_0111 => {
            &&& t_write(after, before, signed(before.registers.gpr[rn_spec(opcode)]) > signed(before.registers.gpr[rm_spec(opcode)]))
        },
        0b0010_0000_0000_1100 => {
            &&& t_write(after, before, any_byte_equal(before.registers.gpr[rm_spec(opcode)], before.registers.gpr[rn_spec(opcode)]))
        },
        0b0011_0000_0000_0100 => {
            &&& same_peripherals(after, before)
            &&& same_control(after.registers, before.registers)
            &&& after.registers.gpr@ == before.registers.gpr@.update(rn_spec(opcode), div1_spec(before.registers.gpr[rn_spec(opcode)], before.registers.gpr[rm_spec(opcode)], before.registers.sr).0)
            &&& after.registers.sr == (StatusRegister { q: div1_spec(before.registers.gpr[rn_spec(opcode)], before.registers.gpr[rm_spec(opcode)], before.registers.sr).1, t: div1_spec(before.registers.gpr[rn_spec(opcode)], before.registers.gpr[rm_spec(opcode)], before.registers.sr).2, ..before.registers.sr })
        },
        0b0010_0000_0000_0111 => {
            &&& regs_write(after, before, Sh2Registers { sr: StatusRegister { m: sign_bit(before.registers.gpr[rm_spec(opcode)]), q: sign_bit(before.registers.gpr[rn_spec(opcode)]), t: sign_bit(before.registers.gpr[rm_spec(opcode)]) != sign_bit(before.registers.gpr[rn_spec(opcode)]), ..before.registers.sr }, ..before.registers })
        },
        0b0011_0000_0000_1101 => {
            &&& regs_write(after, before, Sh2Registers { macl: ((before.registers.gpr[rm_spec(opcode)] as i32) * (before.registers.gpr[rn_spec(opcode)] as i32)) as i64 as u32, mach: ((((before.registers.gpr[rm_spec(opcode)] as i32) * (before.registers.gpr[rn_spec(opcode)] as i32)) as i64 as u64) >> 32) as u32, ..before.registers })
            &&& mac_spec(after.registers.mach, after.registers.macl) == (before.registers.gpr[rm_spec(opcode)] as i32) * (before.registers.gpr[rn_spec(opcode)] as i32)
        },
        0b0011_0000_0000_0101 => {
            &&& regs_write(after, before, Sh2Registers { macl: (before.registers.gpr[rm_spec(opcode)] * before.registers.gpr[rn_spec(opcode)]) as u64 as u32, mach: (((before.registers.gpr[rm_spec(opcode)] * before.registers.gpr[rn_spec(opcode)]) as u64) >> 32) as u32, ..before.registers })
        },
        0b0110_0000_0000_1110 => {
            &&& gpr_write(after, before, rn_spec(opcode), before.registers.gpr[rm_spec(opcode)] as i8 as u32, before.registers.sr.t)
        },
        0b0110_0000_0000_1111 => {
            &&& gpr_write(after, before, rn_spec(opcode), before.registers.gpr[rm_spec(opcode)] as i16 as u32, before.registers.sr.t)
        },
        0b0110_0000_0000_1100 => {
            &&& gpr_write(after, before, rn_spec(opcode), before.registers.gpr[rm_spec(opcode)] & 0xFF, before.registers.sr.t)
        },
        0b0110_0000_0000_1101 => {
            &&& gpr_write(after, before, rn_spec(opcode), before.registers.gpr[rm_spec(opcode)] & 0xFFFF, before.registers.sr.t)
        },
        0b0000_0000_0000_1111 => {
            &&& after.name == before.name
            &&& exists|l: u32, r: u32| #[trigger] mac_l_result(before.registers, l, r) == (after.registers.mach, after.registers.macl)
            &&& after.registers.gpr@ == before.registers.gpr@.update(rm_spec(opcode), before.registers.gpr[rm_spec(opcode)].wrapping_add(4)).update(rn_spec(opcode), before.registers.gpr@.update(rm_spec(opcode), before.registers.gpr[rm_spec(opcode)].wrapping_add(4))[rn_spec(opcode)].wrapping_add(4))
            &&& after.registers.sr == before.registers.sr && after.registers.pc == before.registers.pc && after.registers.next_pc == before.registers.next_pc
            &&& after.registers.gbr == before.registers.gbr && after.registers.vbr == before.registers.vbr && after.registers.pr == before.registers.pr
            &&& after.registers.next_op_in_delay_slot == before.registers.next_op_in_delay_slot
        },
        0b0100_0000_0000_1111 => {
            &&& after.name == before.name
            &&& exists|l: u16, r: u16| #[trigger] mac_w_result(before.registers, l, r) == (after.registers.mach, after.registers.macl)
            &&& after.registers.gpr@ == before.registers.gpr@.update(rm_spec(opcode), before.registers.gpr[rm_spec(opcode)].wrapping_add(2)).update(rn_spec(opcode), before.registers.gpr@.update(rm_spec(opcode), before.registers.gpr[rm_spec(opcode)].wrapping_add(2))[rn_spec(opcode)].wrapping_add(2))
            &&& after.registers.sr == before.registers.sr && after.registers.pc == before.registers.pc && after.registers.next_pc == before.registers.next_pc
            &&& after.registers.gbr == before.registers.gbr && after.registers.vbr == before.registers.vbr && after.registers.pr == before.registers.pr
            &&& after.registers.next_op_in_delay_slot == before.registers.next_op_in_delay_slot
        },
        0b0000_0000_0000_0111 => {
            &&& regs_write(after, before, Sh2Registers { macl: before.registers.gpr[rm_spec(opcode)].wrapping_mul(before.registers.gpr[rn_spec(opcode)]), ..before.registers })
        },
        0b0010_0000_0000_1111 => {
            &&& regs_write(after, before, Sh2Registers { macl: ((before.registers.gpr[rm_spec(opcode)] as i16) * (before.registers.gpr[rn_spec(opcode)] as i16)) as u32, ..before.registers })
        },
        0b0010_0000_0000_1110 => {
            &&& regs_write(after, before, Sh2Registers { macl: ((before.registers.gpr[rm_spec(opcode)] & 0xFFFF) * (before.registers.gpr[rn_spec(opcode)] & 0xFFFF)) as u32, ..before.registers })
        },
        0b0110_0000_0000_1011 => {
            &&& gpr_write(after, before, rn_spec(opcode), 0u32.wrapping_sub(before.registers.gpr[rm_spec(opcode)]), before.registers.sr.t)
        },
        0b0110_0000_0000_1010 => {
            &&& gpr_write(after, before, rn_spec(opcode), (0 - before.registers.gpr[rm_spec(opcode)] - (if before.registers.sr.t { 1int } else { 0int })) as u32, before.registers.gpr[rm_spec(opcode)] > 0 || before.registers.sr.t)
        },
        0b0011_0000_0000_1000 => {
            &&& gpr_write(after, before, rn_spec(opcode), before.registers.gpr[rn_spec(opcode)].wrapping_sub(before.registers.gpr[rm_spec(opcode)]), before.registers.sr.t)
        },
        0b0011_0000_0000_1010 => {
            &&& gpr_write(after, before, rn_spec(opcode), (before.registers.gpr[rn_spec(opcode)] - before.registers.gpr[rm_spec(opcode)] - (if before.registers.sr.t { 1int } else { 0int })) as u32, before.registers.gpr[rn_spec(opcode)] - before.registers.gpr[rm_spec(opcode)] - (if before.registers.sr.t { 1int } else { 0int }) < 0)
        },
        0b0011_0000_0000_1011 => {
            &&& gpr_write(after, before, rn_spec(opcode), before.registers.gpr[rn_spec(opcode)].wrapping_sub(before.registers.gpr[rm_spec(opcode)]), sign_bit(before.registers.gpr[rm_spec(opcode)]) != sign_bit(before.registers.gpr[rn_spec(opcode)]) && sign_bit(before.registers.gpr[rn_spec(opcode)].wrapping_sub(before.registers.gpr[rm_spec(opcode)])) != sign_bit(before.registers.gpr[rn_spec(opcode)]))
        },
        0b0010_0000_0000_1001 => {
            &&& gpr_write(after, before, rn_spec(opcode), before.registers.gpr[rn_spec(opcode)] & before.registers.gpr[rm_spec(opcode)], before.registers.sr.t)
        },
        0b0110_0000_0000_0111 => {
            &&& gpr_write(after, before, rn_spec(opcode), !before.registers.gpr[rm_spec(opcode)], before.registers.sr.t)
        },
        0b0010_0000_0000_1011 => {
            &&& gpr_write(after, before, rn_spec(opcode), before.registers.gpr[rn_spec(opcode)] | before.registers.gpr[rm_spec(opcode)], before.registers.sr.t)
        },
        0b0010_0000_0000_1000 => {
            &&& t_write(after, before, before.registers.gpr[rm_spec(opcode)] & before.registers.gpr[rn_spec(opcode)] == 0)
        },
        0b0010_0000_0000_1010 => {
            &&& gpr_write(after, before, rn_spec(opcode), before.registers.gpr[rn_spec(opcode)] ^ before.registers.gpr[rm_spec(opcode)], before.registers.sr.t)
        },
        _ => match opcode & 0b1111_0000_1111_1111 {
            0b0000_0000_0010_1001 => {
                &&& gpr_write(after, before, rn_spec(opcode), if before.registers.sr.t { 1u32 } else { 0u32 }, before.registers.sr.t)
            },
            0b0100_0000_0001_0001 => {
                &&& t_write(after, before, signed(before.registers.gpr[rn_spec(opcode)]) >= 0)
            },
            0b0100_0000_0001_0101 => {
                &&& t_write(after, before, signed(before.registers.gpr[rn_spec(opcode)]) > 0)
            },
            0b0100_0000_0001_0000 => {
                &&& gpr_write(after, before, rn_spec(opcode), before.registers.gpr[rn_spec(opcode)].wrapping_sub(1), before.registers.gpr[rn_spec(opcode)] == 1)
            },
            0b0100_0000_0001_1011 => {
                &&& after.name == before.name
                &&& after.registers.gpr == before.registers.gpr && same_control(after.registers, before.registers)
                &&& exists|v: u8| after.registers.sr == sr_with_t(before.registers.sr, #[trigger] is_zero_byte(v))
            },
            0b0100_0000_0000_0100 => {
                &&& gpr_write(after, before, rn_spec(opcode), (before.registers.gpr[rn_spec(opcode)] << 1) | (before.registers.gpr[rn_spec(opcode)] >> 31), sign_bit(before.registers.gpr[rn_spec(opcode)]))
            },
            0b0100_0000_0000_0101 => {
                &&& gpr_write(after, before, rn_spec(opcode), (before.registers.gpr[rn_spec(opcode)] >> 1) | (before.registers.gpr[rn_spec(opcode)] << 31), before.registers.gpr[rn_spec(opcode)] & 1 == 1)
            },
            0b0100_0000_0010_0100 => {
                &&& gpr_write(after, before, rn_spec(opcode), (before.registers.gpr[rn_spec(opcode)] << 1) | (if before.registers.sr.t { 1u32 } else { 0u32 }), sign_bit(before.registers.gpr[rn_spec(opcode)]))
            },
            0b0100_0000_0010_0101 => {
                &&& gpr_write(after, before, rn_spec(opcode), (before.registers.gpr[rn_spec(opcode)] >> 1) | ((if before.registers.sr.t { 1u32 } else { 0u32 }) << 31), before.registers.gpr[rn_spec(opcode)] & 1 == 1)
            },
            // SHAL and SHLL behave identically; use SHLL implementation for both
            0b0100_0000_0010_0000 | 0b0100_0000_0000_0000 => {
                &&& gpr_write(after, before, rn_spec(opcode), before.registers.gpr[rn_spec(opcode)] << 1, sign_bit(before.registers.gpr[rn_spec(opcode)]))
            },
            0b0100_0000_0010_0001 => {
                &&& gpr_write(after, before, rn_spec(opcode), (before.registers.gpr[rn_spec(opcode)] >> 1) | (before.registers.gpr[rn_spec(opcode)] & 0x8000_0000), before.registers.gpr[rn_spec(opcode)] & 1 == 1)
            },
            0b0100_0000_0000_0001 => {
                &&& gpr_write(after, before, rn_spec(opcode), before.registers.gpr[rn_spec(opcode)] >> 1, before.registers.gpr[rn_spec(opcode)] & 1 == 1)
            },
            0b0100_0000_0000_1000 => {
                &&& gpr_write(after, before, rn_spec(opcode), before.registers.gpr[rn_spec(opcode)] << 2, before.registers.sr.t)
            },
            0b0100_0000_0000_1001 => {
                &&& gpr_write(after, before, rn_spec(opcode), before.registers.gpr[rn_spec(opcode)] >> 2, before.registers.sr.t)
            },
            0b0100_0000_0001_1000 => {
                &&& gpr_write(after, before, rn_spec(opcode), before.registers.gpr[rn_spec(opcode)] << 8, before.registers.sr.t)
            },
            0b0100_0000_0001_1001 => {
                &&& gpr_write(after, before, rn_spec(opcode), before.registers.gpr[rn_spec(opcode)] >> 8, before.registers.sr.t)
            },
            0b0100_0000_0010_1000 => {
                &&& gpr_write(after, before, rn_spec(opcode), before.registers.gpr[rn_spec(opcode)] << 16, before.registers.sr.t)
            },
            0b0100_0000_0010_1001 => {
                &&& gpr_write(after, before, rn_spec(opcode), before.registers.gpr[rn_spec(opcode)] >> 16, before.registers.sr.t)
            },
            0b0000_0000_0010_0011 => {
                &&& regs_write(after, before, Sh2Registers { next_pc: before.registers.next_pc.wrapping_add(before.registers.gpr[rn_spec(opcode)]), next_op_in_delay_slot: true, ..before.registers })
            },
            0b0000_0000_0000_0011 => {
                &&& regs_write(after, before, Sh2Registers { pr: before.registers.next_pc, next_pc: before.registers.next_pc.wrapping_add(before.registers.gpr[rn_spec(opcode)]), next_op_in_delay_slot: true, ..before.registers })
            },
            0b0100_0000_0010_1011 => {
                &&& regs_write(after, before, Sh2Registers { next_pc: before.registers.gpr[rn_spec(opcode)], next_op_in_delay_slot: true, ..before.registers })
            },
            0b0100_0000_0000_1011 => {
                &&& regs_write(after, before, Sh2Registers { pr: before.registers.next_pc, next_pc: before.registers.gpr[rn_spec(opcode)], next_op_in_delay_slot: true, ..before.registers })
            },
            0b0100_0000_0000_1110 => {
                &&& regs_write(after, before, Sh2Registers { sr: sr_from_u32(before.registers.gpr[rn_spec(opcode)]), ..before.registers })
            },
            0b0100_0000_0001_1110 => {
                &&& regs_write(after, before, Sh2Registers { gbr: before.registers.gpr[rn_spec(opcode)], ..before.registers })
            },
            0b0100_0000_0010_1110 => {
                &&& regs_write(after, before, Sh2Registers { vbr: before.registers.gpr[rn_spec(opcode)], ..before.registers })
            },
            0b0100_0000_0000_0111 => {
                &&& after.name == before.name
                &&& after.registers.gpr@ == before.registers.gpr@.update(rn_spec(opcode), before.registers.gpr[rn_spec(opcode)].wrapping_add(4))
                &&& same_control(after.registers, before.registers)
                &&& exists|v: u32| after.registers.sr == #[trigger] sr_from_u32(v)
            },
            0b0100_0000_0001_0111 => {
                &&& after.name == before.name
                &&& after.registers.gpr@ == before.registers.gpr@.update(rn_spec(opcode), before.registers.gpr[rn_spec(opcode)].wrapping_add(4))
                &&& after.registers == (Sh2Registers { gpr: after.registers.gpr, gbr: after.registers.gbr, ..before.registers })
            },
            0b0100_0000_0010_0111 => {
                &&& after.name == before.name
                &&& after.registers.gpr@ == before.registers.gpr@.update(rn_spec(opcode), before.registers.gpr[rn_spec(opcode)].wrapping_add(4))
                &&& after.registers == (Sh2Registers { gpr: after.registers.gpr, vbr: after.registers.vbr, ..before.registers })
            },
            0b0100_0000_0000_1010 => {
                &&& regs_write(after, before, Sh2Registers { mach: before.registers.gpr[rn_spec(opcode)], ..before.registers })
            },
            0b0100_0000_0001_1010 => {
                &&& regs_write(after, before, Sh2Registers { macl: before.registers.gpr[rn_spec(opcode)], ..before.registers })
            },
            0b0100_0000_0010_1010 => {
                &&& regs_write(after, before, Sh2Registers { pr: before.registers.gpr[rn_spec(opcode)], ..before.registers })
            },
            0b0100_0000_0000_0110 => {
                &&& after.name == before.name
                &&& after.registers.gpr@ == before.registers.gpr@.update(rn_spec(opcode), before.registers.gpr[rn_spec(opcode)].wrapping_add(4))
                &&& after.registers == (Sh2Registers { gpr: after.registers.gpr, mach: after.registers.mach, ..before.registers })
            },
            0b0100_0000_0001_0110 => {
                &&& after.name == before.name
                &&& after.registers.gpr@ == before.registers.gpr@.update(rn_spec(opcode), before.registers.gpr[rn_spec(opcode)].wrapping_add(4))
                &&& after.registers == (Sh2Registers { gpr: after.registers.gpr, macl: after.registers.macl, ..before.registers })
            },
            0b0100_0000_0010_0110 => {
                &&& after.name == before.name
                &&& after.registers.gpr@ == before.registers.gpr@.update(rn_spec(opcode), before.registers.gpr[rn_spec(opcode)].wrapping_add(4))
                &&& after.registers == (Sh2Registers { gpr: after.registers.gpr, pr: after.registers.pr, ..before.registers })
            },
            0b0000_0000_0000_0010 => {
                &&& gpr_write(after, before, rn_spec(opcode), sr_to_u32(before.registers.sr), before.registers.sr.t)
            },
            0b0000_0000_0001_0010 => {
                &&& gpr_write(after, before, rn_spec(opcode), before.registers.gbr, before.registers.sr.t)
            },
            0b0000_0000_0010_0010 => {
                &&& gpr_write(after, before, rn_spec(opcode), before.registers.vbr, before.registers.sr.t)
            },
            0b0100_0000_0000_0011 => {
                &&& after.name == before.name
                &&& mem_gpr(after, before, before.registers.gpr@.update(rn_spec(opcode), before.registers.gpr[rn_spec(opcode)].wrapping_sub(4)))
            },
            0b0100_0000_0001_0011 => {
                &&& after.name == before.name
                &&& mem_gpr(after, before, before.registers.gpr@.update(rn_spec(opcode), before.registers.gpr[rn_spec(opcode)].wrapping_sub(4)))
            },
            0b0100_0000_0010_0011 => {
                &&& after.name == before.name
                &&& mem_gpr(after, before, before.registers.gpr@.update(rn_spec(opcode), before.registers.gpr[rn_spec(opcode)].wrapping_sub(4)))
            },
            0b0000_0000_0000_1010 => {
                &&& gpr_write(after, before, rn_spec(opcode), before.registers.mach, before.registers.sr.t)
            },
            0b0000_0000_0001_1010 => {
                &&& gpr_write(after, before, rn_spec(opcode), before.registers.macl, before.registers.sr.t)
            },
            0b0000_0000_0010_1010 => {
                &&& gpr_write(after, before, rn_spec(opcode), before.registers.pr, before.registers.sr.t)
            },
            0b0100_0000_0000_0010 => {
                &&& after.name == before.name
                &&& mem_gpr(after, before, before.registers.gpr@.update(rn_spec(opcode), before.registers.gpr[rn_spec(opcode)].wrapping_sub(4)))
            },
            0b0100_0000_0001_0010 => {
                &&& after.name == before.name
                &&& mem_gpr(after, before, before.registers.gpr@.update(rn_spec(opcode), before.registers.gpr[rn_spec(opcode)].wrapping_sub(4)))
            },
            0b0100_0000_0010_0010 => {
                &&& after.name == before.name
                &&& mem_gpr(after, before, before.registers.gpr@.update(rn_spec(opcode), before.registers.gpr[rn_spec(opcode)].wrapping_sub(4)))
            },
            0b0000_0000_0001_1001 => {
                &&& regs_write(after, before, Sh2Registers { sr: StatusRegister { m: false, q: false, t: false, ..before.registers.sr }, ..before.registers })
            },
            0b0000_0000_0000_1011 => {
                &&& regs_write(after, before, Sh2Registers { next_pc: before.registers.pr, next_op_in_delay_slot: true, ..before.registers })
            },
            0b0000_0000_0000_1000 => {
                &&& t_write(after, before, false)
            },
            0b0000_0000_0010_1000 => {
                &&& regs_write(after, before, Sh2Registers { macl: 0, mach: 0, ..before.registers })
            },
            0b0000_0000_0000_1001 => {
                &&& after == before
            },
            0b0000_0000_0010_1011 => {
                &&& after.name == before.name
                &&& after.registers.gpr@ == before.registers.gpr@.update(15, before.registers.gpr[15].wrapping_add(8))
                &&& exists|v: u32| after.registers.sr == #[trigger] sr_from_u32(v)
                &&& after.registers.next_op_in_delay_slot
                &&& after.registers.pc == before.registers.pc && after.registers.pr == before.registers.pr
                &&& after.registers.gbr == before.registers.gbr && after.registers.vbr == before.registers.vbr
                &&& after.registers.mach == before.registers.mach && after.registers.macl == before.registers.macl
            },
            0b0000_0000_0001_1000 => {
                &&& t_write(after, before, true)
            },
            0b0000_0000_0001_1011 => {
                &&& regs_write(
                        after,
                        before,
                        Sh2Registers {
                            next_pc: before.registers.pc,
                            pc: before.registers.pc.wrapping_sub(2),
                            ..before.registers
                        },
                    )
            },
            _ => match opcode & 0b1111_0000_0000_0000 {
                0b1110_0000_0000_0000 => {
                    &&& gpr_write(after, before, rn_spec(opcode), imm8_ext(opcode), before.registers.sr.t)
                },
                0b1001_0000_0000_0000 => {
                    &&& after.name == before.name
                    &&& exists|v: u16| mem_gpr(after, before, before.registers.gpr@.update(rn_spec(opcode), #[trigger] ext16(v)))
                },
                0b1101_0000_0000_0000 => {
                    &&& after.name == before.name
                    &&& exists|v: u32| mem_gpr(after, before, before.registers.gpr@.update(rn_spec(opcode), #[trigger] ext32(v)))
                },
                0b0001_0000_0000_0000 => {
                    &&& after.name == before.name
                    &&& mem_gpr(after, before, before.registers.gpr@)
                    &&& longword_written(after, before, before.registers.gpr[rn_spec(opcode)].wrapping_add(((opcode & 0xF) * 4) as u32), before.registers.gpr[rm_spec(opcode)])
                },
                0b0101_0000_0000_0000 => {
                    &&& after.name == before.name
                    &&& exists|v: u32| mem_gpr(after, before, before.registers.gpr@.update(rn_spec(opcode), #[trigger] ext32(v)))
                },
                0b0111_0000_0000_0000 => {
                    &&& gpr_write(after, before, rn_spec(opcode), before.registers.gpr[rn_spec(opcode)].wrapping_add(opcode as i8 as u32), before.registers.sr.t)
                },
                0b1010_0000_0000_0000 => {
                    &&& regs_write(after, before, Sh2Registers { next_pc: before.registers.next_pc.wrapping_add((2 * i12_spec(opcode)) as u32), next_op_in_delay_slot: true, ..before.registers })
                },
                0b1011_0000_0000_0000 => {
                    &&& regs_write(after, before, Sh2Registers { pr: before.registers.next_pc, next_pc: before.registers.next_pc.wrapping_add((2 * i12_spec(opcode)) as u32), next_op_in_delay_slot: true, ..before.registers })
                },
                // Opcode begins with 0b1000; need to match on bits 11-8
                0b1000_0000_0000_0000 => match (opcode >> 8) & 0b1111 {
                    0b0000 => {
                        &&& after.name == before.name
                        &&& mem_gpr(after, before, before.registers.gpr@)
                        &&& byte_written(after, before, before.registers.gpr[rm_spec(opcode)].wrapping_add((opcode & 0xF) as u32), before.registers.gpr[0] as u8)
                    },
                    0b0001 => {
                        &&& after.name == before.name
                        &&& mem_gpr(after, before, before.registers.gpr@)
                        &&& word_written(after, before, before.registers.gpr[rm_spec(opcode)].wrapping_add(((opcode & 0xF) * 2) as u32), before.registers.gpr[0] as u16)
                    },
                    0b0100 => {
                        &&& after.name == before.name
                        &&& exists|v: u8| mem_gpr(after, before, before.registers.gpr@.update(0, #[trigger] ext8(v)))
                    },
                    0b0101 => {
                        &&& after.name == before.name
                        &&& exists|v: u16| mem_gpr(after, before, before.registers.gpr@.update(0, #[trigger] ext16(v)))
                    },
                    0b1000 => {
                        &&& t_write(after, before, before.registers.gpr[0] == imm8_ext(opcode))
                    },
                    0b1001 => {
                        &&& before.registers.sr.t ==> regs_write(after, before, Sh2Registers { pc: before.registers.next_pc.wrapping_add((2 * (opcode as i8)) as u32), next_pc: before.registers.next_pc.wrapping_add((2 * (opcode as i8)) as u32).wrapping_add(2), ..before.registers })
                        &&& !(before.registers.sr.t) ==> after == before
                    },
                    0b1011 => {
                        &&& !before.registers.sr.t ==> regs_write(after, before, Sh2Registers { pc: before.registers.next_pc.wrapping_add((2 * (opcode as i8)) as u32), next_pc: before.registers.next_pc.wrapping_add((2 * (opcode as i8)) as u32).wrapping_add(2), ..before.registers })
                        &&& !(!before.registers.sr.t) ==> after == before
                    },
                    0b1101 => {
                        &&& before.registers.sr.t ==> regs_write(after, before, Sh2Registers { next_pc: before.registers.next_pc.wrapping_add((2 * (opcode as i8)) as u32), next_op_in_delay_slot: true, ..before.registers })
                        &&& !(before.registers.sr.t) ==> after == before
                    },
                    0b1111 => {
                        &&& !before.registers.sr.t ==> regs_write(after, before, Sh2Registers { next_pc: before.registers.next_pc.wrapping_add((2 * (opcode as i8)) as u32), next_op_in_delay_slot: true, ..before.registers })
                        &&& !(!before.registers.sr.t) ==> after == before
                    },
                    _ => {
                        &&& after.name == before.name
                        &&& after.registers.gpr@ == before.registers.gpr@.update(
                                15,
                                before.registers.gpr[15].wrapping_sub(8),
                            )
                        &&& after.registers.sr == before.registers.sr
                        &&& after.registers.next_pc == after.registers.pc.wrapping_add(2)
                        &&& !after.registers.next_op_in_delay_slot
                    },
                },
                // Opcode begins with 0b1100; need to match on bits 11-8
                0b1100_0000_0000_0000 => match (opcode >> 8) & 0b1111 {
                    0b0000 => {
                        &&& after.name == before.name
                        &&& mem_gpr(after, before, before.registers.gpr@)
                        &&& byte_written(after, before, before.registers.gbr.wrapping_add((opcode & 0xFF) as u32), before.registers.gpr[0] as u8)
                    },
                    0b0001 => {
                        &&& after.name == before.name
                        &&& mem_gpr(after, before, before.registers.gpr@)
                        &&& word_written(after, before, before.registers.gbr.wrapping_add(((opcode & 0xFF) * 2) as u32), before.registers.gpr[0] as u16)
                    },
                    0b0010 => {
                        &&& after.name == before.name
                        &&& mem_gpr(after, before, before.registers.gpr@)
                        &&& longword_written(after, before, before.registers.gbr.wrapping_add(((opcode & 0xFF) * 4) as u32), before.registers.gpr[0])
                    },
                    0b0011 => {
                        &&& after.name == before.name
                        &&& after.registers.gpr@ == before.registers.gpr@.update(15, before.registers.gpr[15].wrapping_sub(8))
                        &&& after.registers.next_pc == after.registers.pc.wrapping_add(2)
                        &&& after.registers.sr == before.registers.sr && after.registers.pr == before.registers.pr
                        &&& after.registers.gbr == before.registers.gbr && after.registers.vbr == before.registers.vbr
                        &&& after.registers.next_op_in_delay_slot == before.registers.next_op_in_delay_slot
                        &&& after.registers.mach == before.registers.mach && after.registers.macl == before.registers.macl
                    },
                    0b0100 => {
                        &&& after.name == before.name
                        &&& exists|v: u8| mem_gpr(after, before, before.registers.gpr@.update(0, #[trigger] ext8(v)))
                    },
                    0b0101 => {
                        &&& after.name == before.name
                        &&& exists|v: u16| mem_gpr(after, before, before.registers.gpr@.update(0, #[trigger] ext16(v)))
                    },
                    0b0110 => {
                        &&& after.name == before.name
                        &&& exists|v: u32| mem_gpr(after, before, before.registers.gpr@.update(0, #[trigger] ext32(v)))
                    },
                    0b0111 => {
                        &&& gpr_write(after, before, 0, (before.registers.next_pc & !3u32).wrapping_add((((opcode & 0xFF) as u32) * 4) as u32), before.registers.sr.t)
                    },
                    0b1000 => {
                        &&& t_write(after, before, ((opcode & 0xFF) as u32) & before.registers.gpr[0] == 0)
                    },
                    0b1001 => {
                        &&& gpr_write(after, before, 0, before.registers.gpr[0] & ((opcode & 0xFF) as u32), before.registers.sr.t)
                    },
                    0b1010 => {
                        &&& gpr_write(after, before, 0, before.registers.gpr[0] ^ ((opcode & 0xFF) as u32), before.registers.sr.t)
                    },
                    0b1011 => {
                        &&& gpr_write(after, before, 0, before.registers.gpr[0] | ((opcode & 0xFF) as u32), before.registers.sr.t)
                    },
                    0b1100 => {
                        &&& after.name == before.name
                        &&& after.registers.gpr == before.registers.gpr && same_control(after.registers, before.registers)
                        &&& exists|v: u8| after.registers.sr == sr_with_t(before.registers.sr, #[trigger] byte_test(opcode as u8, v))
                    },
                    0b1101 => {
                        &&& after.name == before.name
                        &&& after.registers == before.registers
                        &&& exists|value: u8, mid: Sh2| #![trigger byte_read(mid, before, gbr_indexed(before.registers), value)] byte_read(mid, before, gbr_indexed(before.registers), value) && byte_written(after, mid, gbr_indexed(before.registers), value & (opcode as u8))
                    },
                    0b1110 => {
                        &&& after.name == before.name
                        &&& after.registers == before.registers
                        &&& exists|value: u8, mid: Sh2| #![trigger byte_read(mid, before, gbr_indexed(before.registers), value)] byte_read(mid, before, gbr_indexed(before.registers), value) && byte_written(after, mid, gbr_indexed(before.registers), value ^ (opcode as u8))
                    },
                    _ => {
                        &&& after.name == before.name
                        &&& after.registers == before.registers
                        &&& exists|value: u8, mid: Sh2| #![trigger byte_read(mid, before, gbr_indexed(before.registers), value)] byte_read(mid, before, gbr_indexed(before.registers), value) && byte_written(after, mid, gbr_indexed(before.registers), value | (opcode as u8))
                    },
                },
                _ => {
                    &&& after.name == before.name
                    &&& after.registers.gpr@ == before.registers.gpr@.update(
                            15,
                            before.registers.gpr[15].wrapping_sub(8),
                        )
                    &&& after.registers.sr == before.registers.sr
                    &&& after.registers.next_pc == after.registers.pc.wrapping_add(2)
                    &&& !after.registers.next_op_in_delay_slot
                },
            },
        },
    }
}

/// Executes one opcode.
pub fn execute<B: BusInterface>(cpu: &mut Sh2, opcode: u16, bus: &mut B)
    ensures
        instruction_post(opcode, *final(cpu), *old(cpu)),
        final(cpu).name == old(cpu).name,
{
    match opcode & 0b1111_0000_0000_1111 {
        0b0110_0000_0000_0011 => cpu.mov_rm_rn(opcode),
        0b0010_0000_0000_0000 => cpu.mov_b_rm_indirect(opcode, bus),
        0b0010_0000_0000_0001 => cpu.mov_w_rm_indirect(opcode, bus),
        0b0010_0000_0000_0010 => cpu.mov_l_rm_indirect(opcode, bus),
        0b0110_0000_0000_0000 => cpu.mov_b_indirect_rn(opcode, bus),
        0b0110_0000_0000_0001 => cpu.mov_w_indirect_rn(opcode, bus),
        0b0110_0000_0000_0010 => cpu.mov_l_indirect_rn(opcode, bus),
        0b0010_0000_0000_0100 => cpu.mov_b_rm_predec(opcode, bus),
        0b0010_0000_0000_0101 => cpu.mov_w_rm_predec(opcode, bus),
        0b0010_0000_0000_0110 => cpu.mov_l_rm_predec(opcode, bus),
        0b0110_0000_0000_0100 => cpu.mov_b_postinc_rn(opcode, bus),
        0b0110_0000_0000_0101 => cpu.mov_w_postinc_rn(opcode, bus),
        0b0110_0000_0000_0110 => cpu.mov_l_postinc_rn(opcode, bus),
        0b0000_0000_0000_0100 => cpu.mov_b_rm_indirect_indexed(opcode, bus),
        0b0000_0000_0000_0101 => cpu.mov_w_rm_indirect_indexed(opcode, bus),
        0b0000_0000_0000_0110 => cpu.mov_l_rm_indirect_indexed(opcode, bus),
        0b0000_0000_0000_1100 => cpu.mov_b_indirect_indexed_rn(opcode, bus),
        0b0000_0000_0000_1101 => cpu.mov_w_indirect_indexed_rn(opcode, bus),
        0b0000_0000_0000_1110 => cpu.mov_l_indirect_indexed_rn(opcode, bus),
        0b0110_0000_0000_1000 => cpu.swap_b(opcode),
        0b0110_0000_0000_1001 => cpu.swap_w(opcode),
        0b0010_0000_0000_1101 => cpu.xtrct(opcode),
        0b0011_0000_0000_1100 => cpu.add_rm_rn(opcode),
        0b0011_0000_0000_1110 => cpu.addc(opcode),
        0b0011_0000_0000_1111 => cpu.addv(opcode),
        0b0011_0000_0000_0000 => cpu.cmp_eq_rm_rn(opcode),
        0b0011_0000_0000_0010 => cpu.cmp_hs(opcode),
        0b0011_0000_0000_0011 => cpu.cmp_ge(opcode),
        0b0011_0000_0000_0110 => cpu.cmp_hi(opcode),
        0b0011_0000_0000_0111 => cpu.cmp_gt(opcode),
        0b0010_0000_0000_1100 => cpu.cmp_str(opcode),
        0b0011_0000_0000_0100 => cpu.div1(opcode),
        0b0010_0000_0000_0111 => cpu.div0s(opcode),
        0b0011_0000_0000_1101 => cpu.dmuls(opcode),
        0b0011_0000_0000_0101 => cpu.dmulu(opcode),
        0b0110_0000_0000_1110 => cpu.exts_b(opcode),
        0b0110_0000_0000_1111 => cpu.exts_w(opcode),
        0b0110_0000_0000_1100 => cpu.extu_b(opcode),
        0b0110_0000_0000_1101 => cpu.extu_w(opcode),
        0b0000_0000_0000_1111 => cpu.mac_l(opcode, bus),
        0b0100_0000_0000_1111 => cpu.mac_w(opcode, bus),
        0b0000_0000_0000_0111 => cpu.mul(opcode),
        0b0010_0000_0000_1111 => cpu.muls(opcode),
        0b0010_0000_0000_1110 => cpu.mulu(opcode),
        0b0110_0000_0000_1011 => cpu.neg(opcode),
        0b0110_0000_0000_1010 => cpu.negc(opcode),
        0b0011_0000_0000_1000 => cpu.sub_rm_rn(opcode),
        0b0011_0000_0000_1010 => cpu.subc(opcode),
        0b0011_0000_0000_1011 => cpu.subv(opcode),
        0b0010_0000_0000_1001 => cpu.and_rm_rn(opcode),
        0b0110_0000_0000_0111 => cpu.not(opcode),
        0b0010_0000_0000_1011 => cpu.or_rm_rn(opcode),
        0b0010_0000_0000_1000 => cpu.tst_rm_rn(opcode),
        0b0010_0000_0000_1010 => cpu.xor_rm_rn(opcode),
        _ => match opcode & 0b1111_0000_1111_1111 {
            0b0000_0000_0010_1001 => cpu.movt(opcode),
            0b0100_0000_0001_0001 => cpu.cmp_pz(opcode),
            0b0100_0000_0001_0101 => cpu.cmp_pl(opcode),
            0b0100_0000_0001_0000 => cpu.dt(opcode),
            0b0100_0000_0001_1011 => cpu.tas(opcode, bus),
            0b0100_0000_0000_0100 => cpu.rotl(opcode),
            0b0100_0000_0000_0101 => cpu.rotr(opcode),
            0b0100_0000_0010_0100 => cpu.rotcl(opcode),
            0b0100_0000_0010_0101 => cpu.rotcr(opcode),
            // SHAL and SHLL behave identically; use SHLL implementation for both
            0b0100_0000_0010_0000 | 0b0100_0000_0000_0000 => cpu.shll(opcode),
            0b0100_0000_0010_0001 => cpu.shar(opcode),
            0b0100_0000_0000_0001 => cpu.shlr(opcode),
            0b0100_0000_0000_1000 => cpu.shlln(opcode, 2),
            0b0100_0000_0000_1001 => cpu.shlrn(opcode, 2),
            0b0100_0000_0001_1000 => cpu.shlln(opcode, 8),
            0b0100_0000_0001_1001 => cpu.shlrn(opcode, 8),
            0b0100_0000_0010_1000 => cpu.shlln(opcode, 16),
            0b0100_0000_0010_1001 => cpu.shlrn(opcode, 16),
            0b0000_0000_0010_0011 => cpu.braf(opcode, bus),
            0b0000_0000_0000_0011 => cpu.bsrf(opcode, bus),
            0b0100_0000_0010_1011 => cpu.jmp(opcode, bus),
            0b0100_0000_0000_1011 => cpu.jsr(opcode, bus),
            0b0100_0000_0000_1110 => cpu.ldc_rm_sr(opcode),
            0b0100_0000_0001_1110 => cpu.ldc_rm_gbr(opcode),
            0b0100_0000_0010_1110 => cpu.ldc_rm_vbr(opcode),
            0b0100_0000_0000_0111 => cpu.ldc_postinc_sr(opcode, bus),
            0b0100_0000_0001_0111 => cpu.ldc_postinc_gbr(opcode, bus),
            0b0100_0000_0010_0111 => cpu.ldc_postinc_vbr(opcode, bus),
            0b0100_0000_0000_1010 => cpu.lds_rm_mach(opcode),
            0b0100_0000_0001_1010 => cpu.lds_rm_macl(opcode),
            0b0100_0000_0010_1010 => cpu.lds_rm_pr(opcode),
            0b0100_0000_0000_0110 => cpu.lds_postinc_mach(opcode, bus),
            0b0100_0000_0001_0110 => cpu.lds_postinc_macl(opcode, bus),
            0b0100_0000_0010_0110 => cpu.lds_postinc_pr(opcode, bus),
            0b0000_0000_0000_0010 => cpu.stc_sr_rn(opcode),
            0b0000_0000_0001_0010 => cpu.stc_gbr_rn(opcode),
            0b0000_0000_0010_0010 => cpu.stc_vbr_rn(opcode),
            0b0100_0000_0000_0011 => cpu.stc_sr_rn_predec(opcode, bus),
            0b0100_0000_0001_0011 => cpu.stc_gbr_rn_predec(opcode, bus),
            0b0100_0000_0010_0011 => cpu.stc_vbr_rn_predec(opcode, bus),
            0b0000_0000_0000_1010 => cpu.sts_mach_rn(opcode),
            0b0000_0000_0001_1010 => cpu.sts_macl_rn(opcode),
            0b0000_0000_0010_1010 => cpu.sts_pr_rn(opcode),
            0b0100_0000_0000_0010 => cpu.sts_mach_rn_predec(opcode, bus),
            0b0100_0000_0001_0010 => cpu.sts_macl_rn_predec(opcode, bus),
            0b0100_0000_0010_0010 => cpu.sts_pr_rn_predec(opcode, bus),
            0b0000_0000_0001_1001 => cpu.div0u(),
            0b0000_0000_0000_1011 => cpu.rts(bus),
            0b0000_0000_0000_1000 => cpu.clrt(),
            0b0000_0000_0010_1000 => cpu.clrmac(),
            0b0000_0000_0000_1001 => cpu.nop(),
            0b0000_0000_0010_1011 => cpu.rte(bus),
            0b0000_0000_0001_1000 => cpu.sett(),
            0b0000_0000_0001_1011 => cpu.sleep(),
            _ => match opcode & 0b1111_0000_0000_0000 {
                0b1110_0000_0000_0000 => cpu.mov_b_immediate_rn(opcode),
                0b1001_0000_0000_0000 => cpu.mov_w_immediate_rn(opcode, bus),
                0b1101_0000_0000_0000 => cpu.mov_l_immediate_rn(opcode, bus),
                0b0001_0000_0000_0000 => cpu.mov_l_rm_rn_displacement(opcode, bus),
                0b0101_0000_0000_0000 => cpu.mov_l_rm_displacement_rn(opcode, bus),
                0b0111_0000_0000_0000 => cpu.add_imm_rn(opcode),
                0b1010_0000_0000_0000 => cpu.bra(opcode, bus),
                0b1011_0000_0000_0000 => cpu.bsr(opcode, bus),
                // Opcode begins with 0b1000; need to match on bits 11-8
                0b1000_0000_0000_0000 => match (opcode >> 8) & 0b1111 {
                    0b0000 => cpu.mov_b_r0_rn_displacement(opcode, bus),
                    0b0001 => cpu.mov_w_r0_rn_displacement(opcode, bus),
                    0b0100 => cpu.mov_b_rm_displacement_r0(opcode, bus),
                    0b0101 => cpu.mov_w_rm_displacement_r0(opcode, bus),
                    0b1000 => cpu.cmp_eq_imm_r0(opcode),
                    0b1001 => cpu.bt(opcode, bus),
                    0b1011 => cpu.bf(opcode, bus),
                    0b1101 => cpu.bt_s(opcode, bus),
                    0b1111 => cpu.bf_s(opcode, bus),
                    _ => cpu.illegal_opcode(bus),
                },
                // Opcode begins with 0b1100; need to match on bits 11-8
                0b1100_0000_0000_0000 => match (opcode >> 8) & 0b1111 {
                    0b0000 => cpu.mov_b_r0_disp_gbr(opcode, bus),
                    0b0001 => cpu.mov_w_r0_disp_gbr(opcode, bus),
                    0b0010 => cpu.mov_l_r0_disp_gbr(opcode, bus),
                    0b0011 => cpu.trapa(opcode, bus),
                    0b0100 => cpu.mov_b_disp_gbr_r0(opcode, bus),
                    0b0101 => cpu.mov_w_disp_gbr_r0(opcode, bus),
                    0b0110 => cpu.mov_l_disp_gbr_r0(opcode, bus),
                    0b0111 => cpu.mova(opcode),
                    0b1000 => cpu.tst_imm_r0(opcode),
                    0b1001 => cpu.and_imm_r0(opcode),
                    0b1010 => cpu.xor_imm_r0(opcode),
                    0b1011 => cpu.or_imm_r0(opcode),
                    0b1100 => cpu.tst_imm_gbr_indexed(opcode, bus),
                    0b1101 => cpu.and_imm_gbr_indexed(opcode, bus),
                    0b1110 => cpu.xor_imm_gbr_indexed(opcode, bus),
                    _ => cpu.or_imm_gbr_indexed(opcode, bus),
                },
                _ => cpu.illegal_opcode(bus),
            },
        },
    }
}

} // verus!
