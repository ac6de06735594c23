//! Single and multiple data transfers between registers and memory.
use crate::arm7tdmi::bus::{BusEvent, BusInterface, MemoryCycle, OpSize};
use crate::arm7tdmi::instructions::alu::{apply_immediate_shift, immediate_shift, ror, rotate_right};
use crate::arm7tdmi::instructions::{
    halfword_load_type_from_bits, shift_type_from_bits, HalfwordLoadType, IndexOp, LoadIndexing,
    LoadSize, ShiftType, WriteBack,
};
use crate::arm7tdmi::{
    aligned_pc, bit32, continued, pipeline_kept, read_register_spec, refill_fetches, refilled, spsr_restore,
    Arm7Tdmi, CpuMode, Registers, RegistersView,
};
use vstd::prelude::*;

verus! {

/// The offset as applied to the base: negated (two's complement) when subtracting.
pub open spec fn applied_offset(offset: u32, index_op: IndexOp) -> u32 {
    if index_op == IndexOp::Subtract {
        (!offset).wrapping_add(1)
    } else {
        offset
    }
}

/// The transfer address: the base register as an instruction reads it, offset first when
/// pre-indexed.
pub open spec fn transfer_address(old: Arm7Tdmi, rn: int, offset: u32, indexing: LoadIndexing) -> u32 {
    let base = read_register_spec(old, rn);
    if indexing == LoadIndexing::Pre {
        base.wrapping_add(offset)
    } else {
        base
    }
}

/// The value written back to the base register: the offset address.
pub open spec fn write_back_value(address: u32, offset: u32, indexing: LoadIndexing) -> u32 {
    if indexing == LoadIndexing::Post {
        address.wrapping_add(offset)
    } else {
        address
    }
}

/// Whether the base register is written back: always when post-indexed, on request when
/// pre-indexed, and never by a load whose destination is the base register.
pub open spec fn write_back_applies(load: bool, rn: int, rd: int, indexing: LoadIndexing, write_back: WriteBack) -> bool {
    !(load && rn == rd) && (indexing == LoadIndexing::Post || write_back == WriteBack::Yes)
}

/// The register file with Rn replaced when write-back applies.
pub open spec fn with_write_back(v: RegistersView, rn: int, applies: bool, value: u32) -> RegistersView {
    if applies {
        RegistersView { r: v.r.update(rn, value), ..v }
    } else {
        v
    }
}

/// After a load of `value` into Rd and the write-back: the pipeline is refilled when R15 was the
/// destination, or (when `refill_on_write_back`) when it received the write-back.
pub open spec fn load_effect(new: Arm7Tdmi, old: Arm7Tdmi, rd: int, rn: int, applies: bool, wb_value: u32, value: u32, refill_on_write_back: bool) -> bool {
    let v = old.registers@;
    let v1 = RegistersView { r: v.r.update(rd, value), ..v };
    let v2 = with_write_back(v1, rn, applies, wb_value);
    if rd == 15 || (refill_on_write_back && applies && rn == 15) {
        refilled(new, v2)
    } else {
        pipeline_kept(new, old, v2)
    }
}

/// After a store and the write-back: the next fetch is non-sequential, unless the pipeline was
/// refilled because R15 received the write-back (when `refill_on_write_back`).
pub open spec fn store_effect(new: Arm7Tdmi, old: Arm7Tdmi, rn: int, applies: bool, wb_value: u32, refill_on_write_back: bool) -> bool {
    let v2 = with_write_back(old.registers@, rn, applies, wb_value);
    if refill_on_write_back && applies && rn == 15 {
        refilled(new, v2)
    } else {
        &&& new.registers@ == v2
        &&& new.prefetch@ == old.prefetch@
        &&& new.prev_r15 == old.prev_r15
        &&& new.fetch_cycle == MemoryCycle::N
    }
}

/// The opcode fetches of a pipeline refill from the register file `v`, when `refill`.
pub open spec fn refill_log(new: Arm7Tdmi, v: RegistersView, refill: bool) -> Seq<BusEvent> {
    if refill {
        refill_fetches(new, aligned_pc(v.r[15], v.cpsr.state), v.cpsr.state)
    } else {
        Seq::empty()
    }
}

/// The register file a load leaves before any refill: Rd loaded, then the base written back.
pub open spec fn loaded_regs(old: Arm7Tdmi, rd: int, rn: int, applies: bool, wb_value: u32, value: u32) -> RegistersView {
    let v = old.registers@;
    with_write_back(RegistersView { r: v.r.update(rd, value), ..v }, rn, applies, wb_value)
}

/// The `OpSize` code of a word or byte transfer.
pub open spec fn size_code(size: LoadSize) -> u8 {
    match size {
        LoadSize::Word => OpSize::WORD,
        LoadSize::Byte => OpSize::BYTE,
    }
}

/// The value a word or byte store puts on the bus: the register, or its low byte.
pub open spec fn stored_word(size: LoadSize, value: u32) -> u32 {
    match size {
        LoadSize::Word => value,
        LoadSize::Byte => value & 0xFF,
    }
}

/// The register value of a word or byte load, from the value the bus returned: a word read at
/// an unaligned address is rotated so the addressed byte comes first.
pub open spec fn loaded_word(size: LoadSize, address: u32, raw: u32) -> u32 {
    match size {
        LoadSize::Word => ror(raw, (8 * (address & 3)) as u32),
        LoadSize::Byte => raw,
    }
}

/// Bus values a read of the given size can return.
pub open spec fn raw_fits_size(size: LoadSize, raw: u32) -> bool {
    size == LoadSize::Byte ==> raw < 0x100
}

/// Executing LDR/STR/LDRB/STRB with the decoded operands: a load reads the transfer address
/// and Rd receives the value the bus returned, as `loaded_word` makes it; a store writes Rd (its
/// low byte for STRB) at the transfer address. The data access is the first bus access; a
/// pipeline refill, when R15 is written, follows it.
#[verifier::opaque]
pub open spec fn load_word_post(new: Arm7Tdmi, old: Arm7Tdmi, load: bool, rn: int, rd: int, offset: u32, size: LoadSize, indexing: LoadIndexing, index_op: IndexOp, write_back: WriteBack) -> bool {
    let off = applied_offset(offset, index_op);
    let address = transfer_address(old, rn, off, indexing);
    let applies = write_back_applies(load, rn, rd, indexing, write_back);
    let wb_value = write_back_value(address, off, indexing);
    if load {
        exists|raw: u32|
            raw_fits_size(size, raw) && #[trigger] load_effect(
                new,
                old,
                rd,
                rn,
                applies,
                wb_value,
                loaded_word(size, address, raw),
                true,
            ) && new.bus_log@ == old.bus_log@.push(
                BusEvent::DataRead { address, size: size_code(size), value: raw },
            ) + refill_log(
                new,
                loaded_regs(old, rd, rn, applies, wb_value, loaded_word(size, address, raw)),
                rd == 15 || (applies && rn == 15),
            )
    } else {
        &&& store_effect(new, old, rn, applies, wb_value, true)
        &&& new.bus_log@ == old.bus_log@.push(
            BusEvent::DataWrite { address, size: size_code(size), value: stored_word(size, old.registers.r[rd]) },
        ) + refill_log(new, with_write_back(old.registers@, rn, applies, wb_value), applies && rn == 15)
    }
}

/// A byte sign-extended to 32 bits.
pub open spec fn sign_extend_8(value: u32) -> u32 {
    if value >= 0x80 {
        value | 0xFFFF_FF00
    } else {
        value
    }
}

/// A halfword sign-extended to 32 bits.
pub open spec fn sign_extend_16(value: u32) -> u32 {
    if value >= 0x8000 {
        value | 0xFFFF_0000
    } else {
        value
    }
}

/// Whether a halfword transfer reads a byte rather than a halfword from the bus: LDRSB, and
/// LDRSH at an odd address.
pub open spec fn halfword_reads_byte(load_type: HalfwordLoadType, address: u32) -> bool {
    load_type == HalfwordLoadType::SignedByte || (load_type == HalfwordLoadType::SignedHalfword
        && address & 1 == 1)
}

/// The register value of LDRH/LDRSB/LDRSH from the value the bus returned.
pub open spec fn loaded_halfword(load_type: HalfwordLoadType, address: u32, raw: u32) -> u32 {
    match load_type {
        HalfwordLoadType::UnsignedHalfword => ror(raw, (8 * (address & 1)) as u32),
        HalfwordLoadType::SignedByte => sign_extend_8(raw),
        HalfwordLoadType::SignedHalfword => if address & 1 == 0 {
            sign_extend_16(raw)
        } else {
            // Unaligned LDRSH seems to behave the same as LDRSB
            sign_extend_8(raw)
        },
    }
}

/// Bus values a halfword transfer's read can return.
pub open spec fn raw_fits_halfword(load_type: HalfwordLoadType, address: u32, raw: u32) -> bool {
    if halfword_reads_byte(load_type, address) {
        raw < 0x100
    } else {
        raw < 0x1_0000
    }
}

/// Executing LDRH/STRH/LDRSB/LDRSH with the decoded operands: a load reads a halfword (a byte for
/// LDRSB and unaligned LDRSH) at the transfer address, a store writes the low halfword of Rd
/// there; the write-back of R15 does not refill the pipeline here.
#[verifier::opaque]
pub open spec fn load_halfword_post(new: Arm7Tdmi, old: Arm7Tdmi, load: bool, rn: int, rd: int, offset: u32, load_type: HalfwordLoadType, indexing: LoadIndexing, index_op: IndexOp, write_back: WriteBack) -> bool {
    let off = applied_offset(offset, index_op);
    let address = transfer_address(old, rn, off, indexing);
    let applies = write_back_applies(load, rn, rd, indexing, write_back);
    let wb_value = write_back_value(address, off, indexing);
    if load {
        exists|raw: u32|
            raw_fits_halfword(load_type, address, raw) && #[trigger] load_effect(
                new,
                old,
                rd,
                rn,
                applies,
                wb_value,
                loaded_halfword(load_type, address, raw),
                false,
            ) && new.bus_log@ == old.bus_log@.push(
                BusEvent::DataRead {
                    address,
                    size: if halfword_reads_byte(load_type, address) { OpSize::BYTE } else { OpSize::HALFWORD },
                    value: raw,
                },
            ) + refill_log(
                new,
                loaded_regs(old, rd, rn, applies, wb_value, loaded_halfword(load_type, address, raw)),
                rd == 15,
            )
    } else {
        &&& store_effect(new, old, rn, applies, wb_value, false)
        &&& new.bus_log@ == old.bus_log@.push(
            BusEvent::DataWrite { address, size: OpSize::HALFWORD, value: old.registers.r[rd] & 0xFFFF },
        )
    }
}

/// The register offset of an LDR/STR opcode: Rm shifted by an immediate amount.
pub open spec fn register_offset(old: Arm7Tdmi, opcode: u32) -> u32 {
    immediate_shift(
        old.registers.r[(opcode & 0xF) as int],
        shift_type_from_bits(opcode >> 5u32),
        (opcode >> 7u32) & 0x1F,
        old.registers.cpsr.carry,
    ).0
}

/// Executing an ARM LDR/STR/LDRB/STRB opcode.
pub open spec fn arm_load_word_post(new: Arm7Tdmi, old: Arm7Tdmi, opcode: u32, load: bool, register_offset_form: bool) -> bool {
    load_word_post(
        new,
        old,
        load,
        ((opcode >> 16u32) & 0xF) as int,
        ((opcode >> 12u32) & 0xF) as int,
        if register_offset_form {
            register_offset(old, opcode)
        } else {
            opcode & 0xFFF
        },
        if bit32(opcode, 22) {
            LoadSize::Byte
        } else {
            LoadSize::Word
        },
        if bit32(opcode, 24) {
            LoadIndexing::Pre
        } else {
            LoadIndexing::Post
        },
        if bit32(opcode, 23) {
            IndexOp::Add
        } else {
            IndexOp::Subtract
        },
        if bit32(opcode, 21) {
            WriteBack::Yes
        } else {
            WriteBack::No
        },
    )
}

/// Executing an ARM LDRH/STRH/LDRSB/LDRSH opcode.
pub open spec fn arm_load_halfword_post(new: Arm7Tdmi, old: Arm7Tdmi, opcode: u32, load: bool, immediate_offset: bool) -> bool {
    load_halfword_post(
        new,
        old,
        load,
        ((opcode >> 16u32) & 0xF) as int,
        ((opcode >> 12u32) & 0xF) as int,
        if immediate_offset {
            ((opcode >> 4u32) & 0xF0) | (opcode & 0xF)
        } else {
            read_register_spec(old, (opcode & 0xF) as int)
        },
        halfword_load_type_from_bits(opcode >> 5u32),
        if bit32(opcode, 24) {
            LoadIndexing::Pre
        } else {
            LoadIndexing::Post
        },
        if bit32(opcode, 23) {
            IndexOp::Add
        } else {
            IndexOp::Subtract
        },
        if bit32(opcode, 21) {
            WriteBack::Yes
        } else {
            WriteBack::No
        },
    )
}

/// Executing SWP/SWPB: the address in Rn is read, then Rm (its low byte for SWPB) is written
/// there, and Rd receives the value read; the pipeline is not refilled.
#[verifier::opaque]
pub open spec fn swap_post(new: Arm7Tdmi, old: Arm7Tdmi, rd: int, rn: int, rm: int, size: LoadSize) -> bool {
    let v = old.registers@;
    let address = v.r[rn];
    exists|raw: u32|
        raw_fits_size(size, raw) && #[trigger] pipeline_kept(
            new,
            old,
            RegistersView { r: v.r.update(rd, loaded_word(size, address, raw)), ..v },
        ) && new.bus_log@ == old.bus_log@.push(
            BusEvent::DataRead { address, size: size_code(size), value: raw },
        ).push(
            BusEvent::DataWrite {
                address,
                size: size_code(size),
                value: stored_word(size, read_register_spec(old, rm)),
            },
        )
}

pub open spec fn arm_swap_post(new: Arm7Tdmi, old: Arm7Tdmi, opcode: u32) -> bool {
    swap_post(
        new,
        old,
        ((opcode >> 12u32) & 0xF) as int,
        ((opcode >> 16u32) & 0xF) as int,
        (opcode & 0xF) as int,
        if bit32(opcode, 22) {
            LoadSize::Byte
        } else {
            LoadSize::Word
        },
    )
}

/// Number of set bits among the low `n` bits of a value.
pub open spec fn popcount(bits: u32, n: int) -> int
    decreases n,
{
    if n <= 0 {
        0
    } else {
        popcount(bits, n - 1) + if bit32(bits, (n - 1) as u32) {
            1int
        } else {
            0int
        }
    }
}

/// The register list a block transfer acts on: an empty list transfers R15 only.
pub open spec fn effective_register_list(bits: u32) -> u32 {
    if bits == 0 {
        0x8000
    } else {
        bits
    }
}

/// The base register's final value after a block transfer: four bytes per listed register (64
/// for an empty list), up or down.
pub open spec fn block_final_address(base: u32, bits: u32, increment: bool) -> u32 {
    let count = if bits == 0 {
        16
    } else {
        popcount(bits, 16)
    };
    if increment {
        base.wrapping_add((4 * count) as u32)
    } else {
        base.wrapping_sub((4 * count) as u32)
    }
}

/// The register file with register `r` of the user bank written: in user and system mode the
/// visible register; in FIQ mode the shared R8-R12; in any other mode R13 and R14 of the user
/// bank; the visible register otherwise.
pub open spec fn set_user_register_spec(v: RegistersView, r: int, value: u32) -> RegistersView {
    if v.cpsr.mode == CpuMode::User || v.cpsr.mode == CpuMode::System {
        RegistersView { r: v.r.update(r, value), ..v }
    } else if v.cpsr.mode == CpuMode::Fiq && 8 <= r <= 12 {
        RegistersView { other_r_8_12: v.other_r_8_12.update(r - 8, value), ..v }
    } else if r == 13 {
        RegistersView { r13_usr: value, ..v }
    } else if r == 14 {
        RegistersView { r14_usr: value, ..v }
    } else {
        RegistersView { r: v.r.update(r, value), ..v }
    }
}

/// Register `r` of the user bank, as STM with the S bit reads it.
pub open spec fn user_register_spec(v: RegistersView, r: int) -> u32 {
    if v.cpsr.mode == CpuMode::User || v.cpsr.mode == CpuMode::System {
        v.r[r]
    } else if v.cpsr.mode == CpuMode::Fiq && 8 <= r <= 12 {
        v.other_r_8_12[r - 8]
    } else if r == 13 {
        v.r13_usr
    } else if r == 14 {
        v.r14_usr
    } else {
        v.r[r]
    }
}

/// One register loaded by LDM: into the user bank when `user`, else the visible register.
pub open spec fn ldm_set(v: RegistersView, r: int, value: u32, user: bool) -> RegistersView {
    if user {
        set_user_register_spec(v, r, value)
    } else {
        RegistersView { r: v.r.update(r, value), ..v }
    }
}

/// The register file after LDM has loaded the listed registers below `n`, register `i` taking
/// `values[i]`.
pub open spec fn ldm_apply(v: RegistersView, bits: u32, values: Seq<u32>, user: bool, n: int) -> RegistersView
    decreases n,
{
    if n <= 0 {
        v
    } else {
        let w = ldm_apply(v, bits, values, user, n - 1);
        if bit32(bits, (n - 1) as u32) {
            ldm_set(w, n - 1, values[n - 1], user)
        } else {
            w
        }
    }
}

/// The register file after LDM loading `values`: the base is written back first, then the
/// listed registers are loaded (into the user bank when S is set and R15 is not listed), and
/// when S is set and R15 is listed CPSR is restored from SPSR.
pub open spec fn ldm_regs(v: RegistersView, bits: u32, rn: int, write_back: bool, s_bit: bool, final_address: u32, values: Seq<u32>) -> RegistersView {
    let list = effective_register_list(bits);
    let r15_loaded = bit32(list, 15);
    let v1 = with_write_back(v, rn, write_back, final_address);
    let v2 = ldm_apply(v1, list, values, s_bit && !r15_loaded, 16);
    if r15_loaded && s_bit {
        spsr_restore(v2)
    } else {
        v2
    }
}

/// The address of the first word a block transfer accesses: the lowest address, which is the
/// base (incrementing) or the final address (decrementing), one word up when the step comes
/// before the access (IB, DA).
pub open spec fn block_first_address(base: u32, final_address: u32, increment: bool, after: bool) -> u32 {
    let start = if increment {
        base
    } else {
        final_address
    };
    if after == increment {
        start
    } else {
        start.wrapping_add(4)
    }
}

/// The value STM stores for register `r`: the register as it reads when its turn comes (the base
/// is already written back after the first transfer), from the user bank when S is set.
pub open spec fn stm_value(v: RegistersView, list: u32, rn: int, write_back: bool, s_bit: bool, final_address: u32, r: int) -> u32 {
    let cur = with_write_back(v, rn, write_back && popcount(list, r) > 0, final_address);
    if s_bit {
        user_register_spec(cur, r)
    } else {
        cur.r[r]
    }
}

/// The data accesses of a block transfer for the listed registers below `n`, in ascending
/// register order at consecutive words from `first`: reads (LDM) returning `values[r]`, or
/// writes (STM) of `values[r]`.
pub open spec fn block_events(list: u32, first: u32, load: bool, values: Seq<u32>, n: int) -> Seq<BusEvent>
    decreases n,
{
    if n <= 0 {
        Seq::empty()
    } else {
        let prev = block_events(list, first, load, values, n - 1);
        if bit32(list, (n - 1) as u32) {
            let address = first.wrapping_add((4 * popcount(list, n - 1)) as u32);
            prev.push(
                if load {
                    BusEvent::DataRead { address, size: OpSize::WORD, value: values[n - 1] }
                } else {
                    BusEvent::DataWrite { address, size: OpSize::WORD, value: values[n - 1] }
                },
            )
        } else {
            prev
        }
    }
}

/// The register file becomes `v`; when R15 was written the pipeline is refilled from it, else it
/// is kept.
pub open spec fn data_written(new: Arm7Tdmi, old: Arm7Tdmi, v: RegistersView, pc_written: bool) -> bool {
    if pc_written {
        refilled(new, v)
    } else {
        pipeline_kept(new, old, v)
    }
}

/// Executing LDM/STM (and PUSH/POP) with the decoded operands. A load reads the listed registers'
/// words in order and leaves the registers as `ldm_regs` makes them from the values read,
/// refilling the pipeline when R15 is listed; a store writes the listed registers (as
/// `stm_value` reads them) in order and changes only the written-back base, and the next fetch
/// is non-sequential.
#[verifier::opaque]
pub open spec fn load_multiple_post(new: Arm7Tdmi, old: Arm7Tdmi, load: bool, increment: bool, after: bool, bits: u32, rn: int, write_back: bool, s_bit: bool) -> bool {
    let base = read_register_spec(old, rn);
    let final_address = block_final_address(base, bits, increment);
    let list = effective_register_list(bits);
    let first = block_first_address(base, final_address, increment, after);
    if load {
        exists|values: Seq<u32>|
            values.len() == 16 && #[trigger] data_written(
                new,
                old,
                ldm_regs(old.registers@, bits, rn, write_back, s_bit, final_address, values),
                bit32(list, 15),
            ) && new.bus_log@ == old.bus_log@ + block_events(list, first, true, values, 16) + refill_log(
                new,
                ldm_regs(old.registers@, bits, rn, write_back, s_bit, final_address, values),
                bit32(list, 15),
            )
    } else {
        &&& new.registers@ == with_write_back(old.registers@, rn, write_back, final_address)
        &&& new.prefetch@ == old.prefetch@
        &&& new.prev_r15 == old.prev_r15
        &&& new.fetch_cycle == MemoryCycle::N
        &&& new.bus_log@ == old.bus_log@ + block_events(
            list,
            first,
            false,
            Seq::new(16, |r: int| stm_value(old.registers@, list, rn, write_back, s_bit, final_address, r)),
            16,
        )
    }
}

pub open spec fn arm_ldm_stm_post(new: Arm7Tdmi, old: Arm7Tdmi, opcode: u32, load: bool, increment: bool, after: bool) -> bool {
    load_multiple_post(
        new,
        old,
        load,
        increment,
        after,
        opcode & 0xFFFF,
        ((opcode >> 16u32) & 0xF) as int,
        bit32(opcode, 21),
        bit32(opcode, 22),
    )
}

proof fn lemma_block_events_prefix(list: u32, first: u32, load: bool, values: Seq<u32>, others: Seq<u32>, n: int)
    requires
        forall|j: int| 0 <= j < n ==> values[j] == others[j],
    ensures
        block_events(list, first, load, values, n) == block_events(list, first, load, others, n),
    decreases n,
{
    if n > 0 {
        lemma_block_events_prefix(list, first, load, values, others, n - 1);
    }
}

proof fn lemma_popcount_zero(bits: u32, n: int)
    requires
        0 <= n <= 32,
    ensures
        (popcount(bits, n) == 0) <==> (forall|j: u32| j < n ==> !bit32(bits, j)),
        popcount(bits, n) >= 0,
    decreases n,
{
    if n > 0 {
        lemma_popcount_zero(bits, n - 1);
        if popcount(bits, n) == 0 {
            assert forall|j: u32| j < n implies !bit32(bits, j) by {
                if j < n - 1 {
                } else {
                    assert(j == (n - 1) as u32);
                }
            }
        }
    }
}

proof fn lemma_wrap_step(first: u32, p: int)
    requires
        0 <= p < 16,
    ensures
        first.wrapping_add((4 * p) as u32).wrapping_add(4) == first.wrapping_add((4 * (p + 1)) as u32),
{
}

proof fn lemma_ldm_apply_unlisted(v: RegistersView, bits: u32, values: Seq<u32>, user: bool, n: int)
    requires
        forall|j: u32| j < n ==> !bit32(bits, j),
    ensures
        ldm_apply(v, bits, values, user, n) == v,
    decreases n,
{
    if n > 0 {
        assert(!bit32(bits, (n - 1) as u32));
        lemma_ldm_apply_unlisted(v, bits, values, user, n - 1);
    }
}

proof fn lemma_ldm_apply_prefix(v: RegistersView, bits: u32, values: Seq<u32>, others: Seq<u32>, user: bool, n: int)
    requires
        forall|j: int| 0 <= j < n ==> values[j] == others[j],
    ensures
        ldm_apply(v, bits, values, user, n) == ldm_apply(v, bits, others, user, n),
    decreases n,
{
    if n > 0 {
        lemma_ldm_apply_prefix(v, bits, values, others, user, n - 1);
    }
}

proof fn lemma_ldm_apply_keeps_cpsr(v: RegistersView, bits: u32, values: Seq<u32>, user: bool, n: int)
    ensures
        ldm_apply(v, bits, values, user, n).cpsr == v.cpsr,
    decreases n,
{
    if n > 0 {
        lemma_ldm_apply_keeps_cpsr(v, bits, values, user, n - 1);
    }
}

proof fn lemma_some_bit_set(x: u32)
    requires
        x != 0,
        x <= 0xFFFF,
    ensures
        exists|j: u32| j < 16 && #[trigger] bit32(x, j),
{
    assert(bit32(x, 0) || bit32(x, 1) || bit32(x, 2) || bit32(x, 3) || bit32(x, 4) || bit32(x, 5)
        || bit32(x, 6) || bit32(x, 7) || bit32(x, 8) || bit32(x, 9) || bit32(x, 10) || bit32(x, 11)
        || bit32(x, 12) || bit32(x, 13) || bit32(x, 14) || bit32(x, 15)) by (bit_vector)
        requires
            x != 0,
            x <= 0xFFFF,
    ;
}

proof fn lemma_low_address_bits(address: u32)
    ensures
        address & 3 <= 3,
        address & 1 <= 1,
        (address & 1 == 0) || (address & 1 == 1),
{
    crate::bit_facts::lemma_word_fields(address);
}

proof fn lemma_low_byte(value: u32)
    ensures
        value & 0xFF <= 0xFF,
        value & 0xFFFF <= 0xFFFF,
{
    crate::bit_facts::lemma_word_fields(value);
}

/// Number of registers in a 16-bit register list.
pub fn register_count(bits: u32) -> (r: u32)
    ensures
        r == popcount(bits, 16),
        r <= 16,
{
    let mut count: u32 = 0;
    let mut i: u32 = 0;
    while i < 16
        invariant
            i <= 16,
            count == popcount(bits, i as int),
            count <= i,
        decreases 16 - i,
    {
        if (bits >> i) & 1 == 1 {
            count += 1;
        }
        i += 1;
    }
    count
}

/// Reads a word for a data transfer and records the access.
fn logged_read_word<B: BusInterface>(bus: &mut B, log: &mut Ghost<Seq<BusEvent>>, address: u32, cycle: MemoryCycle) -> (r: u32)
    ensures
        final(log)@ == old(log)@.push(BusEvent::DataRead { address, size: OpSize::WORD, value: r }),
{
    let value = bus.read_word(address, cycle);
    *log = Ghost((*log)@.push(BusEvent::DataRead { address, size: OpSize::WORD, value }));
    value
}

/// Reads a halfword for a data transfer and records the access.
fn logged_read_halfword<B: BusInterface>(bus: &mut B, log: &mut Ghost<Seq<BusEvent>>, address: u32, cycle: MemoryCycle) -> (r: u16)
    ensures
        final(log)@ == old(log)@.push(BusEvent::DataRead { address, size: OpSize::HALFWORD, value: r as u32 }),
{
    let value = bus.read_halfword(address, cycle);
    *log = Ghost((*log)@.push(BusEvent::DataRead { address, size: OpSize::HALFWORD, value: value as u32 }));
    value
}

/// Reads a byte for a data transfer and records the access.
fn logged_read_byte<B: BusInterface>(bus: &mut B, log: &mut Ghost<Seq<BusEvent>>, address: u32, cycle: MemoryCycle) -> (r: u8)
    ensures
        final(log)@ == old(log)@.push(BusEvent::DataRead { address, size: OpSize::BYTE, value: r as u32 }),
{
    let value = bus.read_byte(address, cycle);
    *log = Ghost((*log)@.push(BusEvent::DataRead { address, size: OpSize::BYTE, value: value as u32 }));
    value
}

/// Writes a word for a data transfer and records the access.
fn logged_write_word<B: BusInterface>(bus: &mut B, log: &mut Ghost<Seq<BusEvent>>, address: u32, value: u32, cycle: MemoryCycle)
    ensures
        final(log)@ == old(log)@.push(BusEvent::DataWrite { address, size: OpSize::WORD, value }),
{
    bus.write_word(address, value, cycle);
    *log = Ghost((*log)@.push(BusEvent::DataWrite { address, size: OpSize::WORD, value }));
}

/// Writes a halfword for a data transfer and records the access.
fn logged_write_halfword<B: BusInterface>(bus: &mut B, log: &mut Ghost<Seq<BusEvent>>, address: u32, value: u16, cycle: MemoryCycle)
    ensures
        final(log)@ == old(log)@.push(BusEvent::DataWrite { address, size: OpSize::HALFWORD, value: value as u32 }),
{
    bus.write_halfword(address, value, cycle);
    *log = Ghost((*log)@.push(BusEvent::DataWrite { address, size: OpSize::HALFWORD, value: value as u32 }));
}

/// Writes a byte for a data transfer and records the access.
fn logged_write_byte<B: BusInterface>(bus: &mut B, log: &mut Ghost<Seq<BusEvent>>, address: u32, value: u8, cycle: MemoryCycle)
    ensures
        final(log)@ == old(log)@.push(BusEvent::DataWrite { address, size: OpSize::BYTE, value: value as u32 }),
{
    bus.write_byte(address, value, cycle);
    *log = Ghost((*log)@.push(BusEvent::DataWrite { address, size: OpSize::BYTE, value: value as u32 }));
}

impl Arm7Tdmi {
    /// Writes register `r` of the user bank (for LDM with the S bit).
    pub fn set_user_register(&mut self, r: u32, value: u32)
        requires
            r < 16,
        ensures
            continued(
                *final(self),
                *old(self),
                set_user_register_spec(old(self).registers@, r as int, value),
            ),
    {
        let mode = self.registers.cpsr.mode;
        if mode == CpuMode::User || mode == CpuMode::System {
            self.registers.set_r(r as usize, value);
        } else if mode == CpuMode::Fiq && 8 <= r && r <= 12 {
            let mut banked = self.registers.other_r_8_12;
            banked[(r - 8) as usize] = value;
            self.registers = Registers { other_r_8_12: banked, ..self.registers };
        } else if r == 13 {
            self.registers = Registers { r13_usr: value, ..self.registers };
        } else if r == 14 {
            self.registers = Registers { r14_usr: value, ..self.registers };
        } else {
            self.registers.set_r(r as usize, value);
        }
    }

    /// Reads register `r` of the user bank (for STM with the S bit).
    pub fn get_user_register(&self, r: u32) -> (v: u32)
        requires
            r < 16,
        ensures
            v == user_register_spec(self.registers@, r as int),
    {
        let mode = self.registers.cpsr.mode;
        if mode == CpuMode::User || mode == CpuMode::System {
            self.registers.r[r as usize]
        } else if mode == CpuMode::Fiq && 8 <= r && r <= 12 {
            self.registers.other_r_8_12[(r - 8) as usize]
        } else if r == 13 {
            self.registers.r13_usr
        } else if r == 14 {
            self.registers.r14_usr
        } else {
            self.registers.r[r as usize]
        }
    }

    pub fn arm_swap<B: BusInterface>(&mut self, opcode: u32, bus: &mut B)
        ensures
            arm_swap_post(*final(self), *old(self), opcode),
    {
        proof {
            crate::bit_facts::lemma_word_fields(opcode);
        }
        let rm = opcode & 0xF;
        let rd = (opcode >> 12u32) & 0xF;
        let rn = (opcode >> 16u32) & 0xF;
        let size = LoadSize::from_bit((opcode >> 22u32) & 1 == 1);

        self.swap(rm, rd, rn, size, bus);
    }

    pub fn swap<B: BusInterface>(&mut self, rm: u32, rd: u32, rn: u32, size: LoadSize, bus: &mut B)
        requires
            rm < 16,
            rd < 16,
            rn < 16,
        ensures
            swap_post(*final(self), *old(self), rd as int, rn as int, rm as int, size),
    {
        reveal(swap_post);
        let address = self.registers.r[rn as usize];
        proof {
            lemma_low_address_bits(address);
        }

        bus.lock();

        let raw = match size {
            LoadSize::Word => {
                let word = logged_read_word(bus, &mut self.bus_log, address, MemoryCycle::N);
                let value = rotate_right(word, 8 * (address & 3));
                let source = self.read_register(rm);
                logged_write_word(bus, &mut self.bus_log, address, source, MemoryCycle::S);
                self.registers.set_r(rd as usize, value);
                word
            },
            LoadSize::Byte => {
                let byte = logged_read_byte(bus, &mut self.bus_log, address, MemoryCycle::N);
                let source = self.read_register(rm);
                proof {
                    lemma_low_byte(source);
                }
                let stored = (source & 0xFF) as u8;
                logged_write_byte(bus, &mut self.bus_log, address, stored, MemoryCycle::S);
                self.registers.set_r(rd as usize, byte as u32);
                byte as u32
            },
        };
        proof {
            assert(raw_fits_size(size, raw));
            assert(pipeline_kept(
                *self,
                *old(self),
                RegistersView {
                    r: old(self).registers@.r.update(
                        rd as int,
                        loaded_word(size, old(self).registers.r[rn as int], raw),
                    ),
                    ..old(self).registers@
                },
            ));
        }

        bus.unlock();

        bus.internal_cycles(1);
    }

    // LDR: Load word
    // STR: Store word
    pub fn arm_load_word<B: BusInterface>(&mut self, opcode: u32, load: bool, register_offset_form: bool, bus: &mut B)
        ensures
            arm_load_word_post(*final(self), *old(self), opcode, load, register_offset_form),
    {
        proof {
            crate::bit_facts::lemma_word_fields(opcode);
        }
        let indexing = LoadIndexing::from_bit((opcode >> 24u32) & 1 == 1);
        let index_op = IndexOp::from_bit((opcode >> 23u32) & 1 == 1);
        let size = LoadSize::from_bit((opcode >> 22u32) & 1 == 1);
        let write_back = WriteBack::from_bit((opcode >> 21u32) & 1 == 1);
        let rn = (opcode >> 16u32) & 0xF;
        let rd = (opcode >> 12u32) & 0xF;

        let offset = if register_offset_form {
            let rm = opcode & 0xF;
            let value = self.registers.r[rm as usize];
            let shift_type = ShiftType::from_bits(opcode >> 5u32);
            let shift = (opcode >> 7u32) & 0x1F;

            let (shifted, _) = apply_immediate_shift(
                value,
                shift_type,
                shift,
                self.registers.cpsr.carry,
            );
            shifted
        } else {
            opcode & 0xFFF
        };

        self.load_word(load, rn, rd, offset, size, indexing, index_op, write_back, bus);
    }

    /// The register side of a load: Rd receives the value, the base is written back, and the
    /// pipeline is refilled when R15 ends up written (by the write-back only when
    /// `refill_on_write_back`).
    pub fn complete_load<B: BusInterface>(
        &mut self,
        rd: u32,
        rn: u32,
        value: u32,
        applies: bool,
        wb_value: u32,
        refill_on_write_back: bool,
        bus: &mut B,
    )
        requires
            rd < 16,
            rn < 16,
            applies ==> rn != rd,
        ensures
            load_effect(
                *final(self),
                *old(self),
                rd as int,
                rn as int,
                applies,
                wb_value,
                value,
                refill_on_write_back,
            ),
            final(self).bus_log@ == old(self).bus_log@ + refill_log(
                *final(self),
                loaded_regs(*old(self), rd as int, rn as int, applies, wb_value, value),
                rd == 15 || (refill_on_write_back && applies && rn == 15),
            ),
    {
        self.registers.set_r(rd as usize, value);

        bus.internal_cycles(1);

        if applies {
            self.registers.set_r(rn as usize, wb_value);
        }
        // The pipeline is refilled once R15 holds its final value (a load into R15 never also
        // writes R15 back)
        if rd == 15 || (refill_on_write_back && applies && rn == 15) {
            self.refill_prefetch(bus);
        }
    }

    /// The register side of a store: the next fetch is non-sequential, the base is written back,
    /// and the pipeline is refilled when R15 received the write-back (when
    /// `refill_on_write_back`).
    pub fn complete_store<B: BusInterface>(
        &mut self,
        rn: u32,
        applies: bool,
        wb_value: u32,
        refill_on_write_back: bool,
        bus: &mut B,
    )
        requires
            rn < 16,
        ensures
            store_effect(*final(self), *old(self), rn as int, applies, wb_value, refill_on_write_back),
            final(self).bus_log@ == old(self).bus_log@ + refill_log(
                *final(self),
                with_write_back(old(self).registers@, rn as int, applies, wb_value),
                refill_on_write_back && applies && rn == 15,
            ),
    {
        // Next opcode fetch is N
        self.fetch_cycle = MemoryCycle::N;
        if applies {
            self.registers.set_r(rn as usize, wb_value);
            if refill_on_write_back && rn == 15 {
                self.refill_prefetch(bus);
            }
        }
    }

    pub fn load_word<B: BusInterface>(
        &mut self,
        load: bool,
        rn: u32,
        rd: u32,
        offset: u32,
        size: LoadSize,
        indexing: LoadIndexing,
        index_op: IndexOp,
        write_back: WriteBack,
        bus: &mut B,
    )
        requires
            rn < 16,
            rd < 16,
        ensures
            load_word_post(
                *final(self),
                *old(self),
                load,
                rn as int,
                rd as int,
                offset,
                size,
                indexing,
                index_op,
                write_back,
            ),
    {
        reveal(load_word_post);
        let ghost offset0 = offset;
        let mut offset = offset;
        if index_op == IndexOp::Subtract {
            offset = (!offset).wrapping_add(1);
        }

        let mut address = self.read_register(rn);

        if indexing == LoadIndexing::Pre {
            address = address.wrapping_add(offset);
        }
        proof {
            lemma_low_address_bits(address);
        }

        // Write back only applies on loads if the base register and destination register are different
        let applies = !(load && rn == rd) && (indexing == LoadIndexing::Post || write_back
            == WriteBack::Yes);
        let wb_value = if indexing == LoadIndexing::Post {
            address.wrapping_add(offset)
        } else {
            address
        };
        let ghost spec_address = transfer_address(*old(self), rn as int, applied_offset(offset0, index_op), indexing);
        let ghost spec_applies = write_back_applies(load, rn as int, rd as int, indexing, write_back);
        let ghost spec_wb = write_back_value(spec_address, applied_offset(offset0, index_op), indexing);
        assert(address == spec_address);
        assert(applies == spec_applies);
        assert(wb_value == spec_wb);

        if load {
            let (value, raw) = match size {
                LoadSize::Word => {
                    let word = logged_read_word(bus, &mut self.bus_log, address, MemoryCycle::N);
                    (rotate_right(word, 8 * (address & 3)), word)
                },
                LoadSize::Byte => {
                    let byte = logged_read_byte(bus, &mut self.bus_log, address, MemoryCycle::N) as u32;
                    (byte, byte)
                },
            };
            let ghost before_load = *self;
            self.complete_load(rd, rn, value, applies, wb_value, true, bus);
            assert(loaded_regs(before_load, rd as int, rn as int, applies, wb_value, value) == loaded_regs(*old(self), rd as int, rn as int, applies, wb_value, value));
            assert(raw_fits_size(size, raw));
            assert(value == loaded_word(size, spec_address, raw));
            assert(load_effect(*self, *old(self), rd as int, rn as int, spec_applies, spec_wb, loaded_word(size, spec_address, raw), true));
        } else {
            let value = self.registers.r[rd as usize];
            proof {
                lemma_low_byte(value);
            }
            match size {
                LoadSize::Word => logged_write_word(bus, &mut self.bus_log, address, value, MemoryCycle::N),
                LoadSize::Byte => logged_write_byte(bus, &mut self.bus_log, address, (value & 0xFF) as u8, MemoryCycle::N),
            }
            self.complete_store(rn, applies, wb_value, true, bus);
        }
    }

    // LDRH: Load halfword
    // STRH: Store halfword
    // LDRSB: Load sign-extended byte
    // LDRSH: Load sign-extended halfword
    pub fn arm_load_halfword<B: BusInterface>(&mut self, opcode: u32, load: bool, immediate_offset: bool, bus: &mut B)
        requires
            (opcode >> 5u32) & 3 != 0,
        ensures
            arm_load_halfword_post(*final(self), *old(self), opcode, load, immediate_offset),
    {
        proof {
            crate::bit_facts::lemma_word_fields(opcode);
        }
        let indexing = LoadIndexing::from_bit((opcode >> 24u32) & 1 == 1);
        let index_op = IndexOp::from_bit((opcode >> 23u32) & 1 == 1);
        let write_back = WriteBack::from_bit((opcode >> 21u32) & 1 == 1);
        let rn = (opcode >> 16u32) & 0xF;
        let rd = (opcode >> 12u32) & 0xF;

        let offset = if immediate_offset {
            ((opcode >> 4u32) & 0xF0) | (opcode & 0xF)
        } else {
            let rm = opcode & 0xF;
            self.read_register(rm)
        };

        let load_type = HalfwordLoadType::from_bits(opcode >> 5u32);

        self.load_halfword(load, rn, rd, offset, load_type, indexing, index_op, write_back, bus);
    }

    pub fn load_halfword<B: BusInterface>(
        &mut self,
        load: bool,
        rn: u32,
        rd: u32,
        offset: u32,
        load_type: HalfwordLoadType,
        indexing: LoadIndexing,
        index_op: IndexOp,
        write_back: WriteBack,
        bus: &mut B,
    )
        requires
            rn < 16,
            rd < 16,
        ensures
            load_halfword_post(
                *final(self),
                *old(self),
                load,
                rn as int,
                rd as int,
                offset,
                load_type,
                indexing,
                index_op,
                write_back,
            ),
    {
        reveal(load_halfword_post);
        let ghost offset0 = offset;
        let mut offset = offset;
        if index_op == IndexOp::Subtract {
            offset = (!offset).wrapping_add(1);
        }

        let mut address = self.read_register(rn);
        if indexing == LoadIndexing::Pre {
            address = address.wrapping_add(offset);
        }
        proof {
            lemma_low_address_bits(address);
        }

        // Write back only applies on loads if the base register and destination register are different
        let applies = !(load && rn == rd) && (indexing == LoadIndexing::Post || write_back
            == WriteBack::Yes);
        let wb_value = if indexing == LoadIndexing::Post {
            address.wrapping_add(offset)
        } else {
            address
        };
        let ghost spec_address = transfer_address(*old(self), rn as int, applied_offset(offset0, index_op), indexing);
        let ghost spec_applies = write_back_applies(load, rn as int, rd as int, indexing, write_back);
        let ghost spec_wb = write_back_value(spec_address, applied_offset(offset0, index_op), indexing);
        assert(address == spec_address);
        assert(applies == spec_applies);
        assert(wb_value == spec_wb);

        if load {
            let (value, raw) = self.read_halfword_value(load_type, address, bus);
            let ghost before_load = *self;
            self.complete_load(rd, rn, value, applies, wb_value, false, bus);
            assert(loaded_regs(before_load, rd as int, rn as int, applies, wb_value, value) == loaded_regs(*old(self), rd as int, rn as int, applies, wb_value, value));
            assert(load_effect(*self, *old(self), rd as int, rn as int, spec_applies, spec_wb, loaded_halfword(load_type, spec_address, raw), false));
        } else {
            let value = self.registers.r[rd as usize];
            proof {
                lemma_low_byte(value);
            }
            let halfword = (value & 0xFFFF) as u16;
            logged_write_halfword(bus, &mut self.bus_log, address, halfword, MemoryCycle::N);
            self.complete_store(rn, applies, wb_value, false, bus);
        }
    }

    /// Reads what a halfword load reads from the bus; returns the register value and the bus value.
    pub fn read_halfword_value<B: BusInterface>(&mut self, load_type: HalfwordLoadType, address: u32, bus: &mut B) -> (r: (u32, u32))
        ensures
            raw_fits_halfword(load_type, address, r.1),
            r.0 == loaded_halfword(load_type, address, r.1),
            *final(self) == (Arm7Tdmi {
                bus_log: Ghost(old(self).bus_log@.push(
                    BusEvent::DataRead {
                        address,
                        size: if halfword_reads_byte(load_type, address) { OpSize::BYTE } else { OpSize::HALFWORD },
                        value: r.1,
                    },
                )),
                ..*old(self)
            }),
    {
        proof {
            lemma_low_address_bits(address);
        }
        match load_type {
            HalfwordLoadType::UnsignedHalfword => {
                let halfword = logged_read_halfword(bus, &mut self.bus_log, address, MemoryCycle::N) as u32;
                (rotate_right(halfword, 8 * (address & 1)), halfword)
            },
            HalfwordLoadType::SignedByte => {
                let byte = logged_read_byte(bus, &mut self.bus_log, address, MemoryCycle::N) as u32;
                (if byte >= 0x80 {
                    byte | 0xFFFF_FF00
                } else {
                    byte
                }, byte)
            },
            HalfwordLoadType::SignedHalfword => {
                if address & 1 == 0 {
                    let halfword = logged_read_halfword(bus, &mut self.bus_log, address, MemoryCycle::N) as u32;
                    (if halfword >= 0x8000 {
                        halfword | 0xFFFF_0000
                    } else {
                        halfword
                    }, halfword)
                } else {
                    // Unaligned LDRSH seems to behave the same as LDRSB
                    let byte = logged_read_byte(bus, &mut self.bus_log, address, MemoryCycle::N) as u32;
                    (if byte >= 0x80 {
                        byte | 0xFFFF_FF00
                    } else {
                        byte
                    }, byte)
                }
            },
        }
    }

    /// LDM: reads the word of register `r` and loads it (into the user bank when S is set and
    /// R15 is not listed; restoring CPSR from SPSR when R15 is loaded with S set).
    fn ldm_load_one<B: BusInterface>(&mut self, r: u32, s_bit: bool, r15_loaded: bool, address: u32, cycle: MemoryCycle, bus: &mut B) -> (value: u32)
        requires
            r < 16,
            r == 15 ==> r15_loaded,
        ensures
            final(self).prefetch@ == old(self).prefetch@,
            final(self).fetch_cycle == old(self).fetch_cycle,
            final(self).prev_r15 == old(self).prev_r15,
            final(self).bus_log@ == old(self).bus_log@.push(BusEvent::DataRead { address, size: OpSize::WORD, value }),
            final(self).registers@ == (if r == 15 && s_bit {
                spsr_restore(ldm_set(old(self).registers@, 15, value, false))
            } else {
                ldm_set(old(self).registers@, r as int, value, s_bit && !r15_loaded)
            }),
    {
        let value = logged_read_word(bus, &mut self.bus_log, address, cycle);
        if r == 15 {
            self.registers.set_r(15, value);
            if s_bit {
                self.spsr_to_cpsr();
            }
        } else if s_bit && !r15_loaded {
            self.set_user_register(r, value);
        } else {
            self.registers.set_r(r as usize, value);
        }
        value
    }

    pub fn arm_ldm_stm<B: BusInterface>(&mut self, opcode: u32, load: bool, increment: bool, after: bool, bus: &mut B)
        ensures
            arm_ldm_stm_post(*final(self), *old(self), opcode, load, increment, after),
    {
        proof {
            crate::bit_facts::lemma_word_fields(opcode);
        }
        let register_bits = opcode & 0xFFFF;
        let rn = (opcode >> 16u32) & 0xF;
        let write_back = (opcode >> 21u32) & 1 == 1;
        let s_bit = (opcode >> 22u32) & 1 == 1;

        self.load_multiple(load, increment, after, register_bits, rn, write_back, s_bit, bus);
    }

    /// LDM/STM: transfers the listed registers in ascending order to or from consecutive words,
    /// going up from the base or ending just below it, the first access non-sequential.
    #[verifier::rlimit(100)]
    #[verifier::spinoff_prover]
    pub fn load_multiple<B: BusInterface>(
        &mut self,
        load: bool,
        increment: bool,
        after: bool,
        register_bits: u32,
        rn: u32,
        write_back: bool,
        s_bit: bool,
        bus: &mut B,
    )
        requires
            register_bits <= 0xFFFF,
            rn < 16,
        ensures
            load_multiple_post(
                *final(self),
                *old(self),
                load,
                increment,
                after,
                register_bits,
                rn as int,
                write_back,
                s_bit,
            ),
    {
        reveal(load_multiple_post);
        let ghost bits0 = register_bits;
        let mut register_bits = register_bits;
        let mut empty_list = false;
        if register_bits == 0 {
            // Hardware quirk: empty list loads/stores only R15, and Rb is adjusted by 4 * 16
            register_bits = 0x8000;
            empty_list = true;
        }

        let count = register_count(register_bits);
        let r15_loaded = (register_bits >> 15u32) & 1 == 1;

        let base_addr = self.read_register(rn);
        let count_for_final_addr = if empty_list {
            16
        } else {
            count
        };
        let final_addr = if increment {
            base_addr.wrapping_add(4 * count_for_final_addr)
        } else {
            base_addr.wrapping_sub(4 * count_for_final_addr)
        };
        assert(final_addr == block_final_address(read_register_spec(*old(self), rn as int), bits0, increment));

        let mut address = if increment {
            base_addr
        } else {
            final_addr
        };

        let ghost v0 = self.registers@;
        let ghost user = s_bit && !r15_loaded;
        let ghost mut values: Seq<u32> = Seq::new(16, |i: int| 0u32);
        let ghost first_address = block_first_address(base_addr, final_addr, increment, after);
        let ghost pre_step = !(after ^ !increment);
        let ghost stored = Seq::new(
            16,
            |i: int| stm_value(v0, register_bits, rn as int, write_back, s_bit, final_addr, i),
        );
        proof {
            lemma_popcount_zero(register_bits, 0);
        }
        let mut first = true;
        let mut need_write_back = write_back;
        proof {
            assert(register_bits != 0);
            lemma_ldm_apply_unlisted(v0, register_bits, values, user, 0);
        }
        let mut r: u32 = 0;
        while r < 16
            invariant
                0 <= r <= 16,
                register_bits == effective_register_list(bits0),
                register_bits != 0,
                register_bits <= 0xFFFF,
                r15_loaded == bit32(register_bits, 15),
                user == (s_bit && !r15_loaded),
                rn < 16,
                values.len() == 16,
                v0 == old(self).registers@,
                need_write_back == (write_back && forall|j: u32| j < r ==> !bit32(register_bits, j)),
                self.prefetch@ == old(self).prefetch@,
                self.prev_r15 == old(self).prev_r15,
                self.fetch_cycle == old(self).fetch_cycle,
                first_address == block_first_address(base_addr, final_addr, increment, after),
                pre_step == !(after ^ !increment),
                base_addr == read_register_spec(*old(self), rn as int),
                stored == Seq::new(
                    16,
                    |i: int| stm_value(v0, register_bits, rn as int, write_back, s_bit, final_addr, i),
                ),
                (if pre_step { address.wrapping_add(4) } else { address }) == first_address.wrapping_add(
                    (4 * popcount(register_bits, r as int)) as u32,
                ),
                0 <= popcount(register_bits, r as int) <= r,
                self.bus_log@ == old(self).bus_log@ + block_events(
                    register_bits,
                    first_address,
                    load,
                    if load { values } else { stored },
                    r as int,
                ),
                load ==> self.registers@ == ({
                    let base = with_write_back(v0, rn as int, write_back && !need_write_back, final_addr);
                    let applied = ldm_apply(base, register_bits, values, user, r as int);
                    if r == 16 && s_bit && r15_loaded {
                        spsr_restore(applied)
                    } else {
                        applied
                    }
                }),
                !load ==> self.registers@ == with_write_back(v0, rn as int, write_back && !need_write_back, final_addr),
            decreases 16 - r,
        {
            if (register_bits >> r) & 1 == 1 {
                let memory_cycle = if first {
                    first = false;
                    MemoryCycle::N
                } else {
                    MemoryCycle::S
                };

                if load && need_write_back {
                    proof {
                        lemma_ldm_apply_unlisted(v0, register_bits, values, user, r as int);
                        lemma_ldm_apply_unlisted(
                            with_write_back(v0, rn as int, true, final_addr),
                            register_bits,
                            values,
                            user,
                            r as int,
                        );
                    }
                    self.registers.set_r(rn as usize, final_addr);
                    need_write_back = false;
                }

                if !(after ^ !increment) {
                    address = address.wrapping_add(4);
                }

                if load {
                    let ghost before = values;
                    let ghost base = with_write_back(v0, rn as int, write_back && !need_write_back, final_addr);
                    proof {
                        lemma_ldm_apply_keeps_cpsr(base, register_bits, values, user, r as int);
                    }
                    let value = self.ldm_load_one(r, s_bit, r15_loaded, address, memory_cycle, bus);
                    proof {
                        values = values.update(r as int, value);
                        lemma_ldm_apply_prefix(base, register_bits, values, before, user, r as int);
                        lemma_block_events_prefix(register_bits, first_address, load, values, before, r as int);
                    }
                } else {
                    proof {
                        lemma_popcount_zero(register_bits, r as int);
                    }
                    let value = if s_bit {
                        self.get_user_register(r)
                    } else {
                        self.registers.r[r as usize]
                    };
                    assert(value == stored[r as int]);
                    logged_write_word(bus, &mut self.bus_log, address, value, memory_cycle);
                }
                proof {
                    lemma_wrap_step(first_address, popcount(register_bits, r as int));
                }

                if after ^ !increment {
                    address = address.wrapping_add(4);
                }

                if !load && need_write_back {
                    self.registers.set_r(rn as usize, final_addr);
                    need_write_back = false;
                }
            }
            r += 1;
        }
        proof {
            if write_back && need_write_back {
                lemma_some_bit_set(register_bits);
            }
        }

        if load {
            bus.internal_cycles(1);

            if r15_loaded {
                self.refill_prefetch(bus);
            }
            proof {
                assert(data_written(
                    *self,
                    *old(self),
                    ldm_regs(old(self).registers@, bits0, rn as int, write_back, s_bit, final_addr, values),
                    bit32(effective_register_list(bits0), 15),
                ));
            }
        } else {
            // Next opcode fetch is N
            self.fetch_cycle = MemoryCycle::N;
        }
    }
}

} // verus!
