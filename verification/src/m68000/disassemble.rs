//! Text of MOVEM register lists.
use crate::m68000::{AddressingMode, IndexSize};
use vstd::prelude::*;
use vstd::string::StringExecFns;

verus! {

/// Register `i` (0-7) of half `half` (0 for data registers, 1 for address registers) is in the
/// list of a MOVEM extension word; the predecrement form stores the list bit-reversed.
pub open spec fn movem_selected(extension: u16, reverse: bool, half: int, i: int) -> bool {
    let k = 8 * half + i;
    let bit = if reverse {
        15 - k
    } else {
        k
    };
    (extension >> bit as u16) & 1 == 1
}

/// The name of register `i` of a half: `d0`-`d7` or `a0`-`a7`.
pub open spec fn register_name(half: int, i: int) -> Seq<char> {
    seq![if half == 0 { 'd' } else { 'a' }, (48 + i) as char]
}

/// The last register of the run of consecutive listed registers that contains register `i`,
/// going up.
pub open spec fn run_end(extension: u16, reverse: bool, half: int, i: int) -> int
    decreases 8 - i,
{
    if 0 <= i && i + 1 < 8 && movem_selected(extension, reverse, half, i + 1) {
        run_end(extension, reverse, half, i + 1)
    } else {
        i
    }
}

/// Whether a run of consecutive listed registers starts at register `i`.
pub open spec fn run_starts(extension: u16, reverse: bool, half: int, i: int) -> bool {
    movem_selected(extension, reverse, half, i) && (i == 0 || !movem_selected(
        extension,
        reverse,
        half,
        i - 1,
    ))
}

/// A run written as its first register, or as first and last joined by `-`.
pub open spec fn run_text(half: int, first: int, last: int) -> Seq<char> {
    if first == last {
        register_name(half, first)
    } else {
        register_name(half, first) + seq!['-'] + register_name(half, last)
    }
}

/// The texts of the runs of a half that start below register `n`, in order.
pub open spec fn half_runs(extension: u16, reverse: bool, half: int, n: int) -> Seq<Seq<char>>
    decreases n,
{
    if n <= 0 {
        seq![]
    } else {
        half_runs(extension, reverse, half, n - 1) + if run_starts(extension, reverse, half, n - 1) {
            seq![run_text(half, n - 1, run_end(extension, reverse, half, n - 1))]
        } else {
            seq![]
        }
    }
}

/// Texts joined by `/`.
pub open spec fn join_slash(parts: Seq<Seq<char>>) -> Seq<char>
    decreases parts.len(),
{
    if parts.len() == 0 {
        seq![]
    } else if parts.len() == 1 {
        parts[0]
    } else {
        join_slash(parts.drop_last()) + seq!['/'] + parts.last()
    }
}

/// The text of a MOVEM register list: the runs of consecutive data registers, then of address
/// registers, joined by `/`; `empty` for an empty list.
pub open spec fn movem_registers_text(extension: u16, reverse: bool) -> Seq<char> {
    let parts = half_runs(extension, reverse, 0, 8) + half_runs(extension, reverse, 1, 8);
    if parts.len() == 0 {
        "empty"@
    } else {
        join_slash(parts)
    }
}

/// Whether the MOVEM list is stored bit-reversed (predecrement addressing).
pub open spec fn movem_reversed(am: AddressingMode) -> bool {
    am is AddressIndirectPredecrement
}

proof fn lemma_join_push(parts: Seq<Seq<char>>, x: Seq<char>)
    ensures
        join_slash(parts.push(x)) == if parts.len() == 0 {
            x
        } else {
            join_slash(parts) + seq!['/'] + x
        },
{
    assert(parts.push(x).drop_last() =~= parts);
}

proof fn lemma_run_end_bounds(extension: u16, reverse: bool, half: int, i: int)
    requires
        0 <= i < 8,
    ensures
        i <= run_end(extension, reverse, half, i) < 8,
    decreases 8 - i,
{
    if i + 1 < 8 && movem_selected(extension, reverse, half, i + 1) {
        lemma_run_end_bounds(extension, reverse, half, i + 1);
    }
}

/// The name of register `i` of a half.
pub fn register_str(half: u8, i: u8) -> (r: &'static str)
    requires
        half < 2,
        i < 8,
    ensures
        r@ == register_name(half as int, i as int),
{
    proof {
        reveal_strlit("d0");
        reveal_strlit("d1");
        reveal_strlit("d2");
        reveal_strlit("d3");
        reveal_strlit("d4");
        reveal_strlit("d5");
        reveal_strlit("d6");
        reveal_strlit("d7");
        reveal_strlit("a0");
        reveal_strlit("a1");
        reveal_strlit("a2");
        reveal_strlit("a3");
        reveal_strlit("a4");
        reveal_strlit("a5");
        reveal_strlit("a6");
        reveal_strlit("a7");
    }
    let r = if half == 0 {
        if i == 0 {
            "d0"
        } else if i == 1 {
            "d1"
        } else if i == 2 {
            "d2"
        } else if i == 3 {
            "d3"
        } else if i == 4 {
            "d4"
        } else if i == 5 {
            "d5"
        } else if i == 6 {
            "d6"
        } else {
            "d7"
        }
    } else {
        if i == 0 {
            "a0"
        } else if i == 1 {
            "a1"
        } else if i == 2 {
            "a2"
        } else if i == 3 {
            "a3"
        } else if i == 4 {
            "a4"
        } else if i == 5 {
            "a5"
        } else if i == 6 {
            "a6"
        } else {
            "a7"
        }
    };
    assert(r@ =~= register_name(half as int, i as int));
    r
}

fn selected(extension: u16, reverse: bool, half: u8, i: u8) -> (r: bool)
    requires
        half < 2,
        i < 8,
    ensures
        r == movem_selected(extension, reverse, half as int, i as int),
{
    let k = 8 * half + i;
    let bit = if reverse {
        15 - k
    } else {
        k
    };
    (extension >> bit as u16) & 1 == 1
}

/// Appends the runs of one half of a MOVEM list to `out`, each after a `/` unless `out` is empty.
fn movem_str_half(extension: u16, reverse: bool, half: u8, out: &mut String, Ghost(done): Ghost<Seq<Seq<char>>>)
    requires
        half < 2,
        old(out)@ == join_slash(done),
        old(out)@.len() == 0 <==> done.len() == 0,
    ensures
        final(out)@ == join_slash(done + half_runs(extension, reverse, half as int, 8)),
        final(out)@.len() == 0 <==> (done + half_runs(extension, reverse, half as int, 8)).len() == 0,
{
    let mut i: u8 = 0;
    while i < 8
        invariant
            0 <= i <= 8,
            half < 2,
            out@ == join_slash(done + half_runs(extension, reverse, half as int, i as int)),
            out@.len() == 0 <==> (done + half_runs(extension, reverse, half as int, i as int)).len()
                == 0,
        decreases 8 - i,
    {
        let ghost parts = done + half_runs(extension, reverse, half as int, i as int);
        if selected(extension, reverse, half, i) && (i == 0 || !selected(extension, reverse, half, i - 1)) {
            let mut end = i;
            while end + 1 < 8 && selected(extension, reverse, half, end + 1)
                invariant
                    i <= end < 8,
                    half < 2,
                    run_end(extension, reverse, half as int, i as int) == run_end(
                        extension,
                        reverse,
                        half as int,
                        end as int,
                    ),
                decreases 8 - end,
            {
                end += 1;
            }
            let ghost text = run_text(half as int, i as int, end as int);
            if !out.as_str().is_empty() {
                out.append("/");
            }
            out.append(register_str(half, i));
            if end != i {
                out.append("-");
                out.append(register_str(half, end));
            }
            proof {
                reveal_strlit("/");
                reveal_strlit("-");
                lemma_join_push(parts, text);
                assert(done + half_runs(extension, reverse, half as int, i + 1) =~= parts.push(text));
            }
        } else {
            proof {
                assert(done + half_runs(extension, reverse, half as int, i + 1) =~= parts);
            }
        }
        i += 1;
    }
}

/// The text of the register list of a MOVEM extension word.
pub fn movem_registers_str(extension: u16, am: AddressingMode) -> (r: String)
    ensures
        r@ == movem_registers_text(extension, movem_reversed(am)),
{
    let reverse = match am {
        AddressingMode::AddressIndirectPredecrement(_) => true,
        _ => false,
    };

    let mut out = String::new();
    let ghost none: Seq<Seq<char>> = Seq::empty();
    movem_str_half(extension, reverse, 0, &mut out, Ghost(none));
    assert(none + half_runs(extension, reverse, 0, 8) =~= half_runs(extension, reverse, 0, 8));
    movem_str_half(extension, reverse, 1, &mut out, Ghost(half_runs(extension, reverse, 0, 8)));

    if out.as_str().is_empty() {
        // Is this even a valid MOVEM instruction?
        return String::from_str("empty");
    }

    out
}

/// The register values that the address of a disassembled operand is computed from; A7 is the
/// active stack pointer.
#[derive(Debug, Clone, Copy, PartialEq, Eq)]
pub struct RegisterFile {
    pub data_registers: [u32; 8],
    pub address_registers: [u32; 7],
    pub stack_pointer: u32,
}

/// A 32-bit value reduced modulo 2^32.
pub open spec fn wrap32(x: int) -> u32 {
    (x % 0x1_0000_0000) as u32
}

/// The low word of a value, sign-extended to 32 bits.
pub open spec fn sign_extend_word(value: u32) -> u32 {
    let low = value % 0x10000;
    if low >= 0x8000 {
        (low + 0xFFFF_0000) as u32
    } else {
        low as u32
    }
}

/// Address register `r` of a register file, A7 being the stack pointer.
pub open spec fn address_register_value(registers: RegisterFile, r: int) -> u32 {
    if r == 7 {
        registers.stack_pointer
    } else {
        registers.address_registers[r]
    }
}

/// The index register of an indexed operand.
#[derive(Debug, Clone, Copy)]
pub enum DisassembledIndex {
    Data(u8),
    Address(u8),
}

impl DisassembledIndex {
    /// The register is one of the eight of its kind.
    pub open spec fn wf(self) -> bool {
        match self {
            DisassembledIndex::Data(r) => r < 8,
            DisassembledIndex::Address(r) => r < 8,
        }
    }

    /// The value added by the index: the register, or its low word sign-extended.
    pub open spec fn resolved(self, registers: RegisterFile, size: IndexSize) -> u32 {
        let value = match self {
            DisassembledIndex::Data(r) => registers.data_registers[r as int],
            DisassembledIndex::Address(r) => address_register_value(registers, r as int),
        };
        match size {
            IndexSize::SignExtendedWord => sign_extend_word(value),
            IndexSize::LongWord => value,
        }
    }

    #[must_use]
    pub fn resolve(self, registers: &RegisterFile, size: IndexSize) -> (r: u32)
        requires
            self.wf(),
        ensures
            r == self.resolved(*registers, size),
    {
        let register_value = match self {
            DisassembledIndex::Data(r) => registers.data_registers[r as usize],
            DisassembledIndex::Address(7) => registers.stack_pointer,
            DisassembledIndex::Address(r) => registers.address_registers[r as usize],
        };

        match size {
            IndexSize::SignExtendedWord => {
                let low = register_value & 0xFFFF;
                proof {
                    assert(register_value & 0xFFFF == register_value % 0x10000 && (low < 0x10000
                        ==> low | 0xFFFF_0000 == low + 0xFFFF_0000)) by (bit_vector);
                }
                if low >= 0x8000 {
                    low | 0xFFFF_0000
                } else {
                    low
                }
            },
            IndexSize::LongWord => register_value,
        }
    }
}

/// The memory operand of a disassembled instruction.
#[derive(Debug, Clone, Copy)]
pub enum DisassembledMemoryAccess {
    Absolute { address: u32 },
    AddressIndirect { register: u8, displacement: i32, index: Option<(DisassembledIndex, IndexSize)> },
    PcRelative { pc: u32, displacement: i32, index: Option<(DisassembledIndex, IndexSize)> },
}

/// The value an optional index adds.
pub open spec fn index_value(index: Option<(DisassembledIndex, IndexSize)>, registers: RegisterFile) -> int {
    match index {
        Some((index, size)) => index.resolved(registers, size) as int,
        None => 0,
    }
}

/// An optional index names a register that exists.
pub open spec fn index_wf(index: Option<(DisassembledIndex, IndexSize)>) -> bool {
    match index {
        Some((index, _)) => index.wf(),
        None => true,
    }
}

impl DisassembledMemoryAccess {
    pub open spec fn wf(self) -> bool {
        match self {
            DisassembledMemoryAccess::Absolute { .. } => true,
            DisassembledMemoryAccess::AddressIndirect { register, index, .. } => register < 8
                && index_wf(index),
            DisassembledMemoryAccess::PcRelative { index, .. } => index_wf(index),
        }
    }

    /// The address accessed: an absolute address, or a base (address register or PC) plus the
    /// signed displacement plus the index, modulo 2^32.
    pub open spec fn resolved(self, registers: RegisterFile) -> u32 {
        match self {
            DisassembledMemoryAccess::Absolute { address } => address,
            DisassembledMemoryAccess::AddressIndirect { register, displacement, index } => wrap32(
                address_register_value(registers, register as int) + displacement + index_value(
                    index,
                    registers,
                ),
            ),
            DisassembledMemoryAccess::PcRelative { pc, displacement, index } => wrap32(
                pc + displacement + index_value(index, registers),
            ),
        }
    }

    #[must_use]
    pub fn resolve(self, registers: &RegisterFile) -> (r: u32)
        requires
            self.wf(),
        ensures
            r == self.resolved(*registers),
    {
        match self {
            DisassembledMemoryAccess::Absolute { address } => address,
            DisassembledMemoryAccess::AddressIndirect { register, displacement, index } => {
                let base = address_register(registers, register);
                offset_address(base.wrapping_add_signed(displacement), index, registers)
            },
            DisassembledMemoryAccess::PcRelative { pc, displacement, index } => {
                offset_address(pc.wrapping_add_signed(displacement), index, registers)
            },
        }
    }
}

fn address_register(registers: &RegisterFile, register: u8) -> (r: u32)
    requires
        register < 8,
    ensures
        r == address_register_value(*registers, register as int),
{
    match register {
        7 => registers.stack_pointer,
        _ => registers.address_registers[register as usize],
    }
}

/// An address plus an optional index, modulo 2^32.
fn offset_address(
    address: u32,
    index: Option<(DisassembledIndex, IndexSize)>,
    registers: &RegisterFile,
) -> (r: u32)
    requires
        index_wf(index),
    ensures
        r == wrap32(address + index_value(index, *registers)),
{
    match index {
        Some((index, size)) => address.wrapping_add(index.resolve(registers, size)),
        None => address,
    }
}

} // verus!
