//! Text of SH-2 opcodes for tracing, with the memory operand that each one reads or writes.
use crate::sh2::instructions::{rm_spec, rn_spec};
use crate::sh2::registers::Sh2Registers;
use crate::sh2::Sh2;
use crate::text::{decimal_digits, hex_digits, hex_string, push_decimal, signed_decimal};
use vstd::prelude::*;
use vstd::string::{StrSliceExecFns, StringExecFns};

verus! {

#[derive(Debug, Clone, Copy, PartialEq, Eq, Structural)]
pub enum MemoryAccessSize {
    Byte,
    Word,
    Longword,
}

/// Bytes moved by an access of a size.
pub open spec fn size_bytes(size: MemoryAccessSize) -> int {
    match size {
        MemoryAccessSize::Byte => 1,
        MemoryAccessSize::Word => 2,
        MemoryAccessSize::Longword => 4,
    }
}

/// A 32-bit address: a value reduced modulo 2^32.
pub open spec fn wrap32(x: int) -> u32 {
    (x % 0x1_0000_0000) as u32
}

#[derive(Debug, Clone, Copy)]
pub enum Displacement {
    Immediate(u32),
    Register(u16),
}

impl Displacement {
    /// A register displacement names one of the 16 general registers.
    pub open spec fn wf(self) -> bool {
        match self {
            Displacement::Register(r) => r < 16,
            Displacement::Immediate(_) => true,
        }
    }

    /// An immediate scaled by the access size, or the value of a register.
    pub open spec fn resolved(self, size: MemoryAccessSize, registers: Sh2Registers) -> u32 {
        match self {
            Displacement::Immediate(d) => wrap32(d * size_bytes(size)),
            Displacement::Register(r) => registers.gpr[r as int],
        }
    }

    #[must_use]
    pub fn resolve(self, size: MemoryAccessSize, cpu: &Sh2) -> (r: u32)
        requires
            self.wf(),
        ensures
            r == self.resolved(size, cpu.registers),
    {
        match self {
            Displacement::Immediate(displacement) => match size {
                MemoryAccessSize::Byte => displacement,
                MemoryAccessSize::Word => displacement.wrapping_mul(2),
                MemoryAccessSize::Longword => displacement.wrapping_mul(4),
            },
            Displacement::Register(r) => cpu.registers.gpr[r as usize],
        }
    }

    fn none() -> (d: Self)
        ensures
            d == Displacement::Immediate(0),
    {
        Displacement::Immediate(0)
    }
}

#[derive(Debug, Clone, Copy, PartialEq, Eq)]
pub enum ReadType {
    Load,
    /// The address itself is used: MOVA, JMP, JSR, BRAF, BSRF
    EffectiveAddress,
}

#[derive(Debug, Clone, Copy)]
pub enum MemoryAccess {
    IndirectR { register: u16, displacement: Displacement },
    IndirectRPredecrement { register: u16 },
    IndirectGbr { displacement: Displacement },
    PcRelative { pc: u32, displacement: Displacement },
}

impl MemoryAccess {
    /// Every register that the access names is one of the 16 general registers.
    pub open spec fn wf(self) -> bool {
        match self {
            MemoryAccess::IndirectR { register, displacement } => register < 16
                && displacement.wf(),
            MemoryAccess::IndirectRPredecrement { register } => register < 16,
            MemoryAccess::IndirectGbr { displacement } => displacement.wf(),
            MemoryAccess::PcRelative { displacement, .. } => displacement.wf(),
        }
    }

    /// The address accessed: a register (or GBR) plus the displacement, a register less the
    /// access size, or the PC of the instruction plus 4 (aligned down to 4 for longwords) plus
    /// the displacement; all modulo 2^32.
    pub open spec fn resolved_address(self, size: MemoryAccessSize, registers: Sh2Registers) -> u32 {
        match self {
            MemoryAccess::IndirectR { register, displacement } => wrap32(
                registers.gpr[register as int] + displacement.resolved(size, registers),
            ),
            MemoryAccess::IndirectRPredecrement { register } => wrap32(
                registers.gpr[register as int] - size_bytes(size),
            ),
            MemoryAccess::IndirectGbr { displacement } => wrap32(
                registers.gbr + displacement.resolved(size, registers),
            ),
            MemoryAccess::PcRelative { pc, displacement } => {
                let base = wrap32(pc + 4);
                let base = if size == MemoryAccessSize::Longword {
                    base - base % 4
                } else {
                    base as int
                };
                wrap32(base + displacement.resolved(size, registers))
            },
        }
    }

    #[must_use]
    pub fn resolve_address(self, size: MemoryAccessSize, cpu: &Sh2) -> (r: u32)
        requires
            self.wf(),
        ensures
            r == self.resolved_address(size, cpu.registers),
    {
        match self {
            MemoryAccess::IndirectR { register, displacement } => {
                let base = cpu.registers.gpr[register as usize];
                let offset = displacement.resolve(size, cpu);
                proof {
                    lemma_wrapping_add(base, offset);
                }
                base.wrapping_add(offset)
            },
            MemoryAccess::IndirectRPredecrement { register } => {
                let address = cpu.registers.gpr[register as usize];
                proof {
                    lemma_wrapping_sub(address, 1);
                    lemma_wrapping_sub(address, 2);
                    lemma_wrapping_sub(address, 4);
                }
                match size {
                    MemoryAccessSize::Byte => address.wrapping_sub(1),
                    MemoryAccessSize::Word => address.wrapping_sub(2),
                    MemoryAccessSize::Longword => address.wrapping_sub(4),
                }
            },
            MemoryAccess::IndirectGbr { displacement } => {
                let offset = displacement.resolve(size, cpu);
                proof {
                    lemma_wrapping_add(cpu.registers.gbr, offset);
                }
                cpu.registers.gbr.wrapping_add(offset)
            },
            MemoryAccess::PcRelative { pc, displacement } => {
                proof {
                    lemma_wrapping_add(pc, 4);
                }
                let mut pc = pc.wrapping_add(4);
                if size == MemoryAccessSize::Longword {
                    assert(pc & !3u32 == pc - pc % 4) by (bit_vector);
                    pc &= !3;
                }
                let offset = displacement.resolve(size, cpu);
                proof {
                    lemma_wrapping_add(pc, offset);
                }
                pc.wrapping_add(offset)
            },
        }
    }
}

proof fn lemma_wrapping_add(x: u32, y: u32)
    ensures
        x.wrapping_add(y) == wrap32(x + y),
{
}

proof fn lemma_wrapping_sub(x: u32, y: u32)
    ensures
        x.wrapping_sub(y) == wrap32(x - y),
{
}

/// A memory operand and its size.
pub type Access = (MemoryAccess, MemoryAccessSize);

pub struct DisassembledInstruction {
    pub pc: u32,
    pub text: String,
    pub opcode: u16,
    pub memory_read: Option<(MemoryAccess, MemoryAccessSize)>,
    pub memory_read_type: ReadType,
    pub memory_write: Option<(MemoryAccess, MemoryAccessSize)>,
}

/// No text and no memory operand.
pub open spec fn is_cleared(d: DisassembledInstruction) -> bool {
    &&& d.text@ == Seq::<char>::empty()
    &&& d.memory_read is None
    &&& d.memory_read_type == ReadType::Load
    &&& d.memory_write is None
}

impl Default for DisassembledInstruction {
    fn default() -> (r: Self)
        ensures
            r.pc == 0,
            r.opcode == 0,
            is_cleared(r),
    {
        Self::new()
    }
}

impl DisassembledInstruction {
    #[must_use]
    pub fn new() -> (r: Self)
        ensures
            r.pc == 0,
            r.opcode == 0,
            is_cleared(r),
    {
        Self {
            pc: 0,
            text: String::new(),
            opcode: 0,
            memory_read: None,
            memory_read_type: ReadType::Load,
            memory_write: None,
        }
    }

    pub fn clear(&mut self)
        ensures
            is_cleared(*final(self)),
            final(self).pc == old(self).pc,
            final(self).opcode == old(self).opcode,
    {
        self.text = String::new();
        self.memory_read = None;
        self.memory_read_type = ReadType::Load;
        self.memory_write = None;
    }
}

/// A byte field read as a two's complement value.
pub open spec fn signed8(raw: int) -> int {
    if raw >= 128 {
        raw - 256
    } else {
        raw
    }
}

/// A 12-bit field read as a two's complement value.
pub open spec fn signed12(raw: int) -> int {
    if raw >= 0x800 {
        raw - 0x1000
    } else {
        raw
    }
}

/// Eight upper-case hexadecimal digits, with leading zeros.
pub open spec fn hex8(n: u32) -> Seq<char> {
    Seq::new((8 - hex_digits(n as nat).len()) as nat, |_i: int| '0') + hex_digits(n as nat)
}

/// The target of a branch: the PC of the instruction plus 4 plus twice the displacement, modulo
/// 2^32.
pub open spec fn branch_target(pc: u32, displacement: int) -> u32 {
    wrap32(pc + 4 + 2 * displacement)
}

/// `16^k`
pub open spec fn hex_limit(k: nat) -> nat
    decreases k,
{
    if k == 0 {
        1
    } else {
        16 * hex_limit((k - 1) as nat)
    }
}

proof fn lemma_hex_digits_len(n: nat, k: nat)
    requires
        k >= 1,
        n < hex_limit(k),
    ensures
        hex_digits(n).len() <= k,
    decreases k,
{
    if n >= 16 {
        reveal_with_fuel(hex_limit, 2);
        assert(k >= 2);
        lemma_hex_digits_len(n / 16, (k - 1) as nat);
    }
}

fn push_dec(out: &mut String, n: u16)
    ensures
        final(out)@ == old(out)@ + dec(n),
{
    push_decimal(out, n as u32);
}

fn push_signed8(out: &mut String, raw: u16)
    requires
        raw < 256,
    ensures
        final(out)@ == old(out)@ + signed_decimal(signed8(raw as int)),
{
    proof {
        reveal_strlit("-");
    }
    if raw >= 128 {
        out.append("-");
        push_decimal(out, (256 - raw) as u32);
    } else {
        push_decimal(out, raw as u32);
    }
}

fn push_hex8(out: &mut String, n: u32)
    ensures
        final(out)@ == old(out)@ + hex8(n),
{
    proof {
        reveal_strlit("0");
        reveal_with_fuel(hex_limit, 9);
        lemma_hex_digits_len(n as nat, 8);
    }
    let digits = hex_string(n);
    let len = digits.as_str().unicode_len();
    let ghost start = out@;
    let mut i: usize = len;
    while i < 8
        invariant
            len == hex_digits(n as nat).len(),
            len <= i <= 8,
            out@ == start + Seq::new((i - len) as nat, |_i: int| '0'),
        decreases 8 - i,
    {
        proof {
            reveal_strlit("0");
        }
        out.append("0");
        assert(Seq::new((i + 1 - len) as nat, |_i: int| '0') =~= Seq::new(
            (i - len) as nat,
            |_i: int| '0',
        ).push('0'));
        i += 1;
    }
    out.append(digits.as_str());
}

fn branch_destination(pc: u32, negative: bool, magnitude: u32) -> (r: u32)
    requires
        magnitude <= 0x1000,
    ensures
        r == branch_target(pc, if negative { -magnitude } else { magnitude as int }),
{
    let base = pc.wrapping_add(4);
    if negative {
        base.wrapping_sub(2 * magnitude)
    } else {
        base.wrapping_add(2 * magnitude)
    }
}


/// What the disassembler gives for an opcode: its text, the memory operand that it reads (and
/// whether it loads from it or only takes its address), and the memory operand that it writes.
pub struct Disassembly {
    pub text: Seq<char>,
    pub memory_read: Option<Access>,
    pub memory_read_type: ReadType,
    pub memory_write: Option<Access>,
}

pub open spec fn plain(text: Seq<char>) -> Disassembly {
    Disassembly { text, memory_read: None, memory_read_type: ReadType::Load, memory_write: None }
}

pub open spec fn reads(text: Seq<char>, access: MemoryAccess, size: MemoryAccessSize) -> Disassembly {
    Disassembly {
        text,
        memory_read: Some((access, size)),
        memory_read_type: ReadType::Load,
        memory_write: None,
    }
}

pub open spec fn takes_address(
    text: Seq<char>,
    access: MemoryAccess,
    size: MemoryAccessSize,
) -> Disassembly {
    Disassembly {
        text,
        memory_read: Some((access, size)),
        memory_read_type: ReadType::EffectiveAddress,
        memory_write: None,
    }
}

pub open spec fn writes(text: Seq<char>, access: MemoryAccess, size: MemoryAccessSize) -> Disassembly {
    Disassembly {
        text,
        memory_read: None,
        memory_read_type: ReadType::Load,
        memory_write: Some((access, size)),
    }
}

pub open spec fn reads_writes(
    text: Seq<char>,
    read: MemoryAccess,
    write: MemoryAccess,
    size: MemoryAccessSize,
) -> Disassembly {
    Disassembly {
        text,
        memory_read: Some((read, size)),
        memory_read_type: ReadType::Load,
        memory_write: Some((write, size)),
    }
}

/// Register operand in bits 11-8.
pub open spec fn high(opcode: u16) -> u16 {
    (opcode >> 8) & 0xF
}

/// Register operand in bits 7-4.
pub open spec fn low(opcode: u16) -> u16 {
    (opcode >> 4) & 0xF
}

/// Decimal text of a register number or displacement.
pub open spec fn dec(n: u16) -> Seq<char> {
    decimal_digits(n as nat)
}

/// The low byte of an opcode as a signed decimal immediate.
pub open spec fn simm8_text(opcode: u16) -> Seq<char> {
    signed_decimal(signed8((opcode & 0xFF) as int))
}

pub open spec fn ind(register: u16, displacement: Displacement) -> MemoryAccess {
    MemoryAccess::IndirectR { register, displacement }
}

/// The access size of a two-bit size code: byte, word, longword.
pub open spec fn size_of_code(code: u16) -> MemoryAccessSize {
    if code == 0 {
        MemoryAccessSize::Byte
    } else if code == 1 {
        MemoryAccessSize::Word
    } else {
        MemoryAccessSize::Longword
    }
}

pub open spec fn size_suffix(size: MemoryAccessSize) -> Seq<char> {
    match size {
        MemoryAccessSize::Byte => "b"@,
        MemoryAccessSize::Word => "w"@,
        MemoryAccessSize::Longword => "l"@,
    }
}

/// SR, GBR, VBR by index.
pub open spec fn control_register(index: u16) -> Seq<char> {
    if index == 0 {
        "sr"@
    } else if index == 1 {
        "gbr"@
    } else {
        "vbr"@
    }
}

/// MACH, MACL, PR by index.
pub open spec fn system_register(index: u16) -> Seq<char> {
    if index == 0 {
        "mach"@
    } else if index == 1 {
        "macl"@
    } else {
        "pr"@
    }
}

pub open spec fn view_str(s: Option<&'static str>) -> Option<Seq<char>> {
    match s {
        Some(s) => Some(s@),
        None => None,
    }
}

/// Opcodes without operands.
pub open spec fn fixed_mnemonic(opcode: u16) -> Option<Seq<char>> {
    match opcode {
        0x0019 => Some("div0u"@),
        0x000B => Some("rts"@),
        0x0008 => Some("clrt"@),
        0x0028 => Some("clrmac"@),
        0x0009 => Some("nop"@),
        0x002B => Some("rte"@),
        0x0018 => Some("sett"@),
        0x001B => Some("sleep"@),
        _ => None,
    }
}

/// Operations on two registers, `op Rm, Rn`, by the opcode's bits 15-12 and 3-0.
pub open spec fn register_pair_mnemonic(key: u16) -> Option<Seq<char>> {
    match key {
        0x6003 => Some("mov"@),
        0x6008 => Some("swap.b"@),
        0x6009 => Some("swap.w"@),
        0x200D => Some("xtrct"@),
        0x300C => Some("add"@),
        0x300E => Some("addc"@),
        0x300F => Some("addv"@),
        0x3000 => Some("cmp/eq"@),
        0x3002 => Some("cmp/hs"@),
        0x3003 => Some("cmp/ge"@),
        0x3006 => Some("cmp/hi"@),
        0x3007 => Some("cmp/gt"@),
        0x200C => Some("cmp/str"@),
        0x3004 => Some("div1"@),
        0x2007 => Some("div0s"@),
        0x300D => Some("dmuls.l"@),
        0x3005 => Some("dmulu.l"@),
        0x600E => Some("exts.b"@),
        0x600F => Some("exts.w"@),
        0x600C => Some("extu.b"@),
        0x600D => Some("extu.w"@),
        0x0007 => Some("mul.l"@),
        0x200F => Some("muls.w"@),
        0x200E => Some("mulu.w"@),
        0x600B => Some("neg"@),
        0x600A => Some("negc"@),
        0x3008 => Some("sub"@),
        0x300A => Some("subc"@),
        0x300B => Some("subv"@),
        0x2009 => Some("and"@),
        0x6007 => Some("not"@),
        0x200B => Some("or"@),
        0x2008 => Some("tst"@),
        0x200A => Some("xor"@),
        _ => None,
    }
}

/// Opcodes by bits 15-12 and 3-0: register pairs and register-indirect moves.
pub open spec fn xnnx(opcode: u16) -> Option<Disassembly> {
    let key = opcode & 0xF00F;
    let m = low(opcode);
    let n = high(opcode);
    let size = size_of_code(key & 3);
    let sfx = size_suffix(size);
    let none = Displacement::Immediate(0);
    match register_pair_mnemonic(key) {
        Some(mnemonic) => Some(plain(mnemonic + " r"@ + dec(m) + ", r"@ + dec(n))),
        None => match key {
            0x2000 | 0x2001 | 0x2002 => Some(
                writes("mov."@ + sfx + " r"@ + dec(m) + ", @r"@ + dec(n), ind(n, none), size),
            ),
            0x6000 | 0x6001 | 0x6002 => Some(
                reads("mov."@ + sfx + " @r"@ + dec(m) + ", r"@ + dec(n), ind(m, none), size),
            ),
            0x2004 | 0x2005 | 0x2006 => Some(
                writes(
                    "mov."@ + sfx + " r"@ + dec(m) + ", @-r"@ + dec(n),
                    MemoryAccess::IndirectRPredecrement { register: n },
                    size,
                ),
            ),
            0x6004 | 0x6005 | 0x6006 => Some(
                reads("mov."@ + sfx + " @r"@ + dec(m) + "+, r"@ + dec(n), ind(m, none), size),
            ),
            0x0004 | 0x0005 | 0x0006 => Some(
                writes(
                    "mov."@ + sfx + " r"@ + dec(m) + ", @(r0,r"@ + dec(n) + ")"@,
                    ind(n, Displacement::Register(0)),
                    size,
                ),
            ),
            0x000C | 0x000D | 0x000E => Some(
                reads(
                    "mov."@ + sfx + " @(r0,r"@ + dec(m) + "), r"@ + dec(n),
                    ind(m, Displacement::Register(0)),
                    size,
                ),
            ),
            0x000F => Some(
                reads_writes(
                    "mac.l @r"@ + dec(m) + "+, @r"@ + dec(n) + "+"@,
                    ind(m, none),
                    ind(n, none),
                    MemoryAccessSize::Longword,
                ),
            ),
            0x400F => Some(
                reads_writes(
                    "mac.w @r"@ + dec(m) + "+, @r"@ + dec(n) + "+"@,
                    ind(m, none),
                    ind(n, none),
                    MemoryAccessSize::Word,
                ),
            ),
            _ => None,
        },
    }
}


/// `op #imm, R0` with an unsigned immediate.
pub open spec fn immediate_mnemonic(key: u16) -> Option<Seq<char>> {
    match key {
        0xC900 => Some("and"@),
        0xCB00 => Some("or"@),
        0xC800 => Some("tst"@),
        0xCA00 => Some("xor"@),
        _ => None,
    }
}

/// `op.b #imm, @(R0,GBR)`: read, modify and write a byte.
pub open spec fn gbr_byte_mnemonic(key: u16) -> Option<Seq<char>> {
    match key {
        0xCD00 => Some("and.b"@),
        0xCF00 => Some("or.b"@),
        0xCC00 => Some("tst.b"@),
        0xCE00 => Some("xor.b"@),
        _ => None,
    }
}

/// Conditional branches with an 8-bit displacement.
pub open spec fn conditional_branch_mnemonic(key: u16) -> Option<Seq<char>> {
    match key {
        0x8B00 => Some("bf"@),
        0x8F00 => Some("bf/s"@),
        0x8900 => Some("bt"@),
        0x8D00 => Some("bt/s"@),
        _ => None,
    }
}

/// Opcodes by bits 15-8: displacement moves, immediates and conditional branches.
pub open spec fn xxnn(pc: u32, opcode: u16) -> Option<Disassembly> {
    let key = opcode & 0xFF00;
    let m = low(opcode);
    let d4 = opcode & 0xF;
    let d8 = opcode & 0xFF;
    let size = size_of_code((key >> 8) & 3);
    let sfx = size_suffix(size);
    match key {
        0x8000 | 0x8100 => Some(
            writes(
                "mov."@ + sfx + " r0, @("@ + dec(d4) + ",r"@ + dec(m) + ")"@,
                ind(m, Displacement::Immediate(d4 as u32)),
                size,
            ),
        ),
        0x8400 | 0x8500 => Some(
            reads(
                "mov."@ + sfx + " @("@ + dec(d4) + ",r"@ + dec(m) + "), r0"@,
                ind(m, Displacement::Immediate(d4 as u32)),
                size,
            ),
        ),
        0xC000 | 0xC100 | 0xC200 => Some(
            writes(
                "mov."@ + sfx + " r0, @("@ + dec(d8) + ",gbr)"@,
                MemoryAccess::IndirectGbr { displacement: Displacement::Immediate(d8 as u32) },
                size,
            ),
        ),
        0xC400 | 0xC500 | 0xC600 => Some(
            reads(
                "mov."@ + sfx + " @("@ + dec(d8) + ",gbr), r0"@,
                MemoryAccess::IndirectGbr { displacement: Displacement::Immediate(d8 as u32) },
                size,
            ),
        ),
        0xC700 => Some(
            takes_address(
                "mova @("@ + dec(d8) + ",pc), r0"@,
                MemoryAccess::PcRelative { pc, displacement: Displacement::Immediate(d8 as u32) },
                MemoryAccessSize::Longword,
            ),
        ),
        0x8800 => Some(plain("cmp/eq #"@ + simm8_text(opcode) + ", r0"@)),
        0xC300 => Some(plain("trapa #"@ + dec(d8))),
        _ => match immediate_mnemonic(key) {
            Some(mnemonic) => Some(plain(mnemonic + " #"@ + dec(d8) + ", r0"@)),
            None => match gbr_byte_mnemonic(key) {
                Some(mnemonic) => Some(
                    reads_writes(
                        mnemonic + " #"@ + dec(d8) + ", @(r0,gbr)"@,
                        MemoryAccess::IndirectGbr { displacement: Displacement::Register(0) },
                        MemoryAccess::IndirectGbr { displacement: Displacement::Register(0) },
                        MemoryAccessSize::Byte,
                    ),
                ),
                None => match conditional_branch_mnemonic(key) {
                    Some(mnemonic) => Some(
                        plain(
                            mnemonic + " $"@ + hex8(branch_target(pc, signed8(d8 as int))),
                        ),
                    ),
                    None => None,
                },
            },
        },
    }
}

/// Operations on one register, `op Rn`, by the opcode's bits 15-12 and 7-0.
pub open spec fn single_register_mnemonic(key: u16) -> Option<Seq<char>> {
    match key {
        0x0029 => Some("movt"@),
        0x4011 => Some("cmp/pz"@),
        0x4015 => Some("cmp/pl"@),
        0x4010 => Some("dt"@),
        0x4004 => Some("rotl"@),
        0x4005 => Some("rotr"@),
        0x4024 => Some("rotcl"@),
        0x4025 => Some("rotcr"@),
        0x4020 => Some("shal"@),
        0x4021 => Some("shar"@),
        0x4000 => Some("shll"@),
        0x4001 => Some("shlr"@),
        0x4008 => Some("shll2"@),
        0x4009 => Some("shlr2"@),
        0x4018 => Some("shll8"@),
        0x4019 => Some("shlr8"@),
        0x4028 => Some("shll16"@),
        0x4029 => Some("shlr16"@),
        _ => None,
    }
}

/// Different register-pair operations, and different single-register operations, have
/// different mnemonics; the logic operations on an immediate are named as on two registers, and
/// their byte forms on @(R0,GBR) add `.b` to that name.
pub proof fn lemma_mnemonics_distinct(a: u16, b: u16)
    ensures
        a != b && register_pair_mnemonic(a) is Some && register_pair_mnemonic(b) is Some
            ==> register_pair_mnemonic(a) != register_pair_mnemonic(b),
        a != b && single_register_mnemonic(a) is Some && single_register_mnemonic(b) is Some
            ==> single_register_mnemonic(a) != single_register_mnemonic(b),
        immediate_mnemonic(0xC900) == register_pair_mnemonic(0x2009),
        immediate_mnemonic(0xCB00) == register_pair_mnemonic(0x200B),
        immediate_mnemonic(0xC800) == register_pair_mnemonic(0x2008),
        immediate_mnemonic(0xCA00) == register_pair_mnemonic(0x200A),
        forall|k: u16|
            #[trigger] gbr_byte_mnemonic(k) is Some ==> immediate_mnemonic((k - 0x0400) as u16) is Some
                && gbr_byte_mnemonic(k)->0 == immediate_mnemonic((k - 0x0400) as u16)->0 + ".b"@,
{
    reveal_strlit("add");
    reveal_strlit("addc");
    reveal_strlit("addv");
    reveal_strlit("and");
    reveal_strlit("and.b");
    reveal_strlit("bf");
    reveal_strlit("bf/s");
    reveal_strlit("bt");
    reveal_strlit("bt/s");
    reveal_strlit("cmp/eq");
    reveal_strlit("cmp/ge");
    reveal_strlit("cmp/gt");
    reveal_strlit("cmp/hi");
    reveal_strlit("cmp/hs");
    reveal_strlit("cmp/pl");
    reveal_strlit("cmp/pz");
    reveal_strlit("cmp/str");
    reveal_strlit("div0s");
    reveal_strlit("div1");
    reveal_strlit("dmuls.l");
    reveal_strlit("dmulu.l");
    reveal_strlit("dt");
    reveal_strlit("exts.b");
    reveal_strlit("exts.w");
    reveal_strlit("extu.b");
    reveal_strlit("extu.w");
    reveal_strlit("mov");
    reveal_strlit("movt");
    reveal_strlit("mul.l");
    reveal_strlit("muls.w");
    reveal_strlit("mulu.w");
    reveal_strlit("neg");
    reveal_strlit("negc");
    reveal_strlit("not");
    reveal_strlit("or");
    reveal_strlit("or.b");
    reveal_strlit("rotcl");
    reveal_strlit("rotcr");
    reveal_strlit("rotl");
    reveal_strlit("rotr");
    reveal_strlit("shal");
    reveal_strlit("shar");
    reveal_strlit("shll");
    reveal_strlit("shll16");
    reveal_strlit("shll2");
    reveal_strlit("shll8");
    reveal_strlit("shlr");
    reveal_strlit("shlr16");
    reveal_strlit("shlr2");
    reveal_strlit("shlr8");
    reveal_strlit("sub");
    reveal_strlit("subc");
    reveal_strlit("subv");
    reveal_strlit("swap.b");
    reveal_strlit("swap.w");
    reveal_strlit("tst");
    reveal_strlit("tst.b");
    reveal_strlit("xor");
    reveal_strlit("xor.b");
    reveal_strlit("xtrct");
    reveal_strlit(".b");
    if a != b && register_pair_mnemonic(a) is Some && register_pair_mnemonic(b) is Some
        && register_pair_mnemonic(a) == register_pair_mnemonic(b) {
        let x = register_pair_mnemonic(a)->0;
        let y = register_pair_mnemonic(b)->0;
        assert(x.len() == y.len());
        assert(x.len() > 0 ==> x[0] == y[0]);
        assert(x.len() > 1 ==> x[1] == y[1]);
        assert(x.len() > 2 ==> x[2] == y[2]);
        assert(x.len() > 3 ==> x[3] == y[3]);
        assert(x.len() > 4 ==> x[4] == y[4]);
        assert(x.len() > 5 ==> x[5] == y[5]);
        assert(x.len() > 6 ==> x[6] == y[6]);
    }
    if a != b && single_register_mnemonic(a) is Some && single_register_mnemonic(b) is Some
        && single_register_mnemonic(a) == single_register_mnemonic(b) {
        let x = single_register_mnemonic(a)->0;
        let y = single_register_mnemonic(b)->0;
        assert(x.len() == y.len());
        assert(x.len() > 0 ==> x[0] == y[0]);
        assert(x.len() > 1 ==> x[1] == y[1]);
        assert(x.len() > 2 ==> x[2] == y[2]);
        assert(x.len() > 3 ==> x[3] == y[3]);
        assert(x.len() > 4 ==> x[4] == y[4]);
        assert(x.len() > 5 ==> x[5] == y[5]);
        assert(x.len() > 6 ==> x[6] == y[6]);
    }
    assert forall|k: u16| #[trigger] gbr_byte_mnemonic(k) is Some implies immediate_mnemonic((k - 0x0400) as u16) is Some
        && gbr_byte_mnemonic(k)->0 == immediate_mnemonic((k - 0x0400) as u16)->0 + ".b"@ by {
        assert(gbr_byte_mnemonic(k)->0 =~= immediate_mnemonic((k - 0x0400) as u16)->0 + ".b"@);
    }
}

/// Opcodes by bits 15-12 and 7-0: one register, with jumps and control/system register moves.
pub open spec fn xnxx(pc: u32, opcode: u16) -> Option<Disassembly> {
    let key = opcode & 0xF0FF;
    let n = high(opcode);
    let index = (key >> 4) & 3;
    let none = Displacement::Immediate(0);
    let predecrement = MemoryAccess::IndirectRPredecrement { register: n };
    let long = MemoryAccessSize::Longword;
    match single_register_mnemonic(key) {
        Some(mnemonic) => Some(plain(mnemonic + " r"@ + dec(n))),
        None => match key {
            0x401B => Some(
                reads_writes("tas.b @r"@ + dec(n), ind(n, none), ind(n, none), MemoryAccessSize::Byte),
            ),
            0x0023 => Some(
                takes_address(
                    "braf r"@ + dec(n),
                    MemoryAccess::PcRelative { pc, displacement: Displacement::Register(n) },
                    MemoryAccessSize::Word,
                ),
            ),
            0x0003 => Some(
                takes_address(
                    "bsrf r"@ + dec(n),
                    MemoryAccess::PcRelative { pc, displacement: Displacement::Register(n) },
                    MemoryAccessSize::Word,
                ),
            ),
            0x402B => Some(takes_address("jmp @r"@ + dec(n), ind(n, none), long)),
            0x400B => Some(takes_address("jsr @r"@ + dec(n), ind(n, none), long)),
            0x400E | 0x401E | 0x402E => Some(
                plain("ldc r"@ + dec(n) + ", "@ + control_register(index)),
            ),
            0x400A | 0x401A | 0x402A => Some(
                plain("lds r"@ + dec(n) + ", "@ + system_register(index)),
            ),
            0x4007 | 0x4017 | 0x4027 => Some(
                reads("ldc.l @r"@ + dec(n) + "+, "@ + control_register(index), ind(n, none), long),
            ),
            0x4006 | 0x4016 | 0x4026 => Some(
                reads("lds.l @r"@ + dec(n) + "+, "@ + system_register(index), ind(n, none), long),
            ),
            0x0002 | 0x0012 | 0x0022 => Some(
                plain("stc "@ + control_register(index) + ", r"@ + dec(n)),
            ),
            0x000A | 0x001A | 0x002A => Some(
                plain("sts "@ + system_register(index) + ", r"@ + dec(n)),
            ),
            0x4003 | 0x4013 | 0x4023 => Some(
                writes("stc.l "@ + control_register(index) + ", @-r"@ + dec(n), predecrement, long),
            ),
            0x4002 | 0x4012 | 0x4022 => Some(
                writes("sts.l "@ + system_register(index) + ", @-r"@ + dec(n), predecrement, long),
            ),
            _ => None,
        },
    }
}

/// Opcodes by bits 15-12: immediates, PC-relative loads, displacement moves and branches; any
/// other opcode is illegal.
///
/// The displacement load `mov.l @(disp,Rm), Rn` names bits 11-8 both as base and as destination.
pub open spec fn xnnn(pc: u32, opcode: u16) -> Disassembly {
    let key = opcode & 0xF000;
    let m = low(opcode);
    let n = high(opcode);
    let d4 = opcode & 0xF;
    let d8 = opcode & 0xFF;
    let d12 = opcode & 0xFFF;
    match key {
        0xE000 => plain("mov.b #"@ + simm8_text(opcode) + ", r"@ + dec(n)),
        0x9000 => reads(
            "mov.w @("@ + dec(d8) + ",pc), r"@ + dec(n),
            MemoryAccess::PcRelative { pc, displacement: Displacement::Immediate(d8 as u32) },
            MemoryAccessSize::Word,
        ),
        0xD000 => reads(
            "mov.l @("@ + dec(d8) + ",pc), r"@ + dec(n),
            MemoryAccess::PcRelative { pc, displacement: Displacement::Immediate(d8 as u32) },
            MemoryAccessSize::Longword,
        ),
        0x1000 => writes(
            "mov.l r"@ + dec(m) + ", @("@ + dec(d4) + ",r"@ + dec(n) + ")"@,
            ind(n, Displacement::Immediate(d4 as u32)),
            MemoryAccessSize::Longword,
        ),
        0x5000 => reads(
            "mov.l @("@ + dec(d4) + ",r"@ + dec(n) + "), r"@ + dec(n),
            ind(n, Displacement::Immediate(d4 as u32)),
            MemoryAccessSize::Longword,
        ),
        0x7000 => plain("add #"@ + simm8_text(opcode) + ", r"@ + dec(n)),
        0xA000 => plain("bra $"@ + hex8(branch_target(pc, signed12(d12 as int)))),
        0xB000 => plain("bsr $"@ + hex8(branch_target(pc, signed12(d12 as int)))),
        _ => plain("illegal"@),
    }
}

pub open spec fn from_xnxx(pc: u32, opcode: u16) -> Disassembly {
    match xnxx(pc, opcode) {
        Some(d) => d,
        None => xnnn(pc, opcode),
    }
}

pub open spec fn from_xxnn(pc: u32, opcode: u16) -> Disassembly {
    match xxnn(pc, opcode) {
        Some(d) => d,
        None => from_xnxx(pc, opcode),
    }
}

pub open spec fn from_xnnx(pc: u32, opcode: u16) -> Disassembly {
    match xnnx(opcode) {
        Some(d) => d,
        None => from_xxnn(pc, opcode),
    }
}

/// The disassembly of an opcode at an address: the first of the operand-less opcodes, then the
/// opcode groups by bits 15-12 and 3-0, by bits 15-8, by bits 15-12 and 7-0, and by bits 15-12,
/// that has the opcode.
pub open spec fn disassembly(pc: u32, opcode: u16) -> Disassembly {
    match fixed_mnemonic(opcode) {
        Some(text) => plain(text),
        None => from_xnnx(pc, opcode),
    }
}

/// The output holds a disassembly's memory operands, and its other fields are as they were.
pub open spec fn holds_operands(
    after: DisassembledInstruction,
    before: DisassembledInstruction,
    d: Disassembly,
) -> bool {
    &&& after.memory_read == d.memory_read
    &&& after.memory_read_type == d.memory_read_type
    &&& after.memory_write == d.memory_write
    &&& after.pc == before.pc
    &&& after.opcode == before.opcode
    &&& after.text@ == before.text@
}

/// No memory operand is recorded.
pub open spec fn no_operands(d: DisassembledInstruction) -> bool {
    &&& d.memory_read is None
    &&& d.memory_read_type == ReadType::Load
    &&& d.memory_write is None
}


fn fixed_mnemonic_str(opcode: u16) -> (r: Option<&'static str>)
    ensures
        view_str(r) == fixed_mnemonic(opcode),
{
    match opcode {
        0x0019 => Some("div0u"),
        0x000B => Some("rts"),
        0x0008 => Some("clrt"),
        0x0028 => Some("clrmac"),
        0x0009 => Some("nop"),
        0x002B => Some("rte"),
        0x0018 => Some("sett"),
        0x001B => Some("sleep"),
        _ => None,
    }
}

fn register_pair_mnemonic_str(key: u16) -> (r: Option<&'static str>)
    ensures
        view_str(r) == register_pair_mnemonic(key),
{
    match key {
        0x6003 => Some("mov"),
        0x6008 => Some("swap.b"),
        0x6009 => Some("swap.w"),
        0x200D => Some("xtrct"),
        0x300C => Some("add"),
        0x300E => Some("addc"),
        0x300F => Some("addv"),
        0x3000 => Some("cmp/eq"),
        0x3002 => Some("cmp/hs"),
        0x3003 => Some("cmp/ge"),
        0x3006 => Some("cmp/hi"),
        0x3007 => Some("cmp/gt"),
        0x200C => Some("cmp/str"),
        0x3004 => Some("div1"),
        0x2007 => Some("div0s"),
        0x300D => Some("dmuls.l"),
        0x3005 => Some("dmulu.l"),
        0x600E => Some("exts.b"),
        0x600F => Some("exts.w"),
        0x600C => Some("extu.b"),
        0x600D => Some("extu.w"),
        0x0007 => Some("mul.l"),
        0x200F => Some("muls.w"),
        0x200E => Some("mulu.w"),
        0x600B => Some("neg"),
        0x600A => Some("negc"),
        0x3008 => Some("sub"),
        0x300A => Some("subc"),
        0x300B => Some("subv"),
        0x2009 => Some("and"),
        0x6007 => Some("not"),
        0x200B => Some("or"),
        0x2008 => Some("tst"),
        0x200A => Some("xor"),
        _ => None,
    }
}

fn immediate_mnemonic_str(key: u16) -> (r: Option<&'static str>)
    ensures
        view_str(r) == immediate_mnemonic(key),
{
    match key {
        0xC900 => Some("and"),
        0xCB00 => Some("or"),
        0xC800 => Some("tst"),
        0xCA00 => Some("xor"),
        _ => None,
    }
}

fn gbr_byte_mnemonic_str(key: u16) -> (r: Option<&'static str>)
    ensures
        view_str(r) == gbr_byte_mnemonic(key),
{
    match key {
        0xCD00 => Some("and.b"),
        0xCF00 => Some("or.b"),
        0xCC00 => Some("tst.b"),
        0xCE00 => Some("xor.b"),
        _ => None,
    }
}

fn conditional_branch_mnemonic_str(key: u16) -> (r: Option<&'static str>)
    ensures
        view_str(r) == conditional_branch_mnemonic(key),
{
    match key {
        0x8B00 => Some("bf"),
        0x8F00 => Some("bf/s"),
        0x8900 => Some("bt"),
        0x8D00 => Some("bt/s"),
        _ => None,
    }
}

fn single_register_mnemonic_str(key: u16) -> (r: Option<&'static str>)
    ensures
        view_str(r) == single_register_mnemonic(key),
{
    match key {
        0x0029 => Some("movt"),
        0x4011 => Some("cmp/pz"),
        0x4015 => Some("cmp/pl"),
        0x4010 => Some("dt"),
        0x4004 => Some("rotl"),
        0x4005 => Some("rotr"),
        0x4024 => Some("rotcl"),
        0x4025 => Some("rotcr"),
        0x4020 => Some("shal"),
        0x4021 => Some("shar"),
        0x4000 => Some("shll"),
        0x4001 => Some("shlr"),
        0x4008 => Some("shll2"),
        0x4009 => Some("shlr2"),
        0x4018 => Some("shll8"),
        0x4019 => Some("shlr8"),
        0x4028 => Some("shll16"),
        0x4029 => Some("shlr16"),
        _ => None,
    }
}

fn size_of_code_exec(code: u16) -> (r: MemoryAccessSize)
    ensures
        r == size_of_code(code),
{
    if code == 0 {
        MemoryAccessSize::Byte
    } else if code == 1 {
        MemoryAccessSize::Word
    } else {
        MemoryAccessSize::Longword
    }
}

fn size_suffix_str(size: MemoryAccessSize) -> (r: &'static str)
    ensures
        r@ == size_suffix(size),
{
    match size {
        MemoryAccessSize::Byte => "b",
        MemoryAccessSize::Word => "w",
        MemoryAccessSize::Longword => "l",
    }
}

fn control_register_str(index: u16) -> (r: &'static str)
    ensures
        r@ == control_register(index),
{
    if index == 0 {
        "sr"
    } else if index == 1 {
        "gbr"
    } else {
        "vbr"
    }
}

fn system_register_str(index: u16) -> (r: &'static str)
    ensures
        r@ == system_register(index),
{
    if index == 0 {
        "mach"
    } else if index == 1 {
        "macl"
    } else {
        "pr"
    }
}

fn parse_register_high(opcode: u16) -> (r: u16)
    ensures
        r == high(opcode),
        r < 16,
{
    proof {
        crate::bit_facts::lemma_u16_fields(opcode);
    }
    (opcode >> 8) & 0xF
}

fn parse_register_low(opcode: u16) -> (r: u16)
    ensures
        r == low(opcode),
        r < 16,
{
    proof {
        crate::bit_facts::lemma_u16_fields(opcode);
    }
    (opcode >> 4) & 0xF
}

/// `text` followed by the decimal number `n`.
fn text_dec(text: &str, n: u16) -> (r: String)
    ensures
        r@ == text@ + dec(n),
{
    let mut t = String::from_str(text);
    push_dec(&mut t, n);
    t
}


/// The output holds exactly a disassembly: its text and its memory operands.
pub open spec fn describes(out: DisassembledInstruction, d: Disassembly) -> bool {
    &&& out.text@ == d.text
    &&& out.memory_read == d.memory_read
    &&& out.memory_read_type == d.memory_read_type
    &&& out.memory_write == d.memory_write
}

/// Disassembles an opcode fetched at `pc` into `out`: its text and the memory operands that it
/// reads and writes. The address and opcode fields of `out` are left as they were.
pub fn disassemble_into(pc: u32, opcode: u16, out: &mut DisassembledInstruction)
    ensures
        describes(*final(out), disassembly(pc, opcode)),
        final(out).pc == old(out).pc,
        final(out).opcode == old(out).opcode,
{
    out.clear();

    let text = match fixed_mnemonic_str(opcode) {
        Some(text) => String::from_str(text),
        None => decode_xnnx(pc, opcode, out),
    };
    out.text = text;
}

fn decode_xnnx(pc: u32, opcode: u16, out: &mut DisassembledInstruction) -> (r: String)
    requires
        no_operands(*old(out)),
    ensures
        r@ == from_xnnx(pc, opcode).text,
        holds_operands(*final(out), *old(out), from_xnnx(pc, opcode)),
{
    let key = opcode & 0xF00F;
    let m = parse_register_low(opcode);
    let n = parse_register_high(opcode);
    match register_pair_mnemonic_str(key) {
        Some(mnemonic) => {
            let mut t = String::from_str(mnemonic);
            t.append(" r");
            push_dec(&mut t, m);
            t.append(", r");
            push_dec(&mut t, n);
            t
        },
        None => {
            let size = size_of_code_exec(key & 3);
            let sfx = size_suffix_str(size);
            match key {
                0x2000 | 0x2001 | 0x2002 => {
                    out.memory_write = Some(
                        (
                            MemoryAccess::IndirectR {
                                register: n,
                                displacement: Displacement::none(),
                            },
                            size,
                        ),
                    );
                    let mut t = String::from_str("mov.");
                    t.append(sfx);
                    t.append(" r");
                    push_dec(&mut t, m);
                    t.append(", @r");
                    push_dec(&mut t, n);
                    t
                },
                0x6000 | 0x6001 | 0x6002 => {
                    out.memory_read = Some(
                        (
                            MemoryAccess::IndirectR {
                                register: m,
                                displacement: Displacement::none(),
                            },
                            size,
                        ),
                    );
                    let mut t = String::from_str("mov.");
                    t.append(sfx);
                    t.append(" @r");
                    push_dec(&mut t, m);
                    t.append(", r");
                    push_dec(&mut t, n);
                    t
                },
                0x2004 | 0x2005 | 0x2006 => {
                    out.memory_write = Some(
                        (MemoryAccess::IndirectRPredecrement { register: n }, size),
                    );
                    let mut t = String::from_str("mov.");
                    t.append(sfx);
                    t.append(" r");
                    push_dec(&mut t, m);
                    t.append(", @-r");
                    push_dec(&mut t, n);
                    t
                },
                0x6004 | 0x6005 | 0x6006 => {
                    out.memory_read = Some(
                        (
                            MemoryAccess::IndirectR {
                                register: m,
                                displacement: Displacement::none(),
                            },
                            size,
                        ),
                    );
                    let mut t = String::from_str("mov.");
                    t.append(sfx);
                    t.append(" @r");
                    push_dec(&mut t, m);
                    t.append("+, r");
                    push_dec(&mut t, n);
                    t
                },
                0x0004 | 0x0005 | 0x0006 => {
                    out.memory_write = Some(
                        (
                            MemoryAccess::IndirectR {
                                register: n,
                                displacement: Displacement::Register(0),
                            },
                            size,
                        ),
                    );
                    let mut t = String::from_str("mov.");
                    t.append(sfx);
                    t.append(" r");
                    push_dec(&mut t, m);
                    t.append(", @(r0,r");
                    push_dec(&mut t, n);
                    t.append(")");
                    t
                },
                0x000C | 0x000D | 0x000E => {
                    out.memory_read = Some(
                        (
                            MemoryAccess::IndirectR {
                                register: m,
                                displacement: Displacement::Register(0),
                            },
                            size,
                        ),
                    );
                    let mut t = String::from_str("mov.");
                    t.append(sfx);
                    t.append(" @(r0,r");
                    push_dec(&mut t, m);
                    t.append("), r");
                    push_dec(&mut t, n);
                    t
                },
                0x000F | 0x400F => {
                    let size = if key == 0x000F {
                        MemoryAccessSize::Longword
                    } else {
                        MemoryAccessSize::Word
                    };
                    out.memory_read = Some(
                        (
                            MemoryAccess::IndirectR {
                                register: m,
                                displacement: Displacement::none(),
                            },
                            size,
                        ),
                    );
                    out.memory_write = Some(
                        (
                            MemoryAccess::IndirectR {
                                register: n,
                                displacement: Displacement::none(),
                            },
                            size,
                        ),
                    );
                    let mut t = String::from_str(
                        if key == 0x000F {
                            "mac.l @r"
                        } else {
                            "mac.w @r"
                        },
                    );
                    push_dec(&mut t, m);
                    t.append("+, @r");
                    push_dec(&mut t, n);
                    t.append("+");
                    t
                },
                _ => decode_xxnn(pc, opcode, out),
            }
        },
    }
}

/// The target of a branch with the displacement field `field` of `bits` bits.
fn field_branch_target(pc: u32, field: u16, sign: u16) -> (r: u32)
    requires
        sign == 0x80 || sign == 0x800,
        field < 2 * sign,
    ensures
        r == branch_target(
            pc,
            if sign == 0x80 {
                signed8(field as int)
            } else {
                signed12(field as int)
            },
        ),
{
    if field >= sign {
        branch_destination(pc, true, (2 * sign - field) as u32)
    } else {
        branch_destination(pc, false, field as u32)
    }
}

fn decode_xxnn(pc: u32, opcode: u16, out: &mut DisassembledInstruction) -> (r: String)
    requires
        no_operands(*old(out)),
    ensures
        r@ == from_xxnn(pc, opcode).text,
        holds_operands(*final(out), *old(out), from_xxnn(pc, opcode)),
{
    proof {
        crate::bit_facts::lemma_u16_fields(opcode);
        assert(opcode & 0xF <= 0xF) by (bit_vector);
    }
    let key = opcode & 0xFF00;
    let m = parse_register_low(opcode);
    let d4 = opcode & 0xF;
    let d8 = opcode & 0xFF;
    let size = size_of_code_exec((key >> 8) & 3);
    let sfx = size_suffix_str(size);
    match key {
        0x8000 | 0x8100 => {
            out.memory_write = Some(
                (
                    MemoryAccess::IndirectR {
                        register: m,
                        displacement: Displacement::Immediate(d4 as u32),
                    },
                    size,
                ),
            );
            let mut t = String::from_str("mov.");
            t.append(sfx);
            t.append(" r0, @(");
            push_dec(&mut t, d4);
            t.append(",r");
            push_dec(&mut t, m);
            t.append(")");
            t
        },
        0x8400 | 0x8500 => {
            out.memory_read = Some(
                (
                    MemoryAccess::IndirectR {
                        register: m,
                        displacement: Displacement::Immediate(d4 as u32),
                    },
                    size,
                ),
            );
            let mut t = String::from_str("mov.");
            t.append(sfx);
            t.append(" @(");
            push_dec(&mut t, d4);
            t.append(",r");
            push_dec(&mut t, m);
            t.append("), r0");
            t
        },
        0xC000 | 0xC100 | 0xC200 => {
            out.memory_write = Some(
                (
                    MemoryAccess::IndirectGbr { displacement: Displacement::Immediate(d8 as u32) },
                    size,
                ),
            );
            let mut t = String::from_str("mov.");
            t.append(sfx);
            t.append(" r0, @(");
            push_dec(&mut t, d8);
            t.append(",gbr)");
            t
        },
        0xC400 | 0xC500 | 0xC600 => {
            out.memory_read = Some(
                (
                    MemoryAccess::IndirectGbr { displacement: Displacement::Immediate(d8 as u32) },
                    size,
                ),
            );
            let mut t = String::from_str("mov.");
            t.append(sfx);
            t.append(" @(");
            push_dec(&mut t, d8);
            t.append(",gbr), r0");
            t
        },
        0xC700 => {
            out.memory_read = Some(
                (
                    MemoryAccess::PcRelative {
                        pc,
                        displacement: Displacement::Immediate(d8 as u32),
                    },
                    MemoryAccessSize::Longword,
                ),
            );
            out.memory_read_type = ReadType::EffectiveAddress;
            let mut t = text_dec("mova @(", d8);
            t.append(",pc), r0");
            t
        },
        0x8800 => {
            let mut t = String::from_str("cmp/eq #");
            push_signed8(&mut t, d8);
            t.append(", r0");
            t
        },
        0xC300 => text_dec("trapa #", d8),
        _ => match immediate_mnemonic_str(key) {
            Some(mnemonic) => {
                let mut t = String::from_str(mnemonic);
                t.append(" #");
                push_dec(&mut t, d8);
                t.append(", r0");
                t
            },
            None => match gbr_byte_mnemonic_str(key) {
                Some(mnemonic) => {
                    out.memory_read = Some(
                        (
                            MemoryAccess::IndirectGbr { displacement: Displacement::Register(0) },
                            MemoryAccessSize::Byte,
                        ),
                    );
                    out.memory_write = out.memory_read;
                    let mut t = String::from_str(mnemonic);
                    t.append(" #");
                    push_dec(&mut t, d8);
                    t.append(", @(r0,gbr)");
                    t
                },
                None => match conditional_branch_mnemonic_str(key) {
                    Some(mnemonic) => {
                        let target = field_branch_target(pc, d8, 0x80);
                        let mut t = String::from_str(mnemonic);
                        t.append(" $");
                        push_hex8(&mut t, target);
                        t
                    },
                    None => decode_xnxx(pc, opcode, out),
                },
            },
        },
    }
}

fn decode_xnxx(pc: u32, opcode: u16, out: &mut DisassembledInstruction) -> (r: String)
    requires
        no_operands(*old(out)),
    ensures
        r@ == from_xnxx(pc, opcode).text,
        holds_operands(*final(out), *old(out), from_xnxx(pc, opcode)),
{
    let key = opcode & 0xF0FF;
    let n = parse_register_high(opcode);
    let index = (key >> 4) & 3;
    match single_register_mnemonic_str(key) {
        Some(mnemonic) => {
            let mut t = String::from_str(mnemonic);
            t.append(" r");
            push_dec(&mut t, n);
            t
        },
        None => match key {
            0x401B => {
                out.memory_read = Some(
                    (
                        MemoryAccess::IndirectR { register: n, displacement: Displacement::none() },
                        MemoryAccessSize::Byte,
                    ),
                );
                out.memory_write = out.memory_read;
                text_dec("tas.b @r", n)
            },
            0x0023 | 0x0003 => {
                out.memory_read = Some(
                    (
                        MemoryAccess::PcRelative { pc, displacement: Displacement::Register(n) },
                        MemoryAccessSize::Word,
                    ),
                );
                out.memory_read_type = ReadType::EffectiveAddress;
                text_dec(
                    if key == 0x0023 {
                        "braf r"
                    } else {
                        "bsrf r"
                    },
                    n,
                )
            },
            0x402B | 0x400B => {
                out.memory_read = Some(
                    (
                        MemoryAccess::IndirectR { register: n, displacement: Displacement::none() },
                        MemoryAccessSize::Longword,
                    ),
                );
                out.memory_read_type = ReadType::EffectiveAddress;
                text_dec(
                    if key == 0x402B {
                        "jmp @r"
                    } else {
                        "jsr @r"
                    },
                    n,
                )
            },
            0x400E | 0x401E | 0x402E => {
                let mut t = text_dec("ldc r", n);
                t.append(", ");
                t.append(control_register_str(index));
                t
            },
            0x400A | 0x401A | 0x402A => {
                let mut t = text_dec("lds r", n);
                t.append(", ");
                t.append(system_register_str(index));
                t
            },
            0x4007 | 0x4017 | 0x4027 | 0x4006 | 0x4016 | 0x4026 => {
                out.memory_read = Some(
                    (
                        MemoryAccess::IndirectR { register: n, displacement: Displacement::none() },
                        MemoryAccessSize::Longword,
                    ),
                );
                let control = key == 0x4007 || key == 0x4017 || key == 0x4027;
                let mut t = text_dec(
                    if control {
                        "ldc.l @r"
                    } else {
                        "lds.l @r"
                    },
                    n,
                );
                t.append("+, ");
                t.append(
                    if control {
                        control_register_str(index)
                    } else {
                        system_register_str(index)
                    },
                );
                t
            },
            0x0002 | 0x0012 | 0x0022 => {
                let mut t = String::from_str("stc ");
                t.append(control_register_str(index));
                t.append(", r");
                push_dec(&mut t, n);
                t
            },
            0x000A | 0x001A | 0x002A => {
                let mut t = String::from_str("sts ");
                t.append(system_register_str(index));
                t.append(", r");
                push_dec(&mut t, n);
                t
            },
            0x4003 | 0x4013 | 0x4023 | 0x4002 | 0x4012 | 0x4022 => {
                out.memory_write = Some(
                    (MemoryAccess::IndirectRPredecrement { register: n }, MemoryAccessSize::Longword),
                );
                let control = key == 0x4003 || key == 0x4013 || key == 0x4023;
                let mut t = String::from_str(
                    if control {
                        "stc.l "
                    } else {
                        "sts.l "
                    },
                );
                t.append(
                    if control {
                        control_register_str(index)
                    } else {
                        system_register_str(index)
                    },
                );
                t.append(", @-r");
                push_dec(&mut t, n);
                t
            },
            _ => {
                let t = decode_xnnn(pc, opcode, out);
                t
            },
        },
    }
}

fn decode_xnnn(pc: u32, opcode: u16, out: &mut DisassembledInstruction) -> (r: String)
    requires
        no_operands(*old(out)),
    ensures
        r@ == xnnn(pc, opcode).text,
        holds_operands(*final(out), *old(out), xnnn(pc, opcode)),
{
    proof {
        crate::bit_facts::lemma_u16_fields(opcode);
        assert(opcode & 0xF <= 0xF) by (bit_vector);
    }
    let key = opcode & 0xF000;
    let m = parse_register_low(opcode);
    let n = parse_register_high(opcode);
    let d4 = opcode & 0xF;
    let d8 = opcode & 0xFF;
    let d12 = opcode & 0xFFF;
    match key {
        0xE000 => {
            let mut t = String::from_str("mov.b #");
            push_signed8(&mut t, d8);
            t.append(", r");
            push_dec(&mut t, n);
            t
        },
        0x9000 | 0xD000 => {
            let size = if key == 0x9000 {
                MemoryAccessSize::Word
            } else {
                MemoryAccessSize::Longword
            };
            out.memory_read = Some(
                (
                    MemoryAccess::PcRelative {
                        pc,
                        displacement: Displacement::Immediate(d8 as u32),
                    },
                    size,
                ),
            );
            let mut t = text_dec(
                if key == 0x9000 {
                    "mov.w @("
                } else {
                    "mov.l @("
                },
                d8,
            );
            t.append(",pc), r");
            push_dec(&mut t, n);
            t
        },
        0x1000 => {
            out.memory_write = Some(
                (
                    MemoryAccess::IndirectR {
                        register: n,
                        displacement: Displacement::Immediate(d4 as u32),
                    },
                    MemoryAccessSize::Longword,
                ),
            );
            let mut t = text_dec("mov.l r", m);
            t.append(", @(");
            push_dec(&mut t, d4);
            t.append(",r");
            push_dec(&mut t, n);
            t.append(")");
            t
        },
        0x5000 => {
            let source = n;
            out.memory_read = Some(
                (
                    MemoryAccess::IndirectR {
                        register: source,
                        displacement: Displacement::Immediate(d4 as u32),
                    },
                    MemoryAccessSize::Longword,
                ),
            );
            let mut t = text_dec("mov.l @(", d4);
            t.append(",r");
            push_dec(&mut t, source);
            t.append("), r");
            push_dec(&mut t, n);
            t
        },
        0x7000 => {
            let mut t = String::from_str("add #");
            push_signed8(&mut t, d8);
            t.append(", r");
            push_dec(&mut t, n);
            t
        },
        0xA000 | 0xB000 => {
            let target = field_branch_target(pc, d12, 0x800);
            let mut t = String::from_str(
                if key == 0xA000 {
                    "bra $"
                } else {
                    "bsr $"
                },
            );
            push_hex8(&mut t, target);
            t
        },
        _ => String::from_str("illegal"),
    }
}

/// Every memory operand that the disassembler reports names registers that exist, so that its
/// address can be resolved; an operand read only for its address is always reported.
pub proof fn lemma_disassembly_operands_resolvable(pc: u32, opcode: u16)
    ensures
        disassembly(pc, opcode).memory_read matches Some((access, _)) ==> access.wf(),
        disassembly(pc, opcode).memory_write matches Some((access, _)) ==> access.wf(),
        disassembly(pc, opcode).memory_read_type == ReadType::EffectiveAddress
            ==> disassembly(pc, opcode).memory_read is Some,
{
    crate::bit_facts::lemma_u16_fields(opcode);
}

} // verus!
