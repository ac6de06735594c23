//! Text of ARM and Thumb opcodes, for tracing.
use crate::arm7tdmi::instructions::alu::{ror, rotate_right, signed32};
use crate::arm7tdmi::instructions::branch::arm_branch_offset;
use crate::arm7tdmi::instructions::load::sign_extend_8;
use crate::arm7tdmi::instructions::{
    condition_from_bits, condition_suffix, thumb_lookup, Condition, ThumbOp,
};
use crate::arm7tdmi::bit32;
use vstd::prelude::*;
use vstd::string::StringExecFns;
use crate::text::{decimal_digits, decimal_string, hex_digits, push_decimal, push_hex, push_signed, signed_decimal};

verus! {

/// `R` and a register number.
pub open spec fn reg_text(n: u32) -> Seq<char> {
    "R"@ + decimal_digits(n as nat)
}

fn push_reg(out: &mut String, n: u32)
    ensures
        final(out)@ == old(out)@ + reg_text(n),
{
    out.append("R");
    let digits = decimal_string(n);
    out.append(digits.as_str());
}




/// Texts joined by a separator.
pub open spec fn join_with(parts: Seq<Seq<char>>, separator: Seq<char>) -> Seq<char>
    decreases parts.len(),
{
    if parts.len() == 0 {
        seq![]
    } else if parts.len() == 1 {
        parts[0]
    } else {
        join_with(parts.drop_last(), separator) + separator + parts.last()
    }
}

proof fn lemma_join_push(parts: Seq<Seq<char>>, separator: Seq<char>, x: Seq<char>)
    ensures
        join_with(parts.push(x), separator) == if parts.len() == 0 {
            x
        } else {
            join_with(parts, separator) + separator + x
        },
{
    assert(parts.push(x).drop_last() =~= parts);
}

/// `R<i>` for each set bit `i` below `n` of a register list, in order.
pub open spec fn register_list_parts(bits: u32, n: int) -> Seq<Seq<char>>
    decreases n,
{
    if n <= 0 {
        seq![]
    } else if bit32(bits, (n - 1) as u32) {
        register_list_parts(bits, n - 1).push(reg_text((n - 1) as u32))
    } else {
        register_list_parts(bits, n - 1)
    }
}

/// Appends the registers of a list (bits below `n`), joined by `separator`; returns whether any
/// was appended.
fn push_register_list(out: &mut String, bits: u32, n: u32, separator: &str) -> (any: bool)
    requires
        n <= 32,
    ensures
        final(out)@ == old(out)@ + join_with(register_list_parts(bits, n as int), separator@),
        any == (register_list_parts(bits, n as int).len() > 0),
{
    let ghost start = out@;
    let mut any = false;
    let mut i: u32 = 0;
    while i < n
        invariant
            i <= n <= 32,
            out@ == start + join_with(register_list_parts(bits, i as int), separator@),
            any == (register_list_parts(bits, i as int).len() > 0),
        decreases n - i,
    {
        if (bits >> i) & 1 == 1 {
            let ghost parts = register_list_parts(bits, i as int);
            if any {
                out.append(separator);
            }
            push_reg(out, i);
            proof {
                lemma_join_push(parts, separator@, reg_text(i));
            }
            any = true;
        }
        i += 1;
    }
    any
}

/// The condition suffix of an ARM opcode.
pub open spec fn cond_text(opcode: u32) -> Seq<char> {
    condition_suffix(condition_from_bits(opcode >> 28u32))
}

/// `literal` when `flag`, else nothing.
pub open spec fn text_if(flag: bool, literal: Seq<char>) -> Seq<char> {
    if flag {
        literal
    } else {
        seq![]
    }
}

/// The handler of the disassembly table for an ARM opcode.
#[derive(Debug, Clone, Copy, PartialEq, Eq, Structural)]
pub enum ArmText {
    Bx,
    Branch,
    Multiply,
    MultiplyLong,
    Swap,
    LoadHalfword,
    Mrs,
    Msr,
    Alu,
    Undefined,
    LoadWord,
    LoadMultiple,
}

pub struct ArmTextDecode {
    pub mask: u32,
    pub target: u32,
    pub text: ArmText,
}

pub open spec fn arm_text_table_spec() -> Seq<(u32, u32, ArmText)> {
    seq![
        (0x0FFFFFF0u32, 0x012FFF10u32, ArmText::Bx),
        (0x0E000000u32, 0x0A000000u32, ArmText::Branch),
        (0x0FC000F0u32, 0x00000090u32, ArmText::Multiply),
        (0x0F8000F0u32, 0x00800090u32, ArmText::MultiplyLong),
        (0x0FB00FF0u32, 0x01000090u32, ArmText::Swap),
        (0x0E000090u32, 0x00000090u32, ArmText::LoadHalfword),
        (0x0FBF0FFFu32, 0x10F00000u32, ArmText::Mrs),
        (0x0DBEF000u32, 0x0128F000u32, ArmText::Msr),
        (0x0C000000u32, 0x00000000u32, ArmText::Alu),
        (0x0E000010u32, 0x06000010u32, ArmText::Undefined),
        (0x0C000000u32, 0x04000000u32, ArmText::LoadWord),
        (0x0E000000u32, 0x08000000u32, ArmText::LoadMultiple),
    ]
}

/// The first line of the disassembly table, from line `i` on, that matches an opcode.
pub open spec fn arm_text_match(opcode: u32, i: int) -> Option<ArmText>
    decreases 12 - i,
{
    if i < 0 || i >= 12 {
        None
    } else if opcode & arm_text_table_spec()[i].0 == arm_text_table_spec()[i].1 {
        Some(arm_text_table_spec()[i].2)
    } else {
        arm_text_match(opcode, i + 1)
    }
}

fn arm_text_decode(opcode: u32) -> (r: Option<ArmText>)
    ensures
        r == arm_text_match(opcode, 0),
{
    let table: [(u32, u32, ArmText); 12] = [
        (0x0FFFFFF0, 0x012FFF10, ArmText::Bx),
        (0x0E000000, 0x0A000000, ArmText::Branch),
        (0x0FC000F0, 0x00000090, ArmText::Multiply),
        (0x0F8000F0, 0x00800090, ArmText::MultiplyLong),
        (0x0FB00FF0, 0x01000090, ArmText::Swap),
        (0x0E000090, 0x00000090, ArmText::LoadHalfword),
        (0x0FBF0FFF, 0x10F00000, ArmText::Mrs),
        (0x0DBEF000, 0x0128F000, ArmText::Msr),
        (0x0C000000, 0x00000000, ArmText::Alu),
        (0x0E000010, 0x06000010, ArmText::Undefined),
        (0x0C000000, 0x04000000, ArmText::LoadWord),
        (0x0E000000, 0x08000000, ArmText::LoadMultiple),
    ];
    assert(table@ =~= arm_text_table_spec());
    let mut i: usize = 0;
    while i < 12
        invariant
            0 <= i <= 12,
            table@ == arm_text_table_spec(),
            arm_text_match(opcode, i as int) == arm_text_match(opcode, 0),
        decreases 12 - i,
    {
        let (mask, target, text) = table[i];
        if opcode & mask == target {
            return Some(text);
        }
        i += 1;
    }
    None
}

/// An ARM opcode that a line of the disassembly table matches.
pub open spec fn arm_text_defined(opcode: u32) -> bool {
    arm_text_match(opcode, 0) is Some
}

pub open spec fn arm_bx_text(opcode: u32) -> Seq<char> {
    "BX"@ + cond_text(opcode) + " "@ + reg_text(opcode & 0xF)
}

pub open spec fn arm_b_text(opcode: u32) -> Seq<char> {
    "B"@ + text_if(bit32(opcode, 24), "L"@) + cond_text(opcode) + " "@ + signed_decimal(
        signed32(arm_branch_offset(opcode)),
    )
}

/// The mnemonic of a data processing operation.
pub open spec fn alu_mnemonic(op: u32) -> Seq<char> {
    let b = op & 0xF;
    if b == 0 {
        "AND"@
    } else if b == 1 {
        "EOR"@
    } else if b == 2 {
        "SUB"@
    } else if b == 3 {
        "RSB"@
    } else if b == 4 {
        "ADD"@
    } else if b == 5 {
        "ADC"@
    } else if b == 6 {
        "SBC"@
    } else if b == 7 {
        "RSC"@
    } else if b == 8 {
        "TST"@
    } else if b == 9 {
        "TEQ"@
    } else if b == 10 {
        "CMP"@
    } else if b == 11 {
        "CMN"@
    } else if b == 12 {
        "ORR"@
    } else if b == 13 {
        "MOV"@
    } else if b == 14 {
        "BIC"@
    } else {
        "MVN"@
    }
}

fn alu_mnemonic_str(op: u32) -> (r: &'static str)
    ensures
        r@ == alu_mnemonic(op),
{
    let b = op & 0xF;
    if b == 0 {
        "AND"
    } else if b == 1 {
        "EOR"
    } else if b == 2 {
        "SUB"
    } else if b == 3 {
        "RSB"
    } else if b == 4 {
        "ADD"
    } else if b == 5 {
        "ADC"
    } else if b == 6 {
        "SBC"
    } else if b == 7 {
        "RSC"
    } else if b == 8 {
        "TST"
    } else if b == 9 {
        "TEQ"
    } else if b == 10 {
        "CMP"
    } else if b == 11 {
        "CMN"
    } else if b == 12 {
        "ORR"
    } else if b == 13 {
        "MOV"
    } else if b == 14 {
        "BIC"
    } else {
        "MVN"
    }
}

/// The mnemonic of a shift type.
pub open spec fn shift_mnemonic(shift_type: u32) -> Seq<char> {
    let b = shift_type & 3;
    if b == 0 {
        "LSL"@
    } else if b == 1 {
        "LSR"@
    } else if b == 2 {
        "ASR"@
    } else {
        "ROR"@
    }
}

pub fn shift_type_str(shift_type: u32) -> (r: &'static str)
    ensures
        r@ == shift_mnemonic(shift_type),
{
    let b = shift_type & 3;
    if b == 0 {
        "LSL"
    } else if b == 1 {
        "LSR"
    } else if b == 2 {
        "ASR"
    } else {
        "ROR"
    }
}

/// The second operand of a data processing opcode: a rotated immediate in hex, or Rm with its
/// shift by a register or by an amount (0 written as 32).
pub open spec fn alu_operand2_text(opcode: u32) -> Seq<char> {
    if bit32(opcode, 25) {
        "#0x"@ + hex_digits(ror(opcode & 0xFF, ((opcode >> 8u32) & 0xF) << 1u32) as nat)
    } else {
        let shift = (opcode >> 4u32) & 0xFF;
        reg_text(opcode & 0xF) + if shift != 0 {
            if bit32(shift, 0) {
                ", "@ + shift_mnemonic(shift >> 1u32) + " "@ + reg_text(shift >> 4u32)
            } else {
                let amount = shift >> 3u32;
                ", "@ + shift_mnemonic(shift >> 1u32) + " #"@ + decimal_digits(
                    if amount == 0 {
                        32nat
                    } else {
                        amount as nat
                    },
                )
            }
        } else {
            seq![]
        }
    }
}

pub open spec fn arm_alu_text(opcode: u32) -> Seq<char> {
    let op = (opcode >> 21u32) & 0xF;
    let s = text_if(bit32(opcode, 20), "S"@);
    let rn = (opcode >> 16u32) & 0xF;
    let rd = (opcode >> 12u32) & 0xF;
    if op == 13 || op == 15 {
        alu_mnemonic(op) + cond_text(opcode) + s + " "@ + reg_text(rd) + ", "@ + alu_operand2_text(opcode)
    } else if 8 <= op <= 11 {
        alu_mnemonic(op) + cond_text(opcode) + " "@ + reg_text(rn) + ", "@ + alu_operand2_text(opcode)
    } else {
        alu_mnemonic(op) + cond_text(opcode) + s + " "@ + reg_text(rd) + ", "@ + reg_text(rn)
            + ", "@ + alu_operand2_text(opcode)
    }
}

pub open spec fn arm_mrs_text(opcode: u32) -> Seq<char> {
    "MRS"@ + cond_text(opcode) + " "@ + reg_text((opcode >> 12u32) & 0xF) + ", "@ + if bit32(
        opcode,
        22,
    ) {
        "SPSR"@
    } else {
        "CPSR"@
    }
}

pub open spec fn arm_msr_text(opcode: u32) -> Seq<char> {
    "MSR"@ + cond_text(opcode) + " "@ + (if bit32(opcode, 22) {
        "SPSR"@
    } else {
        "CPSR"@
    }) + text_if(!bit32(opcode, 16), "_flg"@) + ", "@ + if !bit32(opcode, 16) && bit32(opcode, 25) {
        "#0x"@ + hex_digits(ror(opcode & 0xFF, ((opcode >> 8u32) & 0xF) << 1u32) as nat)
    } else {
        reg_text(opcode & 0xF)
    }
}

pub open spec fn arm_mul_text(opcode: u32) -> Seq<char> {
    let s = text_if(bit32(opcode, 20), "S"@);
    let rm = reg_text(opcode & 0xF);
    let rs = reg_text((opcode >> 8u32) & 0xF);
    let rn = reg_text((opcode >> 12u32) & 0xF);
    let rd = reg_text((opcode >> 16u32) & 0xF);
    if bit32(opcode, 21) {
        "MLA"@ + cond_text(opcode) + s + " "@ + rd + ", "@ + rm + ", "@ + rs + ", "@ + rn
    } else {
        "MUL"@ + cond_text(opcode) + s + " "@ + rd + ", "@ + rm + ", "@ + rs
    }
}

pub open spec fn arm_mull_text(opcode: u32) -> Seq<char> {
    (if bit32(opcode, 22) {
        "S"@
    } else {
        "U"@
    }) + (if bit32(opcode, 21) {
        "MLAL"@
    } else {
        "MULL"@
    }) + cond_text(opcode) + text_if(bit32(opcode, 20), "S"@) + " "@ + reg_text(
        (opcode >> 12u32) & 0xF,
    ) + ", "@ + reg_text((opcode >> 16u32) & 0xF) + ", "@ + reg_text(opcode & 0xF) + ", "@
        + reg_text((opcode >> 8u32) & 0xF)
}

/// The offset of an LDR/STR opcode: an immediate in hex, or Rm with its shift (an amount of 0
/// other than for LSL written as 32); `-` when subtracted.
pub open spec fn ldr_offset_text(opcode: u32) -> Seq<char> {
    let add_str = text_if(!bit32(opcode, 23), "-"@);
    if !bit32(opcode, 25) {
        "#"@ + add_str + "0x"@ + hex_digits((opcode & 0xFFF) as nat)
    } else {
        let shift = (opcode >> 4u32) & 0xFF;
        let amount = if (shift >> 1u32) & 3 != 0 && shift >> 3u32 == 0 {
            32
        } else {
            shift >> 3u32
        };
        if shift == 0 {
            add_str + reg_text(opcode & 0xF)
        } else {
            add_str + reg_text(opcode & 0xF) + ", "@ + shift_mnemonic(shift >> 1u32) + " "@
                + decimal_digits(amount as nat)
        }
    }
}

pub open spec fn arm_ldr_text(opcode: u32) -> Seq<char> {
    let rn = reg_text((opcode >> 16u32) & 0xF);
    let address = if bit32(opcode, 24) {
        "["@ + rn + ", "@ + ldr_offset_text(opcode) + "]"@ + text_if(bit32(opcode, 21), "!"@)
    } else {
        "["@ + rn + "], "@ + ldr_offset_text(opcode)
    };
    (if bit32(opcode, 20) {
        "LDR"@
    } else {
        "STR"@
    }) + cond_text(opcode) + text_if(bit32(opcode, 22), "B"@) + " "@ + reg_text(
        (opcode >> 12u32) & 0xF,
    ) + ", "@ + address
}

pub open spec fn halfword_type_text(opcode: u32) -> Seq<char> {
    let b = (opcode >> 5u32) & 3;
    if b == 0 {
        "SWP"@
    } else if b == 1 {
        "H"@
    } else if b == 2 {
        "SB"@
    } else {
        "SH"@
    }
}

/// The address of a halfword transfer opcode: base, signed offset (immediate in hex or Rm) and
/// write-back mark, in pre- or post-indexed form.
pub open spec fn ldrh_address_text(opcode: u32) -> Seq<char> {
    let rn = reg_text((opcode >> 16u32) & 0xF);
    let offset = if bit32(opcode, 22) {
        "#0x"@ + hex_digits((((opcode >> 4u32) & 0xF0) | (opcode & 0xF)) as nat)
    } else {
        reg_text(opcode & 0xF)
    };
    let sign = if bit32(opcode, 23) {
        "+"@
    } else {
        "-"@
    };
    let write_back = text_if(bit32(opcode, 21), "!"@);
    if bit32(opcode, 24) {
        "["@ + rn + ", "@ + sign + offset + "]"@ + write_back
    } else {
        "["@ + rn + "], "@ + sign + offset + write_back
    }
}

pub open spec fn arm_ldrh_text(opcode: u32) -> Seq<char> {
    (if bit32(opcode, 20) {
        "LDR"@
    } else {
        "STR"@
    }) + cond_text(opcode) + halfword_type_text(opcode) + " "@ + reg_text((opcode >> 12u32) & 0xF)
        + ", "@ + ldrh_address_text(opcode)
}

pub open spec fn arm_ldm_stm_text(opcode: u32) -> Seq<char> {
    (if bit32(opcode, 20) {
        "LDM"@
    } else {
        "STM"@
    }) + cond_text(opcode) + (if bit32(opcode, 23) {
        "I"@
    } else {
        "D"@
    }) + (if bit32(opcode, 24) {
        "B"@
    } else {
        "A"@
    }) + " "@ + reg_text((opcode >> 16u32) & 0xF) + text_if(bit32(opcode, 21), "!"@) + " {"@
        + join_with(register_list_parts(opcode, 16), ", "@) + "}"@ + text_if(bit32(opcode, 22), "^"@)
}

pub open spec fn arm_swap_text(opcode: u32) -> Seq<char> {
    "SWP"@ + cond_text(opcode) + text_if(bit32(opcode, 22), "B"@) + " "@ + reg_text(
        (opcode >> 12u32) & 0xF,
    ) + ", "@ + reg_text(opcode & 0xF) + ", ["@ + reg_text((opcode >> 16u32) & 0xF) + "]"@
}

/// The text of an ARM opcode, by the first line of the disassembly table that matches it.
pub open spec fn arm_text(opcode: u32) -> Seq<char> {
    match arm_text_match(opcode, 0) {
        Some(ArmText::Bx) => arm_bx_text(opcode),
        Some(ArmText::Branch) => arm_b_text(opcode),
        Some(ArmText::Multiply) => arm_mul_text(opcode),
        Some(ArmText::MultiplyLong) => arm_mull_text(opcode),
        Some(ArmText::Swap) => arm_swap_text(opcode),
        Some(ArmText::LoadHalfword) => arm_ldrh_text(opcode),
        Some(ArmText::Mrs) => arm_mrs_text(opcode),
        Some(ArmText::Msr) => arm_msr_text(opcode),
        Some(ArmText::Alu) => arm_alu_text(opcode),
        Some(ArmText::Undefined) => "Undefined"@,
        Some(ArmText::LoadWord) => arm_ldr_text(opcode),
        Some(ArmText::LoadMultiple) => arm_ldm_stm_text(opcode),
        None => seq![],
    }
}

fn bit(value: u32, n: u32) -> (r: bool)
    requires
        n < 32,
    ensures
        r == bit32(value, n),
{
    (value >> n) & 1 == 1
}

fn if_str(flag: bool, literal: &'static str) -> (r: &'static str)
    ensures
        r@ == text_if(flag, literal@),
{
    proof {
        reveal_strlit("");
    }
    if flag {
        literal
    } else {
        ""
    }
}

/// The text of an ARM opcode.
pub fn arm(opcode: u32) -> (r: String)
    requires
        arm_text_defined(opcode),
    ensures
        r@ == arm_text(opcode),
{
    match arm_text_decode(opcode) {
        Some(ArmText::Bx) => arm_bx(opcode),
        Some(ArmText::Branch) => arm_b(opcode),
        Some(ArmText::Multiply) => arm_mul(opcode),
        Some(ArmText::MultiplyLong) => arm_mull(opcode),
        Some(ArmText::Swap) => arm_swap(opcode),
        Some(ArmText::LoadHalfword) => arm_ldrh(opcode),
        Some(ArmText::Mrs) => arm_mrs(opcode),
        Some(ArmText::Msr) => arm_msr(opcode),
        Some(ArmText::Alu) => arm_alu(opcode),
        Some(ArmText::Undefined) => String::from_str("Undefined"),
        Some(ArmText::LoadWord) => arm_ldr(opcode),
        Some(ArmText::LoadMultiple) => arm_ldm_stm(opcode),
        None => String::new(),
    }
}

fn push_cond(out: &mut String, opcode: u32)
    ensures
        final(out)@ == old(out)@ + cond_text(opcode),
{
    out.append(Condition::from_arm_opcode(opcode).suffix());
}

fn arm_bx(opcode: u32) -> (r: String)
    ensures
        r@ == arm_bx_text(opcode),
{
    let mut out = String::from_str("BX");
    push_cond(&mut out, opcode);
    out.append(" ");
    push_reg(&mut out, opcode & 0xF);
    out
}

fn arm_b(opcode: u32) -> (r: String)
    ensures
        r@ == arm_b_text(opcode),
{
    let field = opcode & 0xFF_FFFF;
    let extended = if (field >> 23u32) & 1 == 1 {
        field | 0xFF00_0000
    } else {
        field
    };
    let mut out = String::from_str("B");
    out.append(if_str(bit(opcode, 24), "L"));
    push_cond(&mut out, opcode);
    out.append(" ");
    push_signed(&mut out, extended << 2u32);
    out
}

fn arm_alu(opcode: u32) -> (r: String)
    ensures
        r@ == arm_alu_text(opcode),
{
    let op = (opcode >> 21u32) & 0xF;
    let operation = alu_mnemonic_str(op);
    let set_conditions = if_str(bit(opcode, 20), "S");

    let rn = (opcode >> 16u32) & 0xF;
    let rd = (opcode >> 12u32) & 0xF;

    let operand2 = alu_operand2(opcode);

    let mut out = String::from_str(operation);
    push_cond(&mut out, opcode);
    if op == 13 || op == 15 {
        // MOV, MVN
        out.append(set_conditions);
        out.append(" ");
        push_reg(&mut out, rd);
        out.append(", ");
        out.append(operand2.as_str());
    } else if 8 <= op && op <= 11 {
        // TST, TEQ, CMP, CMN
        out.append(" ");
        push_reg(&mut out, rn);
        out.append(", ");
        out.append(operand2.as_str());
    } else {
        out.append(set_conditions);
        out.append(" ");
        push_reg(&mut out, rd);
        out.append(", ");
        push_reg(&mut out, rn);
        out.append(", ");
        out.append(operand2.as_str());
    }
    out
}

fn alu_operand2(opcode: u32) -> (r: String)
    ensures
        r@ == alu_operand2_text(opcode),
{
    if bit(opcode, 25) {
        let imm = opcode & 0xFF;
        let rotation = ((opcode >> 8u32) & 0xF) << 1u32;
        let mut s = String::from_str("#0x");
        push_hex(&mut s, rotate_right(imm, rotation));
        s
    } else {
        let rm = opcode & 0xF;
        let mut s = String::new();
        push_reg(&mut s, rm);

        let shift = (opcode >> 4u32) & 0xFF;
        if shift != 0 {
            let shift_type = shift_type_str(shift >> 1u32);

            if bit(shift, 0) {
                let rs = shift >> 4u32;
                s.append(", ");
                s.append(shift_type);
                s.append(" ");
                push_reg(&mut s, rs);
            } else {
                let mut amount = shift >> 3u32;
                if amount == 0 {
                    amount = 32;
                }

                s.append(", ");
                s.append(shift_type);
                s.append(" #");
                push_decimal(&mut s, amount);
            }
        }
        s
    }
}

fn psr_str(spsr: bool) -> (r: &'static str)
    ensures
        r@ == (if spsr {
            "SPSR"@
        } else {
            "CPSR"@
        }),
{
    if spsr {
        "SPSR"
    } else {
        "CPSR"
    }
}

fn arm_mrs(opcode: u32) -> (r: String)
    ensures
        r@ == arm_mrs_text(opcode),
{
    let mut out = String::from_str("MRS");
    push_cond(&mut out, opcode);
    out.append(" ");
    push_reg(&mut out, (opcode >> 12u32) & 0xF);
    out.append(", ");
    out.append(psr_str(bit(opcode, 22)));
    out
}

fn arm_msr(opcode: u32) -> (r: String)
    ensures
        r@ == arm_msr_text(opcode),
{
    let mut out = String::from_str("MSR");
    push_cond(&mut out, opcode);
    out.append(" ");
    out.append(psr_str(bit(opcode, 22)));
    out.append(if_str(!bit(opcode, 16), "_flg"));
    out.append(", ");
    if !bit(opcode, 16) && bit(opcode, 25) {
        let immediate = opcode & 0xFF;
        let rotation = ((opcode >> 8u32) & 0xF) << 1u32;
        out.append("#0x");
        push_hex(&mut out, rotate_right(immediate, rotation));
    } else {
        push_reg(&mut out, opcode & 0xF);
    }
    out
}

fn arm_mul(opcode: u32) -> (r: String)
    ensures
        r@ == arm_mul_text(opcode),
{
    let rm = opcode & 0xF;
    let rs = (opcode >> 8u32) & 0xF;
    let rn = (opcode >> 12u32) & 0xF;
    let rd = (opcode >> 16u32) & 0xF;
    let accumulate = bit(opcode, 21);

    let mut out = String::from_str(if accumulate {
        "MLA"
    } else {
        "MUL"
    });
    push_cond(&mut out, opcode);
    out.append(if_str(bit(opcode, 20), "S"));
    out.append(" ");
    push_reg(&mut out, rd);
    out.append(", ");
    push_reg(&mut out, rm);
    out.append(", ");
    push_reg(&mut out, rs);
    if accumulate {
        out.append(", ");
        push_reg(&mut out, rn);
    }
    out
}

fn arm_mull(opcode: u32) -> (r: String)
    ensures
        r@ == arm_mull_text(opcode),
{
    let mut out = String::from_str(if bit(opcode, 22) {
        "S"
    } else {
        "U"
    });
    out.append(if bit(opcode, 21) {
        "MLAL"
    } else {
        "MULL"
    });
    push_cond(&mut out, opcode);
    out.append(if_str(bit(opcode, 20), "S"));
    out.append(" ");
    push_reg(&mut out, (opcode >> 12u32) & 0xF);
    out.append(", ");
    push_reg(&mut out, (opcode >> 16u32) & 0xF);
    out.append(", ");
    push_reg(&mut out, opcode & 0xF);
    out.append(", ");
    push_reg(&mut out, (opcode >> 8u32) & 0xF);
    out
}

fn ldr_offset(opcode: u32) -> (r: String)
    ensures
        r@ == ldr_offset_text(opcode),
{
    let add_str = if_str(!bit(opcode, 23), "-");
    if !bit(opcode, 25) {
        let mut s = String::from_str("#");
        s.append(add_str);
        s.append("0x");
        push_hex(&mut s, opcode & 0xFFF);
        s
    } else {
        let rm = opcode & 0xF;
        let shift = (opcode >> 4u32) & 0xFF;
        let shift_type = shift_type_str(shift >> 1u32);
        let mut shift_amount = shift >> 3u32;
        if (shift >> 1u32) & 3 != 0 && shift_amount == 0 {
            shift_amount = 32;
        }

        let mut s = String::from_str(add_str);
        push_reg(&mut s, rm);
        if shift != 0 {
            s.append(", ");
            s.append(shift_type);
            s.append(" ");
            push_decimal(&mut s, shift_amount);
        }
        s
    }
}

fn arm_ldr(opcode: u32) -> (r: String)
    ensures
        r@ == arm_ldr_text(opcode),
{
    let rn = (opcode >> 16u32) & 0xF;
    let offset = ldr_offset(opcode);

    let mut out = String::from_str(if bit(opcode, 20) {
        "LDR"
    } else {
        "STR"
    });
    push_cond(&mut out, opcode);
    out.append(if_str(bit(opcode, 22), "B"));
    out.append(" ");
    push_reg(&mut out, (opcode >> 12u32) & 0xF);
    out.append(", ");
    out.append("[");
    push_reg(&mut out, rn);
    if bit(opcode, 24) {
        out.append(", ");
        out.append(offset.as_str());
        out.append("]");
        out.append(if_str(bit(opcode, 21), "!"));
    } else {
        out.append("], ");
        out.append(offset.as_str());
    }
    out
}

fn ldrh_address(opcode: u32) -> (r: String)
    ensures
        r@ == ldrh_address_text(opcode),
{
    let mut offset = String::new();
    if bit(opcode, 22) {
        offset.append("#0x");
        push_hex(&mut offset, ((opcode >> 4u32) & 0xF0) | (opcode & 0xF));
    } else {
        push_reg(&mut offset, opcode & 0xF);
    }

    let sign = if bit(opcode, 23) {
        "+"
    } else {
        "-"
    };
    let write_back = if_str(bit(opcode, 21), "!");

    let mut out = String::from_str("[");
    push_reg(&mut out, (opcode >> 16u32) & 0xF);
    if bit(opcode, 24) {
        out.append(", ");
        out.append(sign);
        out.append(offset.as_str());
        out.append("]");
        out.append(write_back);
    } else {
        out.append("], ");
        out.append(sign);
        out.append(offset.as_str());
        out.append(write_back);
    }
    out
}

fn arm_ldrh(opcode: u32) -> (r: String)
    ensures
        r@ == arm_ldrh_text(opcode),
{
    let b = (opcode >> 5u32) & 3;
    let data_type = if b == 0 {
        "SWP"
    } else if b == 1 {
        "H"
    } else if b == 2 {
        "SB"
    } else {
        "SH"
    };

    let mut out = String::from_str(if bit(opcode, 20) {
        "LDR"
    } else {
        "STR"
    });
    push_cond(&mut out, opcode);
    out.append(data_type);
    out.append(" ");
    push_reg(&mut out, (opcode >> 12u32) & 0xF);
    out.append(", ");
    let address = ldrh_address(opcode);
    out.append(address.as_str());
    out
}

fn arm_ldm_stm(opcode: u32) -> (r: String)
    ensures
        r@ == arm_ldm_stm_text(opcode),
{
    let mut out = String::from_str(if bit(opcode, 20) {
        "LDM"
    } else {
        "STM"
    });
    push_cond(&mut out, opcode);
    out.append(if bit(opcode, 23) {
        "I"
    } else {
        "D"
    });
    out.append(if bit(opcode, 24) {
        "B"
    } else {
        "A"
    });
    out.append(" ");
    push_reg(&mut out, (opcode >> 16u32) & 0xF);
    out.append(if_str(bit(opcode, 21), "!"));
    out.append(" {");
    push_register_list(&mut out, opcode, 16, ", ");
    out.append("}");
    out.append(if_str(bit(opcode, 22), "^"));
    out
}

fn arm_swap(opcode: u32) -> (r: String)
    ensures
        r@ == arm_swap_text(opcode),
{
    let mut out = String::from_str("SWP");
    push_cond(&mut out, opcode);
    out.append(if_str(bit(opcode, 22), "B"));
    out.append(" ");
    push_reg(&mut out, (opcode >> 12u32) & 0xF);
    out.append(", ");
    push_reg(&mut out, opcode & 0xF);
    out.append(", [");
    push_reg(&mut out, (opcode >> 16u32) & 0xF);
    out.append("]");
    out
}

/// A Thumb opcode the disassembler has text for: one that the decode table gives a format other
/// than the software interrupt.
pub open spec fn thumb_text_defined(opcode: u16) -> bool {
    let op = thumb_lookup(opcode >> 8u16);
    op != ThumbOp::SoftwareInterrupt && op != ThumbOp::Undefined
}

/// A field of a Thumb opcode as an unsigned value.
pub open spec fn field(opcode: u16, shift: u16, mask: u16) -> u32 {
    ((opcode >> shift) & mask) as u32
}

pub open spec fn thumb_1_text(opcode: u16) -> Seq<char> {
    let b = (opcode >> 11u16) & 3;
    (if b == 0 {
        "LSL"@
    } else if b == 1 {
        "LSR"@
    } else {
        "ASR"@
    }) + " "@ + reg_text((opcode & 7) as u32) + ", "@ + reg_text(field(opcode, 3, 7)) + " #"@
        + decimal_digits(field(opcode, 6, 0x1F) as nat)
}

pub open spec fn thumb_2_text(opcode: u16) -> Seq<char> {
    (if (opcode >> 9u16) & 1 == 1 {
        "SUB"@
    } else {
        "ADD"@
    }) + " "@ + reg_text((opcode & 7) as u32) + ", "@ + reg_text(field(opcode, 3, 7)) + ", "@ + if (
    opcode >> 10u16) & 1 == 1 {
        "#"@ + decimal_digits(field(opcode, 6, 7) as nat)
    } else {
        reg_text(field(opcode, 6, 7))
    }
}

pub open spec fn thumb_3_text(opcode: u16) -> Seq<char> {
    let b = (opcode >> 11u16) & 3;
    (if b == 0 {
        "MOV"@
    } else if b == 1 {
        "CMP"@
    } else if b == 2 {
        "ADD"@
    } else {
        "SUB"@
    }) + " "@ + reg_text(field(opcode, 8, 7)) + ", #0x"@ + hex_digits((opcode & 0xFF) as nat)
}

pub open spec fn thumb_alu_mnemonic(op: u16) -> Seq<char> {
    if op == 0 {
        "AND"@
    } else if op == 1 {
        "EOR"@
    } else if op == 2 {
        "LSL"@
    } else if op == 3 {
        "LSR"@
    } else if op == 4 {
        "ASR"@
    } else if op == 5 {
        "ADC"@
    } else if op == 6 {
        "SBC"@
    } else if op == 7 {
        "ROR"@
    } else if op == 8 {
        "TST"@
    } else if op == 9 {
        "NEG"@
    } else if op == 10 {
        "CMP"@
    } else if op == 11 {
        "CMN"@
    } else if op == 12 {
        "ORR"@
    } else if op == 13 {
        "MUL"@
    } else if op == 14 {
        "BIC"@
    } else {
        "MVN"@
    }
}

/// Thumb format 4 names its operations as ARM does: the ten data-processing operations keep the
/// ARM data-processing opcode number and its mnemonic, the four register shifts take the ARM
/// shift mnemonics, and no two of the sixteen operations share a mnemonic.
pub proof fn lemma_thumb_alu_mnemonics(op: u16, other: u16)
    requires
        op < 16,
        other < 16,
    ensures
        op == 0 || op == 1 || op == 5 || op == 6 || op == 8 || op == 10 || op == 11 || op == 12 || op
            == 14 || op == 15 ==> thumb_alu_mnemonic(op) == alu_mnemonic(op as u32),
        op == 2 ==> thumb_alu_mnemonic(op) == shift_mnemonic(0),
        op == 3 ==> thumb_alu_mnemonic(op) == shift_mnemonic(1),
        op == 4 ==> thumb_alu_mnemonic(op) == shift_mnemonic(2),
        op == 7 ==> thumb_alu_mnemonic(op) == shift_mnemonic(3),
        op != other ==> thumb_alu_mnemonic(op) != thumb_alu_mnemonic(other),
{
    reveal_strlit("AND");
    reveal_strlit("EOR");
    reveal_strlit("LSL");
    reveal_strlit("LSR");
    reveal_strlit("ASR");
    reveal_strlit("ADC");
    reveal_strlit("SBC");
    reveal_strlit("ROR");
    reveal_strlit("TST");
    reveal_strlit("NEG");
    reveal_strlit("CMP");
    reveal_strlit("CMN");
    reveal_strlit("ORR");
    reveal_strlit("MUL");
    reveal_strlit("BIC");
    reveal_strlit("MVN");
    reveal_strlit("SUB");
    reveal_strlit("RSB");
    reveal_strlit("ADD");
    reveal_strlit("RSC");
    reveal_strlit("TEQ");
    reveal_strlit("MOV");
    assert((op as u32) & 0xF == op as u32 && 0u32 & 3 == 0 && 1u32 & 3 == 1 && 2u32 & 3 == 2 && 3u32
        & 3 == 3) by (bit_vector)
        requires
            op < 16,
    ;
    if op != other && thumb_alu_mnemonic(op) == thumb_alu_mnemonic(other) {
        let a = thumb_alu_mnemonic(op);
        let b = thumb_alu_mnemonic(other);
        assert(a[0] == b[0] && a[1] == b[1] && a[2] == b[2]);
    }
}

/// The sixteen data processing operations have sixteen different mnemonics, and the four shift
/// types four different ones.
pub proof fn lemma_arm_mnemonics_distinct(op: u32, other: u32)
    ensures
        (op & 0xF) != (other & 0xF) ==> alu_mnemonic(op) != alu_mnemonic(other),
        (op & 3) != (other & 3) ==> shift_mnemonic(op) != shift_mnemonic(other),
{
    reveal_strlit("AND");
    reveal_strlit("EOR");
    reveal_strlit("SUB");
    reveal_strlit("RSB");
    reveal_strlit("ADD");
    reveal_strlit("ADC");
    reveal_strlit("SBC");
    reveal_strlit("RSC");
    reveal_strlit("TST");
    reveal_strlit("TEQ");
    reveal_strlit("CMP");
    reveal_strlit("CMN");
    reveal_strlit("ORR");
    reveal_strlit("MOV");
    reveal_strlit("BIC");
    reveal_strlit("MVN");
    reveal_strlit("LSL");
    reveal_strlit("LSR");
    reveal_strlit("ASR");
    reveal_strlit("ROR");
    crate::bit_facts::lemma_u32_fields(op);
    crate::bit_facts::lemma_u32_fields(other);
    if (op & 0xF) != (other & 0xF) && alu_mnemonic(op) == alu_mnemonic(other) {
        let a = alu_mnemonic(op);
        let b = alu_mnemonic(other);
        assert(a[0] == b[0] && a[1] == b[1] && a[2] == b[2]);
    }
    if (op & 3) != (other & 3) && shift_mnemonic(op) == shift_mnemonic(other) {
        let a = shift_mnemonic(op);
        let b = shift_mnemonic(other);
        assert(a[0] == b[0] && a[1] == b[1] && a[2] == b[2]);
    }
}

pub open spec fn thumb_4_text(opcode: u16) -> Seq<char> {
    thumb_alu_mnemonic((opcode >> 6u16) & 0xF) + " "@ + reg_text((opcode & 7) as u32) + ", "@
        + reg_text(field(opcode, 3, 7))
}

pub open spec fn thumb_5_text(opcode: u16) -> Seq<char> {
    let rd = (opcode & 7) as u32 + if (opcode >> 7u16) & 1 == 1 {
        8u32
    } else {
        0u32
    };
    let rs = field(opcode, 3, 7) + if (opcode >> 6u16) & 1 == 1 {
        8u32
    } else {
        0u32
    };
    let b = (opcode >> 8u16) & 3;
    if b == 3 {
        "BX "@ + reg_text(rs as u32)
    } else {
        (if b == 0 {
            "ADD "@
        } else if b == 1 {
            "CMP "@
        } else {
            "MOV "@
        }) + reg_text(rd as u32) + ", "@ + reg_text(rs as u32)
    }
}

pub open spec fn thumb_6_text(opcode: u16) -> Seq<char> {
    "LDR "@ + reg_text(field(opcode, 8, 7)) + ", [PC, #0x"@ + hex_digits(
        (((opcode & 0xFF) as u32) << 2u32) as nat,
    ) + "]"@
}

pub open spec fn load_mnemonic(load: bool) -> Seq<char> {
    if load {
        "LDR"@
    } else {
        "STR"@
    }
}

pub open spec fn thumb_7_text(opcode: u16) -> Seq<char> {
    load_mnemonic((opcode >> 11u16) & 1 == 1) + text_if((opcode >> 10u16) & 1 == 1, "B"@) + " "@
        + reg_text((opcode & 7) as u32) + ", ["@ + reg_text(field(opcode, 3, 7)) + ", "@ + reg_text(
        field(opcode, 6, 7),
    ) + "]"@
}

pub open spec fn thumb_8_text(opcode: u16) -> Seq<char> {
    let b = (opcode >> 10u16) & 3;
    (if b == 0 {
        "STRH"@
    } else if b == 1 {
        "LDSB"@
    } else if b == 2 {
        "LDRH"@
    } else {
        "LDSH"@
    }) + " "@ + reg_text((opcode & 7) as u32) + ", ["@ + reg_text(field(opcode, 3, 7)) + ", "@
        + reg_text(field(opcode, 6, 7)) + "]"@
}

pub open spec fn thumb_9_text(opcode: u16) -> Seq<char> {
    let byte = (opcode >> 12u16) & 1 == 1;
    let offset = if byte {
        field(opcode, 6, 0x1F)
    } else {
        field(opcode, 6, 0x1F) << 2u32
    };
    load_mnemonic((opcode >> 11u16) & 1 == 1) + text_if(byte, "B"@) + " "@ + reg_text(
        (opcode & 7) as u32,
    ) + ", ["@ + reg_text(field(opcode, 3, 7)) + ", #"@ + decimal_digits(offset as nat) + "]"@
}

pub open spec fn thumb_10_text(opcode: u16) -> Seq<char> {
    (if (opcode >> 11u16) & 1 == 1 {
        "LDRH"@
    } else {
        "STRH"@
    }) + " "@ + reg_text((opcode & 7) as u32) + ", ["@ + reg_text(field(opcode, 3, 7)) + ", #0x"@
        + hex_digits((field(opcode, 6, 0x1F) << 1u32) as nat) + "]"@
}

pub open spec fn thumb_11_text(opcode: u16) -> Seq<char> {
    load_mnemonic((opcode >> 11u16) & 1 == 1) + " "@ + reg_text(field(opcode, 8, 7)) + ", [SP, #0x"@
        + hex_digits((((opcode & 0xFF) as u32) << 2u32) as nat) + "]"@
}

pub open spec fn thumb_12_text(opcode: u16) -> Seq<char> {
    "ADD "@ + reg_text(field(opcode, 8, 7)) + ", "@ + (if (opcode >> 11u16) & 1 == 1 {
        "SP"@
    } else {
        "PC"@
    }) + ", #0x"@ + hex_digits((((opcode & 0xFF) as u32) << 2u32) as nat)
}

/// ADD SP: a set sign bit (bit 7) subtracts the offset, written with a minus sign.
pub open spec fn thumb_13_text(opcode: u16) -> Seq<char> {
    "ADD SP, #"@ + (if (opcode >> 7u16) & 1 == 1 {
        "-"@
    } else {
        ""@
    }) + "0x"@ + hex_digits((((opcode & 0x7F) as u32) << 2u32) as nat)
}

pub open spec fn thumb_14_parts(opcode: u16) -> Seq<Seq<char>> {
    let low = register_list_parts(opcode as u32, 8);
    if (opcode >> 8u16) & 1 == 1 {
        low.push(
            if (opcode >> 11u16) & 1 == 1 {
                "PC"@
            } else {
                "LR"@
            },
        )
    } else {
        low
    }
}

pub open spec fn thumb_14_text(opcode: u16) -> Seq<char> {
    (if (opcode >> 11u16) & 1 == 1 {
        "POP"@
    } else {
        "PUSH"@
    }) + " {"@ + join_with(thumb_14_parts(opcode), ", "@) + "}"@
}

pub open spec fn thumb_15_text(opcode: u16) -> Seq<char> {
    (if (opcode >> 11u16) & 1 == 1 {
        "LDMIA"@
    } else {
        "STMIA"@
    }) + " "@ + reg_text(field(opcode, 8, 7)) + "! {"@ + join_with(
        register_list_parts(opcode as u32, 8),
        ","@,
    ) + "}"@
}

pub open spec fn thumb_16_text(opcode: u16) -> Seq<char> {
    "B"@ + condition_suffix(condition_from_bits((opcode >> 8u16) as u32)) + " "@ + signed_decimal(
        signed32(sign_extend_8((opcode & 0xFF) as u32) << 1u32),
    )
}

pub open spec fn thumb_18_text(opcode: u16) -> Seq<char> {
    "B "@ + decimal_digits((((opcode & 0x3FF) as u32) << 1u32) as nat)
}

pub open spec fn thumb_19_text(opcode: u16) -> Seq<char> {
    "BL "@ + (if (opcode >> 11u16) & 1 == 1 {
        "(low)"@
    } else {
        "(high)"@
    }) + " #0x"@ + hex_digits((opcode & 0x7FF) as nat)
}

/// The text of a Thumb opcode, by its format.
pub open spec fn thumb_text(opcode: u16) -> Seq<char> {
    match thumb_lookup(opcode >> 8u16) {
        ThumbOp::AddSub => thumb_2_text(opcode),
        ThumbOp::MoveShiftedRegister => thumb_1_text(opcode),
        ThumbOp::AluImmediate => thumb_3_text(opcode),
        ThumbOp::Alu => thumb_4_text(opcode),
        ThumbOp::HighRegisterOp => thumb_5_text(opcode),
        ThumbOp::PcRelativeLoad => thumb_6_text(opcode),
        ThumbOp::LoadRegisterOffset => thumb_7_text(opcode),
        ThumbOp::LoadSignExtended => thumb_8_text(opcode),
        ThumbOp::LoadImmediateOffset => thumb_9_text(opcode),
        ThumbOp::LoadHalfword => thumb_10_text(opcode),
        ThumbOp::LoadSpRelative => thumb_11_text(opcode),
        ThumbOp::LoadAddress => thumb_12_text(opcode),
        ThumbOp::AddOffsetSp => thumb_13_text(opcode),
        ThumbOp::PushPop => thumb_14_text(opcode),
        ThumbOp::LoadMultiple => thumb_15_text(opcode),
        ThumbOp::ConditionalBranch => thumb_16_text(opcode),
        ThumbOp::UnconditionalBranch => thumb_18_text(opcode),
        ThumbOp::LongBranch => thumb_19_text(opcode),
        _ => seq![],
    }
}

fn thumb_bit(opcode: u16, n: u16) -> (r: bool)
    requires
        n < 16,
    ensures
        r == ((opcode >> n) & 1 == 1),
{
    (opcode >> n) & 1 == 1
}

/// The text of a Thumb opcode.
pub fn thumb(opcode: u16) -> (r: String)
    requires
        thumb_text_defined(opcode),
    ensures
        r@ == thumb_text(opcode),
{
    match crate::arm7tdmi::instructions::thumb_decode(opcode >> 8u16) {
        ThumbOp::AddSub => thumb_2(opcode),
        ThumbOp::MoveShiftedRegister => {
            proof {
                lemma_format_1_shift(opcode);
            }
            thumb_1(opcode)
        },
        ThumbOp::AluImmediate => thumb_3(opcode),
        ThumbOp::Alu => thumb_4(opcode),
        ThumbOp::HighRegisterOp => thumb_5(opcode),
        ThumbOp::PcRelativeLoad => thumb_6(opcode),
        ThumbOp::LoadRegisterOffset => thumb_7(opcode),
        ThumbOp::LoadSignExtended => thumb_8(opcode),
        ThumbOp::LoadImmediateOffset => thumb_9(opcode),
        ThumbOp::LoadHalfword => thumb_10(opcode),
        ThumbOp::LoadSpRelative => thumb_11(opcode),
        ThumbOp::LoadAddress => thumb_12(opcode),
        ThumbOp::AddOffsetSp => thumb_13(opcode),
        ThumbOp::PushPop => thumb_14(opcode),
        ThumbOp::LoadMultiple => thumb_15(opcode),
        ThumbOp::ConditionalBranch => thumb_16(opcode),
        ThumbOp::UnconditionalBranch => thumb_18(opcode),
        ThumbOp::LongBranch => thumb_19(opcode),
        _ => String::new(),
    }
}

/// Format 1 never has shift type 3: that encoding is format 2, which the table tries first.
proof fn lemma_format_1_shift(opcode: u16)
    requires
        thumb_lookup(opcode >> 8u16) == ThumbOp::MoveShiftedRegister,
    ensures
        (opcode >> 11u16) & 3 != 3,
{
    let hi = opcode >> 8u16;
    let t = crate::arm7tdmi::instructions::thumb_decode_table_spec();
    reveal_with_fuel(crate::arm7tdmi::instructions::thumb_first_match, 20);
    assert(t.len() == 19);
    assert(hi & 0xF8 != 0x18 && hi & 0xE0 == 0);
    assert((hi & 0xF8 != 0x18 && hi & 0xE0 == 0) ==> (opcode >> 11u16) & 3 != 3) by (bit_vector)
        requires
            hi == opcode >> 8u16,
    ;
}

fn reg_field(opcode: u16, shift: u16) -> (r: u32)
    requires
        shift < 16,
    ensures
        r == field(opcode, shift, 7),
        r < 8,
{
    proof {
        crate::bit_facts::lemma_u16_fields(opcode >> shift);
    }
    ((opcode >> shift) & 7) as u32
}

// Move shifted register
fn thumb_1(opcode: u16) -> (r: String)
    requires
        (opcode >> 11u16) & 3 != 3,
    ensures
        r@ == thumb_1_text(opcode),
{
    let b = (opcode >> 11u16) & 3;
    let mut out = String::from_str(if b == 0 {
        "LSL"
    } else if b == 1 {
        "LSR"
    } else {
        "ASR"
    });
    out.append(" ");
    push_reg(&mut out, (opcode & 7) as u32);
    out.append(", ");
    push_reg(&mut out, reg_field(opcode, 3));
    out.append(" #");
    push_decimal(&mut out, ((opcode >> 6u16) & 0x1F) as u32);
    out
}

// Add/subtract
fn thumb_2(opcode: u16) -> (r: String)
    ensures
        r@ == thumb_2_text(opcode),
{
    let mut out = String::from_str(if thumb_bit(opcode, 9) {
        "SUB"
    } else {
        "ADD"
    });
    out.append(" ");
    push_reg(&mut out, (opcode & 7) as u32);
    out.append(", ");
    push_reg(&mut out, reg_field(opcode, 3));
    out.append(", ");
    if thumb_bit(opcode, 10) {
        out.append("#");
        push_decimal(&mut out, reg_field(opcode, 6));
    } else {
        push_reg(&mut out, reg_field(opcode, 6));
    }
    out
}

// Move/compare/add/subtract immediate
fn thumb_3(opcode: u16) -> (r: String)
    ensures
        r@ == thumb_3_text(opcode),
{
    let b = (opcode >> 11u16) & 3;
    let mut out = String::from_str(if b == 0 {
        "MOV"
    } else if b == 1 {
        "CMP"
    } else if b == 2 {
        "ADD"
    } else {
        "SUB"
    });
    out.append(" ");
    push_reg(&mut out, reg_field(opcode, 8));
    out.append(", #0x");
    push_hex(&mut out, (opcode & 0xFF) as u32);
    out
}

fn thumb_alu_mnemonic_str(op: u16) -> (r: &'static str)
    ensures
        r@ == thumb_alu_mnemonic(op),
{
    if op == 0 {
        "AND"
    } else if op == 1 {
        "EOR"
    } else if op == 2 {
        "LSL"
    } else if op == 3 {
        "LSR"
    } else if op == 4 {
        "ASR"
    } else if op == 5 {
        "ADC"
    } else if op == 6 {
        "SBC"
    } else if op == 7 {
        "ROR"
    } else if op == 8 {
        "TST"
    } else if op == 9 {
        "NEG"
    } else if op == 10 {
        "CMP"
    } else if op == 11 {
        "CMN"
    } else if op == 12 {
        "ORR"
    } else if op == 13 {
        "MUL"
    } else if op == 14 {
        "BIC"
    } else {
        "MVN"
    }
}

// ALU operations
fn thumb_4(opcode: u16) -> (r: String)
    ensures
        r@ == thumb_4_text(opcode),
{
    let mut out = String::from_str(thumb_alu_mnemonic_str((opcode >> 6u16) & 0xF));
    out.append(" ");
    push_reg(&mut out, (opcode & 7) as u32);
    out.append(", ");
    push_reg(&mut out, reg_field(opcode, 3));
    out
}

// Hi register operations / branch exchange
fn thumb_5(opcode: u16) -> (r: String)
    ensures
        r@ == thumb_5_text(opcode),
{
    let mut rd = (opcode & 7) as u32;
    let mut rs = reg_field(opcode, 3);
    proof {
        crate::bit_facts::lemma_u16_fields(opcode);
    }

    if thumb_bit(opcode, 7) {
        rd += 8;
    }

    if thumb_bit(opcode, 6) {
        rs += 8;
    }

    let b = (opcode >> 8u16) & 3;
    if b == 3 {
        let mut out = String::from_str("BX ");
        push_reg(&mut out, rs);
        out
    } else {
        let mut out = String::from_str(if b == 0 {
            "ADD "
        } else if b == 1 {
            "CMP "
        } else {
            "MOV "
        });
        push_reg(&mut out, rd);
        out.append(", ");
        push_reg(&mut out, rs);
        out
    }
}

// PC-relative load
fn thumb_6(opcode: u16) -> (r: String)
    ensures
        r@ == thumb_6_text(opcode),
{
    let mut out = String::from_str("LDR ");
    push_reg(&mut out, reg_field(opcode, 8));
    out.append(", [PC, #0x");
    push_hex(&mut out, ((opcode & 0xFF) as u32) << 2u32);
    out.append("]");
    out
}

fn load_str(load: bool) -> (r: &'static str)
    ensures
        r@ == load_mnemonic(load),
{
    if load {
        "LDR"
    } else {
        "STR"
    }
}

// Load/store with register offset
fn thumb_7(opcode: u16) -> (r: String)
    ensures
        r@ == thumb_7_text(opcode),
{
    let mut out = String::from_str(load_str(thumb_bit(opcode, 11)));
    out.append(if_str(thumb_bit(opcode, 10), "B"));
    out.append(" ");
    push_reg(&mut out, (opcode & 7) as u32);
    out.append(", [");
    push_reg(&mut out, reg_field(opcode, 3));
    out.append(", ");
    push_reg(&mut out, reg_field(opcode, 6));
    out.append("]");
    out
}

// Load/store sign-extended byte/halfword
fn thumb_8(opcode: u16) -> (r: String)
    ensures
        r@ == thumb_8_text(opcode),
{
    let b = (opcode >> 10u16) & 3;
    let mut out = String::from_str(if b == 0 {
        "STRH"
    } else if b == 1 {
        "LDSB"
    } else if b == 2 {
        "LDRH"
    } else {
        "LDSH"
    });
    out.append(" ");
    push_reg(&mut out, (opcode & 7) as u32);
    out.append(", [");
    push_reg(&mut out, reg_field(opcode, 3));
    out.append(", ");
    push_reg(&mut out, reg_field(opcode, 6));
    out.append("]");
    out
}

// Load/store with immediate offset
fn thumb_9(opcode: u16) -> (r: String)
    ensures
        r@ == thumb_9_text(opcode),
{
    let mut offset = ((opcode >> 6u16) & 0x1F) as u32;

    let byte = thumb_bit(opcode, 12);
    if !byte {
        offset = offset << 2u32;
    }

    let mut out = String::from_str(load_str(thumb_bit(opcode, 11)));
    out.append(if_str(byte, "B"));
    out.append(" ");
    push_reg(&mut out, (opcode & 7) as u32);
    out.append(", [");
    push_reg(&mut out, reg_field(opcode, 3));
    out.append(", #");
    push_decimal(&mut out, offset);
    out.append("]");
    out
}

// Load/store halfword
fn thumb_10(opcode: u16) -> (r: String)
    ensures
        r@ == thumb_10_text(opcode),
{
    let mut out = String::from_str(if thumb_bit(opcode, 11) {
        "LDRH"
    } else {
        "STRH"
    });
    out.append(" ");
    push_reg(&mut out, (opcode & 7) as u32);
    out.append(", [");
    push_reg(&mut out, reg_field(opcode, 3));
    out.append(", #0x");
    push_hex(&mut out, (((opcode >> 6u16) & 0x1F) as u32) << 1u32);
    out.append("]");
    out
}

// SP-relative load/store
fn thumb_11(opcode: u16) -> (r: String)
    ensures
        r@ == thumb_11_text(opcode),
{
    let mut out = String::from_str(load_str(thumb_bit(opcode, 11)));
    out.append(" ");
    push_reg(&mut out, reg_field(opcode, 8));
    out.append(", [SP, #0x");
    push_hex(&mut out, ((opcode & 0xFF) as u32) << 2u32);
    out.append("]");
    out
}

// Load address
fn thumb_12(opcode: u16) -> (r: String)
    ensures
        r@ == thumb_12_text(opcode),
{
    let mut out = String::from_str("ADD ");
    push_reg(&mut out, reg_field(opcode, 8));
    out.append(", ");
    out.append(if thumb_bit(opcode, 11) {
        "SP"
    } else {
        "PC"
    });
    out.append(", #0x");
    push_hex(&mut out, ((opcode & 0xFF) as u32) << 2u32);
    out
}

// Add offset to stack pointer
fn thumb_13(opcode: u16) -> (r: String)
    ensures
        r@ == thumb_13_text(opcode),
{
    let mut out = String::from_str("ADD SP, #");
    let sign_str = if thumb_bit(opcode, 7) {
        "-"
    } else {
        ""
    };
    out.append(sign_str);
    out.append("0x");
    push_hex(&mut out, ((opcode & 0x7F) as u32) << 2u32);
    out
}

// Push/pop registers
fn thumb_14(opcode: u16) -> (r: String)
    ensures
        r@ == thumb_14_text(opcode),
{
    let load = thumb_bit(opcode, 11);
    let mut out = String::from_str(if load {
        "POP"
    } else {
        "PUSH"
    });
    out.append(" {");
    let ghost before = out@;
    let any = push_register_list(&mut out, opcode as u32, 8, ", ");
    if thumb_bit(opcode, 8) {
        let ghost parts = register_list_parts(opcode as u32, 8);
        let extra = if load {
            "PC"
        } else {
            "LR"
        };
        if any {
            out.append(", ");
        }
        out.append(extra);
        proof {
            lemma_join_push(parts, ", "@, extra@);
        }
    }
    out.append("}");
    out
}

// Multiple load/store
fn thumb_15(opcode: u16) -> (r: String)
    ensures
        r@ == thumb_15_text(opcode),
{
    let mut out = String::from_str(if thumb_bit(opcode, 11) {
        "LDMIA"
    } else {
        "STMIA"
    });
    out.append(" ");
    push_reg(&mut out, reg_field(opcode, 8));
    out.append("! {");
    push_register_list(&mut out, opcode as u32, 8, ",");
    out.append("}");
    out
}

// Conditional branch
fn thumb_16(opcode: u16) -> (r: String)
    ensures
        r@ == thumb_16_text(opcode),
{
    let low = (opcode & 0xFF) as u32;
    let extended = if low >= 0x80 {
        low | 0xFFFF_FF00
    } else {
        low
    };
    let mut out = String::from_str("B");
    out.append(Condition::from_bits((opcode >> 8u16) as u32).suffix());
    out.append(" ");
    push_signed(&mut out, extended << 1u32);
    out
}

// Unconditional branch
fn thumb_18(opcode: u16) -> (r: String)
    ensures
        r@ == thumb_18_text(opcode),
{
    let mut out = String::from_str("B ");
    push_decimal(&mut out, ((opcode & 0x3FF) as u32) << 1u32);
    out
}

// Long branch with link
fn thumb_19(opcode: u16) -> (r: String)
    ensures
        r@ == thumb_19_text(opcode),
{
    let mut out = String::from_str("BL ");
    out.append(if thumb_bit(opcode, 11) {
        "(low)"
    } else {
        "(high)"
    });
    out.append(" #0x");
    push_hex(&mut out, (opcode & 0x7FF) as u32);
    out
}

} // verus!
