use jgenesis::sh2::disassemble::{
    disassemble_into, DisassembledInstruction, Displacement, MemoryAccess, MemoryAccessSize,
    ReadType,
};
use jgenesis::sh2::Sh2;

fn disassemble(pc: u32, opcode: u16) -> DisassembledInstruction {
    let mut out = DisassembledInstruction::new();
    disassemble_into(pc, opcode, &mut out);
    out
}

#[test]
fn operandless_opcodes() {
    let out = disassemble(0, 0x0009);
    assert_eq!(out.text, "nop");
    assert!(out.memory_read.is_none());
    assert!(out.memory_write.is_none());
    assert_eq!(disassemble(0, 0x000B).text, "rts");
    assert_eq!(disassemble(0, 0x0019).text, "div0u");
}

#[test]
fn register_pair_opcodes() {
    assert_eq!(disassemble(0, 0x6123).text, "mov r2, r1");
    assert_eq!(disassemble(0, 0x3FEC).text, "add r14, r15");
    assert_eq!(disassemble(0, 0x2A5A).text, "xor r5, r10");
}

#[test]
fn register_indirect_store_reports_write() {
    let out = disassemble(0, 0x2122);
    assert_eq!(out.text, "mov.l r2, @r1");
    assert!(out.memory_read.is_none());
    assert!(matches!(
        out.memory_write,
        Some((
            MemoryAccess::IndirectR { register: 1, displacement: Displacement::Immediate(0) },
            MemoryAccessSize::Longword
        ))
    ));
}

#[test]
fn indexed_load_reports_read() {
    let out = disassemble(0, 0x043D);
    assert_eq!(out.text, "mov.w @(r0,r3), r4");
    assert!(matches!(
        out.memory_read,
        Some((
            MemoryAccess::IndirectR { register: 3, displacement: Displacement::Register(0) },
            MemoryAccessSize::Word
        ))
    ));
    assert_eq!(out.memory_read_type, ReadType::Load);
}

#[test]
fn conditional_branch_targets() {
    assert_eq!(disassemble(0x1000, 0x8B05).text, "bf $0000100E");
    assert_eq!(disassemble(0x1000, 0x8BFE).text, "bf $00001000");
    assert_eq!(disassemble(0x1000, 0x8D00).text, "bt/s $00001004");
}

#[test]
fn unconditional_branch_targets() {
    assert_eq!(disassemble(0x10000, 0xA800).text, "bra $0000F004");
    assert_eq!(disassemble(0x2000, 0xB7FF).text, "bsr $00003002");
    assert_eq!(disassemble(0, 0xAFFF).text, "bra $00000002");
}

#[test]
fn branch_target_wraps_around() {
    assert_eq!(disassemble(0xFFFF_FFFC, 0xA000).text, "bra $00000000");
}

#[test]
fn signed_immediates() {
    assert_eq!(disassemble(0, 0xE1FF).text, "mov.b #-1, r1");
    assert_eq!(disassemble(0, 0x7F80).text, "add #-128, r15");
    assert_eq!(disassemble(0, 0x887F).text, "cmp/eq #127, r0");
}

#[test]
fn unsigned_immediates() {
    assert_eq!(disassemble(0, 0xC9FF).text, "and #255, r0");
    assert_eq!(disassemble(0, 0xC320).text, "trapa #32");
}

#[test]
fn mova_takes_address() {
    let out = disassemble(0x1002, 0xC710);
    assert_eq!(out.text, "mova @(16,pc), r0");
    assert_eq!(out.memory_read_type, ReadType::EffectiveAddress);
    assert!(matches!(
        out.memory_read,
        Some((
            MemoryAccess::PcRelative { pc: 0x1002, displacement: Displacement::Immediate(16) },
            MemoryAccessSize::Longword
        ))
    ));
}

#[test]
fn gbr_byte_operation_reads_and_writes() {
    let out = disassemble(0, 0xCD05);
    assert_eq!(out.text, "and.b #5, @(r0,gbr)");
    assert!(matches!(
        out.memory_read,
        Some((
            MemoryAccess::IndirectGbr { displacement: Displacement::Register(0) },
            MemoryAccessSize::Byte
        ))
    ));
    assert!(matches!(
        out.memory_write,
        Some((
            MemoryAccess::IndirectGbr { displacement: Displacement::Register(0) },
            MemoryAccessSize::Byte
        ))
    ));
}

#[test]
fn control_and_system_register_moves() {
    assert_eq!(disassemble(0, 0x402E).text, "ldc r0, vbr");
    assert_eq!(disassemble(0, 0x031A).text, "sts macl, r3");
    let out = disassemble(0, 0x4122);
    assert_eq!(out.text, "sts.l pr, @-r1");
    assert!(matches!(
        out.memory_write,
        Some((MemoryAccess::IndirectRPredecrement { register: 1 }, MemoryAccessSize::Longword))
    ));
    let out = disassemble(0, 0x4517);
    assert_eq!(out.text, "ldc.l @r5+, gbr");
    assert!(matches!(
        out.memory_read,
        Some((
            MemoryAccess::IndirectR { register: 5, displacement: Displacement::Immediate(0) },
            MemoryAccessSize::Longword
        ))
    ));
}

#[test]
fn register_jumps_take_address() {
    let out = disassemble(0x600, 0x0723);
    assert_eq!(out.text, "braf r7");
    assert_eq!(out.memory_read_type, ReadType::EffectiveAddress);
    assert!(matches!(
        out.memory_read,
        Some((
            MemoryAccess::PcRelative { pc: 0x600, displacement: Displacement::Register(7) },
            MemoryAccessSize::Word
        ))
    ));
    assert_eq!(disassemble(0, 0x4E0B).text, "jsr @r14");
}

#[test]
fn displacement_moves() {
    assert_eq!(disassemble(0, 0x1123).text, "mov.l r2, @(3,r1)");
    assert_eq!(disassemble(0, 0x8153).text, "mov.w r0, @(3,r5)");
    assert_eq!(disassemble(0, 0xC6FF).text, "mov.l @(255,gbr), r0");
    assert_eq!(disassemble(0, 0x9A10).text, "mov.w @(16,pc), r10");
}

#[test]
fn displacement_longword_load_names_bits_11_to_8() {
    assert_eq!(disassemble(0, 0x5123).text, "mov.l @(3,r1), r1");
}

#[test]
fn multiply_accumulate_reads_and_writes() {
    let out = disassemble(0, 0x412F);
    assert_eq!(out.text, "mac.w @r2+, @r1+");
    assert!(matches!(
        out.memory_read,
        Some((MemoryAccess::IndirectR { register: 2, .. }, MemoryAccessSize::Word))
    ));
    assert!(matches!(
        out.memory_write,
        Some((MemoryAccess::IndirectR { register: 1, .. }, MemoryAccessSize::Word))
    ));
}

#[test]
fn unknown_opcode_is_illegal() {
    assert_eq!(disassemble(0, 0xFFFF).text, "illegal");
}

#[test]
fn disassembly_replaces_previous_operands() {
    let mut out = DisassembledInstruction::new();
    out.pc = 0x1234;
    out.opcode = 0x2122;
    disassemble_into(0x1234, 0x2122, &mut out);
    assert!(out.memory_write.is_some());
    disassemble_into(0x1236, 0x0009, &mut out);
    assert_eq!(out.text, "nop");
    assert!(out.memory_write.is_none());
    assert_eq!(out.pc, 0x1234);
    assert_eq!(out.opcode, 0x2122);
}

#[test]
fn clear_drops_text_and_operands() {
    let mut out = disassemble(0, 0xC710);
    out.clear();
    assert_eq!(out.text, "");
    assert!(out.memory_read.is_none());
    assert_eq!(out.memory_read_type, ReadType::Load);
}

#[test]
fn resolve_addresses() {
    let mut cpu = Sh2::new(String::new());
    cpu.registers.gpr[0] = 0x20;
    cpu.registers.gpr[2] = 0x100;
    cpu.registers.gbr = 0x1000;

    let pc_relative =
        MemoryAccess::PcRelative { pc: 0x1002, displacement: Displacement::Immediate(3) };
    assert_eq!(pc_relative.resolve_address(MemoryAccessSize::Longword, &cpu), 0x1010);
    assert_eq!(pc_relative.resolve_address(MemoryAccessSize::Word, &cpu), 0x100C);

    let predecrement = MemoryAccess::IndirectRPredecrement { register: 1 };
    assert_eq!(predecrement.resolve_address(MemoryAccessSize::Word, &cpu), 0xFFFF_FFFE);

    let indexed = MemoryAccess::IndirectR { register: 2, displacement: Displacement::Register(0) };
    assert_eq!(indexed.resolve_address(MemoryAccessSize::Byte, &cpu), 0x120);

    let gbr = MemoryAccess::IndirectGbr { displacement: Displacement::Immediate(4) };
    assert_eq!(gbr.resolve_address(MemoryAccessSize::Word, &cpu), 0x1008);
    assert_eq!(Displacement::Immediate(4).resolve(MemoryAccessSize::Longword, &cpu), 16);
}
