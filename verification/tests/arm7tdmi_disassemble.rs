use jgenesis::arm7tdmi::instructions::disassemble::{arm, shift_type_str, thumb};

#[test]
fn arm_data_processing_text() {
    assert_eq!(arm(0xE3A00005), "MOV R0, #0x5");
    assert_eq!(arm(0xE0512001), "SUBS R2, R1, R1");
    assert_eq!(arm(0xE1A00081), "MOV R0, R1, LSL #1");
    assert_eq!(arm(0xE1A00020), "MOV R0, R0, LSR #32");
    assert_eq!(arm(0xE0810312), "ADD R0, R1, R2, LSL R3");
    assert_eq!(arm(0xE3500006), "CMP R0, #0x6");
    assert_eq!(arm(0xE3800B0D), "ORR R0, R0, #0x3400");
    // An MSR whose field mask the table does not recognise is shown as the ALU opcode it encodes
    assert_eq!(arm(0xE321F010), "TEQ R1, #0x10");
}

#[test]
fn arm_branch_and_multiply_text() {
    assert_eq!(arm(0xE12FFF10), "BX R0");
    assert_eq!(arm(0xEB000002), "BL 8");
    assert_eq!(arm(0x0AFFFFFE), "BEQ -8");
    assert_eq!(arm(0xE0020190), "MUL R2, R0, R1");
    assert_eq!(arm(0xE0234291), "MLA R3, R1, R2, R4");
    assert_eq!(arm(0xE0C43190), "SMULL R3, R4, R0, R1");
    assert_eq!(arm(0xE0A65190), "UMLAL R5, R6, R0, R1");
}

#[test]
fn arm_transfer_text() {
    assert_eq!(arm(0xE5A10004), "STR R0, [R1, #0x4]!");
    assert_eq!(arm(0xE4113004), "LDR R3, [R1], #-0x4");
    assert_eq!(arm(0xE5D12000), "LDRB R2, [R1, #0x0]");
    assert_eq!(arm(0xE7912103), "LDR R2, [R1, R3, LSL 2]");
    assert_eq!(arm(0xE92D0007), "STMDB R13! {R0, R1, R2}");
    assert_eq!(arm(0xE8BD8070), "LDMIA R13! {R4, R5, R6, R15}");
    assert_eq!(arm(0xE1C120B4), "STRH R2, [R1, +#0x4]");
    assert_eq!(arm(0xE19120D3), "LDRSB R2, [R1, +R3]");
    assert_eq!(arm(0xE1012092), "SWP R2, R2, [R1]");
    assert_eq!(arm(0xE6000010), "Undefined");
}

#[test]
fn thumb_text_formats() {
    assert_eq!(thumb(0x2307), "MOV R3, #0x7");
    assert_eq!(thumb(0x1C48), "ADD R0, R1, #1");
    assert_eq!(thumb(0x0088), "LSL R0, R1 #2");
    assert_eq!(thumb(0x4348), "MUL R0, R1");
    assert_eq!(thumb(0x4770), "BX R14");
    assert_eq!(thumb(0x4801), "LDR R0, [PC, #0x4]");
    assert_eq!(thumb(0x5088), "STR R0, [R1, R2]");
    assert_eq!(thumb(0x5E88), "LDSH R0, [R1, R2]");
    assert_eq!(thumb(0x7848), "LDRB R0, [R1, #1]");
    assert_eq!(thumb(0x6848), "LDR R0, [R1, #4]");
    assert_eq!(thumb(0x8848), "LDRH R0, [R1, #0x2]");
    assert_eq!(thumb(0x9001), "STR R0, [SP, #0x4]");
    assert_eq!(thumb(0xA801), "ADD R0, SP, #0x4");
    assert_eq!(thumb(0xB082), "ADD SP, #-0x8");
    assert_eq!(thumb(0xB002), "ADD SP, #0x8");
    assert_eq!(thumb(0xB580), "PUSH {R7, LR}");
    assert_eq!(thumb(0xBD00), "POP {PC}");
    assert_eq!(thumb(0xC10F), "STMIA R1! {R0,R1,R2,R3}");
    assert_eq!(thumb(0xD0FE), "BEQ -4");
    assert_eq!(thumb(0xE7FE), "B 2044");
    assert_eq!(thumb(0xF000), "BL (high) #0x0");
    assert_eq!(thumb(0xF801), "BL (low) #0x1");
}

#[test]
fn shift_type_names() {
    assert_eq!(shift_type_str(0), "LSL");
    assert_eq!(shift_type_str(3), "ROR");
    assert_eq!(shift_type_str(6), "ASR");
}
