use jgenesis::spc700::{
    absolute_bit_operand, adc, addw, asl, clr1, cmp, cmpw, daa, das, div, lsr, mov1_bit_c,
    mov1_c_bit, mul, not1, rol, ror, sbc, set1, subw, tclr1, tset1, xcn, StatusRegister,
};

fn psw(carry: bool) -> StatusRegister {
    StatusRegister {
        negative: false,
        overflow: false,
        direct_page: false,
        half_carry: false,
        interrupt_enabled: false,
        zero: false,
        carry,
    }
}

#[test]
fn adc_flags() {
    let mut p = psw(false);
    assert_eq!(adc(0x7F, 0x01, &mut p), 0x80);
    assert!(p.overflow && p.negative && p.half_carry && !p.carry && !p.zero);

    let mut p = psw(false);
    assert_eq!(adc(0xFF, 0x01, &mut p), 0x00);
    assert!(p.zero && p.carry && p.half_carry && !p.overflow);

    let mut p = psw(true);
    assert_eq!(adc(0x10, 0x20, &mut p), 0x31);
    assert!(!p.carry && !p.half_carry);
}

#[test]
fn sbc_flags() {
    let mut p = psw(true);
    assert_eq!(sbc(0x00, 0x01, &mut p), 0xFF);
    assert!(!p.carry && p.negative && !p.half_carry);

    let mut p = psw(true);
    assert_eq!(sbc(0x80, 0x01, &mut p), 0x7F);
    assert!(p.overflow && p.carry);

    let mut p = psw(false);
    assert_eq!(sbc(0x10, 0x05, &mut p), 0x0A);
}

#[test]
fn compare_flags() {
    let mut p = psw(false);
    cmp(5, 5, &mut p);
    assert!(p.zero && p.carry && !p.negative);
    cmp(4, 5, &mut p);
    assert!(!p.zero && !p.carry && p.negative);
    cmpw(0x1234, 0x1235, &mut p);
    assert!(!p.carry && p.negative);
}

#[test]
fn word_arithmetic() {
    let mut p = psw(true);
    assert_eq!(addw(0x7FFF, 0x0001, &mut p), 0x8000);
    assert!(p.overflow && p.negative && p.half_carry && !p.carry);

    let mut p = psw(false);
    assert_eq!(subw(0x0000, 0x0001, &mut p), 0xFFFF);
    assert!(!p.carry && p.negative);
}

#[test]
fn multiply_and_divide() {
    let mut p = psw(false);
    assert_eq!(mul(0x10, 0x10, &mut p), 0x0100);
    assert!(!p.zero && !p.negative);
    assert_eq!(mul(0x00, 0xFF, &mut p), 0x0000);
    assert!(p.zero);

    let mut p = psw(false);
    assert_eq!(div(0, 100, 7, &mut p), (14, 2));
    assert!(!p.overflow);

    let mut p = psw(false);
    assert_eq!(div(0, 5, 0, &mut p), (255, 5));
    assert!(p.overflow);
}

#[test]
fn decimal_adjust() {
    let mut p = psw(false);
    let sum = adc(0x19, 0x28, &mut p);
    assert_eq!(daa(sum, &mut p), 0x47);
    assert!(!p.carry);

    let mut p = psw(false);
    let sum = adc(0x99, 0x01, &mut p);
    assert_eq!(daa(sum, &mut p), 0x00);
    assert!(p.carry && p.zero);

    let mut p = psw(true);
    let difference = sbc(0x47, 0x28, &mut p);
    assert_eq!(das(difference, &mut p), 0x19);
    assert!(p.carry);

    let mut p = psw(true);
    let difference = sbc(0x10, 0x20, &mut p);
    assert_eq!(das(difference, &mut p), 0x90);
    assert!(!p.carry);
}

#[test]
fn shifts_and_rotates() {
    let mut p = psw(false);
    assert_eq!(xcn(0x12, &mut p), 0x21);
    assert_eq!(asl(0x81, &mut p), 0x02);
    assert!(p.carry);
    assert_eq!(lsr(0x01, &mut p), 0x00);
    assert!(p.carry && p.zero);
    let mut p = psw(true);
    assert_eq!(rol(0x80, &mut p), 0x01);
    assert!(p.carry);
    let mut p = psw(true);
    assert_eq!(ror(0x01, &mut p), 0x80);
    assert!(p.carry && p.negative);
}

#[test]
fn bit_instructions() {
    assert_eq!(not1(0b1010, 1), 0b1000);
    assert_eq!(set1(0x00, 7), 0x80);
    assert_eq!(clr1(0xFF, 0), 0xFE);
    assert_eq!(mov1_bit_c(0x00, 3, true), 0x08);
    assert_eq!(mov1_bit_c(0xFF, 3, false), 0xF7);
    let mut p = psw(false);
    mov1_c_bit(0x08, 3, &mut p);
    assert!(p.carry);
    assert_eq!(absolute_bit_operand(0x34, 0xB2), (0x1234, 5));
}

#[test]
fn test_and_set_bits() {
    let mut p = psw(false);
    assert_eq!(tset1(0x0F, 0xF0, &mut p), 0xFF);
    assert!(!p.zero && !p.negative);
    let mut p = psw(false);
    assert_eq!(tclr1(0x0F, 0xFF, &mut p), 0xF0);
    assert!(!p.negative && !p.zero);
    let mut p = psw(false);
    assert_eq!(tclr1(0x80, 0x80, &mut p), 0x00);
    assert!(p.zero);
}
