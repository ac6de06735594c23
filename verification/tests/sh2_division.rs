use jgenesis::sh2::Sh2;

fn mn_opcode(rm: u16, rn: u16) -> u16 {
    (rm << 4) | (rn << 8)
}

#[test]
fn unsigned_division() {
    let mut cpu = Sh2::new(String::new());

    cpu.registers.gpr[0] = 100000;
    cpu.registers.gpr[1] = 300 << 16;

    cpu.div0u();

    let opcode = mn_opcode(1, 0);
    for _ in 0..16 {
        cpu.div1(opcode);
    }

    cpu.registers.gpr[0] = (cpu.registers.gpr[0] << 1) | u32::from(cpu.registers.sr.t);

    assert_eq!(cpu.registers.gpr[0] & 0xFFFF, 333);
}

#[test]
fn signed_division() {
    let mut cpu = Sh2::new(String::new());

    for _ in 0..100 {
        let dividend: i16 = rand::random();
        let mut divisor = rand::random::<i16>() >> 7;
        while divisor == 0 {
            divisor = rand::random();
        }

        cpu.registers.gpr[0] = (divisor as u32) << 16;
        cpu.registers.gpr[1] = dividend as u32;

        cpu.registers.gpr[3] = cpu.registers.gpr[1];
        cpu.rotcl(3 << 8);
        cpu.subc(mn_opcode(2, 1));

        cpu.div0s(mn_opcode(0, 1));
        for _ in 0..16 {
            cpu.div1(mn_opcode(0, 1));
        }

        cpu.registers.gpr[1] = (cpu.registers.gpr[1] as i16) as u32;

        cpu.rotcl(1 << 8);
        cpu.addc(mn_opcode(2, 1));

        let quotient = cpu.registers.gpr[1] as i16;
        assert_eq!(quotient, dividend / divisor);
    }
}
