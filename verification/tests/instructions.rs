use nes_core::bus::Bus;
use nes_core::cpu_registers::Registers;
use nes_core::instructions::{
    adc, adc_imm, and, and_imm, asl, asl_acc, cmp, cmp_imm, cpx, cpx_imm, cpy, cpy_imm, dec, dex,
    dey, eor, eor_imm, inc, inx, iny, jmp, jsr, lda, lda_imm, ldx, ldx_imm, ldy, ldy_imm, lsr,
    lsr_acc, ora, ora_imm, pha, php, pla, plp, rol_acc, ror_acc, sbc, sbc_imm, sta, stx, sty, tax,
    tay, tsx, txa, txs, tya,
};

fn fresh_bus() -> Bus {
    Bus::new(vec![0])
}

#[test]
fn test_lda_immediate() {
    let mut reg = Registers::new();
    lda_imm(0xA5, &mut reg);
    assert_eq!(reg.get_a(), 0xA5);
}

#[test]
fn test_lda() {
    let mut reg = Registers::new();
    let mut bus = fresh_bus();
    bus.work_ram[0xAA] = 0xA5;
    lda(0xAA, &mut reg, &mut bus);
    assert_eq!(reg.get_a(), 0xA5);
}

#[test]
fn test_ldx_immediate() {
    let mut reg = Registers::new();
    ldx_imm(0xA5, &mut reg);
    assert_eq!(reg.get_x(), 0xA5);
}

#[test]
fn test_ldx() {
    let mut reg = Registers::new();
    let mut bus = fresh_bus();
    bus.work_ram[0xAA] = 0xA5;
    ldx(0xAA, &mut reg, &mut bus);
    assert_eq!(reg.get_x(), 0xA5);
}

#[test]
fn test_ldy_immediate() {
    let mut reg = Registers::new();
    ldy_imm(0xA5, &mut reg);
    assert_eq!(reg.get_y(), 0xA5);
}

#[test]
fn test_ldy() {
    let mut reg = Registers::new();
    let mut bus = fresh_bus();
    bus.work_ram[0xAA] = 0xA5;
    ldy(0xAA, &mut reg, &mut bus);
    assert_eq!(reg.get_y(), 0xA5);
}

#[test]
fn test_sta() {
    let mut reg = Registers::new();
    reg.set_a(0xA5);
    let mut bus = fresh_bus();
    sta(0xAA, &mut reg, &mut bus);
    assert_eq!(bus.work_ram[0xAA], 0xA5);
}

#[test]
fn test_stx() {
    let mut reg = Registers::new();
    reg.set_x(0xA5);
    let mut bus = fresh_bus();
    stx(0xAA, &mut reg, &mut bus);
    assert_eq!(bus.work_ram[0xAA], 0xA5);
}

#[test]
fn test_sty() {
    let mut reg = Registers::new();
    reg.set_y(0xA5);
    let mut bus = fresh_bus();
    sty(0xAA, &mut reg, &mut bus);
    assert_eq!(bus.work_ram[0xAA], 0xA5);
}

#[test]
fn test_txa() {
    let mut reg = Registers::new();
    reg.set_x(0xA5);
    txa(&mut reg);
    assert_eq!(reg.get_a(), 0xA5);
}

#[test]
fn test_tax() {
    let mut reg = Registers::new();
    reg.set_a(0xA5);
    tax(&mut reg);
    assert_eq!(reg.get_x(), 0xA5);
}

#[test]
fn test_tay() {
    let mut reg = Registers::new();
    reg.set_a(0xA5);
    tay(&mut reg);
    assert_eq!(reg.get_y(), 0xA5);
}

#[test]
fn test_tya() {
    let mut reg = Registers::new();
    reg.set_y(0xA5);
    tya(&mut reg);
    assert_eq!(reg.get_a(), 0xA5);
}

#[test]
fn test_txs() {
    let mut reg = Registers::new();
    reg.set_x(0xA5);
    txs(&mut reg);
    assert_eq!(reg.get_sp(), 0xA5);
}

#[test]
fn test_tsx() {
    let mut reg = Registers::new();
    reg.set_sp(0xA5);
    tsx(&mut reg);
    assert_eq!(reg.get_x(), 0xA5);
}

#[test]
fn test_php() {
    {
        let mut reg = Registers::new();
        reg.set_sp(0xA5);
        reg.set_break(false);
        let mut bus = fresh_bus();
        php(&mut reg, &mut bus);
        assert_eq!(bus.work_ram[0x01A5], 0x34);
        assert_eq!(reg.get_break(), false);
    }
    {
        let mut reg = Registers::new();
        reg.set_sp(0xA5);
        reg.set_break(true);
        let mut bus = fresh_bus();
        php(&mut reg, &mut bus);
        assert_eq!(bus.work_ram[0x01A5], 0x34);
        assert_eq!(reg.get_break(), true);
    }
}

#[test]
fn test_plp() {
    {
        let mut reg = Registers::new();
        reg.set_sp(0xA5);
        reg.set_break(false);
        let mut bus = fresh_bus();
        bus.work_ram[0x1A6] = 0xF5;
        plp(&mut reg, &mut bus);
        assert_eq!(reg.get_p(), 0xC5);
    }
    {
        let mut reg = Registers::new();
        reg.set_sp(0xA5);
        reg.set_break(true);
        let mut bus = fresh_bus();
        bus.work_ram[0x1A6] = 0xF5;
        plp(&mut reg, &mut bus);
        assert_eq!(reg.get_p(), 0xD5);
    }
}

#[test]
fn test_pha() {
    let mut reg = Registers::new();
    reg.set_sp(0xA5);
    reg.set_a(0x5A);
    let mut bus = fresh_bus();
    pha(&mut reg, &mut bus);
    assert_eq!(bus.work_ram[0x01A5], 0x5A);
}

#[test]
fn test_pla() {
    let mut reg = Registers::new();
    reg.set_sp(0xA5);
    let mut bus = fresh_bus();
    bus.work_ram[0x1A6] = 0xAA;
    pla(&mut reg, &mut bus);
    assert_eq!(reg.get_a(), 0xAA);
}

#[test]
fn test_adc_immediate() {
    let mut reg = Registers::new();
    reg.set_a(0x05);
    adc_imm(0xA5, &mut reg);
    assert_eq!(reg.get_a(), 0xAA);
}

#[test]
fn test_adc() {
    let mut reg = Registers::new();
    reg.set_a(0x05);
    let mut bus = fresh_bus();
    bus.work_ram[0xA5] = 0xAA;
    adc(0xA5, &mut reg, &mut bus);
    assert_eq!(reg.get_a(), 0xAF);
}

#[test]
fn test_sbc_immediate() {
    let mut reg = Registers::new();
    reg.set_a(0x10);
    sbc_imm(0x06, &mut reg);
    assert_eq!(reg.get_a(), 0x09);
}

#[test]
fn test_sbc() {
    let mut reg = Registers::new();
    reg.set_a(0x10);
    let mut bus = fresh_bus();
    bus.work_ram[0xA5] = 0x06;
    sbc(0xA5, &mut reg, &mut bus);
    assert_eq!(reg.get_a(), 0x09);
}

#[test]
fn test_cpx_immediate() {
    let mut reg = Registers::new();
    reg.set_x(0x05);
    cpx_imm(0x04, &mut reg);
    assert_eq!(reg.get_carry(), true);
}

#[test]
fn test_cpx() {
    let mut reg = Registers::new();
    reg.set_x(0x05);
    let mut bus = fresh_bus();
    bus.work_ram[0xA5] = 0x04;
    cpx(0xA5, &mut reg, &mut bus);
    assert_eq!(reg.get_carry(), true);
}

#[test]
fn test_cpy_immediate() {
    let mut reg = Registers::new();
    reg.set_y(0x05);
    cpy_imm(0x04, &mut reg);
    assert_eq!(reg.get_carry(), true);
}

#[test]
fn test_cpy() {
    let mut reg = Registers::new();
    reg.set_y(0x05);
    let mut bus = fresh_bus();
    bus.work_ram[0xA5] = 0x04;
    cpy(0xA5, &mut reg, &mut bus);
    assert_eq!(reg.get_carry(), true);
}

#[test]
fn test_cmp_immediate() {
    let mut reg = Registers::new();
    reg.set_a(0x05);
    cmp_imm(0x04, &mut reg);
    assert_eq!(reg.get_carry(), true);
}

#[test]
fn test_cmp() {
    let mut reg = Registers::new();
    reg.set_a(0x05);
    let mut bus = fresh_bus();
    bus.work_ram[0xA5] = 0x04;
    cmp(0xA5, &mut reg, &mut bus);
    assert_eq!(reg.get_carry(), true);
}

#[test]
fn test_and_immediate() {
    let mut reg = Registers::new();
    reg.set_a(0xA5);
    and_imm(0x05, &mut reg);
    assert_eq!(reg.get_a(), 0x05);
}

#[test]
fn test_and() {
    let mut reg = Registers::new();
    reg.set_a(0xA5);
    let mut bus = fresh_bus();
    bus.work_ram[0xA5] = 0x05;
    and(0xA5, &mut reg, &mut bus);
    assert_eq!(reg.get_a(), 0x05);
}

#[test]
fn test_eor_immediate() {
    let mut reg = Registers::new();
    reg.set_a(0xA5);
    eor_imm(0x05, &mut reg);
    assert_eq!(reg.get_a(), 0xA0);
}

#[test]
fn test_eor() {
    let mut reg = Registers::new();
    reg.set_a(0xA5);
    let mut bus = fresh_bus();
    bus.work_ram[0xA5] = 0x05;
    eor(0xA5, &mut reg, &mut bus);
    assert_eq!(reg.get_a(), 0xA0);
}

#[test]
fn test_ora_immediate() {
    let mut reg = Registers::new();
    reg.set_a(0xA0);
    ora_imm(0x05, &mut reg);
    assert_eq!(reg.get_a(), 0xA5);
}

#[test]
fn test_ora() {
    let mut reg = Registers::new();
    reg.set_a(0xA0);
    let mut bus = fresh_bus();
    bus.work_ram[0xA5] = 0x05;
    ora(0xA5, &mut reg, &mut bus);
    assert_eq!(reg.get_a(), 0xA5);
}

#[test]
fn test_asl_acc() {
    let mut reg = Registers::new();
    reg.set_a(0x55);
    asl_acc(&mut reg);
    assert_eq!(reg.get_a(), 0xAA);
}

#[test]
fn test_asl() {
    let mut reg = Registers::new();
    let mut bus = fresh_bus();
    bus.work_ram[0x00] = 0x55;
    asl(0x00, &mut reg, &mut bus);
    assert_eq!(bus.work_ram[0x00], 0xAA);
}

#[test]
fn test_lsr_acc() {
    let mut reg = Registers::new();
    reg.set_a(0xAA);
    lsr_acc(&mut reg);
    assert_eq!(reg.get_a(), 0x55);
}

#[test]
fn test_lsr() {
    let mut reg = Registers::new();
    let mut bus = fresh_bus();
    bus.work_ram[0x00] = 0xAA;
    lsr(0x00, &mut reg, &mut bus);
    assert_eq!(bus.work_ram[0x00], 0x55);
}

#[test]
fn test_rol_accumlator_with_carry() {
    let mut reg = Registers::new();
    reg.set_a(0x55);
    reg.set_carry(true);
    rol_acc(&mut reg);
    assert_eq!(reg.get_a(), 0xAB);
}

#[test]
fn test_ror_accumlator_with_carry() {
    let mut reg = Registers::new();
    reg.set_a(0x55);
    reg.set_carry(true);
    ror_acc(&mut reg);
    assert_eq!(reg.get_a(), 0xAA);
}

#[test]
fn test_ror_accumlator_without_carry() {
    let mut reg = Registers::new();
    reg.set_a(0x55);
    ror_acc(&mut reg);
    assert_eq!(reg.get_a(), 0x2A);
}

#[test]
fn test_inx() {
    let mut reg = Registers::new();
    reg.set_x(0x55);
    inx(&mut reg);
    assert_eq!(reg.get_x(), 0x56);

    reg.set_x(0xFF);
    inx(&mut reg);
    assert_eq!(reg.get_x(), 0);
}

#[test]
fn test_iny() {
    let mut reg = Registers::new();
    reg.set_y(0x55);
    iny(&mut reg);
    assert_eq!(reg.get_y(), 0x56);

    reg.set_y(0xFF);
    iny(&mut reg);
    assert_eq!(reg.get_y(), 0);
}

#[test]
fn test_inc() {
    let mut reg = Registers::new();
    let mut bus = fresh_bus();
    bus.work_ram[0x10] = 0xAA;
    inc(0x10, &mut reg, &mut bus);
    assert_eq!(bus.work_ram[0x10], 0xAB);
}

#[test]
fn test_dex() {
    let mut reg = Registers::new();
    reg.set_x(0x55);
    dex(&mut reg);
    assert_eq!(reg.get_x(), 0x54);
}

#[test]
fn test_dey() {
    let mut reg = Registers::new();
    reg.set_y(0x55);
    dey(&mut reg);
    assert_eq!(reg.get_y(), 0x54);
}

#[test]
fn test_dec() {
    let mut reg = Registers::new();
    let mut bus = fresh_bus();
    bus.work_ram[0x10] = 0xAA;
    dec(0x10, &mut reg, &mut bus);
    assert_eq!(bus.work_ram[0x10], 0xA9);
}

#[test]
fn test_jsr() {
    let mut reg = Registers::new();
    let mut bus = fresh_bus();
    jsr(0x10, &mut reg, &mut bus);
    assert_eq!(reg.get_pc(), 0x10);
}

#[test]
fn test_jmp() {
    let mut reg = Registers::new();
    jmp(0x10, &mut reg);
    assert_eq!(reg.get_pc(), 0x10);
}
