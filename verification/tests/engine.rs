use nes_core::bus::Bus;
use nes_core::context::{reset_with_addr, run, Context};
use nes_core::cpu_registers::Registers;
use nes_core::instructions::{bit, brk, dcp, isc, lax, rla, rra, rti, sax, slo, sre};

fn fresh_bus() -> Bus {
    Bus::new(vec![0])
}

#[test]
fn test_bit_copies_top_bits_and_masks_zero() {
    let mut reg = Registers::new();
    let mut bus = fresh_bus();
    reg.set_a(0x0F);
    bus.work_ram[0x20] = 0xC0;
    bit(0x20, &mut reg, &mut bus);
    assert!(reg.get_zero());
    assert!(reg.get_negative());
    assert!(reg.get_overflow());
    // the accumulator does not affect negative and overflow
    reg.set_a(0xFF);
    bit(0x20, &mut reg, &mut bus);
    assert!(!reg.get_zero());
    assert!(reg.get_negative());
    assert!(reg.get_overflow());
}

#[test]
fn test_lax_loads_both_registers() {
    let mut reg = Registers::new();
    let mut bus = fresh_bus();
    bus.work_ram[0x20] = 0x80;
    lax(0x20, &mut reg, &mut bus);
    assert_eq!(reg.get_a(), 0x80);
    assert_eq!(reg.get_x(), 0x80);
    assert!(reg.get_negative());
    assert!(!reg.get_zero());
}

#[test]
fn test_sax_stores_masked_accumulator() {
    let mut reg = Registers::new();
    let mut bus = fresh_bus();
    reg.set_a(0xF0);
    reg.set_x(0x3C);
    sax(0x20, &mut reg, &mut bus);
    assert_eq!(bus.work_ram[0x20], 0x30);
}

#[test]
fn test_dcp_decrements_then_compares() {
    let mut reg = Registers::new();
    let mut bus = fresh_bus();
    reg.set_a(0x10);
    bus.work_ram[0x20] = 0x11;
    dcp(0x20, &mut reg, &mut bus);
    assert_eq!(bus.work_ram[0x20], 0x10);
    assert!(reg.get_carry());
    assert!(reg.get_zero());
    assert_eq!(reg.get_a(), 0x10);
}

#[test]
fn test_isc_increments_then_subtracts() {
    let mut reg = Registers::new();
    let mut bus = fresh_bus();
    reg.set_a(0x20);
    reg.set_carry(true);
    bus.work_ram[0x20] = 0x0F;
    isc(0x20, &mut reg, &mut bus);
    assert_eq!(bus.work_ram[0x20], 0x10);
    assert_eq!(reg.get_a(), 0x10);
    assert!(reg.get_carry());
}

#[test]
fn test_slo_shifts_then_ors() {
    let mut reg = Registers::new();
    let mut bus = fresh_bus();
    reg.set_a(0x01);
    bus.work_ram[0x20] = 0x81;
    slo(0x20, &mut reg, &mut bus);
    assert_eq!(bus.work_ram[0x20], 0x02);
    assert!(reg.get_carry());
    assert_eq!(reg.get_a(), 0x03);
}

#[test]
fn test_rla_rotates_then_ands() {
    let mut reg = Registers::new();
    let mut bus = fresh_bus();
    reg.set_a(0xFF);
    reg.set_carry(true);
    bus.work_ram[0x20] = 0x40;
    rla(0x20, &mut reg, &mut bus);
    assert_eq!(bus.work_ram[0x20], 0x81);
    assert!(!reg.get_carry());
    assert_eq!(reg.get_a(), 0x81);
    assert!(reg.get_negative());
}

#[test]
fn test_sre_shifts_then_xors() {
    let mut reg = Registers::new();
    let mut bus = fresh_bus();
    reg.set_a(0x10);
    bus.work_ram[0x20] = 0x03;
    sre(0x20, &mut reg, &mut bus);
    assert_eq!(bus.work_ram[0x20], 0x01);
    assert!(reg.get_carry());
    assert_eq!(reg.get_a(), 0x11);
}

#[test]
fn test_rra_rotates_then_adds_with_rotated_carry() {
    let mut reg = Registers::new();
    let mut bus = fresh_bus();
    reg.set_a(0x05);
    reg.set_carry(false);
    bus.work_ram[0x20] = 0x02;
    rra(0x20, &mut reg, &mut bus);
    assert_eq!(bus.work_ram[0x20], 0x01);
    assert_eq!(reg.get_a(), 0x06);
    assert!(!reg.get_carry());
}

#[test]
fn test_brk_pushes_frame_and_loads_vector() {
    let mut reg = Registers::new();
    let mut rom: Vec<u8> = vec![0; 0x8000];
    rom[0x7FFE] = 0x00;
    rom[0x7FFF] = 0x90;
    let mut bus = Bus::new(rom);
    reg.set_interrupt(false);
    brk(&mut reg, &mut bus);
    assert_eq!(bus.work_ram[0x01FD], 0x80);
    assert_eq!(bus.work_ram[0x01FC], 0x01);
    // the pushed status byte carries the break bit
    assert_eq!(bus.work_ram[0x01FB] & 0x10, 0x10);
    assert!(reg.get_interrupt());
    assert_eq!(reg.get_pc(), 0x8FFF);
}

#[test]
fn test_brk_suppresses_vector_when_interrupts_disabled() {
    let mut reg = Registers::new();
    let mut rom: Vec<u8> = vec![0; 0x8000];
    rom[0x7FFE] = 0x00;
    rom[0x7FFF] = 0x90;
    let mut bus = Bus::new(rom);
    reg.set_interrupt(true);
    brk(&mut reg, &mut bus);
    assert_eq!(reg.get_pc(), 0x8000);
}

#[test]
fn test_rti_restores_status_and_counter() {
    let mut reg = Registers::new();
    let mut bus = fresh_bus();
    reg.set_sp(0xFA);
    bus.work_ram[0x01FB] = 0x81;
    bus.work_ram[0x01FC] = 0x34;
    bus.work_ram[0x01FD] = 0x12;
    rti(&mut reg, &mut bus);
    assert_eq!(reg.get_pc(), 0x1234);
    assert_eq!(reg.get_sp(), 0xFD);
    // the reserved bit is forced back on over the popped byte
    assert_eq!(reg.get_p(), 0xA1);
}

#[test]
fn test_step_indirect_jump_wraps_within_page() {
    let mut rom: Vec<u8> = vec![0; 0x8000];
    rom[0] = 0x6C;
    rom[1] = 0xFF;
    rom[2] = 0x10;
    let mut ctx = Context::new(rom);
    // the pointer's low byte sits at the end of a page, so its high byte is
    // fetched from the start of the same page, not the next one
    ctx.bus.work_ram[0x10FF % 0x800] = 0x34;
    ctx.bus.work_ram[0x1000 % 0x800] = 0x12;
    reset_with_addr(&mut ctx, 0x8000);
    run(&mut ctx);
    assert_eq!(ctx.cpu_registers.get_pc(), 0x1234);
}

#[test]
fn test_step_branch_taken_costs_an_extra_cycle() {
    // SEC; BCS +2
    let mut rom: Vec<u8> = vec![0; 0x8000];
    rom[0] = 0x38;
    rom[1] = 0xB0;
    rom[2] = 0x02;
    let mut ctx = Context::new(rom);
    reset_with_addr(&mut ctx, 0x8000);
    let (set_cycles, _) = run(&mut ctx);
    assert_eq!(set_cycles, 2);
    let (branch_cycles, _) = run(&mut ctx);
    assert_eq!(branch_cycles, 3);
    assert_eq!(ctx.cpu_registers.get_pc(), 0x8005);
}
