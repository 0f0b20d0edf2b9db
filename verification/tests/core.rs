use nes_core::apu::Apu;
use nes_core::bus::Bus;
use nes_core::context::{reset, reset_with_addr, run, Context};
use nes_core::cpu_registers::Registers;
use nes_core::dma::Dma;
use nes_core::instructions::{adc_imm, inx, jsr, php, process_nmi, rol_acc, rts, sbc_imm};
use nes_core::opcode::{decode, Addressing, Inst};
use nes_core::square::Square;

#[test]
fn test_update_zero_and_negative_flags() {
    let mut reg = Registers::new();
    reg.update_zero_by(0);
    assert!(reg.get_zero());
    reg.update_zero_by(1);
    assert!(!reg.get_zero());
    reg.update_negative_by(0x80);
    assert!(reg.get_negative());
    reg.update_negative_by(0x7F);
    assert!(!reg.get_negative());
    reg.update_negative_by(0xFF);
    assert!(reg.get_negative());
}

#[test]
fn test_adc_immediate_flags() {
    let mut reg = Registers::new();
    reg.set_a(0x05);
    reg.set_carry(false);
    adc_imm(0xA5, &mut reg);
    assert_eq!(reg.get_a(), 0xAA);
    assert_eq!(reg.get_carry(), false);
    assert_eq!(reg.get_overflow(), false);
}

#[test]
fn test_sbc_immediate_carry() {
    let mut reg = Registers::new();
    reg.set_a(0x10);
    reg.set_carry(false);
    sbc_imm(0x06, &mut reg);
    assert_eq!(reg.get_a(), 0x09);
    assert_eq!(reg.get_carry(), true);
}

#[test]
fn test_rol_accumulator_carry_out() {
    let mut reg = Registers::new();
    reg.set_a(0x55);
    reg.set_carry(true);
    rol_acc(&mut reg);
    assert_eq!(reg.get_a(), 0xAB);
    assert_eq!(reg.get_carry(), false);
}

#[test]
fn test_inx_wraps_and_sets_flags() {
    let mut reg = Registers::new();
    reg.set_x(0xFF);
    inx(&mut reg);
    assert_eq!(reg.get_x(), 0x00);
    assert!(reg.get_zero());
    assert!(!reg.get_negative());
}

#[test]
fn test_php_forces_break_and_reserved_bits() {
    let samples: Vec<u8> = vec![0x00, 0xFF, 0x42, 0x85, 0xCF, 0x30];
    for p in samples {
        let mut reg = Registers::new();
        reg.set_p(p);
        reg.set_sp(0xA5);
        let mut bus = Bus::new(vec![0]);
        php(&mut reg, &mut bus);
        let pushed = bus.work_ram[0x01A5];
        assert_eq!(pushed & 0x30, 0x30);
        assert_eq!(pushed & 0xCF, (p | 0x30) & 0xCF);
    }
}

#[test]
fn test_jsr_pushes_return_address_minus_one() {
    let mut reg = Registers::new();
    let mut bus = Bus::new(vec![0]);
    assert_eq!(reg.get_pc(), 0x8000);
    assert_eq!(reg.get_sp(), 0xFD);
    jsr(0x10, &mut reg, &mut bus);
    assert_eq!(reg.get_pc(), 0x10);
    assert_eq!(bus.work_ram[0x01FD], 0x7F);
    assert_eq!(bus.work_ram[0x01FC], 0xFF);
    assert_eq!(reg.get_sp(), 0xFB);
}

#[test]
fn test_jsr_rts_round_trip() {
    let mut reg = Registers::new();
    let mut bus = Bus::new(vec![0]);
    reg.set_pc(0x8005);
    jsr(0x1234, &mut reg, &mut bus);
    assert_eq!(reg.get_pc(), 0x1234);
    rts(&mut reg, &mut bus);
    assert_eq!(reg.get_pc(), 0x8005);
    assert_eq!(reg.get_sp(), 0xFD);
}

#[test]
fn test_frame_sequencer_mode0_one_irq_at_wrap() {
    let mut apu = Apu::new();
    apu.write(0x17, 0x40);
    assert!(!apu.sequencer_mode);
    assert!(apu.enable_irq);
    assert_eq!(apu.step, 0);

    apu.update_by_sequence_mode0();
    assert!(!apu.frame_irq);
    apu.update_by_sequence_mode0();
    assert!(!apu.frame_irq);
    apu.update_by_sequence_mode0();
    assert!(!apu.frame_irq);
    apu.update_by_sequence_mode0();
    assert!(apu.frame_irq);
    assert_eq!(apu.step, 0);
}

#[test]
fn test_frame_sequencer_mode1_never_irq() {
    let mut apu = Apu::new();
    apu.write(0x17, 0xC0);
    assert!(apu.sequencer_mode);
    assert!(apu.enable_irq);
    let mut i: u32 = 0;
    while i < 20 {
        apu.update_by_sequence_mode1();
        assert!(!apu.frame_irq);
        i += 1;
    }
}

#[test]
fn test_frame_sequencer_divider_accumulates() {
    let mut apu = Apu::new();
    apu.write(0x17, 0x40);
    apu.run(7456);
    assert_eq!(apu.step, 0);
    assert_eq!(apu.cycle, 7456);
    apu.run(1);
    assert_eq!(apu.step, 1);
    assert_eq!(apu.cycle, 0);
}

#[test]
fn test_enable_starts_only_with_nonzero_period() {
    // the power-up period divider is 1, so enabling starts the channel
    let mut sq = Square::new(0);
    sq.enable();
    assert!(sq.playing);

    // with a zero period there is nothing to play: enabling leaves it silent
    let mut sq2 = Square::new(0);
    sq2.write(0x02, 0x00);
    assert_eq!(sq2.divider_for_frequency, 0);
    sq2.enable();
    assert!(sq2.enable);
    assert!(!sq2.playing);
}

#[test]
fn test_sweep_out_of_range_silences_until_rearmed() {
    let mut sq = Square::new(0);
    sq.enable();
    sq.write(0x02, 0xFF);
    sq.write(0x03, 0x04);
    assert_eq!(sq.divider_for_frequency, 0x4FF);
    assert!(sq.playing);

    // sweep up with shift 0: the computed period doubles to 0x9FE, out of range
    sq.write(0x01, 0x80);
    sq.update_counters();
    assert!(!sq.playing);
    assert_eq!(sq.divider_for_frequency, 0x4FF);

    // further sequencer ticks leave it silenced
    sq.update_counters();
    sq.update_envelope();
    assert!(!sq.playing);

    // a period-low write re-arms the enabled channel
    sq.write(0x02, 0xFF);
    assert!(sq.playing);
}

#[test]
fn test_sweep_in_range_updates_period() {
    let mut sq = Square::new(0);
    sq.enable();
    sq.write(0x02, 0x40);
    assert_eq!(sq.divider_for_frequency, 0x40);
    assert!(sq.playing);
    // sweep up, shift 1: 0x40 + 0x20 = 0x60, in range
    sq.write(0x01, 0x81);
    sq.update_counters();
    assert!(sq.playing);
    assert_eq!(sq.divider_for_frequency, 0x60);
}

#[test]
fn test_length_counter_silences_at_zero() {
    let mut sq = Square::new(0);
    sq.enable();
    sq.write(0x00, 0x00);
    sq.write(0x03, 0x18);
    // load code 3 gives a raw count of 2, halved to 1
    assert_eq!(sq.length_counter, 1);
    assert!(sq.playing);
    sq.update_counters();
    assert_eq!(sq.length_counter, 0);
    assert!(!sq.playing);
    assert!(sq.has_count_end());
}

#[test]
fn test_envelope_reloads_and_decays() {
    let mut sq = Square::new(0);
    sq.write(0x00, 0x02);
    sq.write(0x03, 0x00);
    assert_eq!(sq.envelope_generator_counter, 2);
    assert_eq!(sq.envelope_volume, 0x0F);
    sq.update_envelope();
    assert_eq!(sq.envelope_generator_counter, 1);
    assert_eq!(sq.envelope_volume, 0x0F);
    sq.update_envelope();
    assert_eq!(sq.envelope_generator_counter, 2);
    assert_eq!(sq.envelope_volume, 0x0E);
}

#[test]
fn test_decode_table_has_no_gaps() {
    let mut op: u16 = 0;
    while op <= 0xFF {
        let info = decode(op as u8);
        assert!(info.cycles >= 2 && info.cycles <= 8);
        op += 1;
    }
    let lda = decode(0xA9);
    assert!(lda.inst == Inst::Lda);
    assert!(lda.mode == Addressing::Immediate);
    assert_eq!(lda.cycles, 2);
    let brk = decode(0x00);
    assert!(brk.inst == Inst::Brk);
    assert_eq!(brk.cycles, 7);
    let isc = decode(0xFF);
    assert!(isc.inst == Inst::Isc);
    assert!(isc.mode == Addressing::AbsoluteX);
}

#[test]
fn test_apu_status_reports_live_length_counters() {
    let mut apu = Apu::new();
    assert_eq!(apu.read(0x15), 0x00);
    apu.write(0x15, 0x01);
    apu.write(0x00, 0x00);
    apu.write(0x03, 0xF8);
    assert_eq!(apu.read(0x15) & 0x01, 0x01);
}

#[test]
fn test_dma_copies_one_page() {
    let mut work_ram: Vec<u8> = vec![0; 0x800];
    let mut i: usize = 0;
    while i < 0x800 {
        work_ram[i] = (i % 251) as u8;
        i += 1;
    }
    let mut sprite_ram: Vec<u8> = vec![0; 0x100];
    let mut dma = Dma::new();
    dma.write(0x01);
    assert!(dma.should_run());
    dma.run(&work_ram, &mut sprite_ram);
    assert!(!dma.should_run());
    let mut j: usize = 0;
    while j < 0x100 {
        assert_eq!(sprite_ram[j], work_ram[0x100 + j]);
        j += 1;
    }
}

#[test]
fn test_bus_work_ram_is_mirrored() {
    let mut bus = Bus::new(vec![0]);
    bus.write(0x0000, 7);
    assert_eq!(bus.read(0x0800), 7);
    assert_eq!(bus.read(0x1800), 7);
    bus.write(0x1FFF, 9);
    assert_eq!(bus.read(0x07FF), 9);
}

#[test]
fn test_bus_unmapped_reads_zero() {
    let mut bus = Bus::new(vec![0]);
    assert_eq!(bus.read(0x5000), 0);
    assert_eq!(bus.read(0x4020), 0);
}

#[test]
fn test_bus_cartridge_space_is_mirrored() {
    let mut bus = Bus::new(vec![1, 2, 3, 4]);
    assert_eq!(bus.read(0x8000), 1);
    assert_eq!(bus.read(0x8003), 4);
    assert_eq!(bus.read(0x8004), 1);
    assert_eq!(bus.read(0xFFFF), 4);
}

#[test]
fn test_ppu_status_read_clears_flags_and_latches() {
    let mut bus = Bus::new(vec![0]);
    bus.ppu.ppu_status = 0xC0;
    bus.ppu.ppu_addr.high_next = false;
    let status = bus.read(0x2002);
    assert_eq!(status, 0xC0);
    assert_eq!(bus.ppu.ppu_status, 0x00);
    assert!(bus.ppu.ppu_addr.high_next);
}

#[test]
fn test_ppu_data_port_writes_video_memory() {
    let mut bus = Bus::new(vec![0]);
    bus.write(0x2006, 0x20);
    bus.write(0x2006, 0x00);
    bus.write(0x2007, 0x55);
    bus.write(0x2007, 0x66);
    assert_eq!(bus.ppu_ctx.vram[0x2000], 0x55);
    assert_eq!(bus.ppu_ctx.vram[0x2001], 0x66);
    assert_eq!(bus.ppu.ppu_addr.addr, 0x2002);
}

#[test]
fn test_ppu_data_port_read_is_buffered() {
    let mut bus = Bus::new(vec![0]);
    bus.ppu_ctx.vram[0x0100] = 0x77;
    bus.write(0x2006, 0x01);
    bus.write(0x2006, 0x00);
    let first = bus.read(0x2007);
    let second = bus.read(0x2007);
    assert_eq!(first, 0x00);
    assert_eq!(second, 0x77);
}

#[test]
fn test_ppu_oam_port() {
    let mut bus = Bus::new(vec![0]);
    bus.write(0x2003, 0x10);
    bus.write(0x2004, 0xAB);
    assert_eq!(bus.ppu_ctx.sprite_ram[0x10], 0xAB);
    assert_eq!(bus.ppu.oam.addr, 0x11);
}

#[test]
fn test_process_nmi_stack_frame() {
    let mut reg = Registers::new();
    let mut bus = Bus::new(vec![0x34, 0x12]);
    reg.set_pc(0xABCD);
    process_nmi(&mut reg, &mut bus);
    assert_eq!(bus.work_ram[0x01FD], 0xAB);
    assert_eq!(bus.work_ram[0x01FC], 0xCD);
    // pushed status has the break bit clear
    assert_eq!(bus.work_ram[0x01FB] & 0x10, 0x00);
    assert!(reg.get_interrupt());
    assert!(!reg.get_break());
    // the NMI vector at 0xFFFA lands on the mirrored two-byte image
    assert_eq!(reg.get_pc(), 0x1234);
}

#[test]
fn test_reset_loads_reset_vector() {
    let mut rom: Vec<u8> = vec![0; 0x8000];
    rom[0x7FFC] = 0x00;
    rom[0x7FFD] = 0xC0;
    let mut ctx = Context::new(rom);
    reset(&mut ctx);
    assert_eq!(ctx.cpu_registers.get_pc(), 0xC000);
    assert_eq!(ctx.cpu_registers.get_sp(), 0xFD);
}

#[test]
fn test_run_executes_one_instruction() {
    let mut rom: Vec<u8> = vec![0; 0x8000];
    rom[0] = 0xA9;
    rom[1] = 0x42;
    let mut ctx = Context::new(rom);
    reset_with_addr(&mut ctx, 0x8000);
    let (cpu_cycles, ppu_cycles) = run(&mut ctx);
    assert_eq!(cpu_cycles, 2);
    assert_eq!(ppu_cycles, 6);
    assert_eq!(ctx.cpu_registers.get_a(), 0x42);
    assert_eq!(ctx.cpu_registers.get_pc(), 0x8002);
}

#[test]
fn test_run_small_program() {
    // LDA #$05; STA $10; INC $10; LDX $10
    let mut rom: Vec<u8> = vec![0; 0x8000];
    let program: Vec<u8> = vec![0xA9, 0x05, 0x85, 0x10, 0xE6, 0x10, 0xA6, 0x10];
    let mut i: usize = 0;
    while i < program.len() {
        rom[i] = program[i];
        i += 1;
    }
    let mut ctx = Context::new(rom);
    reset_with_addr(&mut ctx, 0x8000);
    let mut n: u32 = 0;
    while n < 4 {
        run(&mut ctx);
        n += 1;
    }
    assert_eq!(ctx.bus.work_ram[0x10], 0x06);
    assert_eq!(ctx.cpu_registers.get_x(), 0x06);
}

#[test]
fn test_run_dma_blocks_the_cpu_for_514_cycles() {
    let rom: Vec<u8> = vec![0; 0x8000];
    let mut ctx = Context::new(rom);
    ctx.bus.work_ram[0x100] = 0xEE;
    ctx.bus.write(0x4014, 0x01);
    assert!(ctx.bus.dma.pending);
    let pc_before = ctx.cpu_registers.get_pc();
    let (cpu_cycles, ppu_cycles) = run(&mut ctx);
    assert_eq!(cpu_cycles, 514);
    assert_eq!(ppu_cycles, 1542);
    assert!(!ctx.bus.dma.pending);
    assert_eq!(ctx.bus.ppu_ctx.sprite_ram[0], 0xEE);
    assert_eq!(ctx.cpu_registers.get_pc(), pc_before);
}

#[test]
fn test_run_consumes_pending_nmi() {
    let rom: Vec<u8> = vec![0x00, 0x80];
    let mut ctx = Context::new(rom);
    ctx.nmi = true;
    let (cpu_cycles, _) = run(&mut ctx);
    assert_eq!(cpu_cycles, 7);
    assert!(!ctx.nmi);
    assert_eq!(ctx.cpu_registers.get_pc(), 0x8000);
}
