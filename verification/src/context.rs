//! The console context and the master cycle scheduler: one explicit structure
//! holds the register file and the bus with its devices, and one tick either
//! runs the pending memory transfer as an indivisible block or executes one
//! instruction, then fans the elapsed cycle count out to the audio frame
//! sequencer unchanged and reports it tripled for the pixel processor, which
//! runs at three times the processor's cycle rate.

use vstd::prelude::*;

use crate::apu::{Apu, DIVIDE_COUNT_FOR_240HZ};
use crate::bus::Bus;
use crate::cpu;
use crate::cpu_registers::Registers;
use crate::dma::Dma;
use crate::instructions::nmi_step_rel;
use crate::ppu_registers;
use crate::types::{Addr, Data};

verus! {

/// The fixed cost of one object-attribute-memory transfer: 512 transfer
/// cycles and 2 alignment cycles, during which no instruction executes.
pub const DMA_CYCLES: u16 = 514;

/// The whole console state the scheduler owns for the duration of a tick.
pub struct Context {
    pub cpu_registers: Registers,
    pub bus: Bus,
    pub nmi: bool,
}

impl Context {
    pub open spec fn wf(self) -> bool {
        self.bus.wf()
    }

    /// A fresh console around a cartridge image, in its power-up state: every
    /// memory zero-filled, the pixel-processor registers and the audio state
    /// at power-up, no transfer pending, and no interrupt asserted.
    pub fn new(program_rom: Vec<Data>) -> (r: Context)
        requires
            1 <= program_rom@.len() <= 0x8000,
        ensures
            r.wf(),
            r.cpu_registers == Registers::power_up(),
            r.bus.program_rom == program_rom,
            r.bus.work_ram@.len() == 0x800,
            forall|i: int| 0 <= i < 0x800 ==> r.bus.work_ram@[i] == 0,
            r.bus.ppu_ctx.vram@.len() == 0x4000,
            forall|i: int| 0 <= i < 0x4000 ==> r.bus.ppu_ctx.vram@[i] == 0,
            r.bus.ppu_ctx.sprite_ram@.len() == 0x100,
            forall|i: int| 0 <= i < 0x100 ==> r.bus.ppu_ctx.sprite_ram@[i] == 0,
            r.bus.ppu == ppu_registers::Registers::power_up(),
            r.bus.apu == Apu::power_up(),
            r.bus.dma == (Dma { pending: false, ram_addr: 0 }),
            !r.nmi,
    {
        Context {
            cpu_registers: Registers::new(),
            bus: Bus::new(program_rom),
            nmi: false,
        }
    }
}

/// Resets the processor: power-up register values with the program counter
/// loaded from the fixed reset vector.
pub fn reset(ctx: &mut Context)
    requires
        old(ctx).wf(),
    ensures
        final(ctx).wf(),
        final(ctx).bus == old(ctx).bus,
        final(ctx).nmi == old(ctx).nmi,
        (final(ctx).cpu_registers == (Registers {
            pc: crate::bus::word_of(
                old(ctx).bus.program_rom@[old(ctx).bus.rom_index(0xFFFC)],
                old(ctx).bus.program_rom@[old(ctx).bus.rom_index(0xFFFD)],
            ),
            ..Registers::power_up()
        })),
{
    cpu::reset(&mut ctx.cpu_registers, &mut ctx.bus);
}

/// Resets the processor to a caller-chosen entry point.
pub fn reset_with_addr(ctx: &mut Context, addr: Addr)
    requires
        old(ctx).wf(),
    ensures
        final(ctx).wf(),
        final(ctx).bus == old(ctx).bus,
        final(ctx).nmi == old(ctx).nmi,
        (final(ctx).cpu_registers == (Registers { pc: addr, ..Registers::power_up() })),
{
    cpu::reset_with_addr(&mut ctx.cpu_registers, &mut ctx.bus, addr);
}

/// One scheduler tick. If a memory transfer is pending it runs whole — 514
/// cycles, no instruction — otherwise a pending non-maskable interrupt is
/// consumed (seven cycles of interrupt entry) or exactly one instruction
/// executes. The
/// elapsed cycle count goes into the audio frame sequencer unchanged and is
/// returned as the pair (processor cycles, pixel-processor cycles), the
/// second always exactly three times the first: the two clocks are never
/// advanced independently of that ratio. The caller hands the second count to
/// the pixel processor.
pub fn run(ctx: &mut Context) -> (r: (u16, u16))
    requires
        old(ctx).wf(),
    ensures
        final(ctx).wf(),
        r.1 == 3 * r.0,
        old(ctx).bus.dma.pending ==> ({
            &&& r.0 == DMA_CYCLES
            &&& !final(ctx).bus.dma.pending
            &&& final(ctx).cpu_registers == old(ctx).cpu_registers
            &&& final(ctx).nmi == old(ctx).nmi
            &&& final(ctx).bus.work_ram == old(ctx).bus.work_ram
            &&& final(ctx).bus.ppu_ctx.sprite_ram@.len() == 0x100
            &&& forall|i: int|
                0 <= i < 0x100 ==> final(ctx).bus.ppu_ctx.sprite_ram@[i]
                    == old(ctx).bus.work_ram@[(old(ctx).bus.dma.ram_addr * 0x100 + i) % 0x800]
            &&& final(ctx).bus.apu == old(ctx).bus.apu.spec_run(DMA_CYCLES)
        }),
        !old(ctx).bus.dma.pending ==> ({
            &&& 2 <= r.0 <= 10
            &&& !final(ctx).nmi
            &&& old(ctx).nmi ==> r.0 == 7 && exists|mid: Bus|
                {
                    &&& #[trigger] nmi_step_rel(
                        old(ctx).cpu_registers,
                        old(ctx).bus,
                        final(ctx).cpu_registers,
                        mid,
                    )
                    &&& final(ctx).bus == (Bus { apu: mid.apu.spec_run(r.0), ..mid })
                }
            &&& !old(ctx).nmi ==> r.0 == cpu::spec_step_cycles(
                old(ctx).cpu_registers,
                old(ctx).bus,
            )
            &&& !old(ctx).nmi ==> exists|mid: Bus|
                {
                    &&& #[trigger] cpu::step_rel(
                        old(ctx).cpu_registers,
                        old(ctx).bus,
                        final(ctx).cpu_registers,
                        mid,
                    )
                    &&& final(ctx).bus == (Bus { apu: mid.apu.spec_run(r.0), ..mid })
                }
        }),
{
    let cycle: u16;
    if ctx.bus.dma.should_run() {
        ctx.bus.dma.run(&ctx.bus.work_ram, &mut ctx.bus.ppu_ctx.sprite_ram);
        cycle = DMA_CYCLES;
    } else {
        cycle = cpu::step(&mut ctx.cpu_registers, &mut ctx.bus, &mut ctx.nmi) as u16;
    }
    let ghost mid: Bus = ctx.bus;
    proof {
        assert(cycle < DIVIDE_COUNT_FOR_240HZ);
    }
    ctx.bus.apu.run(cycle);
    proof {
        if !old(ctx).bus.dma.pending {
            if old(ctx).nmi {
                assert(nmi_step_rel(old(ctx).cpu_registers, old(ctx).bus, ctx.cpu_registers, mid));
            } else {
                assert(cpu::step_rel(
                    old(ctx).cpu_registers,
                    old(ctx).bus,
                    ctx.cpu_registers,
                    mid,
                ));
            }
            assert(ctx.bus == (Bus { apu: mid.apu.spec_run(cycle), ..mid }));
        }
    }
    (cycle, cycle * 3)
}

} // verus!
