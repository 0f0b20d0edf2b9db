//! The bus router: maps every 16-bit address to exactly one device — work
//! memory (2KB, mirrored), the pixel-processor register window (8 registers,
//! mirrored), the audio/IO register window, the transfer trigger, or
//! cartridge program memory — and performs the read or write there.
//!
//! Accesses are side-effecting: a pixel-processor status read clears latches,
//! so two reads of one address are two observable events, never fused.

use vstd::prelude::*;

use crate::apu::Apu;
use crate::dma::Dma;
use crate::ppu_registers;
use crate::ppu_registers::PpuCtx;
use crate::types::{Addr, Data};

verus! {

/// A 16-bit word assembled little-endian from two bus bytes.
pub open spec fn word_of(lo: Data, hi: Data) -> u16 {
    ((hi as u16) << 8) | lo as u16
}

/// The devices the router owns and dispatches to.
pub struct Bus {
    pub work_ram: Vec<Data>,
    pub program_rom: Vec<Data>,
    pub ppu: ppu_registers::Registers,
    pub ppu_ctx: PpuCtx,
    pub apu: Apu,
    pub dma: Dma,
}

/// Builds a zero-filled memory of the given size.
pub fn zero_vec(n: usize) -> (r: Vec<Data>)
    ensures
        r@.len() == n,
        forall|i: int| 0 <= i < n ==> r@[i] == 0,
{
    let mut v: Vec<Data> = Vec::new();
    let mut i: usize = 0;
    while i < n
        invariant
            i == v@.len(),
            i <= n,
            forall|j: int| 0 <= j < i ==> v@[j] == 0,
        decreases n - i,
    {
        v.push(0);
        i = i + 1;
    }
    v
}

impl Bus {
    /// The size bounds the router relies on: 2KB of work memory, a non-empty
    /// cartridge image no larger than its 32KB window, and well-formed
    /// pixel-processor memories and audio state.
    pub open spec fn wf(self) -> bool {
        &&& self.work_ram@.len() == 0x800
        &&& 1 <= self.program_rom@.len() <= 0x8000
        &&& self.ppu_ctx.wf()
        &&& self.apu.wf()
    }

    /// Where in the cartridge image an address in cartridge space lands:
    /// images smaller than the window are mirrored through it.
    pub open spec fn rom_index(self, addr: Addr) -> int {
        (addr - 0x8000) % self.program_rom@.len() as int
    }

    /// What a read returns. Out-of-map addresses read as 0.
    pub open spec fn read_result(self, addr: Addr) -> Data {
        if addr < 0x2000 {
            self.work_ram@[(addr % 0x800) as int]
        } else if addr < 0x4000 {
            self.ppu.spec_read_result(self.ppu_ctx, (addr % 8) as u16)
        } else if addr == 0x4015 {
            self.apu.spec_status()
        } else if addr < 0x8000 {
            0
        } else {
            self.program_rom@[self.rom_index(addr)]
        }
    }

    /// The bus state after one read: only the pixel-processor window has
    /// read side effects.
    pub open spec fn read_step(self, addr: Addr) -> Bus {
        if 0x2000 <= addr < 0x4000 {
            Bus { ppu: self.ppu.spec_read_step(self.ppu_ctx, (addr % 8) as u16), ..self }
        } else {
            self
        }
    }

    /// How one write relates the bus state before it to the state after it.
    /// Writes to cartridge space and to unmapped addresses change nothing;
    /// the input-polling register is outside the core and is left untouched.
    pub open spec fn write_rel(pre: Bus, post: Bus, addr: Addr, data: Data) -> bool {
        if addr < 0x2000 {
            &&& post.work_ram@ == pre.work_ram@.update((addr % 0x800) as int, data)
            &&& post.program_rom == pre.program_rom
            &&& post.ppu == pre.ppu
            &&& post.ppu_ctx == pre.ppu_ctx
            &&& post.apu == pre.apu
            &&& post.dma == pre.dma
        } else if addr < 0x4000 {
            &&& post.ppu == pre.ppu.spec_write_regs((addr % 8) as u16, data)
            &&& pre.ppu.spec_write_ctx_ok(pre.ppu_ctx, post.ppu_ctx, (addr % 8) as u16, data)
            &&& post.work_ram == pre.work_ram
            &&& post.program_rom == pre.program_rom
            &&& post.apu == pre.apu
            &&& post.dma == pre.dma
        } else if addr == 0x4014 {
            &&& post.dma == (Dma { pending: true, ram_addr: data })
            &&& post.work_ram == pre.work_ram
            &&& post.program_rom == pre.program_rom
            &&& post.ppu == pre.ppu
            &&& post.ppu_ctx == pre.ppu_ctx
            &&& post.apu == pre.apu
        } else if addr == 0x4016 {
            post == pre
        } else if addr < 0x4020 {
            &&& post.apu == pre.apu.spec_write((addr - 0x4000) as u16, data)
            &&& post.work_ram == pre.work_ram
            &&& post.program_rom == pre.program_rom
            &&& post.ppu == pre.ppu
            &&& post.ppu_ctx == pre.ppu_ctx
            &&& post.dma == pre.dma
        } else {
            post == pre
        }
    }

    /// A fresh console bus around a cartridge image.
    pub fn new(program_rom: Vec<Data>) -> (r: Bus)
        requires
            1 <= program_rom@.len() <= 0x8000,
        ensures
            r.wf(),
            r.work_ram@.len() == 0x800,
            forall|i: int| 0 <= i < 0x800 ==> r.work_ram@[i] == 0,
            r.program_rom == program_rom,
            r.ppu == ppu_registers::Registers::power_up(),
            forall|i: int| 0 <= i < 0x4000 ==> r.ppu_ctx.vram@[i] == 0,
            forall|i: int| 0 <= i < 0x100 ==> r.ppu_ctx.sprite_ram@[i] == 0,
            r.apu == Apu::power_up(),
            r.dma == (Dma { pending: false, ram_addr: 0 }),
    {
        Bus {
            work_ram: zero_vec(0x800),
            program_rom,
            ppu: ppu_registers::Registers::new(),
            ppu_ctx: PpuCtx { vram: zero_vec(0x4000), sprite_ram: zero_vec(0x100) },
            apu: Apu::new(),
            dma: Dma::new(),
        }
    }

    /// One bus read: routes the address to its device and returns that
    /// device's byte, applying the device's read side effects.
    pub fn read(&mut self, addr: Addr) -> (r: Data)
        requires
            old(self).wf(),
        ensures
            final(self).wf(),
            r == old(self).read_result(addr),
            *final(self) == old(self).read_step(addr),
    {
        if addr < 0x2000 {
            self.work_ram[(addr % 0x800) as usize]
        } else if addr < 0x4000 {
            self.ppu.read(addr % 8, &mut self.ppu_ctx)
        } else if addr < 0x4020 {
            self.apu.read(addr - 0x4000)
        } else if addr < 0x8000 {
            0
        } else {
            let len = self.program_rom.len();
            self.program_rom[((addr - 0x8000) as usize) % len]
        }
    }

    /// One bus write: routes the address to its device.
    pub fn write(&mut self, addr: Addr, data: Data)
        requires
            old(self).wf(),
        ensures
            final(self).wf(),
            Bus::write_rel(*old(self), *final(self), addr, data),
    {
        if addr < 0x2000 {
            self.work_ram[(addr % 0x800) as usize] = data;
        } else if addr < 0x4000 {
            self.ppu.write(addr % 8, data, &mut self.ppu_ctx);
        } else if addr == 0x4014 {
            self.dma.write(data);
        } else if addr == 0x4016 {
            // input polling is outside the core
        } else if addr < 0x4020 {
            self.apu.write(addr - 0x4000, data);
        }
    }

    /// A little-endian 16-bit read: two single-byte reads, low byte first,
    /// each individually observable by the addressed device.
    pub fn read_word(&mut self, addr: Addr) -> (r: u16)
        requires
            old(self).wf(),
            addr < 0xFFFF,
        ensures
            final(self).wf(),
            *final(self) == old(self).read_step(addr).read_step((addr + 1) as u16),
            r == word_of(
                old(self).read_result(addr),
                old(self).read_step(addr).read_result((addr + 1) as u16),
            ),
    {
        let lower = self.read(addr);
        let upper = self.read(addr + 1);
        ((upper as u16) << 8) | (lower as u16)
    }
}

} // verus!
