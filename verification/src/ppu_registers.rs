//! The pixel processor's register window: eight memory-mapped registers with
//! their internal latches. Rendering itself is outside the core; what is
//! modeled here is the register protocol the CPU sees, including the side
//! effects of a status read (latch resets, flag clears) and the
//! auto-incrementing address used by the data port.

use vstd::prelude::*;

use crate::types::{Addr, Data};

verus! {

/// The object-attribute-memory address latch.
pub struct Oam {
    pub addr: Data,
}

/// The two-write video-memory address latch: the first write sets the high
/// byte, the second the low byte.
pub struct PpuAddr {
    pub addr: u16,
    pub high_next: bool,
}

/// The buffered data port: a read returns the previous buffer contents and
/// refills the buffer from video memory.
pub struct PpuData {
    pub buf: Data,
}

/// The two-write scroll latch: the first write sets the horizontal offset,
/// the second the vertical one.
pub struct PpuScroll {
    pub x: Data,
    pub y: Data,
    pub horizontal_next: bool,
}

/// The memories the register window reaches through its ports.
pub struct PpuCtx {
    pub vram: Vec<Data>,
    pub sprite_ram: Vec<Data>,
}

impl PpuCtx {
    pub open spec fn wf(self) -> bool {
        &&& self.vram@.len() == 0x4000
        &&& self.sprite_ram@.len() == 0x100
    }
}

pub struct Registers {
    pub ppu_ctrl1: Data,
    pub ppu_ctrl2: Data,
    pub ppu_status: Data,
    pub oam: Oam,
    pub ppu_addr: PpuAddr,
    pub ppu_data: PpuData,
    pub ppu_scroll: PpuScroll,
}

impl Oam {
    pub fn new() -> (r: Oam)
        ensures
            r == (Oam { addr: 0 }),
    {
        Oam { addr: 0 }
    }

    pub fn write_addr(&mut self, data: Data)
        ensures
            (*final(self) == (Oam { addr: data })),
    {
        self.addr = data;
    }

    /// Reads the byte the address latch points at, without moving the latch.
    pub fn read_data(&self, sprite_ram: &Vec<Data>) -> (r: Data)
        requires
            sprite_ram@.len() == 0x100,
        ensures
            r == sprite_ram@[self.addr as int],
    {
        sprite_ram[self.addr as usize]
    }

    /// Writes through the address latch and moves it one byte onward.
    pub fn write_data(&mut self, sprite_ram: &mut Vec<Data>, data: Data)
        requires
            old(sprite_ram)@.len() == 0x100,
        ensures
            final(sprite_ram)@ == old(sprite_ram)@.update(old(self).addr as int, data),
            (*final(self) == (Oam { addr: old(self).addr.wrapping_add(1) })),
    {
        sprite_ram[self.addr as usize] = data;
        self.addr = self.addr.wrapping_add(1);
    }
}

impl PpuAddr {
    pub fn new() -> (r: PpuAddr)
        ensures
            r == (PpuAddr { addr: 0, high_next: true }),
    {
        PpuAddr { addr: 0, high_next: true }
    }

    /// The address after one latch write.
    pub open spec fn spec_write(self, data: Data) -> PpuAddr {
        if self.high_next {
            PpuAddr { addr: (self.addr & 0x00FF) | ((data as u16) << 8), high_next: false }
        } else {
            PpuAddr { addr: (self.addr & 0xFF00) | data as u16, high_next: true }
        }
    }

    pub fn write(&mut self, data: Data)
        ensures
            *final(self) == old(self).spec_write(data),
    {
        if self.high_next {
            self.addr = (self.addr & 0x00FF) | ((data as u16) << 8);
            self.high_next = false;
        } else {
            self.addr = (self.addr & 0xFF00) | data as u16;
            self.high_next = true;
        }
    }

    pub fn get(&self) -> (r: u16)
        ensures
            r == self.addr,
    {
        self.addr
    }

    /// Moves the address onward by the configured increment, wrapping at the
    /// top of the address space.
    pub fn update(&mut self, offset: u16)
        ensures
            (*final(self) == (PpuAddr {
                addr: old(self).addr.wrapping_add(offset),
                ..*old(self)
            })),
    {
        self.addr = self.addr.wrapping_add(offset);
    }

    pub fn reset_latch(&mut self)
        ensures
            (*final(self) == (PpuAddr { high_next: true, ..*old(self) })),
    {
        self.high_next = true;
    }
}

impl PpuScroll {
    pub fn new() -> (r: PpuScroll)
        ensures
            r == (PpuScroll { x: 0, y: 0, horizontal_next: true }),
    {
        PpuScroll { x: 0, y: 0, horizontal_next: true }
    }

    /// The scroll state after one latch write.
    pub open spec fn spec_write(self, data: Data) -> PpuScroll {
        if self.horizontal_next {
            PpuScroll { x: data, horizontal_next: false, ..self }
        } else {
            PpuScroll { y: data, horizontal_next: true, ..self }
        }
    }

    pub fn write(&mut self, data: Data)
        ensures
            *final(self) == old(self).spec_write(data),
    {
        if self.horizontal_next {
            self.x = data;
            self.horizontal_next = false;
        } else {
            self.y = data;
            self.horizontal_next = true;
        }
    }

    /// Points the latch back at the horizontal offset, as a status read does.
    pub fn enable_x(&mut self)
        ensures
            (*final(self) == (PpuScroll { horizontal_next: true, ..*old(self) })),
    {
        self.horizontal_next = true;
    }

    pub fn get_x(&self) -> (r: Data)
        ensures
            r == self.x,
    {
        self.x
    }

    pub fn get_y(&self) -> (r: Data)
        ensures
            r == self.y,
    {
        self.y
    }
}

impl PpuData {
    pub fn new() -> (r: PpuData)
        ensures
            r == (PpuData { buf: 0 }),
    {
        PpuData { buf: 0 }
    }

    /// A buffered read: returns what the previous read buffered and refills
    /// the buffer from the addressed video-memory cell.
    pub fn read(&mut self, vram: &Vec<Data>, addr: u16) -> (r: Data)
        requires
            vram@.len() == 0x4000,
        ensures
            r == old(self).buf,
            (*final(self) == (PpuData { buf: vram@[(addr % 0x4000) as int] })),
    {
        let data = self.buf;
        self.buf = vram[(addr % 0x4000) as usize];
        data
    }

    /// Writes the addressed video-memory cell.
    pub fn write(&self, vram: &mut Vec<Data>, addr: u16, data: Data)
        requires
            old(vram)@.len() == 0x4000,
        ensures
            final(vram)@ == old(vram)@.update((addr % 0x4000) as int, data),
    {
        vram[(addr % 0x4000) as usize] = data;
    }
}

/// The register protocol: every register read and write the CPU bus can make.
pub trait PpuRegisters {
    fn read(&mut self, addr: Addr, ctx: &mut PpuCtx) -> Data;

    fn write(&mut self, addr: Addr, data: Data, ctx: &mut PpuCtx);

    fn is_sprite_8x8(&self) -> bool;

    fn clear_vblank(&mut self);

    fn set_vblank(&mut self);

    fn set_sprite_hit(&mut self);

    fn clear_sprite_hit(&mut self);

    fn get_sprite_table_offset(&self) -> Addr;

    fn get_background_table_offset(&self) -> Addr;

    fn get_ppu_addr_increment_value(&self) -> u16;

    fn get_name_table_id(&self) -> Data;

    fn get_scroll_x(&self) -> Data;

    fn get_scroll_y(&self) -> Data;

    fn is_irq_enable(&self) -> bool;

    fn is_background_enable(&self) -> bool;

    fn is_sprite_enable(&self) -> bool;

    fn is_background_masked(&self) -> bool;

    fn is_sprite_masked(&self) -> bool;
}

impl Registers {
    pub open spec fn power_up() -> Registers {
        Registers {
            ppu_ctrl1: 0,
            ppu_ctrl2: 0,
            ppu_status: 0,
            oam: Oam { addr: 0 },
            ppu_addr: PpuAddr { addr: 0, high_next: true },
            ppu_data: PpuData { buf: 0 },
            ppu_scroll: PpuScroll { x: 0, y: 0, horizontal_next: true },
        }
    }

    pub fn new() -> (r: Registers)
        ensures
            r == Registers::power_up(),
    {
        Registers {
            ppu_ctrl1: 0,
            ppu_ctrl2: 0,
            ppu_status: 0,
            oam: Oam::new(),
            ppu_addr: PpuAddr::new(),
            ppu_data: PpuData::new(),
            ppu_scroll: PpuScroll::new(),
        }
    }

    /// The data-port address increment selected by the control register.
    pub open spec fn spec_increment(self) -> u16 {
        if self.ppu_ctrl1 & 0x04 == 0x04 { 32 } else { 1 }
    }

    /// What a register read returns, before its side effects are applied.
    pub open spec fn spec_read_result(self, ctx: PpuCtx, addr: Addr) -> Data {
        if addr == 0x0002 {
            self.ppu_status
        } else if addr == 0x0004 {
            ctx.sprite_ram@[self.oam.addr as int]
        } else if addr == 0x0007 {
            self.ppu_data.buf
        } else {
            0
        }
    }

    /// The register state after a read: a status read clears the vblank and
    /// sprite-hit flags and resets both write latches, and a data-port read
    /// refills the read buffer and moves the address onward. The memories in
    /// `ctx` are never changed by a read.
    pub open spec fn spec_read_step(self, ctx: PpuCtx, addr: Addr) -> Registers {
        if addr == 0x0002 {
            Registers {
                ppu_status: self.ppu_status & 0x3F,
                ppu_scroll: PpuScroll { horizontal_next: true, ..self.ppu_scroll },
                ppu_addr: PpuAddr { high_next: true, ..self.ppu_addr },
                ..self
            }
        } else if addr == 0x0007 {
            Registers {
                ppu_data: PpuData { buf: ctx.vram@[(self.ppu_addr.addr % 0x4000) as int] },
                ppu_addr: PpuAddr {
                    addr: self.ppu_addr.addr.wrapping_add(self.spec_increment()),
                    ..self.ppu_addr
                },
                ..self
            }
        } else {
            self
        }
    }

    /// The register state after a write.
    pub open spec fn spec_write_regs(self, addr: Addr, data: Data) -> Registers {
        if addr == 0x0000 {
            Registers { ppu_ctrl1: data, ..self }
        } else if addr == 0x0001 {
            Registers { ppu_ctrl2: data, ..self }
        } else if addr == 0x0003 {
            Registers { oam: Oam { addr: data }, ..self }
        } else if addr == 0x0004 {
            Registers { oam: Oam { addr: self.oam.addr.wrapping_add(1) }, ..self }
        } else if addr == 0x0005 {
            Registers { ppu_scroll: self.ppu_scroll.spec_write(data), ..self }
        } else if addr == 0x0006 {
            Registers { ppu_addr: self.ppu_addr.spec_write(data), ..self }
        } else if addr == 0x0007 {
            Registers {
                ppu_addr: PpuAddr {
                    addr: self.ppu_addr.addr.wrapping_add(self.spec_increment()),
                    ..self.ppu_addr
                },
                ..self
            }
        } else {
            self
        }
    }

    /// How a write changes the memories behind the ports: the object-attribute
    /// port stores through its latch, the data port stores through the
    /// video-memory address, and every other register touches no memory.
    pub open spec fn spec_write_ctx_ok(self, pre: PpuCtx, post: PpuCtx, addr: Addr, data: Data)
        -> bool {
        if addr == 0x0004 {
            &&& post.sprite_ram@ == pre.sprite_ram@.update(self.oam.addr as int, data)
            &&& post.vram@ == pre.vram@
        } else if addr == 0x0007 {
            &&& post.vram@ == pre.vram@.update((self.ppu_addr.addr % 0x4000) as int, data)
            &&& post.sprite_ram@ == pre.sprite_ram@
        } else {
            &&& post.vram@ == pre.vram@
            &&& post.sprite_ram@ == pre.sprite_ram@
        }
    }

    /// A status read: returns the status byte, then clears the vblank and
    /// sprite-hit flags and resets the scroll and address latches.
    pub fn read_status(&mut self) -> (r: Data)
        ensures
            r == old(self).ppu_status,
            (*final(self) == (Registers {
                ppu_status: old(self).ppu_status & 0x3F,
                ppu_scroll: (PpuScroll { horizontal_next: true, ..old(self).ppu_scroll }),
                ppu_addr: (PpuAddr { high_next: true, ..old(self).ppu_addr }),
                ..*old(self)
            })),
    {
        let data = self.ppu_status;
        self.ppu_scroll.enable_x();
        self.ppu_status = self.ppu_status & 0x3F;
        self.ppu_addr.reset_latch();
        data
    }

    pub fn write_oam_addr(&mut self, data: Data)
        ensures
            (*final(self) == (Registers { oam: (Oam { addr: data }), ..*old(self) })),
    {
        self.oam.write_addr(data);
    }

    pub fn write_oam_data(&mut self, data: Data, sprite_ram: &mut Vec<Data>)
        requires
            old(sprite_ram)@.len() == 0x100,
        ensures
            final(sprite_ram)@ == old(sprite_ram)@.update(old(self).oam.addr as int, data),
            (*final(self) == (Registers {
                oam: (Oam { addr: old(self).oam.addr.wrapping_add(1) }),
                ..*old(self)
            })),
    {
        self.oam.write_data(sprite_ram, data);
    }

    pub fn write_ppu_addr(&mut self, data: Data)
        ensures
            (*final(self) == (Registers {
                ppu_addr: old(self).ppu_addr.spec_write(data),
                ..*old(self)
            })),
    {
        self.ppu_addr.write(data);
    }

    /// A buffered data-port read, moving the address onward.
    pub fn read_ppu_data(&mut self, vram: &Vec<Data>) -> (r: Data)
        requires
            vram@.len() == 0x4000,
        ensures
            r == old(self).ppu_data.buf,
            (*final(self) == (Registers {
                ppu_data: (PpuData { buf: vram@[(old(self).ppu_addr.addr % 0x4000) as int] }),
                ppu_addr: (PpuAddr {
                    addr: old(self).ppu_addr.addr.wrapping_add(old(self).spec_increment()),
                    ..old(self).ppu_addr
                }),
                ..*old(self)
            })),
    {
        let addr = self.ppu_addr.get();
        let data = self.ppu_data.read(vram, addr);
        let v = self.get_ppu_addr_increment_value();
        self.ppu_addr.update(v);
        data
    }

    /// A data-port write, moving the address onward.
    pub fn write_ppu_data(&mut self, data: Data, vram: &mut Vec<Data>)
        requires
            old(vram)@.len() == 0x4000,
        ensures
            final(vram)@ == old(vram)@.update((old(self).ppu_addr.addr % 0x4000) as int, data),
            (*final(self) == (Registers {
                ppu_addr: (PpuAddr {
                    addr: old(self).ppu_addr.addr.wrapping_add(old(self).spec_increment()),
                    ..old(self).ppu_addr
                }),
                ..*old(self)
            })),
    {
        let addr = self.ppu_addr.get();
        self.ppu_data.write(vram, addr, data);
        let v = self.get_ppu_addr_increment_value();
        self.ppu_addr.update(v);
    }

    /// Routes a register read, applying the register's side effects.
    pub fn read(&mut self, addr: Addr, ctx: &mut PpuCtx) -> (r: Data)
        requires
            old(ctx).wf(),
        ensures
            final(ctx).wf(),
            *final(ctx) == *old(ctx),
            r == old(self).spec_read_result(*old(ctx), addr),
            *final(self) == old(self).spec_read_step(*old(ctx), addr),
    {
        match addr {
            0x0002 => self.read_status(),
            0x0004 => self.oam.read_data(&ctx.sprite_ram),
            0x0007 => self.read_ppu_data(&ctx.vram),
            _ => 0,
        }
    }

    /// Routes a register write, applying it to the registers and, through the
    /// object-attribute and data ports, to the memories.
    pub fn write(&mut self, addr: Addr, data: Data, ctx: &mut PpuCtx)
        requires
            old(ctx).wf(),
        ensures
            final(ctx).wf(),
            *final(self) == old(self).spec_write_regs(addr, data),
            old(self).spec_write_ctx_ok(*old(ctx), *final(ctx), addr, data),
    {
        match addr {
            0x0000 => {
                self.ppu_ctrl1 = data;
            }
            0x0001 => {
                self.ppu_ctrl2 = data;
            }
            0x0003 => self.write_oam_addr(data),
            0x0004 => self.write_oam_data(data, &mut ctx.sprite_ram),
            0x0005 => self.ppu_scroll.write(data),
            0x0006 => self.write_ppu_addr(data),
            0x0007 => self.write_ppu_data(data, &mut ctx.vram),
            _ => (),
        }
    }

    pub fn clear_vblank(&mut self)
        ensures
            (*final(self) == (Registers {
                ppu_status: old(self).ppu_status & 0x7F,
                ..*old(self)
            })),
    {
        self.ppu_status = self.ppu_status & 0x7F;
    }

    pub fn set_vblank(&mut self)
        ensures
            (*final(self) == (Registers {
                ppu_status: old(self).ppu_status | 0x80,
                ..*old(self)
            })),
    {
        self.ppu_status = self.ppu_status | 0x80;
    }

    pub fn clear_sprite_hit(&mut self)
        ensures
            (*final(self) == (Registers {
                ppu_status: old(self).ppu_status & 0xBF,
                ..*old(self)
            })),
    {
        self.ppu_status = self.ppu_status & 0xBF;
    }

    pub fn set_sprite_hit(&mut self)
        ensures
            (*final(self) == (Registers {
                ppu_status: old(self).ppu_status | 0x40,
                ..*old(self)
            })),
    {
        self.ppu_status = self.ppu_status | 0x40;
    }

    pub fn is_sprite_8x8(&self) -> (r: bool)
        ensures
            r == (self.ppu_ctrl1 & 0x20 != 0x20),
    {
        self.ppu_ctrl1 & 0x20 != 0x20
    }

    pub fn get_ppu_addr_increment_value(&self) -> (r: u16)
        ensures
            r == self.spec_increment(),
    {
        if self.ppu_ctrl1 & 0x04 == 0x04 { 32 } else { 1 }
    }

    pub fn is_irq_enable(&self) -> (r: bool)
        ensures
            r == (self.ppu_ctrl1 & 0x80 == 0x80),
    {
        self.ppu_ctrl1 & 0x80 == 0x80
    }

    pub fn get_sprite_table_offset(&self) -> (r: Addr)
        ensures
            r == if self.ppu_ctrl1 & 0x08 == 0x08 { 0x1000u16 } else { 0u16 },
    {
        if self.ppu_ctrl1 & 0x08 == 0x08 { 0x1000 } else { 0x0000 }
    }

    pub fn get_background_table_offset(&self) -> (r: Addr)
        ensures
            r == if self.ppu_ctrl1 & 0x10 == 0x10 { 0x1000u16 } else { 0u16 },
    {
        if self.ppu_ctrl1 & 0x10 == 0x10 { 0x1000 } else { 0x0000 }
    }

    pub fn get_name_table_id(&self) -> (r: Data)
        ensures
            r == self.ppu_ctrl1 & 0x03,
    {
        self.ppu_ctrl1 & 0x03
    }

    pub fn get_scroll_x(&self) -> (r: Data)
        ensures
            r == self.ppu_scroll.x,
    {
        self.ppu_scroll.get_x()
    }

    pub fn get_scroll_y(&self) -> (r: Data)
        ensures
            r == self.ppu_scroll.y,
    {
        self.ppu_scroll.get_y()
    }

    pub fn is_background_enable(&self) -> (r: bool)
        ensures
            r == (self.ppu_ctrl2 & 0x08 == 0x08),
    {
        self.ppu_ctrl2 & 0x08 == 0x08
    }

    pub fn is_sprite_enable(&self) -> (r: bool)
        ensures
            r == (self.ppu_ctrl2 & 0x10 == 0x10),
    {
        self.ppu_ctrl2 & 0x10 == 0x10
    }

    pub fn is_background_masked(&self) -> (r: bool)
        ensures
            r == (self.ppu_ctrl2 & 0x02 == 0x02),
    {
        self.ppu_ctrl2 & 0x02 == 0x02
    }

    pub fn is_sprite_masked(&self) -> (r: bool)
        ensures
            r == (self.ppu_ctrl2 & 0x04 == 0x04),
    {
        self.ppu_ctrl2 & 0x04 == 0x04
    }
}

impl PpuRegisters for Registers {
    fn read(&mut self, addr: Addr, ctx: &mut PpuCtx) -> Data {
        if ctx.vram.len() == 0x4000 && ctx.sprite_ram.len() == 0x100 {
            Registers::read(self, addr, ctx)
        } else {
            0
        }
    }

    fn write(&mut self, addr: Addr, data: Data, ctx: &mut PpuCtx) {
        if ctx.vram.len() == 0x4000 && ctx.sprite_ram.len() == 0x100 {
            Registers::write(self, addr, data, ctx);
        }
    }

    fn is_sprite_8x8(&self) -> bool {
        Registers::is_sprite_8x8(self)
    }

    fn clear_vblank(&mut self) {
        Registers::clear_vblank(self);
    }

    fn set_vblank(&mut self) {
        Registers::set_vblank(self);
    }

    fn set_sprite_hit(&mut self) {
        Registers::set_sprite_hit(self);
    }

    fn clear_sprite_hit(&mut self) {
        Registers::clear_sprite_hit(self);
    }

    fn get_sprite_table_offset(&self) -> Addr {
        Registers::get_sprite_table_offset(self)
    }

    fn get_background_table_offset(&self) -> Addr {
        Registers::get_background_table_offset(self)
    }

    fn get_ppu_addr_increment_value(&self) -> u16 {
        Registers::get_ppu_addr_increment_value(self)
    }

    fn get_name_table_id(&self) -> Data {
        Registers::get_name_table_id(self)
    }

    fn get_scroll_x(&self) -> Data {
        Registers::get_scroll_x(self)
    }

    fn get_scroll_y(&self) -> Data {
        Registers::get_scroll_y(self)
    }

    fn is_irq_enable(&self) -> bool {
        Registers::is_irq_enable(self)
    }

    fn is_background_enable(&self) -> bool {
        Registers::is_background_enable(self)
    }

    fn is_sprite_enable(&self) -> bool {
        Registers::is_sprite_enable(self)
    }

    fn is_background_masked(&self) -> bool {
        Registers::is_background_masked(self)
    }

    fn is_sprite_masked(&self) -> bool {
        Registers::is_sprite_masked(self)
    }
}

} // verus!
