//! The processor's register file: accumulator, two index registers, stack
//! pointer, program counter, and the status flags.
//!
//! The status byte has the bit layout `N(7) V(6) -(5) B(4) D(3) I(2) Z(1) C(0)`.
//! Bit 5 (`reserved`) is not a real flip-flop on the hardware; it is kept here
//! as a flag so that the composed status byte can reproduce it.

use vstd::prelude::*;

use crate::types::Data;

verus! {

/// The addressable state of the processor.
pub struct Registers {
    pub a: Data,
    pub x: Data,
    pub y: Data,
    pub sp: Data,
    pub pc: u16,
    pub negative: bool,
    pub overflow: bool,
    pub reserved: bool,
    pub break_mode: bool,
    pub decimal: bool,
    pub interrupt: bool,
    pub zero: bool,
    pub carry: bool,
}

/// The negative flag an update helper derives from a byte: its top bit.
pub open spec fn flag_n(v: Data) -> bool {
    v & 0x80 == 0x80
}

impl Registers {
    /// The console-defined power-up state of the register file.
    pub open spec fn power_up() -> Registers {
        Registers {
            a: 0,
            x: 0,
            y: 0,
            sp: 0xFD,
            pc: 0x8000,
            negative: false,
            overflow: false,
            reserved: true,
            break_mode: true,
            decimal: false,
            interrupt: true,
            zero: false,
            carry: false,
        }
    }

    /// The status byte composed from the flags, in the layout
    /// `N V - B D I Z C` from bit 7 down to bit 0.
    pub open spec fn p_byte(self) -> Data {
        ((if self.negative { 0x80u8 } else { 0u8 })
            + (if self.overflow { 0x40u8 } else { 0u8 })
            + (if self.reserved { 0x20u8 } else { 0u8 })
            + (if self.break_mode { 0x10u8 } else { 0u8 })
            + (if self.decimal { 0x08u8 } else { 0u8 })
            + (if self.interrupt { 0x04u8 } else { 0u8 })
            + (if self.zero { 0x02u8 } else { 0u8 })
            + (if self.carry { 0x01u8 } else { 0u8 })) as u8
    }

    /// The register file with every flag taken from the bits of `v`.
    pub open spec fn with_p(self, v: Data) -> Registers {
        Registers {
            negative: v & 0x80 == 0x80,
            overflow: v & 0x40 == 0x40,
            reserved: v & 0x20 == 0x20,
            break_mode: v & 0x10 == 0x10,
            decimal: v & 0x08 == 0x08,
            interrupt: v & 0x04 == 0x04,
            zero: v & 0x02 == 0x02,
            carry: v & 0x01 == 0x01,
            ..self
        }
    }

    pub fn new() -> (r: Registers)
        ensures
            r == Registers::power_up(),
    {
        Registers {
            a: 0,
            x: 0,
            y: 0,
            sp: 0xFD,
            pc: 0x8000,
            negative: false,
            overflow: false,
            reserved: true,
            break_mode: true,
            decimal: false,
            interrupt: true,
            zero: false,
            carry: false,
        }
    }

    pub fn get_a(&self) -> (r: Data)
        ensures
            r == self.a,
    {
        self.a
    }

    pub fn get_x(&self) -> (r: Data)
        ensures
            r == self.x,
    {
        self.x
    }

    pub fn get_y(&self) -> (r: Data)
        ensures
            r == self.y,
    {
        self.y
    }

    pub fn get_sp(&self) -> (r: Data)
        ensures
            r == self.sp,
    {
        self.sp
    }

    pub fn get_pc(&self) -> (r: u16)
        ensures
            r == self.pc,
    {
        self.pc
    }

    pub fn get_carry(&self) -> (r: bool)
        ensures
            r == self.carry,
    {
        self.carry
    }

    pub fn get_zero(&self) -> (r: bool)
        ensures
            r == self.zero,
    {
        self.zero
    }

    pub fn get_negative(&self) -> (r: bool)
        ensures
            r == self.negative,
    {
        self.negative
    }

    pub fn get_overflow(&self) -> (r: bool)
        ensures
            r == self.overflow,
    {
        self.overflow
    }

    pub fn get_interrupt(&self) -> (r: bool)
        ensures
            r == self.interrupt,
    {
        self.interrupt
    }

    pub fn get_break(&self) -> (r: bool)
        ensures
            r == self.break_mode,
    {
        self.break_mode
    }

    pub fn get_decimal(&self) -> (r: bool)
        ensures
            r == self.decimal,
    {
        self.decimal
    }

    pub fn get_reserved(&self) -> (r: bool)
        ensures
            r == self.reserved,
    {
        self.reserved
    }

    /// The status byte as read by PHP, BRK and interrupt entry.
    #[verifier::rlimit(60)]
    pub fn get_p(&self) -> (r: Data)
        ensures
            r == self.p_byte(),
    {
        (if self.negative { 0x80u8 } else { 0u8 })
            + (if self.overflow { 0x40u8 } else { 0u8 })
            + (if self.reserved { 0x20u8 } else { 0u8 })
            + (if self.break_mode { 0x10u8 } else { 0u8 })
            + (if self.decimal { 0x08u8 } else { 0u8 })
            + (if self.interrupt { 0x04u8 } else { 0u8 })
            + (if self.zero { 0x02u8 } else { 0u8 })
            + (if self.carry { 0x01u8 } else { 0u8 })
    }

    /// Restores every flag from the bits of a status byte, as PLP and RTI do.
    pub fn set_p(&mut self, v: Data)
        ensures
            *final(self) == old(self).with_p(v),
    {
        self.negative = v & 0x80 == 0x80;
        self.overflow = v & 0x40 == 0x40;
        self.reserved = v & 0x20 == 0x20;
        self.break_mode = v & 0x10 == 0x10;
        self.decimal = v & 0x08 == 0x08;
        self.interrupt = v & 0x04 == 0x04;
        self.zero = v & 0x02 == 0x02;
        self.carry = v & 0x01 == 0x01;
    }

    pub fn set_a(&mut self, v: Data)
        ensures
            (*final(self) == (Registers { a: v, ..*old(self) })),
    {
        self.a = v;
    }

    pub fn set_x(&mut self, v: Data)
        ensures
            (*final(self) == (Registers { x: v, ..*old(self) })),
    {
        self.x = v;
    }

    pub fn set_y(&mut self, v: Data)
        ensures
            (*final(self) == (Registers { y: v, ..*old(self) })),
    {
        self.y = v;
    }

    pub fn set_sp(&mut self, v: Data)
        ensures
            (*final(self) == (Registers { sp: v, ..*old(self) })),
    {
        self.sp = v;
    }

    pub fn set_pc(&mut self, v: u16)
        ensures
            (*final(self) == (Registers { pc: v, ..*old(self) })),
    {
        self.pc = v;
    }

    pub fn set_carry(&mut self, v: bool)
        ensures
            (*final(self) == (Registers { carry: v, ..*old(self) })),
    {
        self.carry = v;
    }

    pub fn set_overflow(&mut self, v: bool)
        ensures
            (*final(self) == (Registers { overflow: v, ..*old(self) })),
    {
        self.overflow = v;
    }

    pub fn set_interrupt(&mut self, v: bool)
        ensures
            (*final(self) == (Registers { interrupt: v, ..*old(self) })),
    {
        self.interrupt = v;
    }

    pub fn set_break(&mut self, v: bool)
        ensures
            (*final(self) == (Registers { break_mode: v, ..*old(self) })),
    {
        self.break_mode = v;
    }

    pub fn set_decimal(&mut self, v: bool)
        ensures
            (*final(self) == (Registers { decimal: v, ..*old(self) })),
    {
        self.decimal = v;
    }

    pub fn set_reserved(&mut self, v: bool)
        ensures
            (*final(self) == (Registers { reserved: v, ..*old(self) })),
    {
        self.reserved = v;
    }

    /// Sets the zero flag exactly when the byte is zero.
    pub fn update_zero_by(&mut self, v: Data)
        ensures
            (*final(self) == (Registers { zero: v == 0, ..*old(self) })),
    {
        self.zero = v == 0;
    }

    /// Sets the negative flag exactly when bit 7 of the byte is set.
    pub fn update_negative_by(&mut self, v: Data)
        ensures
            (*final(self) == (Registers { negative: flag_n(v), ..*old(self) })),
    {
        self.negative = v & 0x80 == 0x80;
    }

    /// The stack pointer one lower, wrapping within its 8-bit page.
    pub open spec fn sp_dec(sp: Data) -> Data {
        if sp == 0 { 0xFF } else { (sp - 1) as u8 }
    }

    /// The stack pointer one higher, wrapping within its 8-bit page.
    pub open spec fn sp_inc(sp: Data) -> Data {
        if sp == 0xFF { 0 } else { (sp + 1) as u8 }
    }

    /// The program counter one higher, wrapping at the top of the address space.
    pub open spec fn pc_inc(pc: u16) -> u16 {
        if pc == 0xFFFF { 0 } else { (pc + 1) as u16 }
    }

    /// The program counter one lower, wrapping at the bottom of the address space.
    pub open spec fn pc_dec(pc: u16) -> u16 {
        if pc == 0 { 0xFFFF } else { (pc - 1) as u16 }
    }

    pub fn dec_sp(&mut self)
        ensures
            (*final(self) == (Registers { sp: Registers::sp_dec(old(self).sp), ..*old(self) })),
    {
        if self.sp == 0 {
            self.sp = 0xFF;
        } else {
            self.sp = self.sp - 1;
        }
    }

    pub fn inc_sp(&mut self)
        ensures
            (*final(self) == (Registers { sp: Registers::sp_inc(old(self).sp), ..*old(self) })),
    {
        if self.sp == 0xFF {
            self.sp = 0;
        } else {
            self.sp = self.sp + 1;
        }
    }

    pub fn inc_pc(&mut self)
        ensures
            (*final(self) == (Registers { pc: Registers::pc_inc(old(self).pc), ..*old(self) })),
    {
        if self.pc == 0xFFFF {
            self.pc = 0;
        } else {
            self.pc = self.pc + 1;
        }
    }

    pub fn dec_pc(&mut self)
        ensures
            (*final(self) == (Registers { pc: Registers::pc_dec(old(self).pc), ..*old(self) })),
    {
        if self.pc == 0 {
            self.pc = 0xFFFF;
        } else {
            self.pc = self.pc - 1;
        }
    }
}

} // verus!
