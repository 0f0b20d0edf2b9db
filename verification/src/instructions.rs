//! The instruction engine: one semantic handler per operation. Each handler
//! is a total function of (resolved operand, register file, bus); faults are
//! impossible by construction.
//!
//! Memory-operand handlers perform exactly one bus read, and read-modify-write
//! handlers exactly one read followed by exactly one write — hardware-mapped
//! addresses depend on this exact access count and order, so the contracts
//! state the bus traffic as precisely as the register effects.

use vstd::prelude::*;

use crate::bus::{word_of, Bus};
use crate::cpu_registers::{flag_n, Registers};
use crate::types::{Data, Word};

verus! {

/// The 8-bit sum of accumulator, operand and carry-in, before truncation.
pub open spec fn add_sum(a: Data, v: Data, c: bool) -> int {
    a + v + (if c { 1int } else { 0int })
}

/// The accumulator after an addition: the sum truncated to 8 bits.
pub open spec fn add_result(a: Data, v: Data, c: bool) -> Data {
    (add_sum(a, v, c) % 0x100) as u8
}

/// Signed overflow of an addition: the operands agree in sign and the result
/// disagrees.
pub open spec fn add_overflow(a: Data, v: Data, r: Data) -> bool {
    (a ^ v) & 0x80 == 0 && (a ^ r) & 0x80 != 0
}

/// The borrow a subtraction takes when the carry (meaning "no borrow") is
/// clear.
pub open spec fn sub_borrow(c: bool) -> int {
    if c { 0int } else { 1int }
}

/// The accumulator after a subtraction: the difference wrapped to 8 bits.
pub open spec fn sub_result(a: Data, v: Data, c: bool) -> Data {
    (((0x100 + a) - v - sub_borrow(c)) % 0x100) as u8
}

/// Whether a subtraction needs no borrow: the true difference is not negative.
/// This is the carry flag a subtraction or compare leaves behind.
pub open spec fn sub_no_borrow(a: Data, v: Data, c: bool) -> bool {
    a - v - sub_borrow(c) >= 0
}

/// Signed overflow of a subtraction: the operands disagree in sign and the
/// result disagrees with the accumulator.
pub open spec fn sub_overflow(a: Data, v: Data, r: Data) -> bool {
    (a ^ v) & 0x80 != 0 && (a ^ r) & 0x80 != 0
}

/// A byte rotated left through the carry: the carry-in fills bit 0.
pub open spec fn rol_val(v: Data, c: bool) -> Data {
    (v << 1) | (if c { 1u8 } else { 0u8 })
}

/// A byte rotated right through the carry: the carry-in fills bit 7.
pub open spec fn ror_val(v: Data, c: bool) -> Data {
    (v >> 1) | (if c { 0x80u8 } else { 0u8 })
}

/// The register file after a load into the accumulator with its flag updates.
pub open spec fn with_a_nz(r: Registers, v: Data) -> Registers {
    Registers { a: v, negative: flag_n(v), zero: v == 0, ..r }
}

/// The register file after a load into index X with its flag updates.
pub open spec fn with_x_nz(r: Registers, v: Data) -> Registers {
    Registers { x: v, negative: flag_n(v), zero: v == 0, ..r }
}

/// The register file after a load into index Y with its flag updates.
pub open spec fn with_y_nz(r: Registers, v: Data) -> Registers {
    Registers { y: v, negative: flag_n(v), zero: v == 0, ..r }
}

/// Holds when a write left every device except work memory untouched.
pub open spec fn same_but_ram(pre: Bus, post: Bus) -> bool {
    &&& post.program_rom == pre.program_rom
    &&& post.ppu == pre.ppu
    &&& post.ppu_ctx == pre.ppu_ctx
    &&& post.apu == pre.apu
    &&& post.dma == pre.dma
}

/// Where on the stack page a stack pointer lands in work memory.
pub open spec fn stack_addr(sp: Data) -> int {
    0x100 + sp
}

/// Pushes one byte: writes it at the stack pointer within the stack page,
/// then moves the pointer down.
fn push(data: Data, registers: &mut Registers, bus: &mut Bus)
    requires
        old(bus).wf(),
    ensures
        final(bus).wf(),
        final(bus).work_ram@ == old(bus).work_ram@.update(stack_addr(old(registers).sp), data),
        same_but_ram(*old(bus), *final(bus)),
        (*final(registers) == (Registers {
            sp: Registers::sp_dec(old(registers).sp),
            ..*old(registers)
        })),
{
    let addr = 0x0100 + registers.get_sp() as u16;
    bus.write(addr, data);
    registers.dec_sp();
}

/// Pushes the status byte, with the break bit forced high when asked for.
fn push_status(registers: &mut Registers, bus: &mut Bus, with_b_flag: bool)
    requires
        old(bus).wf(),
    ensures
        final(bus).wf(),
        final(bus).work_ram@ == old(bus).work_ram@.update(
            stack_addr(old(registers).sp),
            if with_b_flag {
                old(registers).p_byte() | 0x10
            } else {
                old(registers).p_byte()
            },
        ),
        same_but_ram(*old(bus), *final(bus)),
        (*final(registers) == (Registers {
            sp: Registers::sp_dec(old(registers).sp),
            ..*old(registers)
        })),
{
    let p = registers.get_p();
    let status = if with_b_flag { p | 0x10 } else { p };
    push(status, registers, bus);
}

/// Pops one byte: moves the stack pointer up, then reads at it.
fn pop(registers: &mut Registers, bus: &mut Bus) -> (r: Data)
    requires
        old(bus).wf(),
    ensures
        final(bus).wf(),
        *final(bus) == *old(bus),
        r == old(bus).work_ram@[stack_addr(Registers::sp_inc(old(registers).sp))],
        (*final(registers) == (Registers {
            sp: Registers::sp_inc(old(registers).sp),
            ..*old(registers)
        })),
{
    registers.inc_sp();
    let sp = registers.get_sp();
    bus.read(0x0100 + sp as u16)
}

/// Pops the program counter: low byte first, then high.
fn pop_pc(registers: &mut Registers, bus: &mut Bus)
    requires
        old(bus).wf(),
    ensures
        final(bus).wf(),
        *final(bus) == *old(bus),
        ({
            let sp1 = Registers::sp_inc(old(registers).sp);
            let sp2 = Registers::sp_inc(sp1);
            let lo = old(bus).work_ram@[stack_addr(sp1)];
            let hi = old(bus).work_ram@[stack_addr(sp2)];
            *final(registers) == (Registers { pc: word_of(lo, hi), sp: sp2, ..*old(registers) })
        }),
{
    let lower = pop(registers, bus);
    let upper = pop(registers, bus);
    registers.set_pc(((upper as u16) << 8) | lower as u16);
}

/// Pops the status byte into the flags.
fn pop_status(registers: &mut Registers, bus: &mut Bus)
    requires
        old(bus).wf(),
    ensures
        final(bus).wf(),
        *final(bus) == *old(bus),
        ({
            let sp1 = Registers::sp_inc(old(registers).sp);
            let st = old(bus).work_ram@[stack_addr(sp1)];
            *final(registers) == (Registers { sp: sp1, ..old(registers).with_p(st) })
        }),
{
    let status = pop(registers, bus);
    registers.set_p(status);
}

/// Pushes the program counter: high byte first, then low.
fn push_pc(registers: &mut Registers, bus: &mut Bus)
    requires
        old(bus).wf(),
    ensures
        final(bus).wf(),
        final(bus).work_ram@ == old(bus).work_ram@.update(
            stack_addr(old(registers).sp),
            (old(registers).pc / 0x100) as u8,
        ).update(
            stack_addr(Registers::sp_dec(old(registers).sp)),
            (old(registers).pc % 0x100) as u8,
        ),
        same_but_ram(*old(bus), *final(bus)),
        (*final(registers) == (Registers {
            sp: Registers::sp_dec(Registers::sp_dec(old(registers).sp)),
            ..*old(registers)
        })),
{
    let pc = registers.get_pc();
    push((pc / 0x100) as u8, registers, bus);
    push((pc % 0x100) as u8, registers, bus);
}

/// Moves the program counter to a branch target.
fn branch(registers: &mut Registers, addr: Word)
    ensures
        (*final(registers) == (Registers { pc: addr, ..*old(registers) })),
{
    registers.set_pc(addr);
}

/// How non-maskable interrupt entry relates the processor and bus states
/// before it to those after it: the program counter is pushed high byte then
/// low byte, then the status byte with the break bit clear and not forced;
/// interrupt-disable is set and the program counter is loaded from the fixed
/// NMI vector. Nothing but work memory changes on the bus.
pub open spec fn nmi_step_rel(pre_r: Registers, pre_b: Bus, post_r: Registers, post_b: Bus)
    -> bool {
    let sp = pre_r.sp;
    let sp1 = Registers::sp_dec(sp);
    let sp2 = Registers::sp_dec(sp1);
    let st = (Registers { break_mode: false, ..pre_r }).p_byte();
    &&& post_b.work_ram@ == pre_b.work_ram@.update(stack_addr(sp), (pre_r.pc / 0x100) as u8)
        .update(stack_addr(sp1), (pre_r.pc % 0x100) as u8).update(stack_addr(sp2), st)
    &&& same_but_ram(pre_b, post_b)
    &&& post_r == (Registers {
        pc: word_of(
            pre_b.program_rom@[pre_b.rom_index(0xFFFA)],
            pre_b.program_rom@[pre_b.rom_index(0xFFFB)],
        ),
        sp: Registers::sp_dec(sp2),
        break_mode: false,
        interrupt: true,
        ..pre_r
    })
}

/// Non-maskable interrupt entry: clear the break flag, push the program
/// counter high byte then low byte, push the status byte with the break bit
/// not forced, set interrupt-disable, and load the program counter from the
/// fixed NMI vector.
pub fn process_nmi(registers: &mut Registers, bus: &mut Bus)
    requires
        old(bus).wf(),
    ensures
        final(bus).wf(),
        nmi_step_rel(*old(registers), *old(bus), *final(registers), *final(bus)),
{
    registers.set_break(false);
    let pc = registers.get_pc();
    push((pc / 0x100) as u8, registers, bus);
    push((pc % 0x100) as u8, registers, bus);
    push_status(registers, bus, false);
    registers.set_interrupt(true);
    let next = bus.read_word(0xFFFA);
    registers.set_pc(next);
}

/// Loads the accumulator from memory, updating the negative and zero flags.
pub fn lda(operand: Word, registers: &mut Registers, bus: &mut Bus)
    requires
        old(bus).wf(),
    ensures
        final(bus).wf(),
        *final(bus) == old(bus).read_step(operand),
        *final(registers) == with_a_nz(*old(registers), old(bus).read_result(operand)),
{
    let computed = bus.read(operand);
    registers.set_a(computed);
    registers.update_negative_by(computed);
    registers.update_zero_by(computed);
}

/// Loads the accumulator from an immediate operand.
pub fn lda_imm(operand: Word, registers: &mut Registers)
    ensures
        *final(registers) == with_a_nz(*old(registers), (operand % 0x100) as u8),
{
    let v = (operand % 0x100) as u8;
    registers.set_a(v);
    registers.update_negative_by(v);
    registers.update_zero_by(v);
}

/// Loads index X from memory, updating the negative and zero flags.
pub fn ldx(operand: Word, registers: &mut Registers, bus: &mut Bus)
    requires
        old(bus).wf(),
    ensures
        final(bus).wf(),
        *final(bus) == old(bus).read_step(operand),
        *final(registers) == with_x_nz(*old(registers), old(bus).read_result(operand)),
{
    let computed = bus.read(operand);
    registers.set_x(computed);
    registers.update_negative_by(computed);
    registers.update_zero_by(computed);
}

/// Loads index X from an immediate operand.
pub fn ldx_imm(operand: Word, registers: &mut Registers)
    ensures
        *final(registers) == with_x_nz(*old(registers), (operand % 0x100) as u8),
{
    let v = (operand % 0x100) as u8;
    registers.set_x(v);
    registers.update_negative_by(v);
    registers.update_zero_by(v);
}

/// Loads index Y from memory, updating the negative and zero flags.
pub fn ldy(operand: Word, registers: &mut Registers, bus: &mut Bus)
    requires
        old(bus).wf(),
    ensures
        final(bus).wf(),
        *final(bus) == old(bus).read_step(operand),
        *final(registers) == with_y_nz(*old(registers), old(bus).read_result(operand)),
{
    let computed = bus.read(operand);
    registers.set_y(computed);
    registers.update_negative_by(computed);
    registers.update_zero_by(computed);
}

/// Loads index Y from an immediate operand.
pub fn ldy_imm(operand: Word, registers: &mut Registers)
    ensures
        *final(registers) == with_y_nz(*old(registers), (operand % 0x100) as u8),
{
    let v = (operand % 0x100) as u8;
    registers.set_y(v);
    registers.update_negative_by(v);
    registers.update_zero_by(v);
}

/// Stores the accumulator: a pure bus write, no flags.
pub fn sta(operand: Word, registers: &mut Registers, bus: &mut Bus)
    requires
        old(bus).wf(),
    ensures
        final(bus).wf(),
        Bus::write_rel(*old(bus), *final(bus), operand, old(registers).a),
        *final(registers) == *old(registers),
{
    let a = registers.get_a();
    bus.write(operand, a);
}

/// Stores index X: a pure bus write, no flags.
pub fn stx(operand: Word, registers: &mut Registers, bus: &mut Bus)
    requires
        old(bus).wf(),
    ensures
        final(bus).wf(),
        Bus::write_rel(*old(bus), *final(bus), operand, old(registers).x),
        *final(registers) == *old(registers),
{
    let x = registers.get_x();
    bus.write(operand, x);
}

/// Stores index Y: a pure bus write, no flags.
pub fn sty(operand: Word, registers: &mut Registers, bus: &mut Bus)
    requires
        old(bus).wf(),
    ensures
        final(bus).wf(),
        Bus::write_rel(*old(bus), *final(bus), operand, old(registers).y),
        *final(registers) == *old(registers),
{
    let y = registers.get_y();
    bus.write(operand, y);
}

/// Copies index X into the accumulator, updating the flags.
pub fn txa(registers: &mut Registers)
    ensures
        *final(registers) == with_a_nz(*old(registers), old(registers).x),
{
    let x = registers.get_x();
    registers.set_a(x);
    registers.update_negative_by(x);
    registers.update_zero_by(x);
}

/// Copies index Y into the accumulator, updating the flags.
pub fn tya(registers: &mut Registers)
    ensures
        *final(registers) == with_a_nz(*old(registers), old(registers).y),
{
    let y = registers.get_y();
    registers.set_a(y);
    registers.update_negative_by(y);
    registers.update_zero_by(y);
}

/// Copies index X into the stack pointer. TXS sets no flags.
pub fn txs(registers: &mut Registers)
    ensures
        (*final(registers) == (Registers { sp: old(registers).x, ..*old(registers) })),
{
    let x = registers.get_x();
    registers.set_sp(x);
}

/// Copies the accumulator into index Y, updating the flags.
pub fn tay(registers: &mut Registers)
    ensures
        *final(registers) == with_y_nz(*old(registers), old(registers).a),
{
    let acc = registers.get_a();
    registers.set_y(acc);
    registers.update_negative_by(acc);
    registers.update_zero_by(acc);
}

/// Copies the accumulator into index X, updating the flags.
pub fn tax(registers: &mut Registers)
    ensures
        *final(registers) == with_x_nz(*old(registers), old(registers).a),
{
    let acc = registers.get_a();
    registers.set_x(acc);
    registers.update_negative_by(acc);
    registers.update_zero_by(acc);
}

/// Copies the stack pointer into index X, updating the flags.
pub fn tsx(registers: &mut Registers)
    ensures
        *final(registers) == with_x_nz(*old(registers), old(registers).sp),
{
    let sp = registers.get_sp();
    registers.set_x(sp);
    registers.update_negative_by(sp);
    registers.update_zero_by(sp);
}

/// Pushes the status byte with the break and reserved bits forced to 1 on the
/// pushed copy, independent of the live flag values; the flags themselves are
/// untouched.
pub fn php(registers: &mut Registers, bus: &mut Bus)
    requires
        old(bus).wf(),
    ensures
        final(bus).wf(),
        final(bus).work_ram@ == old(bus).work_ram@.update(
            stack_addr(old(registers).sp),
            old(registers).p_byte() | 0x30,
        ),
        (old(registers).p_byte() | 0x30) & 0x30 == 0x30,
        same_but_ram(*old(bus), *final(bus)),
        (*final(registers) == (Registers {
            sp: Registers::sp_dec(old(registers).sp),
            ..*old(registers)
        })),
{
    proof {
        let p = old(registers).p_byte();
        assert((p | 0x30) & 0x30 == 0x30) by (bit_vector);
    }
    let status = registers.get_p() | 0x30;
    push(status, registers, bus);
}

/// Pulls the status byte, but keeps the live break flag in place of the popped
/// one and leaves the reserved bit of the popped byte out.
pub fn plp(registers: &mut Registers, bus: &mut Bus)
    requires
        old(bus).wf(),
    ensures
        final(bus).wf(),
        *final(bus) == *old(bus),
        ({
            let sp1 = Registers::sp_inc(old(registers).sp);
            let popped = old(bus).work_ram@[stack_addr(sp1)];
            let st = (popped & 0xCF) | (if old(registers).break_mode { 0x10u8 } else { 0u8 });
            *final(registers) == (Registers { sp: sp1, ..old(registers).with_p(st) })
        }),
{
    let previous_b: u8 = if registers.get_break() { 0x10u8 } else { 0 };
    let popped = pop(registers, bus);
    let status = (popped & 0xCF) | previous_b;
    registers.set_p(status);
}

/// Pushes the accumulator.
pub fn pha(registers: &mut Registers, bus: &mut Bus)
    requires
        old(bus).wf(),
    ensures
        final(bus).wf(),
        final(bus).work_ram@ == old(bus).work_ram@.update(
            stack_addr(old(registers).sp),
            old(registers).a,
        ),
        same_but_ram(*old(bus), *final(bus)),
        (*final(registers) == (Registers {
            sp: Registers::sp_dec(old(registers).sp),
            ..*old(registers)
        })),
{
    let acc = registers.get_a();
    push(acc, registers, bus);
}

/// Pulls the accumulator, updating the negative and zero flags.
pub fn pla(registers: &mut Registers, bus: &mut Bus)
    requires
        old(bus).wf(),
    ensures
        final(bus).wf(),
        *final(bus) == *old(bus),
        ({
            let sp1 = Registers::sp_inc(old(registers).sp);
            let v = old(bus).work_ram@[stack_addr(sp1)];
            *final(registers) == (Registers { sp: sp1, ..with_a_nz(*old(registers), v) })
        }),
{
    let v = pop(registers, bus);
    registers.set_a(v);
    registers.update_negative_by(v);
    registers.update_zero_by(v);
}

/// Adds an immediate operand and the carry into the accumulator. The overflow
/// flag is computed from sign-bit agreement between operand and accumulator
/// versus the result; the carry is the 8-bit carry-out.
pub fn adc_imm(operand: Word, registers: &mut Registers)
    ensures
        ({
            let v = (operand % 0x100) as u8;
            let a = old(registers).a;
            let r = add_result(a, v, old(registers).carry);
            *final(registers) == (Registers {
                a: r,
                carry: add_sum(a, v, old(registers).carry) > 0xFF,
                overflow: add_overflow(a, v, r),
                negative: flag_n(r),
                zero: r == 0,
                ..*old(registers)
            })
        }),
{
    let v = (operand % 0x100) as u8;
    let acc = registers.get_a();
    let carry_in: u16 = if registers.get_carry() { 1 } else { 0 };
    let computed: u16 = v as u16 + acc as u16 + carry_in;
    let result = (computed % 0x100) as u8;
    registers.set_overflow((acc ^ v) & 0x80 == 0 && (acc ^ result) & 0x80 != 0);
    registers.update_negative_by(result);
    registers.update_zero_by(result);
    registers.set_carry(computed > 0xFF);
    registers.set_a(result);
}

/// Adds a memory operand and the carry into the accumulator.
pub fn adc(operand: Word, registers: &mut Registers, bus: &mut Bus)
    requires
        old(bus).wf(),
    ensures
        final(bus).wf(),
        *final(bus) == old(bus).read_step(operand),
        ({
            let v = old(bus).read_result(operand);
            let a = old(registers).a;
            let r = add_result(a, v, old(registers).carry);
            *final(registers) == (Registers {
                a: r,
                carry: add_sum(a, v, old(registers).carry) > 0xFF,
                overflow: add_overflow(a, v, r),
                negative: flag_n(r),
                zero: r == 0,
                ..*old(registers)
            })
        }),
{
    let fetched = bus.read(operand);
    let acc = registers.get_a();
    let carry_in: u16 = if registers.get_carry() { 1 } else { 0 };
    let computed: u16 = fetched as u16 + acc as u16 + carry_in;
    let result = (computed % 0x100) as u8;
    registers.set_overflow((acc ^ fetched) & 0x80 == 0 && (acc ^ result) & 0x80 != 0);
    registers.update_negative_by(result);
    registers.update_zero_by(result);
    registers.set_carry(computed > 0xFF);
    registers.set_a(result);
}

/// Subtracts an immediate operand (and the borrow, when the carry is clear)
/// from the accumulator. The carry afterwards means "no borrow".
pub fn sbc_imm(operand: Word, registers: &mut Registers)
    ensures
        ({
            let v = (operand % 0x100) as u8;
            let a = old(registers).a;
            let r = sub_result(a, v, old(registers).carry);
            *final(registers) == (Registers {
                a: r,
                carry: sub_no_borrow(a, v, old(registers).carry),
                overflow: sub_overflow(a, v, r),
                negative: flag_n(r),
                zero: r == 0,
                ..*old(registers)
            })
        }),
{
    let v = (operand % 0x100) as u8;
    let acc = registers.get_a();
    let borrow: u16 = if registers.get_carry() { 0 } else { 1 };
    let diff: u16 = 0x100 + acc as u16 - v as u16 - borrow;
    let result = (diff % 0x100) as u8;
    registers.set_overflow((acc ^ v) & 0x80 != 0 && (acc ^ result) & 0x80 != 0);
    registers.update_negative_by(result);
    registers.update_zero_by(result);
    registers.set_carry(acc as u16 >= v as u16 + borrow);
    registers.set_a(result);
}

/// Subtracts a memory operand (and the borrow) from the accumulator.
pub fn sbc(operand: Word, registers: &mut Registers, bus: &mut Bus)
    requires
        old(bus).wf(),
    ensures
        final(bus).wf(),
        *final(bus) == old(bus).read_step(operand),
        ({
            let v = old(bus).read_result(operand);
            let a = old(registers).a;
            let r = sub_result(a, v, old(registers).carry);
            *final(registers) == (Registers {
                a: r,
                carry: sub_no_borrow(a, v, old(registers).carry),
                overflow: sub_overflow(a, v, r),
                negative: flag_n(r),
                zero: r == 0,
                ..*old(registers)
            })
        }),
{
    let fetched = bus.read(operand);
    let acc = registers.get_a();
    let borrow: u16 = if registers.get_carry() { 0 } else { 1 };
    let diff: u16 = 0x100 + acc as u16 - fetched as u16 - borrow;
    let result = (diff % 0x100) as u8;
    registers.set_overflow((acc ^ fetched) & 0x80 != 0 && (acc ^ result) & 0x80 != 0);
    registers.update_negative_by(result);
    registers.update_zero_by(result);
    registers.set_carry(acc as u16 >= fetched as u16 + borrow);
    registers.set_a(result);
}

/// The flag effect every compare shares: carry when the register does not
/// borrow against the operand, negative and zero from the wrapped difference.
pub open spec fn with_compare(r: Registers, reg: Data, v: Data) -> Registers {
    let d = sub_result(reg, v, true);
    Registers {
        carry: sub_no_borrow(reg, v, true),
        negative: flag_n(d),
        zero: d == 0,
        ..r
    }
}

/// Compares index X with an immediate operand; the difference is discarded.
pub fn cpx_imm(operand: Word, registers: &mut Registers)
    ensures
        *final(registers) == with_compare(
            *old(registers),
            old(registers).x,
            (operand % 0x100) as u8,
        ),
{
    let v = (operand % 0x100) as u8;
    let x = registers.get_x();
    let diff: u16 = 0x100 + x as u16 - v as u16;
    let result = (diff % 0x100) as u8;
    registers.update_negative_by(result);
    registers.update_zero_by(result);
    registers.set_carry(x >= v);
}

/// Compares index X with a memory operand.
pub fn cpx(operand: Word, registers: &mut Registers, bus: &mut Bus)
    requires
        old(bus).wf(),
    ensures
        final(bus).wf(),
        *final(bus) == old(bus).read_step(operand),
        *final(registers) == with_compare(
            *old(registers),
            old(registers).x,
            old(bus).read_result(operand),
        ),
{
    let fetched = bus.read(operand);
    let x = registers.get_x();
    let diff: u16 = 0x100 + x as u16 - fetched as u16;
    let result = (diff % 0x100) as u8;
    registers.update_negative_by(result);
    registers.update_zero_by(result);
    registers.set_carry(x >= fetched);
}

/// Compares index Y with an immediate operand.
pub fn cpy_imm(operand: Word, registers: &mut Registers)
    ensures
        *final(registers) == with_compare(
            *old(registers),
            old(registers).y,
            (operand % 0x100) as u8,
        ),
{
    let v = (operand % 0x100) as u8;
    let y = registers.get_y();
    let diff: u16 = 0x100 + y as u16 - v as u16;
    let result = (diff % 0x100) as u8;
    registers.update_negative_by(result);
    registers.update_zero_by(result);
    registers.set_carry(y >= v);
}

/// Compares index Y with a memory operand.
pub fn cpy(operand: Word, registers: &mut Registers, bus: &mut Bus)
    requires
        old(bus).wf(),
    ensures
        final(bus).wf(),
        *final(bus) == old(bus).read_step(operand),
        *final(registers) == with_compare(
            *old(registers),
            old(registers).y,
            old(bus).read_result(operand),
        ),
{
    let fetched = bus.read(operand);
    let y = registers.get_y();
    let diff: u16 = 0x100 + y as u16 - fetched as u16;
    let result = (diff % 0x100) as u8;
    registers.update_negative_by(result);
    registers.update_zero_by(result);
    registers.set_carry(y >= fetched);
}

/// Compares the accumulator with an immediate operand.
pub fn cmp_imm(operand: Word, registers: &mut Registers)
    ensures
        *final(registers) == with_compare(
            *old(registers),
            old(registers).a,
            (operand % 0x100) as u8,
        ),
{
    let v = (operand % 0x100) as u8;
    let a = registers.get_a();
    let diff: u16 = 0x100 + a as u16 - v as u16;
    let result = (diff % 0x100) as u8;
    registers.update_negative_by(result);
    registers.update_zero_by(result);
    registers.set_carry(a >= v);
}

/// Compares the accumulator with a memory operand.
pub fn cmp(operand: Word, registers: &mut Registers, bus: &mut Bus)
    requires
        old(bus).wf(),
    ensures
        final(bus).wf(),
        *final(bus) == old(bus).read_step(operand),
        *final(registers) == with_compare(
            *old(registers),
            old(registers).a,
            old(bus).read_result(operand),
        ),
{
    let fetched = bus.read(operand);
    let a = registers.get_a();
    let diff: u16 = 0x100 + a as u16 - fetched as u16;
    let result = (diff % 0x100) as u8;
    registers.update_negative_by(result);
    registers.update_zero_by(result);
    registers.set_carry(a >= fetched);
}

/// Bitwise AND of the accumulator with an immediate operand.
pub fn and_imm(operand: Word, registers: &mut Registers)
    ensures
        *final(registers) == with_a_nz(
            *old(registers),
            old(registers).a & (operand % 0x100) as u8,
        ),
{
    let computed = registers.get_a() & (operand % 0x100) as u8;
    registers.update_negative_by(computed);
    registers.update_zero_by(computed);
    registers.set_a(computed);
}

/// Bitwise AND of the accumulator with a memory operand.
pub fn and(operand: Word, registers: &mut Registers, bus: &mut Bus)
    requires
        old(bus).wf(),
    ensures
        final(bus).wf(),
        *final(bus) == old(bus).read_step(operand),
        *final(registers) == with_a_nz(
            *old(registers),
            old(registers).a & old(bus).read_result(operand),
        ),
{
    let fetched = bus.read(operand);
    let computed = registers.get_a() & fetched;
    registers.update_negative_by(computed);
    registers.update_zero_by(computed);
    registers.set_a(computed);
}

/// Bitwise exclusive-or of the accumulator with an immediate operand.
pub fn eor_imm(operand: Word, registers: &mut Registers)
    ensures
        *final(registers) == with_a_nz(
            *old(registers),
            old(registers).a ^ (operand % 0x100) as u8,
        ),
{
    let computed = registers.get_a() ^ (operand % 0x100) as u8;
    registers.update_negative_by(computed);
    registers.update_zero_by(computed);
    registers.set_a(computed);
}

/// Bitwise exclusive-or of the accumulator with a memory operand.
pub fn eor(operand: Word, registers: &mut Registers, bus: &mut Bus)
    requires
        old(bus).wf(),
    ensures
        final(bus).wf(),
        *final(bus) == old(bus).read_step(operand),
        *final(registers) == with_a_nz(
            *old(registers),
            old(registers).a ^ old(bus).read_result(operand),
        ),
{
    let fetched = bus.read(operand);
    let computed = registers.get_a() ^ fetched;
    registers.update_negative_by(computed);
    registers.update_zero_by(computed);
    registers.set_a(computed);
}

/// Bitwise OR of the accumulator with an immediate operand.
pub fn ora_imm(operand: Word, registers: &mut Registers)
    ensures
        *final(registers) == with_a_nz(
            *old(registers),
            old(registers).a | (operand % 0x100) as u8,
        ),
{
    let computed = registers.get_a() | (operand % 0x100) as u8;
    registers.update_negative_by(computed);
    registers.update_zero_by(computed);
    registers.set_a(computed);
}

/// Bitwise OR of the accumulator with a memory operand.
pub fn ora(operand: Word, registers: &mut Registers, bus: &mut Bus)
    requires
        old(bus).wf(),
    ensures
        final(bus).wf(),
        *final(bus) == old(bus).read_step(operand),
        *final(registers) == with_a_nz(
            *old(registers),
            old(registers).a | old(bus).read_result(operand),
        ),
{
    let fetched = bus.read(operand);
    let computed = registers.get_a() | fetched;
    registers.update_negative_by(computed);
    registers.update_zero_by(computed);
    registers.set_a(computed);
}

/// Bit test: the zero flag comes from the fetched byte masked with the
/// accumulator, while negative and overflow are copied straight from bits 7
/// and 6 of the fetched byte — the accumulator does not affect them.
pub fn bit(operand: Word, registers: &mut Registers, bus: &mut Bus)
    requires
        old(bus).wf(),
    ensures
        final(bus).wf(),
        *final(bus) == old(bus).read_step(operand),
        ({
            let v = old(bus).read_result(operand);
            *final(registers) == (Registers {
                negative: flag_n(v),
                zero: v & old(registers).a == 0,
                overflow: v & 0x40 == 0x40,
                ..*old(registers)
            })
        }),
{
    let fetched = bus.read(operand);
    let acc = registers.get_a();
    registers.update_negative_by(fetched);
    registers.update_zero_by(fetched & acc);
    registers.set_overflow(fetched & 0x40 == 0x40);
}

/// Arithmetic shift left of the accumulator: bit 7 moves into the carry.
pub fn asl_acc(registers: &mut Registers)
    ensures
        ({
            let a = old(registers).a;
            let shifted = a << 1;
            *final(registers) == (Registers {
                a: shifted,
                carry: a & 0x80 == 0x80,
                negative: flag_n(shifted),
                zero: shifted == 0,
                ..*old(registers)
            })
        }),
{
    let acc = registers.get_a();
    let shifted = acc << 1;
    registers.set_carry(acc & 0x80 == 0x80);
    registers.update_negative_by(shifted);
    registers.update_zero_by(shifted);
    registers.set_a(shifted);
}

/// Arithmetic shift left in memory: one read, one write, in that order.
pub fn asl(operand: Word, registers: &mut Registers, bus: &mut Bus)
    requires
        old(bus).wf(),
    ensures
        final(bus).wf(),
        ({
            let fetched = old(bus).read_result(operand);
            let shifted = fetched << 1;
            &&& Bus::write_rel(old(bus).read_step(operand), *final(bus), operand, shifted)
            &&& *final(registers) == (Registers {
                carry: fetched & 0x80 == 0x80,
                negative: flag_n(shifted),
                zero: shifted == 0,
                ..*old(registers)
            })
        }),
{
    let fetched = bus.read(operand);
    let shifted = fetched << 1;
    registers.set_carry(fetched & 0x80 == 0x80);
    registers.update_negative_by(shifted);
    registers.update_zero_by(shifted);
    bus.write(operand, shifted);
}

/// Logical shift right of the accumulator: bit 0 moves into the carry.
pub fn lsr_acc(registers: &mut Registers)
    ensures
        ({
            let a = old(registers).a;
            let shifted = a >> 1;
            *final(registers) == (Registers {
                a: shifted,
                carry: a & 0x01 == 0x01,
                negative: flag_n(shifted),
                zero: shifted == 0,
                ..*old(registers)
            })
        }),
{
    let acc = registers.get_a();
    let shifted = acc >> 1;
    registers.set_carry(acc & 0x01 == 0x01);
    registers.update_negative_by(shifted);
    registers.update_zero_by(shifted);
    registers.set_a(shifted);
}

/// Logical shift right in memory: one read, one write, in that order.
pub fn lsr(operand: Word, registers: &mut Registers, bus: &mut Bus)
    requires
        old(bus).wf(),
    ensures
        final(bus).wf(),
        ({
            let fetched = old(bus).read_result(operand);
            let shifted = fetched >> 1;
            &&& Bus::write_rel(old(bus).read_step(operand), *final(bus), operand, shifted)
            &&& *final(registers) == (Registers {
                carry: fetched & 0x01 == 0x01,
                negative: flag_n(shifted),
                zero: shifted == 0,
                ..*old(registers)
            })
        }),
{
    let fetched = bus.read(operand);
    let shifted = fetched >> 1;
    registers.set_carry(fetched & 0x01 == 0x01);
    registers.update_negative_by(shifted);
    registers.update_zero_by(shifted);
    bus.write(operand, shifted);
}

/// Rotates the accumulator left: the incoming carry fills bit 0, the old
/// bit 7 becomes the carry.
pub fn rol_acc(registers: &mut Registers)
    ensures
        ({
            let a = old(registers).a;
            let rotated = rol_val(a, old(registers).carry);
            *final(registers) == (Registers {
                a: rotated,
                carry: a & 0x80 == 0x80,
                negative: flag_n(rotated),
                zero: rotated == 0,
                ..*old(registers)
            })
        }),
{
    let acc = registers.get_a();
    let rotated = rotate_to_left(registers, acc);
    registers.set_carry(acc & 0x80 == 0x80);
    registers.update_negative_by(rotated);
    registers.update_zero_by(rotated);
    registers.set_a(rotated);
}

/// Rotates a memory byte left: one read, one write, in that order.
pub fn rol(operand: Word, registers: &mut Registers, bus: &mut Bus)
    requires
        old(bus).wf(),
    ensures
        final(bus).wf(),
        ({
            let fetched = old(bus).read_result(operand);
            let rotated = rol_val(fetched, old(registers).carry);
            &&& Bus::write_rel(old(bus).read_step(operand), *final(bus), operand, rotated)
            &&& *final(registers) == (Registers {
                carry: fetched & 0x80 == 0x80,
                negative: flag_n(rotated),
                zero: rotated == 0,
                ..*old(registers)
            })
        }),
{
    let fetched = bus.read(operand);
    let rotated = rotate_to_left(registers, fetched);
    registers.set_carry(fetched & 0x80 == 0x80);
    registers.update_negative_by(rotated);
    registers.update_zero_by(rotated);
    bus.write(operand, rotated);
}

/// Rotates the accumulator right: the incoming carry fills bit 7, the old
/// bit 0 becomes the carry.
pub fn ror_acc(registers: &mut Registers)
    ensures
        ({
            let a = old(registers).a;
            let rotated = ror_val(a, old(registers).carry);
            *final(registers) == (Registers {
                a: rotated,
                carry: a & 0x01 == 0x01,
                negative: flag_n(rotated),
                zero: rotated == 0,
                ..*old(registers)
            })
        }),
{
    let acc = registers.get_a();
    let rotated = rotate_to_right(registers, acc);
    registers.set_carry(acc & 0x01 == 0x01);
    registers.update_negative_by(rotated);
    registers.update_zero_by(rotated);
    registers.set_a(rotated);
}

/// Rotates a memory byte right: one read, one write, in that order.
pub fn ror(operand: Word, registers: &mut Registers, bus: &mut Bus)
    requires
        old(bus).wf(),
    ensures
        final(bus).wf(),
        ({
            let fetched = old(bus).read_result(operand);
            let rotated = ror_val(fetched, old(registers).carry);
            &&& Bus::write_rel(old(bus).read_step(operand), *final(bus), operand, rotated)
            &&& *final(registers) == (Registers {
                carry: fetched & 0x01 == 0x01,
                negative: flag_n(rotated),
                zero: rotated == 0,
                ..*old(registers)
            })
        }),
{
    let fetched = bus.read(operand);
    let rotated = rotate_to_right(registers, fetched);
    registers.set_carry(fetched & 0x01 == 0x01);
    registers.update_negative_by(rotated);
    registers.update_zero_by(rotated);
    bus.write(operand, rotated);
}

/// Increments index X with 8-bit wraparound, updating the flags.
pub fn inx(registers: &mut Registers)
    ensures
        *final(registers) == with_x_nz(*old(registers), old(registers).x.wrapping_add(1)),
{
    let x = registers.get_x().wrapping_add(1);
    registers.set_x(x);
    registers.update_negative_by(x);
    registers.update_zero_by(x);
}

/// Increments index Y with 8-bit wraparound, updating the flags.
pub fn iny(registers: &mut Registers)
    ensures
        *final(registers) == with_y_nz(*old(registers), old(registers).y.wrapping_add(1)),
{
    let y = registers.get_y().wrapping_add(1);
    registers.set_y(y);
    registers.update_negative_by(y);
    registers.update_zero_by(y);
}

/// Increments a memory byte with 8-bit wraparound: one read, one write.
pub fn inc(operand: Word, registers: &mut Registers, bus: &mut Bus)
    requires
        old(bus).wf(),
    ensures
        final(bus).wf(),
        ({
            let data = old(bus).read_result(operand).wrapping_add(1);
            &&& Bus::write_rel(old(bus).read_step(operand), *final(bus), operand, data)
            &&& *final(registers) == (Registers {
                negative: flag_n(data),
                zero: data == 0,
                ..*old(registers)
            })
        }),
{
    let data = bus.read(operand).wrapping_add(1);
    registers.update_negative_by(data);
    registers.update_zero_by(data);
    bus.write(operand, data);
}

/// Decrements index X with 8-bit wraparound, updating the flags.
pub fn dex(registers: &mut Registers)
    ensures
        *final(registers) == with_x_nz(*old(registers), old(registers).x.wrapping_sub(1)),
{
    let x = registers.get_x().wrapping_sub(1);
    registers.set_x(x);
    registers.update_negative_by(x);
    registers.update_zero_by(x);
}

/// Decrements index Y with 8-bit wraparound, updating the flags.
pub fn dey(registers: &mut Registers)
    ensures
        *final(registers) == with_y_nz(*old(registers), old(registers).y.wrapping_sub(1)),
{
    let y = registers.get_y().wrapping_sub(1);
    registers.set_y(y);
    registers.update_negative_by(y);
    registers.update_zero_by(y);
}

/// Decrements a memory byte with 8-bit wraparound: one read, one write.
pub fn dec(operand: Word, registers: &mut Registers, bus: &mut Bus)
    requires
        old(bus).wf(),
    ensures
        final(bus).wf(),
        ({
            let data = old(bus).read_result(operand).wrapping_sub(1);
            &&& Bus::write_rel(old(bus).read_step(operand), *final(bus), operand, data)
            &&& *final(registers) == (Registers {
                negative: flag_n(data),
                zero: data == 0,
                ..*old(registers)
            })
        }),
{
    let data = bus.read(operand).wrapping_sub(1);
    registers.update_negative_by(data);
    registers.update_zero_by(data);
    bus.write(operand, data);
}

/// Clears the carry flag.
pub fn clc(registers: &mut Registers)
    ensures
        (*final(registers) == (Registers { carry: false, ..*old(registers) })),
{
    registers.set_carry(false);
}

/// Clears the interrupt-disable flag.
pub fn cli(registers: &mut Registers)
    ensures
        (*final(registers) == (Registers { interrupt: false, ..*old(registers) })),
{
    registers.set_interrupt(false);
}

/// Clears the overflow flag.
pub fn clv(registers: &mut Registers)
    ensures
        (*final(registers) == (Registers { overflow: false, ..*old(registers) })),
{
    registers.set_overflow(false);
}

/// Sets the carry flag.
pub fn sec(registers: &mut Registers)
    ensures
        (*final(registers) == (Registers { carry: true, ..*old(registers) })),
{
    registers.set_carry(true);
}

/// Sets the interrupt-disable flag.
pub fn sei(registers: &mut Registers)
    ensures
        (*final(registers) == (Registers { interrupt: true, ..*old(registers) })),
{
    registers.set_interrupt(true);
}

/// Clears the decimal flag.
pub fn cld(registers: &mut Registers)
    ensures
        (*final(registers) == (Registers { decimal: false, ..*old(registers) })),
{
    registers.set_decimal(false);
}

/// Sets the decimal flag.
pub fn sed(registers: &mut Registers)
    ensures
        (*final(registers) == (Registers { decimal: true, ..*old(registers) })),
{
    registers.set_decimal(true);
}

/// Software break: advance the program counter past the padding byte, push it,
/// push the status with the break bit forced, set interrupt-disable, load the
/// break vector unless interrupts were already disabled (the interrupt-nesting
/// guard), and finally retract the advance so the step loop's own bookkeeping
/// stays consistent.
pub fn brk(registers: &mut Registers, bus: &mut Bus)
    requires
        old(bus).wf(),
    ensures
        final(bus).wf(),
        ({
            let pc1 = Registers::pc_inc(old(registers).pc);
            let sp = old(registers).sp;
            let sp1 = Registers::sp_dec(sp);
            let sp2 = Registers::sp_dec(sp1);
            let st = old(registers).p_byte() | 0x10;
            let vector = word_of(
                old(bus).program_rom@[old(bus).rom_index(0xFFFE)],
                old(bus).program_rom@[old(bus).rom_index(0xFFFF)],
            );
            &&& final(bus).work_ram@ == old(bus).work_ram@.update(
                stack_addr(sp),
                (pc1 / 0x100) as u8,
            ).update(stack_addr(sp1), (pc1 % 0x100) as u8).update(stack_addr(sp2), st)
            &&& same_but_ram(*old(bus), *final(bus))
            &&& *final(registers) == (Registers {
                pc: Registers::pc_dec(
                    if !old(registers).interrupt {
                        vector
                    } else {
                        pc1
                    },
                ),
                sp: Registers::sp_dec(sp2),
                interrupt: true,
                ..*old(registers)
            })
        }),
{
    let interrupt = registers.get_interrupt();
    registers.inc_pc();
    push_pc(registers, bus);
    push_status(registers, bus, true);
    registers.set_interrupt(true);
    if !interrupt {
        let fetched = bus.read_word(0xFFFE);
        registers.set_pc(fetched);
    }
    registers.dec_pc();
}

/// Jump to subroutine: push (return address − 1) high byte then low byte,
/// then load the program counter with the operand.
pub fn jsr(operand: Word, registers: &mut Registers, bus: &mut Bus)
    requires
        old(bus).wf(),
    ensures
        final(bus).wf(),
        ({
            let ret = Registers::pc_dec(old(registers).pc);
            let sp = old(registers).sp;
            &&& final(bus).work_ram@ == old(bus).work_ram@.update(
                stack_addr(sp),
                (ret / 0x100) as u8,
            ).update(stack_addr(Registers::sp_dec(sp)), (ret % 0x100) as u8)
            &&& same_but_ram(*old(bus), *final(bus))
            &&& *final(registers) == (Registers {
                pc: operand,
                sp: Registers::sp_dec(Registers::sp_dec(sp)),
                ..*old(registers)
            })
        }),
{
    let pc = registers.get_pc();
    let ret = if pc == 0 { 0xFFFFu16 } else { pc - 1 };
    push((ret / 0x100) as u8, registers, bus);
    push((ret % 0x100) as u8, registers, bus);
    registers.set_pc(operand);
}

/// Jump: load the program counter with the operand.
pub fn jmp(operand: Word, registers: &mut Registers)
    ensures
        (*final(registers) == (Registers { pc: operand, ..*old(registers) })),
{
    registers.set_pc(operand);
}

/// Return from interrupt: pop the status byte, pop the program counter, and
/// force the reserved status bit back to 1.
pub fn rti(registers: &mut Registers, bus: &mut Bus)
    requires
        old(bus).wf(),
    ensures
        final(bus).wf(),
        *final(bus) == *old(bus),
        ({
            let sp1 = Registers::sp_inc(old(registers).sp);
            let sp2 = Registers::sp_inc(sp1);
            let sp3 = Registers::sp_inc(sp2);
            let st = old(bus).work_ram@[stack_addr(sp1)];
            let lo = old(bus).work_ram@[stack_addr(sp2)];
            let hi = old(bus).work_ram@[stack_addr(sp3)];
            *final(registers) == (Registers {
                reserved: true,
                pc: word_of(lo, hi),
                sp: sp3,
                ..old(registers).with_p(st)
            })
        }),
{
    pop_status(registers, bus);
    pop_pc(registers, bus);
    registers.set_reserved(true);
}

/// Return from subroutine: pop the program counter and step past the return
/// address the jump left behind.
pub fn rts(registers: &mut Registers, bus: &mut Bus)
    requires
        old(bus).wf(),
    ensures
        final(bus).wf(),
        *final(bus) == *old(bus),
        ({
            let sp1 = Registers::sp_inc(old(registers).sp);
            let sp2 = Registers::sp_inc(sp1);
            let lo = old(bus).work_ram@[stack_addr(sp1)];
            let hi = old(bus).work_ram@[stack_addr(sp2)];
            *final(registers) == (Registers {
                pc: Registers::pc_inc(word_of(lo, hi)),
                sp: sp2,
                ..*old(registers)
            })
        }),
{
    pop_pc(registers, bus);
    registers.inc_pc();
}

/// Branch if the carry flag is clear.
pub fn bcc(operand: Word, registers: &mut Registers)
    ensures
        (*final(registers) == (Registers {
            pc: if !old(registers).carry {
                operand
            } else {
                old(registers).pc
            },
            ..*old(registers)
        })),
{
    if !registers.get_carry() {
        branch(registers, operand);
    }
}

/// Branch if the carry flag is set.
pub fn bcs(operand: Word, registers: &mut Registers)
    ensures
        (*final(registers) == (Registers {
            pc: if old(registers).carry {
                operand
            } else {
                old(registers).pc
            },
            ..*old(registers)
        })),
{
    if registers.get_carry() {
        branch(registers, operand);
    }
}

/// Branch if the zero flag is set.
pub fn beq(operand: Word, registers: &mut Registers)
    ensures
        (*final(registers) == (Registers {
            pc: if old(registers).zero {
                operand
            } else {
                old(registers).pc
            },
            ..*old(registers)
        })),
{
    if registers.get_zero() {
        branch(registers, operand);
    }
}

/// Branch if the negative flag is set.
pub fn bmi(operand: Word, registers: &mut Registers)
    ensures
        (*final(registers) == (Registers {
            pc: if old(registers).negative {
                operand
            } else {
                old(registers).pc
            },
            ..*old(registers)
        })),
{
    if registers.get_negative() {
        branch(registers, operand);
    }
}

/// Branch if the zero flag is clear.
pub fn bne(operand: Word, registers: &mut Registers)
    ensures
        (*final(registers) == (Registers {
            pc: if !old(registers).zero {
                operand
            } else {
                old(registers).pc
            },
            ..*old(registers)
        })),
{
    if !registers.get_zero() {
        branch(registers, operand);
    }
}

/// Branch if the negative flag is clear.
pub fn bpl(operand: Word, registers: &mut Registers)
    ensures
        (*final(registers) == (Registers {
            pc: if !old(registers).negative {
                operand
            } else {
                old(registers).pc
            },
            ..*old(registers)
        })),
{
    if !registers.get_negative() {
        branch(registers, operand);
    }
}

/// Branch if the overflow flag is set.
pub fn bvs(operand: Word, registers: &mut Registers)
    ensures
        (*final(registers) == (Registers {
            pc: if old(registers).overflow {
                operand
            } else {
                old(registers).pc
            },
            ..*old(registers)
        })),
{
    if registers.get_overflow() {
        branch(registers, operand);
    }
}

/// Branch if the overflow flag is clear.
pub fn bvc(operand: Word, registers: &mut Registers)
    ensures
        (*final(registers) == (Registers {
            pc: if !old(registers).overflow {
                operand
            } else {
                old(registers).pc
            },
            ..*old(registers)
        })),
{
    if !registers.get_overflow() {
        branch(registers, operand);
    }
}

fn rotate_to_right(registers: &mut Registers, v: Data) -> (r: Data)
    ensures
        *final(registers) == *old(registers),
        r == ror_val(v, old(registers).carry),
{
    (v >> 1) | (if registers.get_carry() { 0x80 } else { 0x00 })
}

fn rotate_to_left(registers: &mut Registers, v: Data) -> (r: Data)
    ensures
        *final(registers) == *old(registers),
        r == rol_val(v, old(registers).carry),
{
    (v << 1) | (if registers.get_carry() { 0x01 } else { 0x00 })
}

/// Combined load: loads the fetched byte into both the accumulator and
/// index X, with one set of flag updates.
pub fn lax(addr: Word, registers: &mut Registers, bus: &mut Bus)
    requires
        old(bus).wf(),
    ensures
        final(bus).wf(),
        *final(bus) == old(bus).read_step(addr),
        ({
            let v = old(bus).read_result(addr);
            *final(registers) == (Registers {
                a: v,
                x: v,
                negative: flag_n(v),
                zero: v == 0,
                ..*old(registers)
            })
        }),
{
    let a = bus.read(addr);
    registers.set_a(a);
    registers.set_x(a);
    registers.update_zero_by(a);
    registers.update_negative_by(a);
}

/// Combined store: writes the bitwise AND of the accumulator and index X.
/// No flags change.
pub fn sax(location: Word, registers: &mut Registers, bus: &mut Bus)
    requires
        old(bus).wf(),
    ensures
        final(bus).wf(),
        Bus::write_rel(*old(bus), *final(bus), location, old(registers).a & old(registers).x),
        *final(registers) == *old(registers),
{
    let v = registers.get_a() & registers.get_x();
    bus.write(location, v);
}

/// Fused decrement-and-compare: the full read-modify-write of a decrement,
/// then the full flag update of a compare against the accumulator.
pub fn dcp(location: Word, registers: &mut Registers, bus: &mut Bus)
    requires
        old(bus).wf(),
    ensures
        final(bus).wf(),
        ({
            let v = old(bus).read_result(location).wrapping_sub(1);
            &&& Bus::write_rel(old(bus).read_step(location), *final(bus), location, v)
            &&& *final(registers) == with_compare(*old(registers), old(registers).a, v)
        }),
{
    let v = bus.read(location).wrapping_sub(1);
    bus.write(location, v);
    let a = registers.get_a();
    let diff: u16 = 0x100 + a as u16 - v as u16;
    let result = (diff % 0x100) as u8;
    registers.update_negative_by(result);
    registers.update_zero_by(result);
    registers.set_carry(a >= v);
}

/// Fused increment-and-subtract: the full read-modify-write of an increment,
/// then the full register update of a subtraction of the incremented byte.
pub fn isc(location: Word, registers: &mut Registers, bus: &mut Bus)
    requires
        old(bus).wf(),
    ensures
        final(bus).wf(),
        ({
            let v = old(bus).read_result(location).wrapping_add(1);
            let a = old(registers).a;
            let r = sub_result(a, v, old(registers).carry);
            &&& Bus::write_rel(old(bus).read_step(location), *final(bus), location, v)
            &&& *final(registers) == (Registers {
                a: r,
                carry: sub_no_borrow(a, v, old(registers).carry),
                overflow: sub_overflow(a, v, r),
                negative: flag_n(r),
                zero: r == 0,
                ..*old(registers)
            })
        }),
{
    let subtrahend = bus.read(location).wrapping_add(1);
    bus.write(location, subtrahend);

    let acc = registers.get_a();
    let borrow: u16 = if registers.get_carry() { 0 } else { 1 };
    let diff: u16 = 0x100 + acc as u16 - subtrahend as u16 - borrow;
    let result = (diff % 0x100) as u8;
    registers.set_carry(acc as u16 >= subtrahend as u16 + borrow);
    registers.set_overflow((acc ^ subtrahend) & 0x80 != 0 && (acc ^ result) & 0x80 != 0);
    registers.set_a(result);
    registers.update_zero_by(result);
    registers.update_negative_by(result);
}

/// Fused shift-and-or: the full read-modify-write of an arithmetic shift left,
/// then the full register update of an OR into the accumulator.
pub fn slo(location: Word, registers: &mut Registers, bus: &mut Bus)
    requires
        old(bus).wf(),
    ensures
        final(bus).wf(),
        ({
            let fetched = old(bus).read_result(location);
            let shifted = fetched << 1;
            let a = old(registers).a | shifted;
            &&& Bus::write_rel(old(bus).read_step(location), *final(bus), location, shifted)
            &&& *final(registers) == (Registers {
                a: a,
                carry: fetched & 0x80 != 0,
                negative: flag_n(a),
                zero: a == 0,
                ..*old(registers)
            })
        }),
{
    let fetched = bus.read(location);
    registers.set_carry(fetched & 0x80 != 0);
    let shifted = fetched << 1;
    bus.write(location, shifted);
    let a = registers.get_a() | shifted;
    registers.set_a(a);
    registers.update_zero_by(a);
    registers.update_negative_by(a);
}

/// Fused rotate-and-and: the full read-modify-write of a rotate left, then
/// the full register update of an AND into the accumulator.
pub fn rla(location: Word, registers: &mut Registers, bus: &mut Bus)
    requires
        old(bus).wf(),
    ensures
        final(bus).wf(),
        ({
            let fetched = old(bus).read_result(location);
            let rotated = rol_val(fetched, old(registers).carry);
            let a = rotated & old(registers).a;
            &&& Bus::write_rel(old(bus).read_step(location), *final(bus), location, rotated)
            &&& *final(registers) == (Registers {
                a: a,
                carry: fetched & 0x80 != 0,
                negative: flag_n(a),
                zero: a == 0,
                ..*old(registers)
            })
        }),
{
    let fetched = bus.read(location);
    let rotated = rotate_to_left(registers, fetched);
    registers.set_carry(fetched & 0x80 != 0);
    bus.write(location, rotated);
    let a = rotated & registers.get_a();
    registers.set_a(a);
    registers.update_zero_by(a);
    registers.update_negative_by(a);
}

/// Fused shift-and-xor: the full read-modify-write of a logical shift right,
/// then the full register update of an exclusive-or into the accumulator.
pub fn sre(location: Word, registers: &mut Registers, bus: &mut Bus)
    requires
        old(bus).wf(),
    ensures
        final(bus).wf(),
        ({
            let fetched = old(bus).read_result(location);
            let shifted = fetched >> 1;
            let a = old(registers).a ^ shifted;
            &&& Bus::write_rel(old(bus).read_step(location), *final(bus), location, shifted)
            &&& *final(registers) == (Registers {
                a: a,
                carry: fetched & 0x01 != 0,
                negative: flag_n(a),
                zero: a == 0,
                ..*old(registers)
            })
        }),
{
    let fetched = bus.read(location);
    registers.set_carry(fetched & 0x01 != 0);
    let shifted = fetched >> 1;
    bus.write(location, shifted);
    let a = registers.get_a() ^ shifted;
    registers.set_a(a);
    registers.update_zero_by(a);
    registers.update_negative_by(a);
}

/// Fused rotate-and-add: the full read-modify-write of a rotate right, then
/// the full register update of an addition of the rotated byte, with the
/// rotate's carry-out (the old bit 0) as the addition's carry-in.
#[verifier::rlimit(60)]
pub fn rra(location: Word, registers: &mut Registers, bus: &mut Bus)
    requires
        old(bus).wf(),
    ensures
        final(bus).wf(),
        ({
            let fetched = old(bus).read_result(location);
            let rotated = ror_val(fetched, old(registers).carry);
            let carry_in = fetched & 0x01 != 0;
            let a = old(registers).a;
            let r = add_result(a, rotated, carry_in);
            &&& Bus::write_rel(old(bus).read_step(location), *final(bus), location, rotated)
            &&& *final(registers) == (Registers {
                a: r,
                carry: add_sum(a, rotated, carry_in) > 0xFF,
                overflow: (a ^ r) & (rotated ^ r) & 0x80 != 0,
                negative: flag_n(r),
                zero: r == 0,
                ..*old(registers)
            })
        }),
{
    let fetched = bus.read(location);
    let rotated = rotate_to_right(registers, fetched);
    registers.set_carry(fetched & 0x01 != 0);
    bus.write(location, rotated);

    let acc = registers.get_a();
    let carry_in: u16 = if registers.get_carry() { 1 } else { 0 };
    let sum: u16 = acc as u16 + rotated as u16 + carry_in;
    let result = (sum % 0x100) as u8;
    registers.set_carry(sum > 0xFF);
    registers.set_overflow((acc ^ result) & (rotated ^ result) & 0x80 != 0);
    registers.set_a(result);
    registers.update_zero_by(result);
    registers.update_negative_by(result);
}

} // verus!
