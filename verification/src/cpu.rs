//! The processor front end: reset, operand resolution for every addressing
//! mode, and the step function that consumes a pending interrupt or fetches,
//! decodes and executes exactly one instruction, returning its cycle cost
//! with the addressing-mode and branch-taken penalties included.

use vstd::prelude::*;

use crate::bus::{word_of, Bus};
use crate::cpu_registers::{flag_n, Registers};
use crate::instructions;
use crate::instructions::{
    add_overflow, add_result, add_sum, nmi_step_rel, rol_val, ror_val, same_but_ram, stack_addr,
    sub_no_borrow, sub_overflow, sub_result, with_a_nz, with_compare, with_x_nz, with_y_nz,
};
use crate::opcode::{decode, spec_decode, Addressing, Inst};
use crate::types::{Data, Word};

verus! {

/// Loads the register file with its power-up values and the program counter
/// from the fixed reset vector. The two vector reads are in cartridge space
/// and leave the bus unchanged.
pub fn reset(registers: &mut Registers, bus: &mut Bus)
    requires
        old(bus).wf(),
    ensures
        final(bus).wf(),
        *final(bus) == *old(bus),
        (*final(registers) == (Registers {
            pc: word_of(
                old(bus).program_rom@[old(bus).rom_index(0xFFFC)],
                old(bus).program_rom@[old(bus).rom_index(0xFFFD)],
            ),
            ..Registers::power_up()
        })),
{
    *registers = Registers::new();
    let next = bus.read_word(0xFFFC);
    registers.set_pc(next);
}

/// Loads the register file with its power-up values and the program counter
/// with a caller-chosen entry point.
pub fn reset_with_addr(registers: &mut Registers, bus: &mut Bus, addr: Word)
    requires
        old(bus).wf(),
    ensures
        final(bus).wf(),
        *final(bus) == *old(bus),
        (*final(registers) == (Registers { pc: addr, ..Registers::power_up() })),
{
    *registers = Registers::new();
    registers.set_pc(addr);
}

/// Fetches one byte at the program counter and steps the counter past it.
fn fetch(registers: &mut Registers, bus: &mut Bus) -> (r: Data)
    requires
        old(bus).wf(),
    ensures
        final(bus).wf(),
        r == old(bus).read_result(old(registers).pc),
        *final(bus) == old(bus).read_step(old(registers).pc),
        (*final(registers) == (Registers {
            pc: Registers::pc_inc(old(registers).pc),
            ..*old(registers)
        })),
{
    let pc = registers.get_pc();
    let v = bus.read(pc);
    registers.inc_pc();
    v
}

/// The branch target a signed 8-bit displacement names, measured from the
/// address of the next instruction.
pub open spec fn relative_target(pc_next: u16, offset: Data) -> u16 {
    if offset < 0x80 {
        pc_next.wrapping_add(offset as u16)
    } else {
        pc_next.wrapping_add(offset as u16).wrapping_sub(0x100)
    }
}

/// Fetches a little-endian 16-bit value: two fetches, low byte first, each
/// individually observable.
fn fetch_word(registers: &mut Registers, bus: &mut Bus) -> (r: Word)
    requires
        old(bus).wf(),
    ensures
        final(bus).wf(),
        ({
            let pc = old(registers).pc;
            let pc1 = Registers::pc_inc(pc);
            let b1 = old(bus).read_step(pc);
            &&& r == word_of(old(bus).read_result(pc), b1.read_result(pc1))
            &&& *final(bus) == b1.read_step(pc1)
            &&& *final(registers) == (Registers {
                pc: Registers::pc_inc(pc1),
                ..*old(registers)
            })
        }),
{
    let lower = fetch(registers, bus);
    let upper = fetch(registers, bus);
    ((upper as u16) << 8) | lower as u16
}

/// Resolves a branch target: a signed 8-bit displacement from the address of
/// the next instruction.
fn fetch_relative(registers: &mut Registers, bus: &mut Bus) -> (r: Word)
    requires
        old(bus).wf(),
    ensures
        final(bus).wf(),
        ({
            let pc = old(registers).pc;
            let pc1 = Registers::pc_inc(pc);
            &&& r == relative_target(pc1, old(bus).read_result(pc))
            &&& *final(bus) == old(bus).read_step(pc)
            &&& *final(registers) == (Registers { pc: pc1, ..*old(registers) })
        }),
{
    let offset = fetch(registers, bus);
    let pc = registers.get_pc();
    if offset < 0x80 {
        pc.wrapping_add(offset as u16)
    } else {
        pc.wrapping_add(offset as u16).wrapping_sub(0x100)
    }
}

/// Reads a 16-bit pointer from the zero page, with the page-wrapping high
/// byte the hardware uses: both bytes come from page zero.
fn read_zero_page_word(zp: Data, bus: &mut Bus) -> (r: Word)
    requires
        old(bus).wf(),
    ensures
        final(bus).wf(),
        ({
            let b1 = old(bus).read_step(zp as u16);
            &&& r == word_of(
                old(bus).read_result(zp as u16),
                b1.read_result(zp.wrapping_add(1) as u16),
            )
            &&& *final(bus) == b1.read_step(zp.wrapping_add(1) as u16)
        }),
{
    let lower = bus.read(zp as u16);
    let upper = bus.read(zp.wrapping_add(1) as u16);
    ((upper as u16) << 8) | lower as u16
}

/// Whether two addresses lie on different 256-byte pages: crossing one costs
/// the extra cycle the decode stage accounts for.
fn page_crossed(a: Word, b: Word) -> (r: bool)
    ensures
        r == (a / 0x100 != b / 0x100),
{
    a / 0x100 != b / 0x100
}

/// How many bytes past the opcode an addressing mode consumes.
pub open spec fn operand_len(mode: Addressing) -> int {
    match mode {
        Addressing::Implied => 0,
        Addressing::Accumulator => 0,
        Addressing::Immediate => 1,
        Addressing::ZeroPage => 1,
        Addressing::ZeroPageX => 1,
        Addressing::ZeroPageY => 1,
        Addressing::Relative => 1,
        Addressing::Absolute => 2,
        Addressing::AbsoluteX => 2,
        Addressing::AbsoluteY => 2,
        Addressing::Indirect => 2,
        Addressing::IndirectX => 1,
        Addressing::IndirectY => 1,
    }
}

/// The program counter after the operand bytes are consumed.
pub open spec fn operand_pc(mode: Addressing, pc: u16) -> u16 {
    if operand_len(mode) == 0 {
        pc
    } else if operand_len(mode) == 1 {
        Registers::pc_inc(pc)
    } else {
        Registers::pc_inc(Registers::pc_inc(pc))
    }
}

/// The operand an addressing mode resolves to, from the state at the first
/// operand byte: an immediate value, a memory address, or a branch target.
pub open spec fn operand_value(mode: Addressing, r: Registers, b: Bus) -> Word {
    let pc = r.pc;
    let pc1 = Registers::pc_inc(pc);
    let v = b.read_result(pc);
    let b1 = b.read_step(pc);
    match mode {
        Addressing::Implied => 0,
        Addressing::Accumulator => 0,
        Addressing::Immediate => v as u16,
        Addressing::ZeroPage => v as u16,
        Addressing::ZeroPageX => v.wrapping_add(r.x) as u16,
        Addressing::ZeroPageY => v.wrapping_add(r.y) as u16,
        Addressing::Relative => relative_target(pc1, v),
        Addressing::Absolute => word_of(v, b1.read_result(pc1)),
        Addressing::AbsoluteX => word_of(v, b1.read_result(pc1)).wrapping_add(r.x as u16),
        Addressing::AbsoluteY => word_of(v, b1.read_result(pc1)).wrapping_add(r.y as u16),
        Addressing::Indirect => {
            let ptr = word_of(v, b1.read_result(pc1));
            let b2 = b1.read_step(pc1);
            let hi_addr = (ptr & 0xFF00) | (ptr.wrapping_add(1) & 0x00FF);
            let b3 = b2.read_step(ptr);
            word_of(b2.read_result(ptr), b3.read_result(hi_addr))
        },
        Addressing::IndirectX => {
            let zp = v.wrapping_add(r.x);
            let b2 = b1.read_step(zp as u16);
            word_of(b1.read_result(zp as u16), b2.read_result(zp.wrapping_add(1) as u16))
        },
        Addressing::IndirectY => {
            let b2 = b1.read_step(v as u16);
            word_of(b1.read_result(v as u16), b2.read_result(v.wrapping_add(1) as u16))
                .wrapping_add(r.y as u16)
        },
    }
}

/// The bus after the operand bytes and any pointer bytes were read, from the
/// state at the first operand byte.
pub open spec fn operand_bus(mode: Addressing, r: Registers, b: Bus) -> Bus {
    let pc = r.pc;
    let pc1 = Registers::pc_inc(pc);
    let v = b.read_result(pc);
    let b1 = b.read_step(pc);
    match mode {
        Addressing::Implied => b,
        Addressing::Accumulator => b,
        Addressing::Immediate => b1,
        Addressing::ZeroPage => b1,
        Addressing::ZeroPageX => b1,
        Addressing::ZeroPageY => b1,
        Addressing::Relative => b1,
        Addressing::Absolute => b1.read_step(pc1),
        Addressing::AbsoluteX => b1.read_step(pc1),
        Addressing::AbsoluteY => b1.read_step(pc1),
        Addressing::Indirect => {
            let ptr = word_of(v, b1.read_result(pc1));
            let b2 = b1.read_step(pc1);
            let hi_addr = (ptr & 0xFF00) | (ptr.wrapping_add(1) & 0x00FF);
            b2.read_step(ptr).read_step(hi_addr)
        },
        Addressing::IndirectX => {
            let zp = v.wrapping_add(r.x);
            b1.read_step(zp as u16).read_step(zp.wrapping_add(1) as u16)
        },
        Addressing::IndirectY => b1.read_step(v as u16).read_step(v.wrapping_add(1) as u16),
    }
}

/// The page-cross penalty cycle an addressing mode can charge, from the state
/// at the first operand byte. Only the indexed and relative modes charge one.
pub open spec fn operand_penalty(mode: Addressing, r: Registers, b: Bus) -> u8 {
    let pc = r.pc;
    let pc1 = Registers::pc_inc(pc);
    let v = b.read_result(pc);
    let b1 = b.read_step(pc);
    match mode {
        Addressing::Relative => {
            let target = relative_target(pc1, v);
            if target / 0x100 != pc1 / 0x100 {
                1u8
            } else {
                0u8
            }
        },
        Addressing::AbsoluteX => {
            let base = word_of(v, b1.read_result(pc1));
            if base / 0x100 != base.wrapping_add(r.x as u16) / 0x100 {
                1u8
            } else {
                0u8
            }
        },
        Addressing::AbsoluteY => {
            let base = word_of(v, b1.read_result(pc1));
            if base / 0x100 != base.wrapping_add(r.y as u16) / 0x100 {
                1u8
            } else {
                0u8
            }
        },
        Addressing::IndirectY => {
            let b2 = b1.read_step(v as u16);
            let base = word_of(
                b1.read_result(v as u16),
                b2.read_result(v.wrapping_add(1) as u16),
            );
            if base / 0x100 != base.wrapping_add(r.y as u16) / 0x100 {
                1u8
            } else {
                0u8
            }
        },
        _ => 0,
    }
}

/// Resolves the operand for one addressing mode, consuming the instruction's
/// operand bytes, and reports the page-cross penalty cycle where the mode has
/// one.
fn fetch_operand(mode: Addressing, registers: &mut Registers, bus: &mut Bus) -> (r: (Word, u8))
    requires
        old(bus).wf(),
    ensures
        final(bus).wf(),
        r.1 <= 1,
        r.0 == operand_value(mode, *old(registers), *old(bus)),
        r.1 == operand_penalty(mode, *old(registers), *old(bus)),
        *final(bus) == operand_bus(mode, *old(registers), *old(bus)),
        (*final(registers) == (Registers {
            pc: operand_pc(mode, old(registers).pc),
            ..*old(registers)
        })),
{
    match mode {
        Addressing::Implied => (0, 0),
        Addressing::Accumulator => (0, 0),
        Addressing::Immediate => (fetch(registers, bus) as u16, 0),
        Addressing::Relative => {
            let addr = fetch_relative(registers, bus);
            let pc = registers.get_pc();
            let penalty: u8 = if page_crossed(addr, pc) { 1 } else { 0 };
            (addr, penalty)
        }
        Addressing::ZeroPage => (fetch(registers, bus) as u16, 0),
        Addressing::ZeroPageX => {
            let base = fetch(registers, bus);
            let x = registers.get_x();
            (base.wrapping_add(x) as u16, 0)
        }
        Addressing::ZeroPageY => {
            let base = fetch(registers, bus);
            let y = registers.get_y();
            (base.wrapping_add(y) as u16, 0)
        }
        Addressing::Absolute => (fetch_word(registers, bus), 0),
        Addressing::AbsoluteX => {
            let base = fetch_word(registers, bus);
            let addr = base.wrapping_add(registers.get_x() as u16);
            let penalty: u8 = if page_crossed(base, addr) { 1 } else { 0 };
            (addr, penalty)
        }
        Addressing::AbsoluteY => {
            let base = fetch_word(registers, bus);
            let addr = base.wrapping_add(registers.get_y() as u16);
            let penalty: u8 = if page_crossed(base, addr) { 1 } else { 0 };
            (addr, penalty)
        }
        Addressing::Indirect => {
            let ptr = fetch_word(registers, bus);
            let lower = bus.read(ptr);
            // the high byte comes from the same page: the hardware's
            // page-wrapping indirect fetch
            let upper = bus.read((ptr & 0xFF00) | (ptr.wrapping_add(1) & 0x00FF));
            (((upper as u16) << 8) | lower as u16, 0)
        }
        Addressing::IndirectX => {
            let base = fetch(registers, bus);
            let x = registers.get_x();
            (read_zero_page_word(base.wrapping_add(x), bus), 0)
        }
        Addressing::IndirectY => {
            let zp = fetch(registers, bus);
            let base = read_zero_page_word(zp, bus);
            let addr = base.wrapping_add(registers.get_y() as u16);
            let penalty: u8 = if page_crossed(base, addr) { 1 } else { 0 };
            (addr, penalty)
        }
    }
}

/// The operations whose indexed memory forms pay the page-cross penalty:
/// only the plain reads; stores and read-modify-write forms always take their
/// fixed cost.
pub open spec fn spec_page_penalty(inst: Inst) -> bool {
    matches!(
        inst,
        Inst::Lda | Inst::Ldx | Inst::Ldy | Inst::Adc | Inst::Sbc | Inst::Cmp | Inst::And
            | Inst::Eor | Inst::Ora | Inst::Bit | Inst::Lax | Inst::Nop
    )
}

/// The branch operations, each testing exactly one flag.
pub open spec fn is_branch(inst: Inst) -> bool {
    matches!(
        inst,
        Inst::Bcc | Inst::Bcs | Inst::Beq | Inst::Bmi | Inst::Bne | Inst::Bpl | Inst::Bvs
            | Inst::Bvc
    )
}

/// Whether a branch operation takes its branch in a given register state.
pub open spec fn branch_taken(inst: Inst, r: Registers) -> bool {
    match inst {
        Inst::Bcc => !r.carry,
        Inst::Bcs => r.carry,
        Inst::Beq => r.zero,
        Inst::Bne => !r.zero,
        Inst::Bmi => r.negative,
        Inst::Bpl => !r.negative,
        Inst::Bvs => r.overflow,
        Inst::Bvc => !r.overflow,
        _ => false,
    }
}

/// The exact cycle cost of one instruction from a given state: the decoded
/// base cost, plus the page-cross penalty for the penalized read operations,
/// plus — for a taken branch — one cycle and the target's page-cross penalty.
pub open spec fn spec_step_cycles(r: Registers, b: Bus) -> int {
    let info = spec_decode(b.read_result(r.pc));
    let r1 = Registers { pc: Registers::pc_inc(r.pc), ..r };
    let b1 = b.read_step(r.pc);
    let penalty = operand_penalty(info.mode, r1, b1);
    if is_branch(info.inst) {
        info.cycles + (if branch_taken(info.inst, r1) {
            1 + penalty
        } else {
            0int
        })
    } else if spec_page_penalty(info.inst) {
        info.cycles + penalty
    } else {
        info.cycles as int
    }
}

/// Whether an operation's memory access pays the page-cross penalty.
fn page_penalty_applies(inst: Inst) -> (r: bool)
    ensures
        r == spec_page_penalty(inst),
{
    matches!(
        inst,
        Inst::Lda | Inst::Ldx | Inst::Ldy | Inst::Adc | Inst::Sbc | Inst::Cmp | Inst::And
            | Inst::Eor | Inst::Ora | Inst::Bit | Inst::Lax | Inst::Nop
    )
}


/// How one decoded operation relates the machine state at dispatch — the
/// registers and bus after the operand was resolved — to the state after the
/// handler ran. Each arm restates the handler's contract.
pub open spec fn inst_rel(
    inst: Inst,
    mode: Addressing,
    operand: Word,
    r: Registers,
    b: Bus,
    post_r: Registers,
    post_b: Bus,
) -> bool {
    match inst {
        Inst::Lda => if mode == Addressing::Immediate {
            post_r == with_a_nz(r, (operand % 0x100) as u8) && post_b == b
        } else {
            post_r == with_a_nz(r, b.read_result(operand)) && post_b == b.read_step(operand)
        },
        Inst::Ldx => if mode == Addressing::Immediate {
            post_r == with_x_nz(r, (operand % 0x100) as u8) && post_b == b
        } else {
            post_r == with_x_nz(r, b.read_result(operand)) && post_b == b.read_step(operand)
        },
        Inst::Ldy => if mode == Addressing::Immediate {
            post_r == with_y_nz(r, (operand % 0x100) as u8) && post_b == b
        } else {
            post_r == with_y_nz(r, b.read_result(operand)) && post_b == b.read_step(operand)
        },
        Inst::Sta => Bus::write_rel(b, post_b, operand, r.a) && post_r == r,
        Inst::Stx => Bus::write_rel(b, post_b, operand, r.x) && post_r == r,
        Inst::Sty => Bus::write_rel(b, post_b, operand, r.y) && post_r == r,
        Inst::Txa => post_r == with_a_nz(r, r.x) && post_b == b,
        Inst::Tya => post_r == with_a_nz(r, r.y) && post_b == b,
        Inst::Txs => post_r == (Registers { sp: r.x, ..r }) && post_b == b,
        Inst::Tay => post_r == with_y_nz(r, r.a) && post_b == b,
        Inst::Tax => post_r == with_x_nz(r, r.a) && post_b == b,
        Inst::Tsx => post_r == with_x_nz(r, r.sp) && post_b == b,
        Inst::Php => {
            &&& post_b.work_ram@ == b.work_ram@.update(stack_addr(r.sp), r.p_byte() | 0x30)
            &&& same_but_ram(b, post_b)
            &&& post_r == (Registers { sp: Registers::sp_dec(r.sp), ..r })
        },
        Inst::Plp => {
            let sp1 = Registers::sp_inc(r.sp);
            let popped = b.work_ram@[stack_addr(sp1)];
            let st = (popped & 0xCF) | (if r.break_mode { 0x10u8 } else { 0u8 });
            post_b == b && post_r == (Registers { sp: sp1, ..r.with_p(st) })
        },
        Inst::Pha => {
            &&& post_b.work_ram@ == b.work_ram@.update(stack_addr(r.sp), r.a)
            &&& same_but_ram(b, post_b)
            &&& post_r == (Registers { sp: Registers::sp_dec(r.sp), ..r })
        },
        Inst::Pla => {
            let sp1 = Registers::sp_inc(r.sp);
            let v = b.work_ram@[stack_addr(sp1)];
            post_b == b && post_r == (Registers { sp: sp1, ..with_a_nz(r, v) })
        },
        Inst::Adc => {
            let v = if mode == Addressing::Immediate {
                (operand % 0x100) as u8
            } else {
                b.read_result(operand)
            };
            let res = add_result(r.a, v, r.carry);
            &&& post_b == (if mode == Addressing::Immediate {
                b
            } else {
                b.read_step(operand)
            })
            &&& post_r == (Registers {
                a: res,
                carry: add_sum(r.a, v, r.carry) > 0xFF,
                overflow: add_overflow(r.a, v, res),
                negative: flag_n(res),
                zero: res == 0,
                ..r
            })
        },
        Inst::Sbc => {
            let v = if mode == Addressing::Immediate {
                (operand % 0x100) as u8
            } else {
                b.read_result(operand)
            };
            let res = sub_result(r.a, v, r.carry);
            &&& post_b == (if mode == Addressing::Immediate {
                b
            } else {
                b.read_step(operand)
            })
            &&& post_r == (Registers {
                a: res,
                carry: sub_no_borrow(r.a, v, r.carry),
                overflow: sub_overflow(r.a, v, res),
                negative: flag_n(res),
                zero: res == 0,
                ..r
            })
        },
        Inst::Cpx => {
            let v = if mode == Addressing::Immediate {
                (operand % 0x100) as u8
            } else {
                b.read_result(operand)
            };
            &&& post_b == (if mode == Addressing::Immediate {
                b
            } else {
                b.read_step(operand)
            })
            &&& post_r == with_compare(r, r.x, v)
        },
        Inst::Cpy => {
            let v = if mode == Addressing::Immediate {
                (operand % 0x100) as u8
            } else {
                b.read_result(operand)
            };
            &&& post_b == (if mode == Addressing::Immediate {
                b
            } else {
                b.read_step(operand)
            })
            &&& post_r == with_compare(r, r.y, v)
        },
        Inst::Cmp => {
            let v = if mode == Addressing::Immediate {
                (operand % 0x100) as u8
            } else {
                b.read_result(operand)
            };
            &&& post_b == (if mode == Addressing::Immediate {
                b
            } else {
                b.read_step(operand)
            })
            &&& post_r == with_compare(r, r.a, v)
        },
        Inst::And => {
            let v = if mode == Addressing::Immediate {
                (operand % 0x100) as u8
            } else {
                b.read_result(operand)
            };
            &&& post_b == (if mode == Addressing::Immediate {
                b
            } else {
                b.read_step(operand)
            })
            &&& post_r == with_a_nz(r, r.a & v)
        },
        Inst::Eor => {
            let v = if mode == Addressing::Immediate {
                (operand % 0x100) as u8
            } else {
                b.read_result(operand)
            };
            &&& post_b == (if mode == Addressing::Immediate {
                b
            } else {
                b.read_step(operand)
            })
            &&& post_r == with_a_nz(r, r.a ^ v)
        },
        Inst::Ora => {
            let v = if mode == Addressing::Immediate {
                (operand % 0x100) as u8
            } else {
                b.read_result(operand)
            };
            &&& post_b == (if mode == Addressing::Immediate {
                b
            } else {
                b.read_step(operand)
            })
            &&& post_r == with_a_nz(r, r.a | v)
        },
        Inst::Bit => {
            let v = b.read_result(operand);
            &&& post_b == b.read_step(operand)
            &&& post_r == (Registers {
                negative: flag_n(v),
                zero: v & r.a == 0,
                overflow: v & 0x40 == 0x40,
                ..r
            })
        },
        Inst::Asl => if mode == Addressing::Accumulator {
            let sh = r.a << 1;
            post_b == b && post_r == (Registers {
                a: sh,
                carry: r.a & 0x80 == 0x80,
                negative: flag_n(sh),
                zero: sh == 0,
                ..r
            })
        } else {
            let f = b.read_result(operand);
            let sh = f << 1;
            &&& Bus::write_rel(b.read_step(operand), post_b, operand, sh)
            &&& post_r == (Registers {
                carry: f & 0x80 == 0x80,
                negative: flag_n(sh),
                zero: sh == 0,
                ..r
            })
        },
        Inst::Lsr => if mode == Addressing::Accumulator {
            let sh = r.a >> 1;
            post_b == b && post_r == (Registers {
                a: sh,
                carry: r.a & 0x01 == 0x01,
                negative: flag_n(sh),
                zero: sh == 0,
                ..r
            })
        } else {
            let f = b.read_result(operand);
            let sh = f >> 1;
            &&& Bus::write_rel(b.read_step(operand), post_b, operand, sh)
            &&& post_r == (Registers {
                carry: f & 0x01 == 0x01,
                negative: flag_n(sh),
                zero: sh == 0,
                ..r
            })
        },
        Inst::Rol => if mode == Addressing::Accumulator {
            let rot = rol_val(r.a, r.carry);
            post_b == b && post_r == (Registers {
                a: rot,
                carry: r.a & 0x80 == 0x80,
                negative: flag_n(rot),
                zero: rot == 0,
                ..r
            })
        } else {
            let f = b.read_result(operand);
            let rot = rol_val(f, r.carry);
            &&& Bus::write_rel(b.read_step(operand), post_b, operand, rot)
            &&& post_r == (Registers {
                carry: f & 0x80 == 0x80,
                negative: flag_n(rot),
                zero: rot == 0,
                ..r
            })
        },
        Inst::Ror => if mode == Addressing::Accumulator {
            let rot = ror_val(r.a, r.carry);
            post_b == b && post_r == (Registers {
                a: rot,
                carry: r.a & 0x01 == 0x01,
                negative: flag_n(rot),
                zero: rot == 0,
                ..r
            })
        } else {
            let f = b.read_result(operand);
            let rot = ror_val(f, r.carry);
            &&& Bus::write_rel(b.read_step(operand), post_b, operand, rot)
            &&& post_r == (Registers {
                carry: f & 0x01 == 0x01,
                negative: flag_n(rot),
                zero: rot == 0,
                ..r
            })
        },
        Inst::Inx => post_b == b && post_r == with_x_nz(r, r.x.wrapping_add(1)),
        Inst::Iny => post_b == b && post_r == with_y_nz(r, r.y.wrapping_add(1)),
        Inst::Inc => {
            let d = b.read_result(operand).wrapping_add(1);
            &&& Bus::write_rel(b.read_step(operand), post_b, operand, d)
            &&& post_r == (Registers { negative: flag_n(d), zero: d == 0, ..r })
        },
        Inst::Dex => post_b == b && post_r == with_x_nz(r, r.x.wrapping_sub(1)),
        Inst::Dey => post_b == b && post_r == with_y_nz(r, r.y.wrapping_sub(1)),
        Inst::Dec => {
            let d = b.read_result(operand).wrapping_sub(1);
            &&& Bus::write_rel(b.read_step(operand), post_b, operand, d)
            &&& post_r == (Registers { negative: flag_n(d), zero: d == 0, ..r })
        },
        Inst::Clc => post_b == b && post_r == (Registers { carry: false, ..r }),
        Inst::Cli => post_b == b && post_r == (Registers { interrupt: false, ..r }),
        Inst::Clv => post_b == b && post_r == (Registers { overflow: false, ..r }),
        Inst::Sec => post_b == b && post_r == (Registers { carry: true, ..r }),
        Inst::Sei => post_b == b && post_r == (Registers { interrupt: true, ..r }),
        Inst::Cld => post_b == b && post_r == (Registers { decimal: false, ..r }),
        Inst::Sed => post_b == b && post_r == (Registers { decimal: true, ..r }),
        Inst::Brk => {
            let pc1 = Registers::pc_inc(r.pc);
            let sp1 = Registers::sp_dec(r.sp);
            let sp2 = Registers::sp_dec(sp1);
            let st = r.p_byte() | 0x10;
            let vector = word_of(
                b.program_rom@[b.rom_index(0xFFFE)],
                b.program_rom@[b.rom_index(0xFFFF)],
            );
            &&& post_b.work_ram@ == b.work_ram@.update(stack_addr(r.sp), (pc1 / 0x100) as u8)
                .update(stack_addr(sp1), (pc1 % 0x100) as u8).update(stack_addr(sp2), st)
            &&& same_but_ram(b, post_b)
            &&& post_r == (Registers {
                pc: Registers::pc_dec(
                    if !r.interrupt {
                        vector
                    } else {
                        pc1
                    },
                ),
                sp: Registers::sp_dec(sp2),
                interrupt: true,
                ..r
            })
        },
        Inst::Jsr => {
            let ret = Registers::pc_dec(r.pc);
            let sp1 = Registers::sp_dec(r.sp);
            &&& post_b.work_ram@ == b.work_ram@.update(stack_addr(r.sp), (ret / 0x100) as u8)
                .update(stack_addr(sp1), (ret % 0x100) as u8)
            &&& same_but_ram(b, post_b)
            &&& post_r == (Registers { pc: operand, sp: Registers::sp_dec(sp1), ..r })
        },
        Inst::Jmp => post_b == b && post_r == (Registers { pc: operand, ..r }),
        Inst::Rti => {
            let sp1 = Registers::sp_inc(r.sp);
            let sp2 = Registers::sp_inc(sp1);
            let sp3 = Registers::sp_inc(sp2);
            let st = b.work_ram@[stack_addr(sp1)];
            let lo = b.work_ram@[stack_addr(sp2)];
            let hi = b.work_ram@[stack_addr(sp3)];
            post_b == b && post_r == (Registers {
                reserved: true,
                pc: word_of(lo, hi),
                sp: sp3,
                ..r.with_p(st)
            })
        },
        Inst::Rts => {
            let sp1 = Registers::sp_inc(r.sp);
            let sp2 = Registers::sp_inc(sp1);
            let lo = b.work_ram@[stack_addr(sp1)];
            let hi = b.work_ram@[stack_addr(sp2)];
            post_b == b && post_r == (Registers {
                pc: Registers::pc_inc(word_of(lo, hi)),
                sp: sp2,
                ..r
            })
        },
        Inst::Bcc | Inst::Bcs | Inst::Beq | Inst::Bmi | Inst::Bne | Inst::Bpl | Inst::Bvs
            | Inst::Bvc => {
            post_b == b && post_r == (Registers {
                pc: if branch_taken(inst, r) {
                    operand
                } else {
                    r.pc
                },
                ..r
            })
        },
        Inst::Nop => post_b == b && post_r == r,
        Inst::Lax => {
            let v = b.read_result(operand);
            &&& post_b == b.read_step(operand)
            &&& post_r == (Registers { a: v, x: v, negative: flag_n(v), zero: v == 0, ..r })
        },
        Inst::Sax => Bus::write_rel(b, post_b, operand, r.a & r.x) && post_r == r,
        Inst::Dcp => {
            let v = b.read_result(operand).wrapping_sub(1);
            &&& Bus::write_rel(b.read_step(operand), post_b, operand, v)
            &&& post_r == with_compare(r, r.a, v)
        },
        Inst::Isc => {
            let v = b.read_result(operand).wrapping_add(1);
            let res = sub_result(r.a, v, r.carry);
            &&& Bus::write_rel(b.read_step(operand), post_b, operand, v)
            &&& post_r == (Registers {
                a: res,
                carry: sub_no_borrow(r.a, v, r.carry),
                overflow: sub_overflow(r.a, v, res),
                negative: flag_n(res),
                zero: res == 0,
                ..r
            })
        },
        Inst::Slo => {
            let f = b.read_result(operand);
            let sh = f << 1;
            let a2 = r.a | sh;
            &&& Bus::write_rel(b.read_step(operand), post_b, operand, sh)
            &&& post_r == (Registers {
                a: a2,
                carry: f & 0x80 != 0,
                negative: flag_n(a2),
                zero: a2 == 0,
                ..r
            })
        },
        Inst::Rla => {
            let f = b.read_result(operand);
            let rot = rol_val(f, r.carry);
            let a2 = rot & r.a;
            &&& Bus::write_rel(b.read_step(operand), post_b, operand, rot)
            &&& post_r == (Registers {
                a: a2,
                carry: f & 0x80 != 0,
                negative: flag_n(a2),
                zero: a2 == 0,
                ..r
            })
        },
        Inst::Sre => {
            let f = b.read_result(operand);
            let sh = f >> 1;
            let a2 = r.a ^ sh;
            &&& Bus::write_rel(b.read_step(operand), post_b, operand, sh)
            &&& post_r == (Registers {
                a: a2,
                carry: f & 0x01 != 0,
                negative: flag_n(a2),
                zero: a2 == 0,
                ..r
            })
        },
        Inst::Rra => {
            let f = b.read_result(operand);
            let rot = ror_val(f, r.carry);
            let cin = f & 0x01 != 0;
            let res = add_result(r.a, rot, cin);
            &&& Bus::write_rel(b.read_step(operand), post_b, operand, rot)
            &&& post_r == (Registers {
                a: res,
                carry: add_sum(r.a, rot, cin) > 0xFF,
                overflow: (r.a ^ res) & (rot ^ res) & 0x80 != 0,
                negative: flag_n(res),
                zero: res == 0,
                ..r
            })
        },
    }
}

/// How one whole non-interrupt step relates the machine state before the
/// opcode fetch to the state after the handler ran: the opcode is fetched and
/// decoded, the addressing mode resolves the operand, and the operation's own
/// relation ties the rest together.
pub open spec fn step_rel(pre_r: Registers, pre_b: Bus, post_r: Registers, post_b: Bus) -> bool {
    let info = spec_decode(pre_b.read_result(pre_r.pc));
    let r1 = Registers { pc: Registers::pc_inc(pre_r.pc), ..pre_r };
    let b1 = pre_b.read_step(pre_r.pc);
    let operand = operand_value(info.mode, r1, b1);
    let b2 = operand_bus(info.mode, r1, b1);
    let r2 = Registers { pc: operand_pc(info.mode, r1.pc), ..r1 };
    inst_rel(info.inst, info.mode, operand, r2, b2, post_r, post_b)
}

/// Dispatches one decoded operation to its handler, which applies the full
/// register and bus effect the operation's relation states. Returns whether a
/// branch operation took its branch, for the cycle accounting.
#[verifier::rlimit(100)]
fn execute(
    inst: Inst,
    mode: Addressing,
    operand: Word,
    registers: &mut Registers,
    bus: &mut Bus,
) -> (taken: bool)
    requires
        old(bus).wf(),
    ensures
        final(bus).wf(),
        inst_rel(inst, mode, operand, *old(registers), *old(bus), *final(registers), *final(bus)),
        taken == (is_branch(inst) && branch_taken(inst, *old(registers))),
{
    let is_imm = matches!(mode, Addressing::Immediate);
    let is_acc = matches!(mode, Addressing::Accumulator);
    let mut taken = false;
    match inst {
        Inst::Lda => {
            if is_imm {
                instructions::lda_imm(operand, registers);
            } else {
                instructions::lda(operand, registers, bus);
            }
        }
        Inst::Ldx => {
            if is_imm {
                instructions::ldx_imm(operand, registers);
            } else {
                instructions::ldx(operand, registers, bus);
            }
        }
        Inst::Ldy => {
            if is_imm {
                instructions::ldy_imm(operand, registers);
            } else {
                instructions::ldy(operand, registers, bus);
            }
        }
        Inst::Sta => instructions::sta(operand, registers, bus),
        Inst::Stx => instructions::stx(operand, registers, bus),
        Inst::Sty => instructions::sty(operand, registers, bus),
        Inst::Txa => instructions::txa(registers),
        Inst::Tya => instructions::tya(registers),
        Inst::Txs => instructions::txs(registers),
        Inst::Tay => instructions::tay(registers),
        Inst::Tax => instructions::tax(registers),
        Inst::Tsx => instructions::tsx(registers),
        Inst::Php => instructions::php(registers, bus),
        Inst::Plp => instructions::plp(registers, bus),
        Inst::Pha => instructions::pha(registers, bus),
        Inst::Pla => instructions::pla(registers, bus),
        Inst::Adc => {
            if is_imm {
                instructions::adc_imm(operand, registers);
            } else {
                instructions::adc(operand, registers, bus);
            }
        }
        Inst::Sbc => {
            if is_imm {
                instructions::sbc_imm(operand, registers);
            } else {
                instructions::sbc(operand, registers, bus);
            }
        }
        Inst::Cpx => {
            if is_imm {
                instructions::cpx_imm(operand, registers);
            } else {
                instructions::cpx(operand, registers, bus);
            }
        }
        Inst::Cpy => {
            if is_imm {
                instructions::cpy_imm(operand, registers);
            } else {
                instructions::cpy(operand, registers, bus);
            }
        }
        Inst::Cmp => {
            if is_imm {
                instructions::cmp_imm(operand, registers);
            } else {
                instructions::cmp(operand, registers, bus);
            }
        }
        Inst::And => {
            if is_imm {
                instructions::and_imm(operand, registers);
            } else {
                instructions::and(operand, registers, bus);
            }
        }
        Inst::Eor => {
            if is_imm {
                instructions::eor_imm(operand, registers);
            } else {
                instructions::eor(operand, registers, bus);
            }
        }
        Inst::Ora => {
            if is_imm {
                instructions::ora_imm(operand, registers);
            } else {
                instructions::ora(operand, registers, bus);
            }
        }
        Inst::Bit => instructions::bit(operand, registers, bus),
        Inst::Asl => {
            if is_acc {
                instructions::asl_acc(registers);
            } else {
                instructions::asl(operand, registers, bus);
            }
        }
        Inst::Lsr => {
            if is_acc {
                instructions::lsr_acc(registers);
            } else {
                instructions::lsr(operand, registers, bus);
            }
        }
        Inst::Rol => {
            if is_acc {
                instructions::rol_acc(registers);
            } else {
                instructions::rol(operand, registers, bus);
            }
        }
        Inst::Ror => {
            if is_acc {
                instructions::ror_acc(registers);
            } else {
                instructions::ror(operand, registers, bus);
            }
        }
        Inst::Inx => instructions::inx(registers),
        Inst::Iny => instructions::iny(registers),
        Inst::Inc => instructions::inc(operand, registers, bus),
        Inst::Dex => instructions::dex(registers),
        Inst::Dey => instructions::dey(registers),
        Inst::Dec => instructions::dec(operand, registers, bus),
        Inst::Clc => instructions::clc(registers),
        Inst::Cli => instructions::cli(registers),
        Inst::Clv => instructions::clv(registers),
        Inst::Sec => instructions::sec(registers),
        Inst::Sei => instructions::sei(registers),
        Inst::Cld => instructions::cld(registers),
        Inst::Sed => instructions::sed(registers),
        Inst::Brk => instructions::brk(registers, bus),
        Inst::Jsr => instructions::jsr(operand, registers, bus),
        Inst::Jmp => instructions::jmp(operand, registers),
        Inst::Rti => instructions::rti(registers, bus),
        Inst::Rts => instructions::rts(registers, bus),
        Inst::Bcc => {
            taken = !registers.get_carry();
            instructions::bcc(operand, registers);
        }
        Inst::Bcs => {
            taken = registers.get_carry();
            instructions::bcs(operand, registers);
        }
        Inst::Beq => {
            taken = registers.get_zero();
            instructions::beq(operand, registers);
        }
        Inst::Bmi => {
            taken = registers.get_negative();
            instructions::bmi(operand, registers);
        }
        Inst::Bne => {
            taken = !registers.get_zero();
            instructions::bne(operand, registers);
        }
        Inst::Bpl => {
            taken = !registers.get_negative();
            instructions::bpl(operand, registers);
        }
        Inst::Bvs => {
            taken = registers.get_overflow();
            instructions::bvs(operand, registers);
        }
        Inst::Bvc => {
            taken = !registers.get_overflow();
            instructions::bvc(operand, registers);
        }
        Inst::Nop => (),
        Inst::Lax => instructions::lax(operand, registers, bus),
        Inst::Sax => instructions::sax(operand, registers, bus),
        Inst::Dcp => instructions::dcp(operand, registers, bus),
        Inst::Isc => instructions::isc(operand, registers, bus),
        Inst::Slo => instructions::slo(operand, registers, bus),
        Inst::Rla => instructions::rla(operand, registers, bus),
        Inst::Sre => instructions::sre(operand, registers, bus),
        Inst::Rra => instructions::rra(operand, registers, bus),
    }
    taken
}

/// One processor step. A pending non-maskable interrupt is consumed first and
/// costs its fixed seven cycles; otherwise the opcode at the program counter
/// is fetched, decoded through the total decode table, and executed by its
/// handler, and the cost is the decoded base cycle count plus the
/// addressing-mode page-cross and branch-taken penalties.
#[verifier::rlimit(100)]
pub fn step(registers: &mut Registers, bus: &mut Bus, nmi: &mut bool) -> (cycles: u8)
    requires
        old(bus).wf(),
    ensures
        final(bus).wf(),
        *final(nmi) == false,
        *old(nmi) ==> cycles == 7 && nmi_step_rel(
            *old(registers),
            *old(bus),
            *final(registers),
            *final(bus),
        ),
        !*old(nmi) ==> step_rel(*old(registers), *old(bus), *final(registers), *final(bus)),
        !*old(nmi) ==> cycles == spec_step_cycles(*old(registers), *old(bus)),
        !*old(nmi) ==> 2 <= cycles <= 10,
{
    if *nmi {
        *nmi = false;
        instructions::process_nmi(registers, bus);
        return 7;
    }

    let opcode = fetch(registers, bus);
    let info = decode(opcode);
    let resolved = fetch_operand(info.mode, registers, bus);
    let taken = execute(info.inst, info.mode, resolved.0, registers, bus);
    let extra: u8 = if taken {
        1 + resolved.1
    } else if page_penalty_applies(info.inst) {
        resolved.1
    } else {
        0
    };
    info.cycles + extra
}

} // verus!
