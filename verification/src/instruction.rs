//! The ALU and flag engine, the control-flow and stack operations, and the
//! instruction dispatcher over the primary and extended opcode tables.
//!
//! Every operation is specified by a pure function on the machine view; the
//! executable dispatcher is proved to follow those functions arm by arm.

use vstd::prelude::*;
use crate::cpu::{
    c_of, flags_byte, h_of, hi_byte, lo_byte, n_of, pair, reg8_val, reg16_val, with_reg8,
    with_reg16, word_add, word_sub, z_of, CPU, Reg8, Reg16,
};
use crate::gameboy::{
    fetched8, fetched16, mem, read_mem, with_cpu, with_mem, write_mem, Gameboy, GameboyView,
    MachineState,
};

verus! {

/// 8-bit addition with wraparound.
pub open spec fn byte_add(a: u8, b: u8) -> u8 {
    (((a + b) % 0x100) as u8)
}

/// 8-bit subtraction with wraparound.
pub open spec fn byte_sub(a: u8, b: u8) -> u8 {
    (((a + 0x100 - b) % 0x100) as u8)
}

/// The program counter after a relative jump: the signed displacement is
/// added to PC with wraparound at the 16-bit boundary.
pub open spec fn jr_target(pc: u16, disp: i16) -> u16 {
    (((pc + disp) % 0x10000) as u16)
}

/// A displacement byte read as a signed 8-bit value.
pub open spec fn signed_disp(db: u8) -> i16 {
    if db < 0x80 {
        db as i16
    } else {
        (db - 0x100) as i16
    }
}

/// The register file after an 8-bit increment of a register: the value wraps,
/// Z and H are computed, N is cleared and Carry is untouched.
pub open spec fn inc8_cpu(c: CPU, r: Reg8) -> CPU {
    let v = reg8_val(c, r);
    let res = byte_add(v, 1);
    let c1 = with_reg8(c, r, res);
    CPU { f: flags_byte(res == 0, false, v % 16 == 15, c_of(c.f)), ..c1 }
}

/// The register file after an 8-bit decrement of a register: the value wraps,
/// Z and H (borrow out of bit 3) are computed, N is set, Carry is untouched.
pub open spec fn dec8_cpu(c: CPU, r: Reg8) -> CPU {
    let v = reg8_val(c, r);
    let res = byte_sub(v, 1);
    let c1 = with_reg8(c, r, res);
    CPU { f: flags_byte(res == 0, true, v % 16 == 0, c_of(c.f)), ..c1 }
}

/// The register file after XOR-ing register A with a register, storing the
/// result back into that target register; Z is computed, N, H and C cleared.
pub open spec fn xor_cpu(c: CPU, r: Reg8) -> CPU {
    let res = c.a ^ reg8_val(c, r);
    let c1 = with_reg8(c, r, res);
    CPU { f: flags_byte(res == 0, false, false, false), ..c1 }
}

/// The register file after a 16-bit increment; no flags are affected.
pub open spec fn inc16_cpu(c: CPU, r: Reg16) -> CPU {
    with_reg16(c, r, word_add(reg16_val(c, r), 1))
}

/// The register file after a 16-bit decrement; no flags are affected.
pub open spec fn dec16_cpu(c: CPU, r: Reg16) -> CPU {
    with_reg16(c, r, word_sub(reg16_val(c, r), 1))
}

/// The register file after one of the eight accumulator ALU operations
/// (selected by the dispatch row `y`: ADD, ADC, SUB, SBC, AND, XOR, OR, CP)
/// applied to A and the operand `v`, with the documented flag rules.
pub open spec fn alu8_cpu(c: CPU, y: u8, v: u8) -> CPU {
    let a = c.a;
    let ci: u8 = if c_of(c.f) {
        1
    } else {
        0
    };
    match y {
        0u8 => {
            let res = byte_add(a, v);
            CPU { a: res, f: flags_byte(res == 0, false, a % 16 + v % 16 > 15, a + v > 255), ..c }
        },
        1u8 => {
            let res = (((a + v + ci) % 0x100) as u8);
            CPU {
                a: res,
                f: flags_byte(res == 0, false, a % 16 + v % 16 + ci > 15, a + v + ci > 255),
                ..c
            }
        },
        2u8 => {
            let res = byte_sub(a, v);
            CPU { a: res, f: flags_byte(res == 0, true, a % 16 < v % 16, a < v), ..c }
        },
        3u8 => {
            let res = (((a + 0x200 - v - ci) % 0x100) as u8);
            CPU {
                a: res,
                f: flags_byte(res == 0, true, a % 16 < v % 16 + ci, a < v + ci),
                ..c
            }
        },
        4u8 => {
            let res = a & v;
            CPU { a: res, f: flags_byte(res == 0, false, true, false), ..c }
        },
        5u8 => {
            let res = a ^ v;
            CPU { a: res, f: flags_byte(res == 0, false, false, false), ..c }
        },
        6u8 => {
            let res = a | v;
            CPU { a: res, f: flags_byte(res == 0, false, false, false), ..c }
        },
        7u8 => {
            let res = byte_sub(a, v);
            CPU { f: flags_byte(res == 0, true, a % 16 < v % 16, a < v), ..c }
        },
        _ => c,
    }
}

/// The register file after testing bit `n` of `v`: Z is set iff the bit is
/// zero (the inverted sense), N is cleared, H is set, Carry is untouched.
pub open spec fn bit_test_cpu(c: CPU, n: u8, v: u8) -> CPU {
    CPU { f: flags_byte((v & (1u8 << n)) == 0, false, true, c_of(c.f)), ..c }
}

/// Result value of the extended-table rotate/shift/swap operation `y`.
pub open spec fn rot_val(y: u8, v: u8, carry_in: bool) -> u8 {
    match y {
        0u8 => (v << 1) | (v >> 7),  // RLC
        1u8 => (v >> 1) | (v << 7),  // RRC
        2u8 => (v << 1) | (if carry_in { 1u8 } else { 0u8 }),  // RL
        3u8 => (v >> 1) | (if carry_in { 0x80u8 } else { 0u8 }),  // RR
        4u8 => v << 1,  // SLA
        5u8 => (v >> 1) | (v & 0x80),  // SRA
        6u8 => (v << 4) | (v >> 4),  // SWAP
        _ => v >> 1,  // SRL
    }
}

/// Carry flag produced by the rotate/shift/swap operation `y`: the bit
/// shifted out, or false for SWAP.
pub open spec fn rot_carry(y: u8, v: u8) -> bool {
    match y {
        0u8 => v >= 0x80,
        1u8 => v % 2 == 1,
        2u8 => v >= 0x80,
        3u8 => v % 2 == 1,
        4u8 => v >= 0x80,
        5u8 => v % 2 == 1,
        6u8 => false,
        _ => v % 2 == 1,
    }
}

/// The register file after a 16-bit addition into HL: N cleared, H from the
/// bit-11 carry, C from the bit-15 carry, Z untouched.
pub open spec fn add_hl_cpu(c: CPU, v: u16) -> CPU {
    let hl = pair(c.h, c.l);
    let res = word_add(hl, v);
    CPU {
        h: hi_byte(res),
        l: lo_byte(res),
        f: flags_byte(z_of(c.f), false, hl % 0x1000 + v % 0x1000 > 0xFFF, hl + v > 0xFFFF),
        ..c
    }
}

/// Flag byte for the SP-plus-signed-displacement instructions: Z and N
/// cleared, H and C from the bit-3 and bit-7 carries of the low-byte add.
pub open spec fn sp_disp_flags(sp: u16, db: u8) -> u8 {
    flags_byte(false, false, sp % 16 + db % 16 > 15, sp % 0x100 + db > 0xFF)
}

/// The register file after the decimal-adjust instruction: A is corrected to
/// packed binary-coded decimal after an addition or subtraction, using the N,
/// H and C flags; Z is computed, H cleared, N kept.
pub open spec fn daa_cpu(c: CPU) -> CPU {
    let a = c.a;
    if !n_of(c.f) {
        let adj_high = c_of(c.f) || a > 0x99;
        let adj: u8 = (((if a % 16 > 9 || h_of(c.f) {
            0x06u8
        } else {
            0u8
        }) + (if adj_high {
            0x60u8
        } else {
            0u8
        })) as u8);
        let res = byte_add(a, adj);
        CPU { a: res, f: flags_byte(res == 0, false, false, adj_high), ..c }
    } else {
        let adj: u8 = (((if h_of(c.f) {
            0x06u8
        } else {
            0u8
        }) + (if c_of(c.f) {
            0x60u8
        } else {
            0u8
        })) as u8);
        let res = byte_sub(a, adj);
        CPU { a: res, f: flags_byte(res == 0, true, false, c_of(c.f)), ..c }
    }
}

/// The machine after pushing a 16-bit value: SP is decremented by two and the
/// value is stored little-endian at the new SP.
pub open spec fn pushed(g: GameboyView, v: u16) -> GameboyView {
    let sp1 = word_sub(g.cpu.sp, 2);
    let g1 = with_cpu(g, CPU { sp: sp1, ..g.cpu });
    with_mem(with_mem(g1, sp1, lo_byte(v)), word_add(sp1, 1), hi_byte(v))
}

/// The little-endian 16-bit value at SP.
pub open spec fn popped_val(g: GameboyView) -> u16 {
    pair(mem(g, word_add(g.cpu.sp, 1)), mem(g, g.cpu.sp))
}

/// The machine after popping into a 16-bit register: the value at SP is read
/// little-endian, SP is incremented by two, and the register is written.
pub open spec fn popped_into(g: GameboyView, r: Reg16) -> GameboyView {
    let v = popped_val(g);
    let c1 = CPU { sp: word_add(g.cpu.sp, 2), ..g.cpu };
    with_cpu(g, with_reg16(c1, r, v))
}

// ---------------------------------------------------------------------------
// Executable helper operations
// ---------------------------------------------------------------------------

/// Add a signed displacement to the program counter, wrapping at the 16-bit
/// boundary; returns the new program counter.
pub fn jump_relative(gb: &mut Gameboy, value: i16) -> (result: u16)
    ensures
        final(gb)@ == with_cpu(
            old(gb)@,
            (CPU { pc: jr_target(old(gb)@.cpu.pc, value), ..old(gb)@.cpu }),
        ),
        result == jr_target(old(gb)@.cpu.pc, value),
{
    let t: i32 = gb.cpu.get_pc() as i32 + value as i32;
    let target: u16 = if t < 0 {
        proof {
            assert(t % 0x10000 == t + 0x10000) by (nonlinear_arith)
                requires
                    -0x10000 <= t < 0,
            ;
        }
        (t + 0x10000) as u16
    } else {
        (t % 0x10000) as u16
    };
    gb.cpu.set_pc(target);
    target
}

/// Whether the bit at position `n`, counted down from the most significant
/// bit, is set in an 8-bit value.
pub fn get_bit_at_position_8bit(n: u32, num: u8) -> (result: bool)
    requires
        n <= 7,
    ensures
        result == ((num & (1u8 << (7 - n))) != 0),
{
    (num & (1u8 << (7 - n) as u8)) != 0
}

/// Whether the bit at position `n`, counted down from the most significant
/// bit, is set in a 16-bit value.
pub fn get_bit_at_position_16bit(n: u32, num: u16) -> (result: bool)
    requires
        n <= 15,
    ensures
        result == ((num & (1u16 << (15 - n))) != 0),
{
    (num & (1u16 << (15 - n) as u16)) != 0
}

/// Store a value into an 8-bit register.
pub fn load_8bit(gb: &mut Gameboy, register: Reg8, value: u8)
    ensures
        final(gb)@ == with_cpu(old(gb)@, with_reg8(old(gb)@.cpu, register, value)),
{
    gb.cpu.set_register_8bit(register, value);
}

/// Store a value into a 16-bit register or pair.
pub fn load_16bit(gb: &mut Gameboy, register: Reg16, value: u16)
    ensures
        final(gb)@ == with_cpu(old(gb)@, with_reg16(old(gb)@.cpu, register, value)),
{
    gb.cpu.set_register_16bit(register, value);
}

/// Fetch an 8-bit immediate operand and store it into a register.
pub fn load_immediate_8bit(gb: &mut Gameboy, register: Reg8)
    requires
        old(gb).wf(),
    ensures
        final(gb).wf(),
        final(gb)@ == ({
            let (g1, v) = fetched8(old(gb)@);
            with_cpu(g1, with_reg8(g1.cpu, register, v))
        }),
{
    let value: u8 = crate::gameboy::read_byte(gb) as u8;
    load_8bit(gb, register, value);
}

/// Fetch a little-endian 16-bit immediate operand and store it into a
/// register pair.
pub fn load_immediate_16bit(gb: &mut Gameboy, register: Reg16)
    requires
        old(gb).wf(),
    ensures
        final(gb).wf(),
        final(gb)@ == ({
            let (g1, v) = fetched16(old(gb)@);
            with_cpu(g1, with_reg16(g1.cpu, register, v))
        }),
{
    let value: u16 = crate::gameboy::read_short(gb);
    load_16bit(gb, register, value);
}

/// Copy one 8-bit register into another.
pub fn load_register_8bit(gb: &mut Gameboy, dest: Reg8, src: Reg8)
    ensures
        final(gb)@ == with_cpu(
            old(gb)@,
            with_reg8(old(gb)@.cpu, dest, reg8_val(old(gb)@.cpu, src)),
        ),
{
    let value: u8 = gb.cpu.get_register_8bit(src);
    load_8bit(gb, dest, value);
}

/// Copy one 16-bit register into another.
pub fn load_register_16bit(gb: &mut Gameboy, dest: Reg16, src: Reg16)
    ensures
        final(gb)@ == with_cpu(
            old(gb)@,
            with_reg16(old(gb)@.cpu, dest, reg16_val(old(gb)@.cpu, src)),
        ),
{
    let value: u16 = gb.cpu.get_register_16bit(src);
    load_16bit(gb, dest, value);
}

/// Increment an 8-bit register with wraparound (0xFF wraps to 0x00), setting
/// Z and H, clearing N and leaving Carry untouched; returns the new value.
pub fn increment_8bit(gb: &mut Gameboy, register: Reg8) -> (result: u8)
    ensures
        final(gb)@ == with_cpu(old(gb)@, inc8_cpu(old(gb)@.cpu, register)),
        result == byte_add(reg8_val(old(gb)@.cpu, register), 1),
        z_of(final(gb)@.cpu.f) == (result == 0),
        n_of(final(gb)@.cpu.f) == false,
        h_of(final(gb)@.cpu.f) == (reg8_val(old(gb)@.cpu, register) % 16 == 15),
        c_of(final(gb)@.cpu.f) == c_of(old(gb)@.cpu.f),
{
    let current: u8 = gb.cpu.get_register_8bit(register);
    let carry: bool = gb.cpu.get_c_flag();
    let result: u8 = ((current as u16 + 1) % 0x100) as u8;
    gb.cpu.set_register_8bit(register, result);
    gb.cpu.set_flags(result == 0, false, current % 16 == 15, carry);
    proof {
        crate::cpu::lemma_flags_readback(result == 0, false, current % 16 == 15, carry);
    }
    result
}

/// Decrement an 8-bit register with wraparound (0x00 wraps to 0xFF), setting
/// Z, N and H (borrow out of bit 3), leaving Carry untouched; returns the new
/// value.
pub fn decrement_8bit(gb: &mut Gameboy, register: Reg8) -> (result: u8)
    ensures
        final(gb)@ == with_cpu(old(gb)@, dec8_cpu(old(gb)@.cpu, register)),
        result == byte_sub(reg8_val(old(gb)@.cpu, register), 1),
        z_of(final(gb)@.cpu.f) == (result == 0),
        n_of(final(gb)@.cpu.f) == true,
        h_of(final(gb)@.cpu.f) == (reg8_val(old(gb)@.cpu, register) % 16 == 0),
        c_of(final(gb)@.cpu.f) == c_of(old(gb)@.cpu.f),
{
    let current: u8 = gb.cpu.get_register_8bit(register);
    let carry: bool = gb.cpu.get_c_flag();
    let result: u8 = ((current as u16 + 0x100 - 1) % 0x100) as u8;
    gb.cpu.set_register_8bit(register, result);
    gb.cpu.set_flags(result == 0, true, current % 16 == 0, carry);
    proof {
        crate::cpu::lemma_flags_readback(result == 0, true, current % 16 == 0, carry);
    }
    result
}

/// XOR register A with the named register, storing the result back into that
/// register; Z is set iff the result is zero, N, H and C are cleared.
pub fn xor(gb: &mut Gameboy, register: Reg8) -> (result: u8)
    ensures
        final(gb)@ == with_cpu(old(gb)@, xor_cpu(old(gb)@.cpu, register)),
        result == (old(gb)@.cpu.a ^ reg8_val(old(gb)@.cpu, register)),
        z_of(final(gb)@.cpu.f) == (result == 0),
{
    let a: u8 = gb.cpu.get_a();
    let value: u8 = gb.cpu.get_register_8bit(register);
    let result: u8 = a ^ value;
    gb.cpu.set_register_8bit(register, result);
    gb.cpu.set_flags(result == 0, false, false, false);
    proof {
        crate::cpu::lemma_flags_readback(result == 0, false, false, false);
    }
    result
}

/// Increment a 16-bit register with wraparound; no flags are affected.
pub fn increment_16bit(gb: &mut Gameboy, register: Reg16) -> (result: u16)
    ensures
        final(gb)@ == with_cpu(old(gb)@, inc16_cpu(old(gb)@.cpu, register)),
        result == word_add(reg16_val(old(gb)@.cpu, register), 1),
{
    let current: u16 = gb.cpu.get_register_16bit(register);
    let result: u16 = ((current as u32 + 1) % 0x10000) as u16;
    gb.cpu.set_register_16bit(register, result);
    result
}

/// Decrement a 16-bit register with wraparound; no flags are affected.
pub fn decrement_16bit(gb: &mut Gameboy, register: Reg16) -> (result: u16)
    ensures
        final(gb)@ == with_cpu(old(gb)@, dec16_cpu(old(gb)@.cpu, register)),
        result == word_sub(reg16_val(old(gb)@.cpu, register), 1),
{
    let current: u16 = gb.cpu.get_register_16bit(register);
    let result: u16 = ((current as u32 + 0x10000 - 1) % 0x10000) as u16;
    gb.cpu.set_register_16bit(register, result);
    result
}

/// Test bit `n` of `value` against the register file flags: Z is set iff the
/// bit is zero (the inverted sense), N is cleared, H is set and Carry is left
/// untouched.  No register is modified.
pub fn bit_test(cpu: &mut CPU, n: u8, value: u8)
    requires
        n < 8,
    ensures
        *final(cpu) == bit_test_cpu(*old(cpu), n, value),
        z_of(final(cpu).f) == ((value & (1u8 << n)) == 0),
        n_of(final(cpu).f) == false,
        h_of(final(cpu).f) == true,
        c_of(final(cpu).f) == c_of(old(cpu).f),
{
    let zero: bool = (value & (1u8 << n)) == 0;
    let carry: bool = cpu.get_c_flag();
    cpu.set_flags(zero, false, true, carry);
    proof {
        crate::cpu::lemma_flags_readback(zero, false, true, carry);
    }
}

/// Apply accumulator ALU operation `y` (ADD, ADC, SUB, SBC, AND, XOR, OR, CP)
/// to register A and the operand value, with the documented flag rules.
fn alu_op(gb: &mut Gameboy, y: u8, value: u8)
    requires
        y < 8,
    ensures
        final(gb)@ == with_cpu(old(gb)@, alu8_cpu(old(gb)@.cpu, y, value)),
{
    let a: u8 = gb.cpu.get_a();
    let ci: u8 = if gb.cpu.get_c_flag() {
        1
    } else {
        0
    };
    if y == 0 {
        let res: u8 = ((a as u16 + value as u16) % 0x100) as u8;
        gb.cpu.set_a(res);
        gb.cpu.set_flags(res == 0, false, a % 16 + value % 16 > 15, a as u16 + value as u16 > 255);
    } else if y == 1 {
        let res: u8 = ((a as u16 + value as u16 + ci as u16) % 0x100) as u8;
        gb.cpu.set_a(res);
        gb.cpu.set_flags(
            res == 0,
            false,
            a % 16 + value % 16 + ci > 15,
            a as u16 + value as u16 + ci as u16 > 255,
        );
    } else if y == 2 {
        let res: u8 = ((a as u16 + 0x100 - value as u16) % 0x100) as u8;
        gb.cpu.set_a(res);
        gb.cpu.set_flags(res == 0, true, a % 16 < value % 16, a < value);
    } else if y == 3 {
        let res: u8 = ((a as u16 + 0x200 - value as u16 - ci as u16) % 0x100) as u8;
        gb.cpu.set_a(res);
        gb.cpu.set_flags(
            res == 0,
            true,
            a % 16 < value % 16 + ci,
            (a as u16) < value as u16 + ci as u16,
        );
    } else if y == 4 {
        let res: u8 = a & value;
        gb.cpu.set_a(res);
        gb.cpu.set_flags(res == 0, false, true, false);
    } else if y == 5 {
        let res: u8 = a ^ value;
        gb.cpu.set_a(res);
        gb.cpu.set_flags(res == 0, false, false, false);
    } else if y == 6 {
        let res: u8 = a | value;
        gb.cpu.set_a(res);
        gb.cpu.set_flags(res == 0, false, false, false);
    } else {
        let res: u8 = ((a as u16 + 0x100 - value as u16) % 0x100) as u8;
        gb.cpu.set_flags(res == 0, true, a % 16 < value % 16, a < value);
    }
}

/// Add a 16-bit value into HL with the documented flag rules: N cleared, H
/// from bit 11, C from bit 15, Z untouched.
fn add_hl_op(gb: &mut Gameboy, value: u16)
    ensures
        final(gb)@ == with_cpu(old(gb)@, add_hl_cpu(old(gb)@.cpu, value)),
{
    let hl: u16 = gb.cpu.get_hl();
    let zero: bool = gb.cpu.get_z_flag();
    let res: u16 = ((hl as u32 + value as u32) % 0x10000) as u16;
    gb.cpu.set_hl(res);
    gb.cpu.set_flags(
        zero,
        false,
        hl % 0x1000 + value % 0x1000 > 0xFFF,
        hl as u32 + value as u32 > 0xFFFF,
    );
}

/// Decimal-adjust register A after an addition or subtraction.
fn daa_op(gb: &mut Gameboy)
    ensures
        final(gb)@ == with_cpu(old(gb)@, daa_cpu(old(gb)@.cpu)),
{
    let a: u8 = gb.cpu.get_a();
    let n: bool = gb.cpu.get_n_flag();
    let h: bool = gb.cpu.get_h_flag();
    let c: bool = gb.cpu.get_c_flag();
    if !n {
        let adj_high: bool = c || a > 0x99;
        let adj: u8 = (if a % 16 > 9 || h {
            0x06u8
        } else {
            0u8
        }) + (if adj_high {
            0x60u8
        } else {
            0u8
        });
        let res: u8 = ((a as u16 + adj as u16) % 0x100) as u8;
        gb.cpu.set_a(res);
        gb.cpu.set_flags(res == 0, false, false, adj_high);
    } else {
        let adj: u8 = (if h {
            0x06u8
        } else {
            0u8
        }) + (if c {
            0x60u8
        } else {
            0u8
        });
        let res: u8 = ((a as u16 + 0x100 - adj as u16) % 0x100) as u8;
        gb.cpu.set_a(res);
        gb.cpu.set_flags(res == 0, true, false, c);
    }
}

/// Push a 16-bit value: SP is decremented by two, then the value is written
/// little-endian at the new SP.
fn push_word(gb: &mut Gameboy, value: u16)
    requires
        old(gb).wf(),
    ensures
        final(gb).wf(),
        final(gb)@ == pushed(old(gb)@, value),
{
    let sp: u16 = gb.cpu.get_sp();
    let sp1: u16 = ((sp as u32 + 0x10000 - 2) % 0x10000) as u16;
    gb.cpu.set_sp(sp1);
    write_mem(gb, sp1, (value % 0x100) as u8);
    let hi_addr: u16 = ((sp1 as u32 + 1) % 0x10000) as u16;
    write_mem(gb, hi_addr, (value / 0x100) as u8);
}

/// The register file after one of the four accumulator rotate instructions
/// (RLCA, RRCA, RLA, RRA, selected by `y`): Z, N and H are cleared and C gets
/// the bit rotated out.
pub open spec fn rot_a_cpu(c: CPU, y: u8) -> CPU {
    let res = rot_val(y, c.a, c_of(c.f));
    CPU { a: res, f: flags_byte(false, false, false, rot_carry(y, c.a)), ..c }
}

/// Compute the rotate/shift/swap operation `y` on a value, returning the
/// result and the carry bit shifted out.
fn rot_exec(y: u8, v: u8, carry_in: bool) -> (result: (u8, bool))
    requires
        y < 8,
    ensures
        result.0 == rot_val(y, v, carry_in),
        result.1 == rot_carry(y, v),
{
    if y == 0 {
        ((v << 1) | (v >> 7), v >= 0x80)
    } else if y == 1 {
        ((v >> 1) | (v << 7), v % 2 == 1)
    } else if y == 2 {
        ((v << 1) | (if carry_in { 1u8 } else { 0u8 }), v >= 0x80)
    } else if y == 3 {
        ((v >> 1) | (if carry_in { 0x80u8 } else { 0u8 }), v % 2 == 1)
    } else if y == 4 {
        (v << 1, v >= 0x80)
    } else if y == 5 {
        ((v >> 1) | (v & 0x80), v % 2 == 1)
    } else if y == 6 {
        ((v << 4) | (v >> 4), false)
    } else {
        (v >> 1, v % 2 == 1)
    }
}

/// Rotate the accumulator with the A-form flag rule (Z cleared).
fn rot_a_op(gb: &mut Gameboy, y: u8)
    requires
        y < 4,
    ensures
        final(gb)@ == with_cpu(old(gb)@, rot_a_cpu(old(gb)@.cpu, y)),
{
    let a: u8 = gb.cpu.get_a();
    let cf: bool = gb.cpu.get_c_flag();
    let (res, carry) = rot_exec(y, a, cf);
    gb.cpu.set_a(res);
    gb.cpu.set_flags(false, false, false, carry);
}

/// A displacement byte converted to its signed 16-bit value.
fn signed_disp_exec(db: u8) -> (result: i16)
    ensures
        result == signed_disp(db),
{
    if db < 0x80 {
        db as i16
    } else {
        db as i16 - 0x100
    }
}

/// A 16-bit value displaced by a signed byte, wrapping at the boundary.
fn word_disp_exec(v: u16, db: u8) -> (result: u16)
    ensures
        result == jr_target(v, signed_disp(db)),
{
    let d: i16 = signed_disp_exec(db);
    let t: i32 = v as i32 + d as i32;
    if t < 0 {
        proof {
            assert(t % 0x10000 == t + 0x10000) by (nonlinear_arith)
                requires
                    -0x10000 <= t < 0,
            ;
        }
        (t + 0x10000) as u16
    } else {
        (t % 0x10000) as u16
    }
}

/// Pop a 16-bit value into a register pair: the value at SP is read
/// little-endian and SP is incremented by two.
fn pop_into(gb: &mut Gameboy, register: Reg16)
    requires
        old(gb).wf(),
    ensures
        final(gb).wf(),
        final(gb)@ == popped_into(old(gb)@, register),
{
    let sp: u16 = gb.cpu.get_sp();
    let lo: u8 = read_mem(gb, sp);
    let hi_addr: u16 = ((sp as u32 + 1) % 0x10000) as u16;
    let hi: u8 = read_mem(gb, hi_addr);
    let value: u16 = (hi as u16) * 0x100 + (lo as u16);
    gb.cpu.set_sp(((sp as u32 + 2) % 0x10000) as u16);
    gb.cpu.set_register_16bit(register, value);
}

// ---------------------------------------------------------------------------
// Primary table, rows 0x00..=0x3F
// ---------------------------------------------------------------------------

/// Effect of a relative-jump opcode: the displacement byte is always fetched;
/// the jump is taken, for 12 cycles, only when the condition holds, else the
/// opcode costs 8 cycles.
pub open spec fn spec_jr_arm(g: GameboyView, cond: bool) -> (GameboyView, int) {
    let (g1, db) = fetched8(g);
    if cond {
        (with_cpu(g1, CPU { pc: jr_target(g1.cpu.pc, signed_disp(db)), ..g1.cpu }), 12)
    } else {
        (g1, 8)
    }
}

/// Effect and cycle cost of each opcode in rows 0x00..=0x3F of the primary
/// table.
#[verifier::opaque]
pub open spec fn spec_exec_misc(g: GameboyView, op: u8) -> (GameboyView, int) {
    let c = g.cpu;
    match op {
        0x00u8 => (g, 4),  // NOP
        0x01u8 => {  // LD BC,n16
            let (g1, v) = fetched16(g);
            (with_cpu(g1, with_reg16(g1.cpu, Reg16::BC, v)), 12)
        },
        0x02u8 => (with_mem(g, pair(c.b, c.c), c.a), 8),  // LD (BC),A
        0x03u8 => (with_cpu(g, inc16_cpu(c, Reg16::BC)), 8),  // INC BC
        0x04u8 => (with_cpu(g, inc8_cpu(c, Reg8::B)), 4),  // INC B
        0x05u8 => (with_cpu(g, dec8_cpu(c, Reg8::B)), 4),  // DEC B
        0x06u8 => {  // LD B,n8
            let (g1, v) = fetched8(g);
            (with_cpu(g1, with_reg8(g1.cpu, Reg8::B, v)), 8)
        },
        0x07u8 => (with_cpu(g, rot_a_cpu(c, 0)), 4),  // RLCA
        0x08u8 => {  // LD (a16),SP
            let (g1, addr) = fetched16(g);
            (with_mem(with_mem(g1, addr, lo_byte(c.sp)), word_add(addr, 1), hi_byte(c.sp)), 20)
        },
        0x09u8 => (with_cpu(g, add_hl_cpu(c, pair(c.b, c.c))), 8),  // ADD HL,BC
        0x0Au8 => (with_cpu(g, CPU { a: mem(g, pair(c.b, c.c)), ..c }), 8),  // LD A,(BC)
        0x0Bu8 => (with_cpu(g, dec16_cpu(c, Reg16::BC)), 8),  // DEC BC
        0x0Cu8 => (with_cpu(g, inc8_cpu(c, Reg8::C)), 4),  // INC C
        0x0Du8 => (with_cpu(g, dec8_cpu(c, Reg8::C)), 4),  // DEC C
        0x0Eu8 => {  // LD C,n8
            let (g1, v) = fetched8(g);
            (with_cpu(g1, with_reg8(g1.cpu, Reg8::C, v)), 8)
        },
        0x0Fu8 => (with_cpu(g, rot_a_cpu(c, 1)), 4),  // RRCA
        0x10u8 => (g, 4),  // STOP: power state is out of scope, cost only
        0x11u8 => {  // LD DE,n16
            let (g1, v) = fetched16(g);
            (with_cpu(g1, with_reg16(g1.cpu, Reg16::DE, v)), 12)
        },
        0x12u8 => (with_mem(g, pair(c.d, c.e), c.a), 8),  // LD (DE),A
        0x13u8 => (with_cpu(g, inc16_cpu(c, Reg16::DE)), 8),  // INC DE
        0x14u8 => (with_cpu(g, inc8_cpu(c, Reg8::D)), 4),  // INC D
        0x15u8 => (with_cpu(g, dec8_cpu(c, Reg8::D)), 4),  // DEC D
        0x16u8 => {  // LD D,n8
            let (g1, v) = fetched8(g);
            (with_cpu(g1, with_reg8(g1.cpu, Reg8::D, v)), 8)
        },
        0x17u8 => (with_cpu(g, rot_a_cpu(c, 2)), 4),  // RLA
        0x18u8 => spec_jr_arm(g, true),  // JR e8 (cost 12, always taken)
        0x19u8 => (with_cpu(g, add_hl_cpu(c, pair(c.d, c.e))), 8),  // ADD HL,DE
        0x1Au8 => (with_cpu(g, CPU { a: mem(g, pair(c.d, c.e)), ..c }), 8),  // LD A,(DE)
        0x1Bu8 => (with_cpu(g, dec16_cpu(c, Reg16::DE)), 8),  // DEC DE
        0x1Cu8 => (with_cpu(g, inc8_cpu(c, Reg8::E)), 4),  // INC E
        0x1Du8 => (with_cpu(g, dec8_cpu(c, Reg8::E)), 4),  // DEC E
        0x1Eu8 => {  // LD E,n8
            let (g1, v) = fetched8(g);
            (with_cpu(g1, with_reg8(g1.cpu, Reg8::E, v)), 8)
        },
        0x1Fu8 => (with_cpu(g, rot_a_cpu(c, 3)), 4),  // RRA
        0x20u8 => spec_jr_arm(g, !z_of(c.f)),  // JR NZ,e8
        0x21u8 => {  // LD HL,n16
            let (g1, v) = fetched16(g);
            (with_cpu(g1, with_reg16(g1.cpu, Reg16::HL, v)), 12)
        },
        0x22u8 => {  // LD (HL+),A
            let g1 = with_mem(g, pair(c.h, c.l), c.a);
            (with_cpu(g1, inc16_cpu(g1.cpu, Reg16::HL)), 8)
        },
        0x23u8 => (with_cpu(g, inc16_cpu(c, Reg16::HL)), 8),  // INC HL
        0x24u8 => (with_cpu(g, inc8_cpu(c, Reg8::H)), 4),  // INC H
        0x25u8 => (with_cpu(g, dec8_cpu(c, Reg8::H)), 4),  // DEC H
        0x26u8 => {  // LD H,n8
            let (g1, v) = fetched8(g);
            (with_cpu(g1, with_reg8(g1.cpu, Reg8::H, v)), 8)
        },
        0x27u8 => (with_cpu(g, daa_cpu(c)), 4),  // DAA
        0x28u8 => spec_jr_arm(g, z_of(c.f)),  // JR Z,e8
        0x29u8 => (with_cpu(g, add_hl_cpu(c, pair(c.h, c.l))), 8),  // ADD HL,HL
        0x2Au8 => {  // LD A,(HL+)
            (with_cpu(g, inc16_cpu(CPU { a: mem(g, pair(c.h, c.l)), ..c }, Reg16::HL)), 8)
        },
        0x2Bu8 => (with_cpu(g, dec16_cpu(c, Reg16::HL)), 8),  // DEC HL
        0x2Cu8 => (with_cpu(g, inc8_cpu(c, Reg8::L)), 4),  // INC L
        0x2Du8 => (with_cpu(g, dec8_cpu(c, Reg8::L)), 4),  // DEC L
        0x2Eu8 => {  // LD L,n8
            let (g1, v) = fetched8(g);
            (with_cpu(g1, with_reg8(g1.cpu, Reg8::L, v)), 8)
        },
        0x2Fu8 => {  // CPL
            (with_cpu(g, CPU { a: !c.a, f: flags_byte(z_of(c.f), true, true, c_of(c.f)), ..c }), 4)
        },
        0x30u8 => spec_jr_arm(g, !c_of(c.f)),  // JR NC,e8
        0x31u8 => {  // LD SP,n16
            let (g1, v) = fetched16(g);
            (with_cpu(g1, with_reg16(g1.cpu, Reg16::SP, v)), 12)
        },
        0x32u8 => {  // LD (HL-),A
            let g1 = with_mem(g, pair(c.h, c.l), c.a);
            (with_cpu(g1, dec16_cpu(g1.cpu, Reg16::HL)), 8)
        },
        0x33u8 => (with_cpu(g, inc16_cpu(c, Reg16::SP)), 8),  // INC SP
        0x34u8 => {  // INC (HL)
            let v = mem(g, pair(c.h, c.l));
            let res = byte_add(v, 1);
            let g1 = with_mem(g, pair(c.h, c.l), res);
            (with_cpu(
                g1,
                CPU { f: flags_byte(res == 0, false, v % 16 == 15, c_of(c.f)), ..g1.cpu },
            ), 12)
        },
        0x35u8 => {  // DEC (HL)
            let v = mem(g, pair(c.h, c.l));
            let res = byte_sub(v, 1);
            let g1 = with_mem(g, pair(c.h, c.l), res);
            (with_cpu(
                g1,
                CPU { f: flags_byte(res == 0, true, v % 16 == 0, c_of(c.f)), ..g1.cpu },
            ), 12)
        },
        0x36u8 => {  // LD (HL),n8
            let (g1, v) = fetched8(g);
            (with_mem(g1, pair(g1.cpu.h, g1.cpu.l), v), 12)
        },
        0x37u8 => {  // SCF
            (with_cpu(g, CPU { f: flags_byte(z_of(c.f), false, false, true), ..c }), 4)
        },
        0x38u8 => spec_jr_arm(g, c_of(c.f)),  // JR C,e8
        0x39u8 => (with_cpu(g, add_hl_cpu(c, c.sp)), 8),  // ADD HL,SP
        0x3Au8 => {  // LD A,(HL-)
            (with_cpu(g, dec16_cpu(CPU { a: mem(g, pair(c.h, c.l)), ..c }, Reg16::HL)), 8)
        },
        0x3Bu8 => (with_cpu(g, dec16_cpu(c, Reg16::SP)), 8),  // DEC SP
        0x3Cu8 => (with_cpu(g, inc8_cpu(c, Reg8::A)), 4),  // INC A
        0x3Du8 => (with_cpu(g, dec8_cpu(c, Reg8::A)), 4),  // DEC A
        0x3Eu8 => {  // LD A,n8
            let (g1, v) = fetched8(g);
            (with_cpu(g1, with_reg8(g1.cpu, Reg8::A, v)), 8)
        },
        _ => {  // CCF (0x3F)
            (with_cpu(g, CPU { f: flags_byte(z_of(c.f), false, false, !c_of(c.f)), ..c }), 4)
        },
    }
}

/// Fetch a displacement byte and jump relative when the condition holds;
/// returns the opcode's cycle cost (taken costs more than not taken).
fn jr_arm(gb: &mut Gameboy, cond: bool) -> (result: i64)
    requires
        old(gb).wf(),
    ensures
        final(gb).wf(),
        ({
            let (g2, cyc) = spec_jr_arm(old(gb)@, cond);
            final(gb)@ == g2 && result == cyc
        }),
{
    let db: u8 = crate::gameboy::read_byte(gb) as u8;
    if cond {
        let d: i16 = signed_disp_exec(db);
        jump_relative(gb, d);
        12
    } else {
        8
    }
}

/// Execute one opcode from rows 0x00..=0x3F of the primary table.
fn execute_misc(gb: &mut Gameboy, opcode: u8) -> (result: i64)
    requires
        old(gb).wf(),
        opcode < 0x40,
    ensures
        final(gb).wf(),
        ({
            let (g2, cyc) = spec_exec_misc(old(gb)@, opcode);
            final(gb)@ == g2 && result == cyc
        }),
        4 <= result <= 20,
{
    proof {
        reveal(spec_exec_misc);
    }
    match opcode {
        0x00 => 4,
        0x01 => {
            load_immediate_16bit(gb, Reg16::BC);
            12
        },
        0x02 => {
            let addr: u16 = gb.cpu.get_bc();
            let v: u8 = gb.cpu.get_a();
            write_mem(gb, addr, v);
            8
        },
        0x03 => {
            increment_16bit(gb, Reg16::BC);
            8
        },
        0x04 => {
            increment_8bit(gb, Reg8::B);
            4
        },
        0x05 => {
            decrement_8bit(gb, Reg8::B);
            4
        },
        0x06 => {
            load_immediate_8bit(gb, Reg8::B);
            8
        },
        0x07 => {
            rot_a_op(gb, 0);
            4
        },
        0x08 => {
            let addr: u16 = crate::gameboy::read_short(gb);
            let sp: u16 = gb.cpu.get_sp();
            write_mem(gb, addr, (sp % 0x100) as u8);
            let hi_addr: u16 = ((addr as u32 + 1) % 0x10000) as u16;
            write_mem(gb, hi_addr, (sp / 0x100) as u8);
            20
        },
        0x09 => {
            let v: u16 = gb.cpu.get_bc();
            add_hl_op(gb, v);
            8
        },
        0x0A => {
            let addr: u16 = gb.cpu.get_bc();
            let v: u8 = read_mem(gb, addr);
            gb.cpu.set_a(v);
            8
        },
        0x0B => {
            decrement_16bit(gb, Reg16::BC);
            8
        },
        0x0C => {
            increment_8bit(gb, Reg8::C);
            4
        },
        0x0D => {
            decrement_8bit(gb, Reg8::C);
            4
        },
        0x0E => {
            load_immediate_8bit(gb, Reg8::C);
            8
        },
        0x0F => {
            rot_a_op(gb, 1);
            4
        },
        0x10 => 4,
        0x11 => {
            load_immediate_16bit(gb, Reg16::DE);
            12
        },
        0x12 => {
            let addr: u16 = gb.cpu.get_de();
            let v: u8 = gb.cpu.get_a();
            write_mem(gb, addr, v);
            8
        },
        0x13 => {
            increment_16bit(gb, Reg16::DE);
            8
        },
        0x14 => {
            increment_8bit(gb, Reg8::D);
            4
        },
        0x15 => {
            decrement_8bit(gb, Reg8::D);
            4
        },
        0x16 => {
            load_immediate_8bit(gb, Reg8::D);
            8
        },
        0x17 => {
            rot_a_op(gb, 2);
            4
        },
        0x18 => jr_arm(gb, true),
        0x19 => {
            let v: u16 = gb.cpu.get_de();
            add_hl_op(gb, v);
            8
        },
        0x1A => {
            let addr: u16 = gb.cpu.get_de();
            let v: u8 = read_mem(gb, addr);
            gb.cpu.set_a(v);
            8
        },
        0x1B => {
            decrement_16bit(gb, Reg16::DE);
            8
        },
        0x1C => {
            increment_8bit(gb, Reg8::E);
            4
        },
        0x1D => {
            decrement_8bit(gb, Reg8::E);
            4
        },
        0x1E => {
            load_immediate_8bit(gb, Reg8::E);
            8
        },
        0x1F => {
            rot_a_op(gb, 3);
            4
        },
        0x20 => {
            let cond: bool = !gb.cpu.get_z_flag();
            jr_arm(gb, cond)
        },
        0x21 => {
            load_immediate_16bit(gb, Reg16::HL);
            12
        },
        0x22 => {
            let addr: u16 = gb.cpu.get_hl();
            let v: u8 = gb.cpu.get_a();
            write_mem(gb, addr, v);
            increment_16bit(gb, Reg16::HL);
            8
        },
        0x23 => {
            increment_16bit(gb, Reg16::HL);
            8
        },
        0x24 => {
            increment_8bit(gb, Reg8::H);
            4
        },
        0x25 => {
            decrement_8bit(gb, Reg8::H);
            4
        },
        0x26 => {
            load_immediate_8bit(gb, Reg8::H);
            8
        },
        0x27 => {
            daa_op(gb);
            4
        },
        0x28 => {
            let cond: bool = gb.cpu.get_z_flag();
            jr_arm(gb, cond)
        },
        0x29 => {
            let v: u16 = gb.cpu.get_hl();
            add_hl_op(gb, v);
            8
        },
        0x2A => {
            let addr: u16 = gb.cpu.get_hl();
            let v: u8 = read_mem(gb, addr);
            gb.cpu.set_a(v);
            increment_16bit(gb, Reg16::HL);
            8
        },
        0x2B => {
            decrement_16bit(gb, Reg16::HL);
            8
        },
        0x2C => {
            increment_8bit(gb, Reg8::L);
            4
        },
        0x2D => {
            decrement_8bit(gb, Reg8::L);
            4
        },
        0x2E => {
            load_immediate_8bit(gb, Reg8::L);
            8
        },
        0x2F => {
            let a: u8 = gb.cpu.get_a();
            let z: bool = gb.cpu.get_z_flag();
            let cf: bool = gb.cpu.get_c_flag();
            gb.cpu.set_a(!a);
            gb.cpu.set_flags(z, true, true, cf);
            4
        },
        0x30 => {
            let cond: bool = !gb.cpu.get_c_flag();
            jr_arm(gb, cond)
        },
        0x31 => {
            load_immediate_16bit(gb, Reg16::SP);
            12
        },
        0x32 => {
            let addr: u16 = gb.cpu.get_hl();
            let v: u8 = gb.cpu.get_a();
            write_mem(gb, addr, v);
            decrement_16bit(gb, Reg16::HL);
            8
        },
        0x33 => {
            increment_16bit(gb, Reg16::SP);
            8
        },
        0x34 => {
            let addr: u16 = gb.cpu.get_hl();
            let v: u8 = read_mem(gb, addr);
            let cf: bool = gb.cpu.get_c_flag();
            let res: u8 = ((v as u16 + 1) % 0x100) as u8;
            write_mem(gb, addr, res);
            gb.cpu.set_flags(res == 0, false, v % 16 == 15, cf);
            12
        },
        0x35 => {
            let addr: u16 = gb.cpu.get_hl();
            let v: u8 = read_mem(gb, addr);
            let cf: bool = gb.cpu.get_c_flag();
            let res: u8 = ((v as u16 + 0x100 - 1) % 0x100) as u8;
            write_mem(gb, addr, res);
            gb.cpu.set_flags(res == 0, true, v % 16 == 0, cf);
            12
        },
        0x36 => {
            let v: u8 = crate::gameboy::read_byte(gb) as u8;
            let addr: u16 = gb.cpu.get_hl();
            write_mem(gb, addr, v);
            12
        },
        0x37 => {
            let z: bool = gb.cpu.get_z_flag();
            gb.cpu.set_flags(z, false, false, true);
            4
        },
        0x38 => {
            let cond: bool = gb.cpu.get_c_flag();
            jr_arm(gb, cond)
        },
        0x39 => {
            let v: u16 = gb.cpu.get_sp();
            add_hl_op(gb, v);
            8
        },
        0x3A => {
            let addr: u16 = gb.cpu.get_hl();
            let v: u8 = read_mem(gb, addr);
            gb.cpu.set_a(v);
            decrement_16bit(gb, Reg16::HL);
            8
        },
        0x3B => {
            decrement_16bit(gb, Reg16::SP);
            8
        },
        0x3C => {
            increment_8bit(gb, Reg8::A);
            4
        },
        0x3D => {
            decrement_8bit(gb, Reg8::A);
            4
        },
        0x3E => {
            load_immediate_8bit(gb, Reg8::A);
            8
        },
        _ => {
            let z: bool = gb.cpu.get_z_flag();
            let cf: bool = gb.cpu.get_c_flag();
            gb.cpu.set_flags(z, false, false, !cf);
            4
        },
    }
}

// ---------------------------------------------------------------------------
// Primary table, rows 0x40..=0xBF (register loads and accumulator ALU)
// ---------------------------------------------------------------------------

/// The 8-bit register selected by an operand column of the dispatch tables
/// (column 6 is the (HL) memory operand and is handled separately).
pub open spec fn operand_reg(idx: u8) -> Reg8 {
    match idx {
        0u8 => Reg8::B,
        1u8 => Reg8::C,
        2u8 => Reg8::D,
        3u8 => Reg8::E,
        4u8 => Reg8::H,
        5u8 => Reg8::L,
        _ => Reg8::A,
    }
}

/// Resolve an operand column to its register descriptor.
fn table_reg(idx: u8) -> (result: Reg8)
    requires
        idx < 8,
        idx != 6,
    ensures
        result == operand_reg(idx),
{
    if idx == 0 {
        Reg8::B
    } else if idx == 1 {
        Reg8::C
    } else if idx == 2 {
        Reg8::D
    } else if idx == 3 {
        Reg8::E
    } else if idx == 4 {
        Reg8::H
    } else if idx == 5 {
        Reg8::L
    } else {
        Reg8::A
    }
}

/// Effect and cycle cost of each opcode in rows 0x40..=0x7F: the 8-bit
/// register-to-register loads, the (HL) memory loads and stores, and HALT.
#[verifier::opaque]
pub open spec fn spec_exec_load(g: GameboyView, op: u8) -> (GameboyView, int) {
    let c = g.cpu;
    let y = (op / 8) % 8;
    let z = op % 8;
    if op == 0x76 {
        (g, 4)  // HALT: interrupt machinery is out of scope, cost only
    } else if y == 6 {
        (with_mem(g, pair(c.h, c.l), reg8_val(c, operand_reg(z))), 8)  // LD (HL),r
    } else if z == 6 {
        (with_cpu(g, with_reg8(c, operand_reg(y), mem(g, pair(c.h, c.l)))), 8)  // LD r,(HL)
    } else {
        (with_cpu(g, with_reg8(c, operand_reg(y), reg8_val(c, operand_reg(z)))), 4)  // LD r,r'
    }
}

/// Execute one opcode from rows 0x40..=0x7F of the primary table.
fn execute_load_group(gb: &mut Gameboy, opcode: u8) -> (result: i64)
    requires
        old(gb).wf(),
        0x40 <= opcode < 0x80,
    ensures
        final(gb).wf(),
        ({
            let (g2, cyc) = spec_exec_load(old(gb)@, opcode);
            final(gb)@ == g2 && result == cyc
        }),
        4 <= result <= 8,
{
    proof {
        reveal(spec_exec_load);
    }
    let y: u8 = (opcode / 8) % 8;
    let z: u8 = opcode % 8;
    if opcode == 0x76 {
        4
    } else if y == 6 {
        let src: Reg8 = table_reg(z);
        let addr: u16 = gb.cpu.get_hl();
        let v: u8 = gb.cpu.get_register_8bit(src);
        write_mem(gb, addr, v);
        8
    } else if z == 6 {
        let dest: Reg8 = table_reg(y);
        let addr: u16 = gb.cpu.get_hl();
        let v: u8 = read_mem(gb, addr);
        load_8bit(gb, dest, v);
        8
    } else {
        let dest: Reg8 = table_reg(y);
        let src: Reg8 = table_reg(z);
        load_register_8bit(gb, dest, src);
        4
    }
}

/// Effect and cycle cost of each opcode in rows 0x80..=0xBF: the eight
/// accumulator ALU operations, each over the eight operand columns.
#[verifier::opaque]
pub open spec fn spec_exec_alu(g: GameboyView, op: u8) -> (GameboyView, int) {
    let c = g.cpu;
    let y = (op / 8) % 8;
    let z = op % 8;
    if z == 6 {
        (with_cpu(g, alu8_cpu(c, y, mem(g, pair(c.h, c.l)))), 8)
    } else {
        (with_cpu(g, alu8_cpu(c, y, reg8_val(c, operand_reg(z)))), 4)
    }
}

/// Execute one opcode from rows 0x80..=0xBF of the primary table.
fn execute_alu_group(gb: &mut Gameboy, opcode: u8) -> (result: i64)
    requires
        old(gb).wf(),
        0x80 <= opcode < 0xC0,
    ensures
        final(gb).wf(),
        ({
            let (g2, cyc) = spec_exec_alu(old(gb)@, opcode);
            final(gb)@ == g2 && result == cyc
        }),
        4 <= result <= 8,
{
    proof {
        reveal(spec_exec_alu);
    }
    let y: u8 = (opcode / 8) % 8;
    let z: u8 = opcode % 8;
    if z == 6 {
        let addr: u16 = gb.cpu.get_hl();
        let v: u8 = read_mem(gb, addr);
        alu_op(gb, y, v);
        8
    } else {
        let src: Reg8 = table_reg(z);
        let v: u8 = gb.cpu.get_register_8bit(src);
        alu_op(gb, y, v);
        4
    }
}

// ---------------------------------------------------------------------------
// Extended table, reached through the prefix opcode
// ---------------------------------------------------------------------------

/// Effect and cycle cost of each opcode in the extended table: rotates,
/// shifts and swap (rows 0x00..=0x3F), BIT (0x40..=0x7F), RES (0x80..=0xBF)
/// and SET (0xC0..=0xFF), each over the eight operand columns.
#[verifier::opaque]
pub open spec fn spec_exec_prefixed(g: GameboyView, op: u8) -> (GameboyView, int) {
    let c = g.cpu;
    let x = op / 0x40;
    let y = (op / 8) % 8;
    let z = op % 8;
    if z == 6 {
        let addr = pair(c.h, c.l);
        let v = mem(g, addr);
        if x == 0 {
            let res = rot_val(y, v, c_of(c.f));
            (with_cpu(
                with_mem(g, addr, res),
                CPU { f: flags_byte(res == 0, false, false, rot_carry(y, v)), ..c },
            ), 16)
        } else if x == 1 {
            (with_cpu(g, bit_test_cpu(c, y, v)), 12)
        } else if x == 2 {
            (with_mem(g, addr, v & !(1u8 << y)), 16)
        } else {
            (with_mem(g, addr, v | (1u8 << y)), 16)
        }
    } else {
        let r = operand_reg(z);
        let v = reg8_val(c, r);
        if x == 0 {
            let res = rot_val(y, v, c_of(c.f));
            let c1 = with_reg8(c, r, res);
            (with_cpu(g, CPU { f: flags_byte(res == 0, false, false, rot_carry(y, v)), ..c1 }), 8)
        } else if x == 1 {
            (with_cpu(g, bit_test_cpu(c, y, v)), 8)
        } else if x == 2 {
            (with_cpu(g, with_reg8(c, r, v & !(1u8 << y))), 8)
        } else {
            (with_cpu(g, with_reg8(c, r, v | (1u8 << y))), 8)
        }
    }
}

/// Execute one opcode of the extended table.  The cost returned here is in
/// addition to the 4 cycles consumed by the prefix byte itself.
pub fn execute_prefixed(gb: &mut Gameboy, opcode: u8) -> (result: i64)
    requires
        old(gb).wf(),
    ensures
        final(gb).wf(),
        ({
            let (g2, cyc) = spec_exec_prefixed(old(gb)@, opcode);
            final(gb)@ == g2 && result == cyc
        }),
        8 <= result <= 16,
{
    proof {
        reveal(spec_exec_prefixed);
    }
    let x: u8 = opcode / 0x40;
    let y: u8 = (opcode / 8) % 8;
    let z: u8 = opcode % 8;
    if z == 6 {
        let addr: u16 = gb.cpu.get_hl();
        let v: u8 = read_mem(gb, addr);
        if x == 0 {
            let cf: bool = gb.cpu.get_c_flag();
            let (res, carry) = rot_exec(y, v, cf);
            write_mem(gb, addr, res);
            gb.cpu.set_flags(res == 0, false, false, carry);
            16
        } else if x == 1 {
            bit_test(&mut gb.cpu, y, v);
            12
        } else if x == 2 {
            write_mem(gb, addr, v & !(1u8 << y));
            16
        } else {
            write_mem(gb, addr, v | (1u8 << y));
            16
        }
    } else {
        let rg: Reg8 = table_reg(z);
        let v: u8 = gb.cpu.get_register_8bit(rg);
        if x == 0 {
            let cf: bool = gb.cpu.get_c_flag();
            let (res, carry) = rot_exec(y, v, cf);
            gb.cpu.set_register_8bit(rg, res);
            gb.cpu.set_flags(res == 0, false, false, carry);
            8
        } else if x == 1 {
            bit_test(&mut gb.cpu, y, v);
            8
        } else if x == 2 {
            gb.cpu.set_register_8bit(rg, v & !(1u8 << y));
            8
        } else {
            gb.cpu.set_register_8bit(rg, v | (1u8 << y));
            8
        }
    }
}

// ---------------------------------------------------------------------------
// Primary table, rows 0xC0..=0xFF (control flow, stack, immediate ALU)
// ---------------------------------------------------------------------------

/// Whether an opcode is one of the architecturally-illegal primary opcodes.
/// Fetching one of these halts the machine with an error.
pub open spec fn is_illegal(op: u8) -> bool {
    op == 0xD3 || op == 0xDB || op == 0xDD || op == 0xE3 || op == 0xE4 || op == 0xEB || op == 0xEC
        || op == 0xED || op == 0xF4 || op == 0xFC || op == 0xFD
}

/// Decide whether an opcode byte is one of the architecturally-illegal
/// primary opcodes.
pub fn is_illegal_opcode(op: u8) -> (result: bool)
    ensures
        result == is_illegal(op),
{
    op == 0xD3 || op == 0xDB || op == 0xDD || op == 0xE3 || op == 0xE4 || op == 0xEB || op == 0xEC
        || op == 0xED || op == 0xF4 || op == 0xFC || op == 0xFD
}

/// The machine after a return: PC is popped from the stack.
pub open spec fn spec_ret(g: GameboyView) -> GameboyView {
    with_cpu(g, CPU { pc: popped_val(g), sp: word_add(g.cpu.sp, 2), ..g.cpu })
}

/// Effect of a conditional return: taken costs 20 cycles, not taken 8.
pub open spec fn spec_ret_arm(g: GameboyView, cond: bool) -> (GameboyView, int) {
    if cond {
        (spec_ret(g), 20)
    } else {
        (g, 8)
    }
}

/// Effect of a conditional absolute jump: the 16-bit address operand is
/// always fetched; taken costs 16 cycles, not taken 12.
pub open spec fn spec_jp_arm(g: GameboyView, cond: bool) -> (GameboyView, int) {
    let (g1, addr) = fetched16(g);
    if cond {
        (with_cpu(g1, CPU { pc: addr, ..g1.cpu }), 16)
    } else {
        (g1, 12)
    }
}

/// Effect of a conditional call: the address operand is always fetched; when
/// taken, the address of the following instruction is pushed and PC is set,
/// for 24 cycles; not taken costs 12.
pub open spec fn spec_call_arm(g: GameboyView, cond: bool) -> (GameboyView, int) {
    let (g1, addr) = fetched16(g);
    if cond {
        let g2 = pushed(g1, g1.cpu.pc);
        (with_cpu(g2, CPU { pc: addr, ..g2.cpu }), 24)
    } else {
        (g1, 12)
    }
}

/// Effect of a restart: the current PC is pushed and PC is set to the fixed
/// target.
pub open spec fn spec_rst(g: GameboyView, target: u16) -> GameboyView {
    let g1 = pushed(g, g.cpu.pc);
    with_cpu(g1, CPU { pc: target, ..g1.cpu })
}

/// The machine halted with an error after fetching an illegal opcode.
pub open spec fn spec_halted(g: GameboyView) -> GameboyView {
    GameboyView { state: MachineState::HaltedError, ..g }
}

/// Pop the program counter from the stack.
fn ret_op(gb: &mut Gameboy)
    requires
        old(gb).wf(),
    ensures
        final(gb).wf(),
        final(gb)@ == spec_ret(old(gb)@),
{
    let sp: u16 = gb.cpu.get_sp();
    let lo: u8 = read_mem(gb, sp);
    let hi_addr: u16 = ((sp as u32 + 1) % 0x10000) as u16;
    let hi: u8 = read_mem(gb, hi_addr);
    gb.cpu.set_pc((hi as u16) * 0x100 + (lo as u16));
    gb.cpu.set_sp(((sp as u32 + 2) % 0x10000) as u16);
}

/// Return when the condition holds (20 cycles), else fall through (8).
fn ret_arm(gb: &mut Gameboy, cond: bool) -> (result: i64)
    requires
        old(gb).wf(),
    ensures
        final(gb).wf(),
        ({
            let (g2, cyc) = spec_ret_arm(old(gb)@, cond);
            final(gb)@ == g2 && result == cyc
        }),
{
    if cond {
        ret_op(gb);
        20
    } else {
        8
    }
}

/// Fetch an address operand and jump to it when the condition holds.
fn jp_arm(gb: &mut Gameboy, cond: bool) -> (result: i64)
    requires
        old(gb).wf(),
    ensures
        final(gb).wf(),
        ({
            let (g2, cyc) = spec_jp_arm(old(gb)@, cond);
            final(gb)@ == g2 && result == cyc
        }),
{
    let addr: u16 = crate::gameboy::read_short(gb);
    if cond {
        gb.cpu.set_pc(addr);
        16
    } else {
        12
    }
}

/// Fetch an address operand; when the condition holds, push the return
/// address and jump to it.
fn call_arm(gb: &mut Gameboy, cond: bool) -> (result: i64)
    requires
        old(gb).wf(),
    ensures
        final(gb).wf(),
        ({
            let (g2, cyc) = spec_call_arm(old(gb)@, cond);
            final(gb)@ == g2 && result == cyc
        }),
{
    let addr: u16 = crate::gameboy::read_short(gb);
    if cond {
        let ret: u16 = gb.cpu.get_pc();
        push_word(gb, ret);
        gb.cpu.set_pc(addr);
        24
    } else {
        12
    }
}

/// Push the current PC and jump to a fixed restart target.
fn rst_to(gb: &mut Gameboy, target: u16) -> (result: i64)
    requires
        old(gb).wf(),
    ensures
        final(gb).wf(),
        final(gb)@ == spec_rst(old(gb)@, target),
        result == 16,
{
    let ret: u16 = gb.cpu.get_pc();
    push_word(gb, ret);
    gb.cpu.set_pc(target);
    16
}

/// Fetch an 8-bit immediate and apply the accumulator ALU operation `y`.
fn alu_imm_arm(gb: &mut Gameboy, y: u8) -> (result: i64)
    requires
        old(gb).wf(),
        y < 8,
    ensures
        final(gb).wf(),
        final(gb)@ == ({
            let (g1, v) = fetched8(old(gb)@);
            with_cpu(g1, alu8_cpu(g1.cpu, y, v))
        }),
        result == 8,
{
    let v: u8 = crate::gameboy::read_byte(gb) as u8;
    alu_op(gb, y, v);
    8
}

/// Effect and cycle cost of each opcode in rows 0xC0..=0xFF of the primary
/// table; the architecturally-illegal opcodes halt the machine with an error
/// and consume no cycles.
#[verifier::opaque]
pub open spec fn spec_exec_control(g: GameboyView, op: u8) -> (GameboyView, int) {
    let c = g.cpu;
    match op {
        0xC0u8 => spec_ret_arm(g, !z_of(c.f)),  // RET NZ
        0xC1u8 => (popped_into(g, Reg16::BC), 12),  // POP BC
        0xC2u8 => spec_jp_arm(g, !z_of(c.f)),  // JP NZ,a16
        0xC3u8 => spec_jp_arm(g, true),  // JP a16
        0xC4u8 => spec_call_arm(g, !z_of(c.f)),  // CALL NZ,a16
        0xC5u8 => (pushed(g, pair(c.b, c.c)), 16),  // PUSH BC
        0xC6u8 => {  // ADD A,n8
            let (g1, v) = fetched8(g);
            (with_cpu(g1, alu8_cpu(g1.cpu, 0, v)), 8)
        },
        0xC7u8 => (spec_rst(g, 0x00), 16),  // RST 00H
        0xC8u8 => spec_ret_arm(g, z_of(c.f)),  // RET Z
        0xC9u8 => (spec_ret(g), 16),  // RET
        0xCAu8 => spec_jp_arm(g, z_of(c.f)),  // JP Z,a16
        0xCBu8 => {  // PREFIX: dispatch the next byte in the extended table
            let (g1, op2) = fetched8(g);
            let (g2, cyc) = spec_exec_prefixed(g1, op2);
            (g2, 4 + cyc)
        },
        0xCCu8 => spec_call_arm(g, z_of(c.f)),  // CALL Z,a16
        0xCDu8 => spec_call_arm(g, true),  // CALL a16
        0xCEu8 => {  // ADC A,n8
            let (g1, v) = fetched8(g);
            (with_cpu(g1, alu8_cpu(g1.cpu, 1, v)), 8)
        },
        0xCFu8 => (spec_rst(g, 0x08), 16),  // RST 08H
        0xD0u8 => spec_ret_arm(g, !c_of(c.f)),  // RET NC
        0xD1u8 => (popped_into(g, Reg16::DE), 12),  // POP DE
        0xD2u8 => spec_jp_arm(g, !c_of(c.f)),  // JP NC,a16
        0xD3u8 => (spec_halted(g), 0),  // illegal
        0xD4u8 => spec_call_arm(g, !c_of(c.f)),  // CALL NC,a16
        0xD5u8 => (pushed(g, pair(c.d, c.e)), 16),  // PUSH DE
        0xD6u8 => {  // SUB n8
            let (g1, v) = fetched8(g);
            (with_cpu(g1, alu8_cpu(g1.cpu, 2, v)), 8)
        },
        0xD7u8 => (spec_rst(g, 0x10), 16),  // RST 10H
        0xD8u8 => spec_ret_arm(g, c_of(c.f)),  // RET C
        0xD9u8 => (spec_ret(g), 16),  // RETI: interrupt enable is out of scope
        0xDAu8 => spec_jp_arm(g, c_of(c.f)),  // JP C,a16
        0xDBu8 => (spec_halted(g), 0),  // illegal
        0xDCu8 => spec_call_arm(g, c_of(c.f)),  // CALL C,a16
        0xDDu8 => (spec_halted(g), 0),  // illegal
        0xDEu8 => {  // SBC A,n8
            let (g1, v) = fetched8(g);
            (with_cpu(g1, alu8_cpu(g1.cpu, 3, v)), 8)
        },
        0xDFu8 => (spec_rst(g, 0x18), 16),  // RST 18H
        0xE0u8 => {  // LDH (a8),A
            let (g1, n) = fetched8(g);
            (with_mem(g1, (0xFF00 + n) as u16, g1.cpu.a), 12)
        },
        0xE1u8 => (popped_into(g, Reg16::HL), 12),  // POP HL
        0xE2u8 => (with_mem(g, (0xFF00 + c.c) as u16, c.a), 8),  // LD (C),A
        0xE3u8 => (spec_halted(g), 0),  // illegal
        0xE4u8 => (spec_halted(g), 0),  // illegal
        0xE5u8 => (pushed(g, pair(c.h, c.l)), 16),  // PUSH HL
        0xE6u8 => {  // AND n8
            let (g1, v) = fetched8(g);
            (with_cpu(g1, alu8_cpu(g1.cpu, 4, v)), 8)
        },
        0xE7u8 => (spec_rst(g, 0x20), 16),  // RST 20H
        0xE8u8 => {  // ADD SP,e8
            let (g1, db) = fetched8(g);
            (with_cpu(
                g1,
                CPU {
                    sp: jr_target(g1.cpu.sp, signed_disp(db)),
                    f: sp_disp_flags(g1.cpu.sp, db),
                    ..g1.cpu
                },
            ), 16)
        },
        0xE9u8 => (with_cpu(g, CPU { pc: pair(c.h, c.l), ..c }), 4),  // JP HL
        0xEAu8 => {  // LD (a16),A
            let (g1, addr) = fetched16(g);
            (with_mem(g1, addr, g1.cpu.a), 16)
        },
        0xEBu8 => (spec_halted(g), 0),  // illegal
        0xECu8 => (spec_halted(g), 0),  // illegal
        0xEDu8 => (spec_halted(g), 0),  // illegal
        0xEEu8 => {  // XOR n8
            let (g1, v) = fetched8(g);
            (with_cpu(g1, alu8_cpu(g1.cpu, 5, v)), 8)
        },
        0xEFu8 => (spec_rst(g, 0x28), 16),  // RST 28H
        0xF0u8 => {  // LDH A,(a8)
            let (g1, n) = fetched8(g);
            (with_cpu(g1, CPU { a: mem(g1, (0xFF00 + n) as u16), ..g1.cpu }), 12)
        },
        0xF1u8 => (popped_into(g, Reg16::AF), 12),  // POP AF
        0xF2u8 => (with_cpu(g, CPU { a: mem(g, (0xFF00 + c.c) as u16), ..c }), 8),  // LD A,(C)
        0xF3u8 => (g, 4),  // DI: interrupt machinery is out of scope, cost only
        0xF4u8 => (spec_halted(g), 0),  // illegal
        0xF5u8 => (pushed(g, pair(c.a, c.f)), 16),  // PUSH AF
        0xF6u8 => {  // OR n8
            let (g1, v) = fetched8(g);
            (with_cpu(g1, alu8_cpu(g1.cpu, 6, v)), 8)
        },
        0xF7u8 => (spec_rst(g, 0x30), 16),  // RST 30H
        0xF8u8 => {  // LD HL,SP+e8
            let (g1, db) = fetched8(g);
            let res = jr_target(g1.cpu.sp, signed_disp(db));
            (with_cpu(
                g1,
                CPU {
                    h: hi_byte(res),
                    l: lo_byte(res),
                    f: sp_disp_flags(g1.cpu.sp, db),
                    ..g1.cpu
                },
            ), 12)
        },
        0xF9u8 => (with_cpu(g, with_reg16(c, Reg16::SP, pair(c.h, c.l))), 8),  // LD SP,HL
        0xFAu8 => {  // LD A,(a16)
            let (g1, addr) = fetched16(g);
            (with_cpu(g1, CPU { a: mem(g1, addr), ..g1.cpu }), 16)
        },
        0xFBu8 => (g, 4),  // EI: interrupt machinery is out of scope, cost only
        0xFCu8 => (spec_halted(g), 0),  // illegal
        0xFDu8 => (spec_halted(g), 0),  // illegal
        0xFEu8 => {  // CP n8
            let (g1, v) = fetched8(g);
            (with_cpu(g1, alu8_cpu(g1.cpu, 7, v)), 8)
        },
        _ => (spec_rst(g, 0x38), 16),  // RST 38H (0xFF)
    }
}

/// Execute one opcode from rows 0xC0..=0xFF of the primary table.
#[verifier::rlimit(100)]
fn execute_control(gb: &mut Gameboy, opcode: u8) -> (result: i64)
    requires
        old(gb).wf(),
        0xC0 <= opcode,
    ensures
        final(gb).wf(),
        ({
            let (g2, cyc) = spec_exec_control(old(gb)@, opcode);
            final(gb)@ == g2 && result == cyc
        }),
        is_illegal(opcode) ==> result == 0,
        is_illegal(opcode) ==> final(gb)@.state is HaltedError,
        !is_illegal(opcode) ==> 4 <= result <= 24,
{
    proof {
        reveal(spec_exec_control);
    }
    match opcode {
        0xC0 => {
            let cond: bool = !gb.cpu.get_z_flag();
            ret_arm(gb, cond)
        },
        0xC1 => {
            pop_into(gb, Reg16::BC);
            12
        },
        0xC2 => {
            let cond: bool = !gb.cpu.get_z_flag();
            jp_arm(gb, cond)
        },
        0xC3 => jp_arm(gb, true),
        0xC4 => {
            let cond: bool = !gb.cpu.get_z_flag();
            call_arm(gb, cond)
        },
        0xC5 => {
            let v: u16 = gb.cpu.get_bc();
            push_word(gb, v);
            16
        },
        0xC6 => alu_imm_arm(gb, 0),
        0xC7 => rst_to(gb, 0x00),
        0xC8 => {
            let cond: bool = gb.cpu.get_z_flag();
            ret_arm(gb, cond)
        },
        0xC9 => {
            ret_op(gb);
            16
        },
        0xCA => {
            let cond: bool = gb.cpu.get_z_flag();
            jp_arm(gb, cond)
        },
        0xCB => {
            let op2: u8 = crate::gameboy::read_byte(gb) as u8;
            4 + execute_prefixed(gb, op2)
        },
        0xCC => {
            let cond: bool = gb.cpu.get_z_flag();
            call_arm(gb, cond)
        },
        0xCD => call_arm(gb, true),
        0xCE => alu_imm_arm(gb, 1),
        0xCF => rst_to(gb, 0x08),
        0xD0 => {
            let cond: bool = !gb.cpu.get_c_flag();
            ret_arm(gb, cond)
        },
        0xD1 => {
            pop_into(gb, Reg16::DE);
            12
        },
        0xD2 => {
            let cond: bool = !gb.cpu.get_c_flag();
            jp_arm(gb, cond)
        },
        0xD4 => {
            let cond: bool = !gb.cpu.get_c_flag();
            call_arm(gb, cond)
        },
        0xD5 => {
            let v: u16 = gb.cpu.get_de();
            push_word(gb, v);
            16
        },
        0xD6 => alu_imm_arm(gb, 2),
        0xD7 => rst_to(gb, 0x10),
        0xD8 => {
            let cond: bool = gb.cpu.get_c_flag();
            ret_arm(gb, cond)
        },
        0xD9 => {
            ret_op(gb);
            16
        },
        0xDA => {
            let cond: bool = gb.cpu.get_c_flag();
            jp_arm(gb, cond)
        },
        0xDC => {
            let cond: bool = gb.cpu.get_c_flag();
            call_arm(gb, cond)
        },
        0xDE => alu_imm_arm(gb, 3),
        0xDF => rst_to(gb, 0x18),
        0xE0 => {
            let n: u8 = crate::gameboy::read_byte(gb) as u8;
            let v: u8 = gb.cpu.get_a();
            write_mem(gb, 0xFF00 + n as u16, v);
            12
        },
        0xE1 => {
            pop_into(gb, Reg16::HL);
            12
        },
        0xE2 => {
            let n: u8 = gb.cpu.get_c();
            let v: u8 = gb.cpu.get_a();
            write_mem(gb, 0xFF00 + n as u16, v);
            8
        },
        0xE5 => {
            let v: u16 = gb.cpu.get_hl();
            push_word(gb, v);
            16
        },
        0xE6 => alu_imm_arm(gb, 4),
        0xE7 => rst_to(gb, 0x20),
        0xE8 => {
            let db: u8 = crate::gameboy::read_byte(gb) as u8;
            let sp: u16 = gb.cpu.get_sp();
            let target: u16 = word_disp_exec(sp, db);
            gb.cpu.set_sp(target);
            gb.cpu.set_flags(false, false, sp % 16 + db as u16 % 16 > 15, sp % 0x100 + db as u16 > 0xFF);
            16
        },
        0xE9 => {
            let hl: u16 = gb.cpu.get_hl();
            gb.cpu.set_pc(hl);
            4
        },
        0xEA => {
            let addr: u16 = crate::gameboy::read_short(gb);
            let v: u8 = gb.cpu.get_a();
            write_mem(gb, addr, v);
            16
        },
        0xEE => alu_imm_arm(gb, 5),
        0xEF => rst_to(gb, 0x28),
        0xF0 => {
            let n: u8 = crate::gameboy::read_byte(gb) as u8;
            let v: u8 = read_mem(gb, 0xFF00 + n as u16);
            gb.cpu.set_a(v);
            12
        },
        0xF1 => {
            pop_into(gb, Reg16::AF);
            12
        },
        0xF2 => {
            let n: u8 = gb.cpu.get_c();
            let v: u8 = read_mem(gb, 0xFF00 + n as u16);
            gb.cpu.set_a(v);
            8
        },
        0xF3 => 4,
        0xF5 => {
            let v: u16 = gb.cpu.get_af();
            push_word(gb, v);
            16
        },
        0xF6 => alu_imm_arm(gb, 6),
        0xF7 => rst_to(gb, 0x30),
        0xF8 => {
            let db: u8 = crate::gameboy::read_byte(gb) as u8;
            let sp: u16 = gb.cpu.get_sp();
            let target: u16 = word_disp_exec(sp, db);
            gb.cpu.set_hl(target);
            gb.cpu.set_flags(false, false, sp % 16 + db as u16 % 16 > 15, sp % 0x100 + db as u16 > 0xFF);
            12
        },
        0xF9 => {
            load_register_16bit(gb, Reg16::SP, Reg16::HL);
            8
        },
        0xFA => {
            let addr: u16 = crate::gameboy::read_short(gb);
            let v: u8 = read_mem(gb, addr);
            gb.cpu.set_a(v);
            16
        },
        0xFB => 4,
        0xFE => alu_imm_arm(gb, 7),
        0xFF => rst_to(gb, 0x38),
        _ => {
            // One of the architecturally-illegal opcodes: enter the terminal
            // Halted-Error state and consume no cycles.
            gb.state = MachineState::HaltedError;
            0
        },
    }
}

/// Effect and cycle cost of any primary-table opcode on the machine.
pub open spec fn spec_execute(g: GameboyView, op: u8) -> (GameboyView, int) {
    if op < 0x40 {
        spec_exec_misc(g, op)
    } else if op < 0x80 {
        spec_exec_load(g, op)
    } else if op < 0xC0 {
        spec_exec_alu(g, op)
    } else {
        spec_exec_control(g, op)
    }
}

/// Round-trip law for relative jumps: two relative jumps whose displacements
/// cancel restore the program counter, for every starting value and
/// displacement pair.
pub proof fn lemma_jump_relative_round_trip(pc: u16, d1: i16, d2: i16)
    requires
        d1 + d2 == 0,
    ensures
        jr_target(jr_target(pc, d1), d2) == pc,
{
    let m: int = 0x10000;
    let x: int = pc + d1;
    vstd::arithmetic::div_mod::lemma_fundamental_div_mod(x, m);
    let k: int = x / m;
    assert(jr_target(pc, d1) == x - m * k);
    vstd::arithmetic::div_mod::lemma_mod_multiples_vanish(-k, pc as int, m);
    vstd::arithmetic::div_mod::lemma_small_mod(pc as nat, m as nat);
}

/// XOR-with-self law: when a register holds the same value as the
/// accumulator, XOR-ing it leaves zero in the target register and sets the
/// Zero flag.  (Register F is excluded: the operation itself rewrites the
/// flag byte.)
pub proof fn lemma_xor_self_zero(c: CPU, r: Reg8)
    requires
        reg8_val(c, r) == c.a,
        !(r is F),
    ensures
        reg8_val(xor_cpu(c, r), r) == 0,
        z_of(xor_cpu(c, r).f),
{
    let a = c.a;
    assert(a ^ a == 0) by (bit_vector);
    crate::cpu::lemma_flags_readback(true, false, false, false);
}

/// Execute one already-fetched primary-table opcode and return its cycle
/// cost.  An architecturally-illegal opcode moves the machine into the
/// terminal Halted-Error state and costs nothing; every other opcode costs
/// between 4 and 24 cycles and leaves the machine running.
pub fn execute_instruction(gb: &mut Gameboy, opcode: u8) -> (result: i64)
    requires
        old(gb).wf(),
        old(gb)@.state is Running,
    ensures
        final(gb).wf(),
        ({
            let (g2, cyc) = spec_execute(old(gb)@, opcode);
            final(gb)@ == g2 && result == cyc
        }),
        is_illegal(opcode) ==> result == 0,
        is_illegal(opcode) ==> final(gb)@.state is HaltedError,
        !is_illegal(opcode) ==> 4 <= result <= 24,
{
    if opcode < 0x40 {
        execute_misc(gb, opcode)
    } else if opcode < 0x80 {
        execute_load_group(gb, opcode)
    } else if opcode < 0xC0 {
        execute_alu_group(gb, opcode)
    } else {
        execute_control(gb, opcode)
    }
}

} // verus!
