//! The register file: eight 8-bit registers, the two 16-bit registers PC and
//! SP, and the four status flags held in the high nibble of register F.
//!
//! Register pairs (AF, BC, DE, HL) are views over the 8-bit halves; the halves
//! are the single source of truth.  The low nibble of F is architecturally
//! always zero, so every write to F masks it out.

use vstd::prelude::*;

verus! {

/// Clock rate of the emulated core, in hardware ticks per second.
pub const CPU_FREQUENCY: i64 = 4194304;

/// The four status flag bits, read back from a flag byte.
pub open spec fn z_of(f: u8) -> bool {
    (f & 0x80) != 0
}

pub open spec fn n_of(f: u8) -> bool {
    (f & 0x40) != 0
}

pub open spec fn h_of(f: u8) -> bool {
    (f & 0x20) != 0
}

pub open spec fn c_of(f: u8) -> bool {
    (f & 0x10) != 0
}

/// The flag byte with the given Zero, Subtract, Half-carry and Carry bits and
/// a zero low nibble.
pub open spec fn flags_byte(z: bool, n: bool, h: bool, c: bool) -> u8 {
    (if z { 0x80u8 } else { 0u8 }) | (if n { 0x40u8 } else { 0u8 }) | (if h { 0x20u8 } else {
        0u8
    }) | (if c { 0x10u8 } else { 0u8 })
}

/// A flag byte with its low nibble forced to zero.
pub open spec fn f_masked(v: u8) -> u8 {
    ((v / 16) * 16) as u8
}

/// The 16-bit value of a register pair: high byte times 256 plus low byte.
pub open spec fn pair(hi: u8, lo: u8) -> u16 {
    (hi * 0x100 + lo) as u16
}

pub open spec fn hi_byte(v: u16) -> u8 {
    (v / 0x100) as u8
}

pub open spec fn lo_byte(v: u16) -> u8 {
    (v % 0x100) as u8
}

/// 16-bit addition with wraparound at 0xFFFF.
pub open spec fn word_add(a: u16, b: u16) -> u16 {
    (((a + b) % 0x10000) as u16)
}

/// 16-bit subtraction with wraparound at 0x0000.
pub open spec fn word_sub(a: u16, b: u16) -> u16 {
    (((a + 0x10000 - b) % 0x10000) as u16)
}

/// Operand descriptor for one 8-bit register, closed and fully enumerated so
/// that the dispatch tables cannot name an unknown register.
#[derive(Clone, Copy, Debug, PartialEq, Eq)]
pub enum Reg8 {
    A,
    B,
    C,
    D,
    E,
    F,
    H,
    L,
}

/// Operand descriptor for one 16-bit register or register pair.
#[derive(Clone, Copy, Debug, PartialEq, Eq)]
pub enum Reg16 {
    AF,
    BC,
    DE,
    HL,
    SP,
}

pub struct CPU {
    // 8-bit registers
    pub a: u8,  // Accumulator
    pub b: u8,  // General purpose
    pub c: u8,  // General purpose
    pub d: u8,  // General purpose
    pub e: u8,  // General purpose
    pub f: u8,  // Flags
    pub h: u8,  // General purpose
    pub l: u8,  // General purpose
    pub i: u8,  // Interrupt vector
    pub r: u8,  // Memory refresh
    // 16-bit registers
    pub pc: u16,  // Program counter
    pub sp: u16,  // Stack pointer
}

/// The documented power-on register state.
pub open spec fn boot_cpu() -> CPU {
    CPU {
        a: 0x01,
        b: 0x00,
        c: 0x13,
        d: 0x00,
        e: 0xD8,
        f: 0xB0,
        h: 0x01,
        l: 0x4D,
        i: 0,
        r: 0,
        pc: 0x0000,
        sp: 0xFFFE,
    }
}

/// The value of an 8-bit register selected by descriptor.
pub open spec fn reg8_val(c: CPU, r: Reg8) -> u8 {
    match r {
        Reg8::A => c.a,
        Reg8::B => c.b,
        Reg8::C => c.c,
        Reg8::D => c.d,
        Reg8::E => c.e,
        Reg8::F => c.f,
        Reg8::H => c.h,
        Reg8::L => c.l,
    }
}

/// The register file after writing an 8-bit register selected by descriptor;
/// a write to F masks the low nibble to zero.
pub open spec fn with_reg8(c: CPU, r: Reg8, v: u8) -> CPU {
    match r {
        Reg8::A => CPU { a: v, ..c },
        Reg8::B => CPU { b: v, ..c },
        Reg8::C => CPU { c: v, ..c },
        Reg8::D => CPU { d: v, ..c },
        Reg8::E => CPU { e: v, ..c },
        Reg8::F => CPU { f: f_masked(v), ..c },
        Reg8::H => CPU { h: v, ..c },
        Reg8::L => CPU { l: v, ..c },
    }
}

/// The value of a 16-bit register or pair selected by descriptor.
pub open spec fn reg16_val(c: CPU, r: Reg16) -> u16 {
    match r {
        Reg16::AF => pair(c.a, c.f),
        Reg16::BC => pair(c.b, c.c),
        Reg16::DE => pair(c.d, c.e),
        Reg16::HL => pair(c.h, c.l),
        Reg16::SP => c.sp,
    }
}

/// The register file after writing a 16-bit register or pair; both halves of a
/// pair are written atomically, and AF masks the low nibble of F to zero.
pub open spec fn with_reg16(c: CPU, r: Reg16, v: u16) -> CPU {
    match r {
        Reg16::AF => CPU { a: hi_byte(v), f: f_masked(lo_byte(v)), ..c },
        Reg16::BC => CPU { b: hi_byte(v), c: lo_byte(v), ..c },
        Reg16::DE => CPU { d: hi_byte(v), e: lo_byte(v), ..c },
        Reg16::HL => CPU { h: hi_byte(v), l: lo_byte(v), ..c },
        Reg16::SP => CPU { sp: v, ..c },
    }
}

impl Default for CPU {
    /// The documented power-on register state (the machine boot values).
    fn default() -> (result: CPU)
        ensures
            result == boot_cpu(),
    {
        CPU {
            a: 0x01,
            b: 0x00,
            c: 0x13,
            d: 0x00,
            e: 0xD8,
            f: 0xB0,
            h: 0x01,
            l: 0x4D,
            i: 0,
            r: 0,
            pc: 0x0000,
            sp: 0xFFFE,
        }
    }
}

impl CPU {
    /// A register file with every register zeroed.
    pub fn new() -> (result: CPU)
        ensures
            result == (CPU {
                a: 0,
                b: 0,
                c: 0,
                d: 0,
                e: 0,
                f: 0,
                h: 0,
                l: 0,
                i: 0,
                r: 0,
                pc: 0,
                sp: 0,
            }),
    {
        CPU { a: 0, b: 0, c: 0, d: 0, e: 0, f: 0, h: 0, l: 0, i: 0, r: 0, pc: 0, sp: 0 }
    }

    /// Advance the program counter by one, wrapping from 0xFFFF to 0x0000.
    pub fn increment_pc(&mut self)
        ensures
            *final(self) == (CPU { pc: word_add(old(self).pc, 1), ..*old(self) }),
    {
        self.pc = ((self.pc as u32 + 1) % 0x10000) as u16;
    }

    /// Write the Zero flag without disturbing the other flags; the low nibble
    /// of F stays masked to zero.
    pub fn set_z_flag(&mut self, value: bool)
        ensures
            *final(self) == (CPU {
                f: (old(self).f & 0x70) | (if value { 0x80u8 } else { 0u8 }),
                ..*old(self)
            }),
            z_of(final(self).f) == value,
            n_of(final(self).f) == n_of(old(self).f),
            h_of(final(self).f) == h_of(old(self).f),
            c_of(final(self).f) == c_of(old(self).f),
            final(self).f % 16 == 0,
    {
        proof {
            let f0 = self.f;
            let bit: u8 = if value { 0x80 } else { 0 };
            assert((((f0 & 0x70) | bit) & 0x80 != 0) == (bit == 0x80) && (((f0 & 0x70) | bit)
                & 0x40) == (f0 & 0x40) && (((f0 & 0x70) | bit) & 0x20) == (f0 & 0x20) && (((f0
                & 0x70) | bit) & 0x10) == (f0 & 0x10) && ((f0 & 0x70) | bit) % 16 == 0)
                by (bit_vector)
                requires
                    bit == 0x80 || bit == 0,
            ;
        }
        self.f = (self.f & 0x70) | (if value { 0x80u8 } else { 0u8 });
    }

    /// Write the Subtract flag without disturbing the other flags.
    pub fn set_n_flag(&mut self, value: bool)
        ensures
            *final(self) == (CPU {
                f: (old(self).f & 0xB0) | (if value { 0x40u8 } else { 0u8 }),
                ..*old(self)
            }),
            n_of(final(self).f) == value,
            z_of(final(self).f) == z_of(old(self).f),
            h_of(final(self).f) == h_of(old(self).f),
            c_of(final(self).f) == c_of(old(self).f),
            final(self).f % 16 == 0,
    {
        proof {
            let f0 = self.f;
            let bit: u8 = if value { 0x40 } else { 0 };
            assert((((f0 & 0xB0) | bit) & 0x40 != 0) == (bit == 0x40) && (((f0 & 0xB0) | bit)
                & 0x80) == (f0 & 0x80) && (((f0 & 0xB0) | bit) & 0x20) == (f0 & 0x20) && (((f0
                & 0xB0) | bit) & 0x10) == (f0 & 0x10) && ((f0 & 0xB0) | bit) % 16 == 0)
                by (bit_vector)
                requires
                    bit == 0x40 || bit == 0,
            ;
        }
        self.f = (self.f & 0xB0) | (if value { 0x40u8 } else { 0u8 });
    }

    /// Write the Half-carry flag without disturbing the other flags.
    pub fn set_h_flag(&mut self, value: bool)
        ensures
            *final(self) == (CPU {
                f: (old(self).f & 0xD0) | (if value { 0x20u8 } else { 0u8 }),
                ..*old(self)
            }),
            h_of(final(self).f) == value,
            z_of(final(self).f) == z_of(old(self).f),
            n_of(final(self).f) == n_of(old(self).f),
            c_of(final(self).f) == c_of(old(self).f),
            final(self).f % 16 == 0,
    {
        proof {
            let f0 = self.f;
            let bit: u8 = if value { 0x20 } else { 0 };
            assert((((f0 & 0xD0) | bit) & 0x20 != 0) == (bit == 0x20) && (((f0 & 0xD0) | bit)
                & 0x80) == (f0 & 0x80) && (((f0 & 0xD0) | bit) & 0x40) == (f0 & 0x40) && (((f0
                & 0xD0) | bit) & 0x10) == (f0 & 0x10) && ((f0 & 0xD0) | bit) % 16 == 0)
                by (bit_vector)
                requires
                    bit == 0x20 || bit == 0,
            ;
        }
        self.f = (self.f & 0xD0) | (if value { 0x20u8 } else { 0u8 });
    }

    /// Write the Carry flag without disturbing the other flags.
    pub fn set_c_flag(&mut self, value: bool)
        ensures
            *final(self) == (CPU {
                f: (old(self).f & 0xE0) | (if value { 0x10u8 } else { 0u8 }),
                ..*old(self)
            }),
            c_of(final(self).f) == value,
            z_of(final(self).f) == z_of(old(self).f),
            n_of(final(self).f) == n_of(old(self).f),
            h_of(final(self).f) == h_of(old(self).f),
            final(self).f % 16 == 0,
    {
        proof {
            let f0 = self.f;
            let bit: u8 = if value { 0x10 } else { 0 };
            assert((((f0 & 0xE0) | bit) & 0x10 != 0) == (bit == 0x10) && (((f0 & 0xE0) | bit)
                & 0x80) == (f0 & 0x80) && (((f0 & 0xE0) | bit) & 0x40) == (f0 & 0x40) && (((f0
                & 0xE0) | bit) & 0x20) == (f0 & 0x20) && ((f0 & 0xE0) | bit) % 16 == 0)
                by (bit_vector)
                requires
                    bit == 0x10 || bit == 0,
            ;
        }
        self.f = (self.f & 0xE0) | (if value { 0x10u8 } else { 0u8 });
    }

    /// Replace all four flags at once; the low nibble of F becomes zero.
    pub fn set_flags(&mut self, z: bool, n: bool, h: bool, c: bool)
        ensures
            *final(self) == (CPU { f: flags_byte(z, n, h, c), ..*old(self) }),
    {
        self.f = (if z { 0x80u8 } else { 0u8 }) | (if n { 0x40u8 } else { 0u8 }) | (if h {
            0x20u8
        } else { 0u8 }) | (if c { 0x10u8 } else { 0u8 });
    }

    pub fn get_z_flag(&self) -> (result: bool)
        ensures
            result == z_of(self.f),
    {
        (self.f & 0x80) != 0
    }

    pub fn get_n_flag(&self) -> (result: bool)
        ensures
            result == n_of(self.f),
    {
        (self.f & 0x40) != 0
    }

    pub fn get_h_flag(&self) -> (result: bool)
        ensures
            result == h_of(self.f),
    {
        (self.f & 0x20) != 0
    }

    pub fn get_c_flag(&self) -> (result: bool)
        ensures
            result == c_of(self.f),
    {
        (self.f & 0x10) != 0
    }

    pub fn get_a(&self) -> (result: u8)
        ensures
            result == self.a,
    {
        self.a
    }

    pub fn get_b(&self) -> (result: u8)
        ensures
            result == self.b,
    {
        self.b
    }

    pub fn get_c(&self) -> (result: u8)
        ensures
            result == self.c,
    {
        self.c
    }

    pub fn get_d(&self) -> (result: u8)
        ensures
            result == self.d,
    {
        self.d
    }

    pub fn get_e(&self) -> (result: u8)
        ensures
            result == self.e,
    {
        self.e
    }

    pub fn get_f(&self) -> (result: u8)
        ensures
            result == self.f,
    {
        self.f
    }

    pub fn get_h(&self) -> (result: u8)
        ensures
            result == self.h,
    {
        self.h
    }

    pub fn get_l(&self) -> (result: u8)
        ensures
            result == self.l,
    {
        self.l
    }

    pub fn get_i(&self) -> (result: u8)
        ensures
            result == self.i,
    {
        self.i
    }

    pub fn get_r(&self) -> (result: u8)
        ensures
            result == self.r,
    {
        self.r
    }

    pub fn get_pc(&self) -> (result: u16)
        ensures
            result == self.pc,
    {
        self.pc
    }

    pub fn get_sp(&self) -> (result: u16)
        ensures
            result == self.sp,
    {
        self.sp
    }

    pub fn get_hl(&self) -> (result: u16)
        ensures
            result == pair(self.h, self.l),
    {
        (self.h as u16) * 0x100 + (self.l as u16)
    }

    pub fn get_af(&self) -> (result: u16)
        ensures
            result == pair(self.a, self.f),
    {
        (self.a as u16) * 0x100 + (self.f as u16)
    }

    pub fn get_bc(&self) -> (result: u16)
        ensures
            result == pair(self.b, self.c),
    {
        (self.b as u16) * 0x100 + (self.c as u16)
    }

    pub fn get_de(&self) -> (result: u16)
        ensures
            result == pair(self.d, self.e),
    {
        (self.d as u16) * 0x100 + (self.e as u16)
    }

    pub fn set_a(&mut self, value: u8)
        ensures
            *final(self) == (CPU { a: value, ..*old(self) }),
    {
        self.a = value;
    }

    pub fn set_b(&mut self, value: u8)
        ensures
            *final(self) == (CPU { b: value, ..*old(self) }),
    {
        self.b = value;
    }

    pub fn set_c(&mut self, value: u8)
        ensures
            *final(self) == (CPU { c: value, ..*old(self) }),
    {
        self.c = value;
    }

    pub fn set_d(&mut self, value: u8)
        ensures
            *final(self) == (CPU { d: value, ..*old(self) }),
    {
        self.d = value;
    }

    pub fn set_e(&mut self, value: u8)
        ensures
            *final(self) == (CPU { e: value, ..*old(self) }),
    {
        self.e = value;
    }

    /// Write the flag register; the architecturally-zero low nibble is masked
    /// out on every write.
    pub fn set_f(&mut self, value: u8)
        ensures
            *final(self) == (CPU { f: f_masked(value), ..*old(self) }),
    {
        self.f = (value / 16) * 16;
    }

    pub fn set_h(&mut self, value: u8)
        ensures
            *final(self) == (CPU { h: value, ..*old(self) }),
    {
        self.h = value;
    }

    pub fn set_l(&mut self, value: u8)
        ensures
            *final(self) == (CPU { l: value, ..*old(self) }),
    {
        self.l = value;
    }

    pub fn set_i(&mut self, value: u8)
        ensures
            *final(self) == (CPU { i: value, ..*old(self) }),
    {
        self.i = value;
    }

    pub fn set_r(&mut self, value: u8)
        ensures
            *final(self) == (CPU { r: value, ..*old(self) }),
    {
        self.r = value;
    }

    pub fn set_pc(&mut self, value: u16)
        ensures
            *final(self) == (CPU { pc: value, ..*old(self) }),
    {
        self.pc = value;
    }

    pub fn set_sp(&mut self, value: u16)
        ensures
            *final(self) == (CPU { sp: value, ..*old(self) }),
    {
        self.sp = value;
    }

    /// Write the AF pair atomically: A gets the high byte, F gets the low byte
    /// with its low nibble masked to zero.
    pub fn set_af(&mut self, value: u16)
        ensures
            *final(self) == (CPU {
                a: hi_byte(value),
                f: f_masked(lo_byte(value)),
                ..*old(self)
            }),
    {
        self.a = (value / 0x100) as u8;
        let lo: u8 = (value % 0x100) as u8;
        self.f = (lo / 16) * 16;
    }

    pub fn set_bc(&mut self, value: u16)
        ensures
            *final(self) == (CPU { b: hi_byte(value), c: lo_byte(value), ..*old(self) }),
    {
        self.b = (value / 0x100) as u8;
        self.c = (value % 0x100) as u8;
    }

    pub fn set_de(&mut self, value: u16)
        ensures
            *final(self) == (CPU { d: hi_byte(value), e: lo_byte(value), ..*old(self) }),
    {
        self.d = (value / 0x100) as u8;
        self.e = (value % 0x100) as u8;
    }

    pub fn set_hl(&mut self, value: u16)
        ensures
            *final(self) == (CPU { h: hi_byte(value), l: lo_byte(value), ..*old(self) }),
    {
        self.h = (value / 0x100) as u8;
        self.l = (value % 0x100) as u8;
    }

    /// Read an 8-bit register through its closed operand descriptor.
    pub fn get_register_8bit(&self, register: Reg8) -> (result: u8)
        ensures
            result == reg8_val(*self, register),
    {
        match register {
            Reg8::A => self.a,
            Reg8::B => self.b,
            Reg8::C => self.c,
            Reg8::D => self.d,
            Reg8::E => self.e,
            Reg8::F => self.f,
            Reg8::H => self.h,
            Reg8::L => self.l,
        }
    }

    /// Read a 16-bit register or pair through its closed operand descriptor.
    pub fn get_register_16bit(&self, register: Reg16) -> (result: u16)
        ensures
            result == reg16_val(*self, register),
    {
        match register {
            Reg16::AF => self.get_af(),
            Reg16::BC => self.get_bc(),
            Reg16::DE => self.get_de(),
            Reg16::HL => self.get_hl(),
            Reg16::SP => self.get_sp(),
        }
    }

    /// Write an 8-bit register through its closed operand descriptor.
    pub fn set_register_8bit(&mut self, register: Reg8, value: u8)
        ensures
            *final(self) == with_reg8(*old(self), register, value),
    {
        match register {
            Reg8::A => self.a = value,
            Reg8::B => self.b = value,
            Reg8::C => self.c = value,
            Reg8::D => self.d = value,
            Reg8::E => self.e = value,
            Reg8::F => self.set_f(value),
            Reg8::H => self.h = value,
            Reg8::L => self.l = value,
        }
    }

    /// Write a 16-bit register or pair through its closed operand descriptor.
    pub fn set_register_16bit(&mut self, register: Reg16, value: u16)
        ensures
            *final(self) == with_reg16(*old(self), register, value),
    {
        match register {
            Reg16::AF => self.set_af(value),
            Reg16::BC => self.set_bc(value),
            Reg16::DE => self.set_de(value),
            Reg16::HL => self.set_hl(value),
            Reg16::SP => self.set_sp(value),
        }
    }
}

/// Reading back any flag of a freshly written flag byte yields the bit that
/// was written.
pub proof fn lemma_flags_readback(z: bool, n: bool, h: bool, c: bool)
    ensures
        z_of(flags_byte(z, n, h, c)) == z,
        n_of(flags_byte(z, n, h, c)) == n,
        h_of(flags_byte(z, n, h, c)) == h,
        c_of(flags_byte(z, n, h, c)) == c,
        flags_byte(z, n, h, c) % 16 == 0,
{
    let zb: u8 = if z { 0x80 } else { 0 };
    let nb: u8 = if n { 0x40 } else { 0 };
    let hb: u8 = if h { 0x20 } else { 0 };
    let cb: u8 = if c { 0x10 } else { 0 };
    assert((((zb | nb | hb | cb) & 0x80) != 0) == (zb == 0x80) && (((zb | nb | hb | cb) & 0x40)
        != 0) == (nb == 0x40) && (((zb | nb | hb | cb) & 0x20) != 0) == (hb == 0x20) && (((zb
        | nb | hb | cb) & 0x10) != 0) == (cb == 0x10) && (zb | nb | hb | cb) % 16 == 0)
        by (bit_vector)
        requires
            zb == 0x80 || zb == 0,
            nb == 0x40 || nb == 0,
            hb == 0x20 || hb == 0,
            cb == 0x10 || cb == 0,
    ;
}

/// Round-trip law for the register pairs: writing a 16-bit value through a
/// pair and reading the pair back returns the value, except that AF masks the
/// architecturally-zero low nibble of F.
pub proof fn lemma_pair_round_trip(c: CPU, p: Reg16, v: u16)
    ensures
        reg16_val(with_reg16(c, p, v), p) == if p is AF {
            v & 0xFFF0
        } else {
            v
        },
{
    vstd::arithmetic::div_mod::lemma_fundamental_div_mod(v as int, 0x100);
    if p is AF {
        let r: u16 = (v % 0x100) as u16;
        vstd::arithmetic::div_mod::lemma_fundamental_div_mod(r as int, 16);
        assert((v % 0x100) % 16 == v % 16) by (bit_vector);
        assert((v & 0xFFF0) == v - (v % 16)) by (bit_vector);
    }
}

} // verus!
