//! The processor's register file: four 16-bit pairs (`AF`, `BC`, `DE`, `HL`)
//! that each decompose into two named 8-bit halves, plus the independent
//! 16-bit stack pointer and program counter, and the 4-bit flag view over
//! the low half of `AF`.
//!
//! The load-bearing invariant of the model is coherence of the two views:
//! a pair's 16-bit value is always its high half times 256 plus its low
//! half, and no half accessor touches any other register's storage.

use vstd::prelude::*;

use crate::endian::combine_u16_le;
use crate::endian::split_u16_le;

verus! {

/// The four named processor flags, a projection of the top four bits of
/// the `F` register: bit 7 is Zero, bit 6 Subtract, bit 5 Half-carry,
/// bit 4 Carry. The bottom four bits of `F` carry no flag.
#[derive(Clone, Copy, Debug, PartialEq, Eq, Structural)]
pub struct CPUFlags {
    pub zero: bool,
    pub subtract: bool,
    pub half_carry: bool,
    pub carry: bool,
}

impl CPUFlags {
    /// The byte this flag set serializes to: the four flags in the top
    /// nibble, the bottom nibble zero.
    pub open spec fn as_byte(self) -> u8 {
        ((if self.zero { 128int } else { 0int })
            + (if self.subtract { 64int } else { 0int })
            + (if self.half_carry { 32int } else { 0int })
            + (if self.carry { 16int } else { 0int })) as u8
    }
}

/// The flag set read out of a raw `F` byte; only the top four bits are
/// consulted, whatever the bottom nibble holds.
pub open spec fn flags_of_byte(b: u8) -> CPUFlags {
    CPUFlags {
        zero: (b as int / 128) % 2 == 1,
        subtract: (b as int / 64) % 2 == 1,
        half_carry: (b as int / 32) % 2 == 1,
        carry: (b as int / 16) % 2 == 1,
    }
}

/// The mathematical model of the register file: each 8-bit half and the
/// two plain 16-bit registers by name.
pub ghost struct RegModel {
    pub a: u8,
    pub f: u8,
    pub b: u8,
    pub c: u8,
    pub d: u8,
    pub e: u8,
    pub h: u8,
    pub l: u8,
    pub sp: u16,
    pub pc: u16,
}

impl RegModel {
    /// The register file at power-on: every register zero.
    pub open spec fn zeroed() -> RegModel {
        RegModel { a: 0, f: 0, b: 0, c: 0, d: 0, e: 0, h: 0, l: 0, sp: 0, pc: 0 }
    }

    /// `AF` as one 16-bit value: `A` is the high byte, `F` the low byte.
    pub open spec fn af(self) -> u16 {
        (self.f + 256 * self.a) as u16
    }

    /// `BC` as one 16-bit value: `B` is the high byte, `C` the low byte.
    pub open spec fn bc(self) -> u16 {
        (self.c + 256 * self.b) as u16
    }

    /// `DE` as one 16-bit value: `D` is the high byte, `E` the low byte.
    pub open spec fn de(self) -> u16 {
        (self.e + 256 * self.d) as u16
    }

    /// `HL` as one 16-bit value: `H` is the high byte, `L` the low byte.
    pub open spec fn hl(self) -> u16 {
        (self.l + 256 * self.h) as u16
    }

    /// The model after writing `v` into the pair `AF`.
    pub open spec fn with_af(self, v: u16) -> RegModel {
        RegModel { a: (v as int / 256) as u8, f: (v as int % 256) as u8, ..self }
    }

    /// The model after writing `v` into the pair `BC`.
    pub open spec fn with_bc(self, v: u16) -> RegModel {
        RegModel { b: (v as int / 256) as u8, c: (v as int % 256) as u8, ..self }
    }

    /// The model after writing `v` into the pair `DE`.
    pub open spec fn with_de(self, v: u16) -> RegModel {
        RegModel { d: (v as int / 256) as u8, e: (v as int % 256) as u8, ..self }
    }

    /// The model after writing `v` into the pair `HL`.
    pub open spec fn with_hl(self, v: u16) -> RegModel {
        RegModel { h: (v as int / 256) as u8, l: (v as int % 256) as u8, ..self }
    }
}

/// The names of the four register pairs.
pub enum PairName {
    AF,
    BC,
    DE,
    HL,
}

/// The names of the eight 8-bit half registers.
pub enum HalfName {
    A,
    F,
    B,
    C,
    D,
    E,
    H,
    L,
}

/// The 16-bit value of the named pair.
pub open spec fn pair_value(m: RegModel, p: PairName) -> u16 {
    match p {
        PairName::AF => m.af(),
        PairName::BC => m.bc(),
        PairName::DE => m.de(),
        PairName::HL => m.hl(),
    }
}

/// The model after writing `v` into the named pair.
pub open spec fn with_pair(m: RegModel, p: PairName, v: u16) -> RegModel {
    match p {
        PairName::AF => m.with_af(v),
        PairName::BC => m.with_bc(v),
        PairName::DE => m.with_de(v),
        PairName::HL => m.with_hl(v),
    }
}

/// The value of the named half register.
pub open spec fn half_value(m: RegModel, x: HalfName) -> u8 {
    match x {
        HalfName::A => m.a,
        HalfName::F => m.f,
        HalfName::B => m.b,
        HalfName::C => m.c,
        HalfName::D => m.d,
        HalfName::E => m.e,
        HalfName::H => m.h,
        HalfName::L => m.l,
    }
}

/// The model after writing `v` into the named half register.
pub open spec fn with_half(m: RegModel, x: HalfName, v: u8) -> RegModel {
    match x {
        HalfName::A => RegModel { a: v, ..m },
        HalfName::F => RegModel { f: v, ..m },
        HalfName::B => RegModel { b: v, ..m },
        HalfName::C => RegModel { c: v, ..m },
        HalfName::D => RegModel { d: v, ..m },
        HalfName::E => RegModel { e: v, ..m },
        HalfName::H => RegModel { h: v, ..m },
        HalfName::L => RegModel { l: v, ..m },
    }
}

/// The half register holding the high byte of the named pair.
pub open spec fn hi_half(p: PairName) -> HalfName {
    match p {
        PairName::AF => HalfName::A,
        PairName::BC => HalfName::B,
        PairName::DE => HalfName::D,
        PairName::HL => HalfName::H,
    }
}

/// The half register holding the low byte of the named pair.
pub open spec fn lo_half(p: PairName) -> HalfName {
    match p {
        PairName::AF => HalfName::F,
        PairName::BC => HalfName::C,
        PairName::DE => HalfName::E,
        PairName::HL => HalfName::L,
    }
}

/// Pair/half coherence: writing a 16-bit value into a pair makes the pair
/// read back that value, its high half the value's high byte and its low
/// half the value's low byte, while every other register keeps its value.
pub proof fn lemma_pair_round_trip(m: RegModel, p: PairName, v: u16)
    ensures
        pair_value(with_pair(m, p, v), p) == v,
        half_value(with_pair(m, p, v), hi_half(p)) as int == v as int / 256,
        half_value(with_pair(m, p, v), lo_half(p)) as int == v as int % 256,
        with_pair(m, p, v).sp == m.sp,
        with_pair(m, p, v).pc == m.pc,
        forall|y: HalfName|
            y != hi_half(p) && y != lo_half(p) ==> half_value(with_pair(m, p, v), y) == half_value(
                m,
                y,
            ),
{
    assert(v as int % 256 + 256 * (v as int / 256) == v as int);
}

/// Writing a half register makes that half read back the written value.
pub proof fn lemma_half_round_trip(m: RegModel, x: HalfName, v: u8)
    ensures
        half_value(with_half(m, x, v), x) == v,
{
}

/// Independence of the halves: writing one half register leaves every
/// other half register, the stack pointer and the program counter
/// unchanged.
pub proof fn lemma_half_write_independent(m: RegModel, x: HalfName, y: HalfName, v: u8)
    requires
        x != y,
    ensures
        half_value(with_half(m, x, v), y) == half_value(m, y),
        with_half(m, x, v).sp == m.sp,
        with_half(m, x, v).pc == m.pc,
{
}

/// Flags round-trip: the byte a flag set serializes to reads back as the
/// same flag set, and its bottom nibble is always zero, whatever the
/// prior content of `F` was.
pub proof fn lemma_flags_round_trip(fl: CPUFlags)
    ensures
        flags_of_byte(fl.as_byte()) == fl,
        fl.as_byte() as int % 16 == 0,
{
}

/// The CPU register file. Pairs are stored as their two 8-bit halves;
/// the 16-bit pair accessors pack and unpack them in little-endian byte
/// order through the wire encoding.
#[derive(Clone, Copy, Debug)]
pub struct RegisterState {
    reg_a: u8,
    reg_f: u8,
    reg_b: u8,
    reg_c: u8,
    reg_d: u8,
    reg_e: u8,
    reg_h: u8,
    reg_l: u8,
    reg_sp: u16,
    reg_pc: u16,
}

impl View for RegisterState {
    type V = RegModel;

    closed spec fn view(&self) -> RegModel {
        RegModel {
            a: self.reg_a,
            f: self.reg_f,
            b: self.reg_b,
            c: self.reg_c,
            d: self.reg_d,
            e: self.reg_e,
            h: self.reg_h,
            l: self.reg_l,
            sp: self.reg_sp,
            pc: self.reg_pc,
        }
    }
}

impl RegisterState {
    /// A register file with every register zeroed.
    pub fn new() -> (r: RegisterState)
        ensures
            r@ == RegModel::zeroed(),
    {
        RegisterState {
            reg_a: 0,
            reg_f: 0,
            reg_b: 0,
            reg_c: 0,
            reg_d: 0,
            reg_e: 0,
            reg_h: 0,
            reg_l: 0,
            reg_sp: 0,
            reg_pc: 0,
        }
    }

    /// The four named flags projected out of the top nibble of `F`.
    pub fn cpu_flags(&mut self) -> (r: CPUFlags)
        ensures
            final(self)@ == old(self)@,
            r == flags_of_byte(old(self)@.f),
    {
        let fb = self.reg_f;
        CPUFlags {
            zero: (fb / 128) % 2 == 1,
            subtract: (fb / 64) % 2 == 1,
            half_carry: (fb / 32) % 2 == 1,
            carry: (fb / 16) % 2 == 1,
        }
    }

    /// Writes the flag set into `F`: the four flags land in the top
    /// nibble and the bottom nibble becomes zero.
    pub fn set_cpu_flags(&mut self, val: CPUFlags)
        ensures
            final(self)@ == (RegModel { f: val.as_byte(), ..old(self)@ }),
            final(self)@.f as int % 16 == 0,
    {
        let mut b: u8 = 0;
        if val.zero {
            b = b + 128;
        }
        if val.subtract {
            b = b + 64;
        }
        if val.half_carry {
            b = b + 32;
        }
        if val.carry {
            b = b + 16;
        }
        self.reg_f = b;
        proof {
            lemma_flags_round_trip(val);
        }
    }

    /// The pair `AF` as a 16-bit value.
    pub fn af(&mut self) -> (r: u16)
        ensures
            final(self)@ == old(self)@,
            r == old(self)@.af(),
    {
        combine_u16_le(self.reg_f, self.reg_a)
    }

    /// Writes a 16-bit value into the pair `AF`.
    pub fn set_af(&mut self, val: u16)
        ensures
            final(self)@ == old(self)@.with_af(val),
    {
        let (lo, hi) = split_u16_le(val);
        self.reg_f = lo;
        self.reg_a = hi;
    }

    /// The pair `BC` as a 16-bit value.
    pub fn bc(&mut self) -> (r: u16)
        ensures
            final(self)@ == old(self)@,
            r == old(self)@.bc(),
    {
        combine_u16_le(self.reg_c, self.reg_b)
    }

    /// Writes a 16-bit value into the pair `BC`.
    pub fn set_bc(&mut self, val: u16)
        ensures
            final(self)@ == old(self)@.with_bc(val),
    {
        let (lo, hi) = split_u16_le(val);
        self.reg_c = lo;
        self.reg_b = hi;
    }

    /// The pair `DE` as a 16-bit value.
    pub fn de(&mut self) -> (r: u16)
        ensures
            final(self)@ == old(self)@,
            r == old(self)@.de(),
    {
        combine_u16_le(self.reg_e, self.reg_d)
    }

    /// Writes a 16-bit value into the pair `DE`.
    pub fn set_de(&mut self, val: u16)
        ensures
            final(self)@ == old(self)@.with_de(val),
    {
        let (lo, hi) = split_u16_le(val);
        self.reg_e = lo;
        self.reg_d = hi;
    }

    /// The pair `HL` as a 16-bit value.
    pub fn hl(&mut self) -> (r: u16)
        ensures
            final(self)@ == old(self)@,
            r == old(self)@.hl(),
    {
        combine_u16_le(self.reg_l, self.reg_h)
    }

    /// Writes a 16-bit value into the pair `HL`.
    pub fn set_hl(&mut self, val: u16)
        ensures
            final(self)@ == old(self)@.with_hl(val),
    {
        let (lo, hi) = split_u16_le(val);
        self.reg_l = lo;
        self.reg_h = hi;
    }

    /// The stack pointer.
    pub fn sp(&mut self) -> (r: u16)
        ensures
            final(self)@ == old(self)@,
            r == old(self)@.sp,
    {
        self.reg_sp
    }

    /// Writes the stack pointer.
    pub fn set_sp(&mut self, val: u16)
        ensures
            final(self)@ == (RegModel { sp: val, ..old(self)@ }),
    {
        self.reg_sp = val;
    }

    /// The program counter.
    pub fn pc(&mut self) -> (r: u16)
        ensures
            final(self)@ == old(self)@,
            r == old(self)@.pc,
    {
        self.reg_pc
    }

    /// Writes the program counter.
    pub fn set_pc(&mut self, val: u16)
        ensures
            final(self)@ == (RegModel { pc: val, ..old(self)@ }),
    {
        self.reg_pc = val;
    }

    /// The half register `A`, the high byte of `AF`.
    pub fn a(&mut self) -> (r: u8)
        ensures
            final(self)@ == old(self)@,
            r == half_value(old(self)@, HalfName::A),
    {
        self.reg_a
    }

    /// Writes the half register `A` without disturbing any other register.
    pub fn set_a(&mut self, val: u8)
        ensures
            final(self)@ == with_half(old(self)@, HalfName::A, val),
    {
        self.reg_a = val;
    }

    /// The half register `F`, the low byte of `AF`.
    pub fn f(&mut self) -> (r: u8)
        ensures
            final(self)@ == old(self)@,
            r == half_value(old(self)@, HalfName::F),
    {
        self.reg_f
    }

    /// Writes the half register `F` without disturbing any other register.
    pub fn set_f(&mut self, val: u8)
        ensures
            final(self)@ == with_half(old(self)@, HalfName::F, val),
    {
        self.reg_f = val;
    }

    /// The half register `B`, the high byte of `BC`.
    pub fn b(&mut self) -> (r: u8)
        ensures
            final(self)@ == old(self)@,
            r == half_value(old(self)@, HalfName::B),
    {
        self.reg_b
    }

    /// Writes the half register `B` without disturbing any other register.
    pub fn set_b(&mut self, val: u8)
        ensures
            final(self)@ == with_half(old(self)@, HalfName::B, val),
    {
        self.reg_b = val;
    }

    /// The half register `C`, the low byte of `BC`.
    pub fn c(&mut self) -> (r: u8)
        ensures
            final(self)@ == old(self)@,
            r == half_value(old(self)@, HalfName::C),
    {
        self.reg_c
    }

    /// Writes the half register `C` without disturbing any other register.
    pub fn set_c(&mut self, val: u8)
        ensures
            final(self)@ == with_half(old(self)@, HalfName::C, val),
    {
        self.reg_c = val;
    }

    /// The half register `D`, the high byte of `DE`.
    pub fn d(&mut self) -> (r: u8)
        ensures
            final(self)@ == old(self)@,
            r == half_value(old(self)@, HalfName::D),
    {
        self.reg_d
    }

    /// Writes the half register `D` without disturbing any other register.
    pub fn set_d(&mut self, val: u8)
        ensures
            final(self)@ == with_half(old(self)@, HalfName::D, val),
    {
        self.reg_d = val;
    }

    /// The half register `E`, the low byte of `DE`.
    pub fn e(&mut self) -> (r: u8)
        ensures
            final(self)@ == old(self)@,
            r == half_value(old(self)@, HalfName::E),
    {
        self.reg_e
    }

    /// Writes the half register `E` without disturbing any other register.
    pub fn set_e(&mut self, val: u8)
        ensures
            final(self)@ == with_half(old(self)@, HalfName::E, val),
    {
        self.reg_e = val;
    }

    /// The half register `H`, the high byte of `HL`.
    pub fn h(&mut self) -> (r: u8)
        ensures
            final(self)@ == old(self)@,
            r == half_value(old(self)@, HalfName::H),
    {
        self.reg_h
    }

    /// Writes the half register `H` without disturbing any other register.
    pub fn set_h(&mut self, val: u8)
        ensures
            final(self)@ == with_half(old(self)@, HalfName::H, val),
    {
        self.reg_h = val;
    }

    /// The half register `L`, the low byte of `HL`.
    pub fn l(&mut self) -> (r: u8)
        ensures
            final(self)@ == old(self)@,
            r == half_value(old(self)@, HalfName::L),
    {
        self.reg_l
    }

    /// Writes the half register `L` without disturbing any other register.
    pub fn set_l(&mut self, val: u8)
        ensures
            final(self)@ == with_half(old(self)@, HalfName::L, val),
    {
        self.reg_l = val;
    }
}

} // verus!
