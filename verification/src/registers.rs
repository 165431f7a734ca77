//! The register file of the emulated processor.
//!
//! Every 24-bit-capable register pair is stored as three bytes (upper, high,
//! low), so every representable value is valid and no field needs a side
//! invariant.  The stack pointer exists twice, as on the real processor: a
//! 16-bit short-mode pointer and a 24-bit long-mode pointer.

use vstd::prelude::*;

verus! {

/// The 8-bit register names the instruction decoder works with.  `_HL`
/// stands for the pseudo register "memory at the current index register";
/// it has no storage of its own and is resolved by the execution
/// environment, never by the register file.
#[derive(Clone, Copy, PartialEq, Eq, Structural, Debug)]
pub enum Reg8 {
    A,
    F,
    B,
    C,
    D,
    E,
    H,
    L,
    IXH,
    IXL,
    IYH,
    IYL,
    _HL,
}

/// The 16-bit register pairs.  All but `AF` have a 24-bit long-mode form.
#[derive(Clone, Copy, PartialEq, Eq, Structural, Debug)]
pub enum Reg16 {
    AF,
    BC,
    DE,
    HL,
    IX,
    IY,
    SP,
}

/// The register file.
#[derive(Clone, Copy, PartialEq, Eq, Structural, Debug)]
pub struct Registers {
    pub a: u8,
    pub f: u8,
    pub b: u8,
    pub c: u8,
    pub bcu: u8,
    pub d: u8,
    pub e: u8,
    pub deu: u8,
    pub h: u8,
    pub l: u8,
    pub hlu: u8,
    pub ixh: u8,
    pub ixl: u8,
    pub ixu: u8,
    pub iyh: u8,
    pub iyl: u8,
    pub iyu: u8,
    /// Short-mode (16-bit) stack pointer.
    pub sps: u16,
    pub spu: u8,
    pub sph: u8,
    pub spl: u8,
    /// Bank-base relocation register: the high-order byte added to 16-bit
    /// addresses in short mode.
    pub mbase: u8,
}

impl Registers {
    /// A register file with every register zero.
    pub fn new() -> (r: Registers)
        ensures
            r == Registers::zeroed(),
    {
        Registers {
            a: 0,
            f: 0,
            b: 0,
            c: 0,
            bcu: 0,
            d: 0,
            e: 0,
            deu: 0,
            h: 0,
            l: 0,
            hlu: 0,
            ixh: 0,
            ixl: 0,
            ixu: 0,
            iyh: 0,
            iyl: 0,
            iyu: 0,
            sps: 0,
            spu: 0,
            sph: 0,
            spl: 0,
            mbase: 0,
        }
    }

    pub open spec fn zeroed() -> Registers {
        Registers {
            a: 0,
            f: 0,
            b: 0,
            c: 0,
            bcu: 0,
            d: 0,
            e: 0,
            deu: 0,
            h: 0,
            l: 0,
            hlu: 0,
            ixh: 0,
            ixl: 0,
            ixu: 0,
            iyh: 0,
            iyl: 0,
            iyu: 0,
            sps: 0,
            spu: 0,
            sph: 0,
            spl: 0,
            mbase: 0,
        }
    }

    pub open spec fn get8_spec(self, reg: Reg8) -> u8 {
        match reg {
            Reg8::A => self.a,
            Reg8::F => self.f,
            Reg8::B => self.b,
            Reg8::C => self.c,
            Reg8::D => self.d,
            Reg8::E => self.e,
            Reg8::H => self.h,
            Reg8::L => self.l,
            Reg8::IXH => self.ixh,
            Reg8::IXL => self.ixl,
            Reg8::IYH => self.iyh,
            Reg8::IYL => self.iyl,
            Reg8::_HL => 0,
        }
    }

    pub fn get8(&self, reg: Reg8) -> (v: u8)
        requires
            reg != Reg8::_HL,
        ensures
            v == self.get8_spec(reg),
    {
        match reg {
            Reg8::A => self.a,
            Reg8::F => self.f,
            Reg8::B => self.b,
            Reg8::C => self.c,
            Reg8::D => self.d,
            Reg8::E => self.e,
            Reg8::H => self.h,
            Reg8::L => self.l,
            Reg8::IXH => self.ixh,
            Reg8::IXL => self.ixl,
            Reg8::IYH => self.iyh,
            Reg8::IYL => self.iyl,
            Reg8::_HL => 0,
        }
    }

    pub open spec fn set8_spec(self, reg: Reg8, v: u8) -> Registers {
        match reg {
            Reg8::A => Registers { a: v, ..self },
            Reg8::F => Registers { f: v, ..self },
            Reg8::B => Registers { b: v, ..self },
            Reg8::C => Registers { c: v, ..self },
            Reg8::D => Registers { d: v, ..self },
            Reg8::E => Registers { e: v, ..self },
            Reg8::H => Registers { h: v, ..self },
            Reg8::L => Registers { l: v, ..self },
            Reg8::IXH => Registers { ixh: v, ..self },
            Reg8::IXL => Registers { ixl: v, ..self },
            Reg8::IYH => Registers { iyh: v, ..self },
            Reg8::IYL => Registers { iyl: v, ..self },
            Reg8::_HL => self,
        }
    }

    pub fn set8(&mut self, reg: Reg8, v: u8)
        requires
            reg != Reg8::_HL,
        ensures
            *final(self) == old(self).set8_spec(reg, v),
    {
        match reg {
            Reg8::A => self.a = v,
            Reg8::F => self.f = v,
            Reg8::B => self.b = v,
            Reg8::C => self.c = v,
            Reg8::D => self.d = v,
            Reg8::E => self.e = v,
            Reg8::H => self.h = v,
            Reg8::L => self.l = v,
            Reg8::IXH => self.ixh = v,
            Reg8::IXL => self.ixl = v,
            Reg8::IYH => self.iyh = v,
            Reg8::IYL => self.iyl = v,
            Reg8::_HL => (),
        }
    }

    /// The 16-bit value of a pair.  For `SP` this is the short-mode pointer.
    pub open spec fn get16_spec(self, rr: Reg16) -> u16 {
        match rr {
            Reg16::AF => (self.a * 0x100 + self.f) as u16,
            Reg16::BC => (self.b * 0x100 + self.c) as u16,
            Reg16::DE => (self.d * 0x100 + self.e) as u16,
            Reg16::HL => (self.h * 0x100 + self.l) as u16,
            Reg16::IX => (self.ixh * 0x100 + self.ixl) as u16,
            Reg16::IY => (self.iyh * 0x100 + self.iyl) as u16,
            Reg16::SP => self.sps,
        }
    }

    pub fn get16(&self, rr: Reg16) -> (v: u16)
        ensures
            v == self.get16_spec(rr),
    {
        match rr {
            Reg16::AF => self.a as u16 * 0x100 + self.f as u16,
            Reg16::BC => self.b as u16 * 0x100 + self.c as u16,
            Reg16::DE => self.d as u16 * 0x100 + self.e as u16,
            Reg16::HL => self.h as u16 * 0x100 + self.l as u16,
            Reg16::IX => self.ixh as u16 * 0x100 + self.ixl as u16,
            Reg16::IY => self.iyh as u16 * 0x100 + self.iyl as u16,
            Reg16::SP => self.sps,
        }
    }

    /// The 24-bit value of a pair.  `AF` has no 24-bit form and reads as its
    /// 16-bit value; for `SP` this is the long-mode pointer.
    pub open spec fn get24_spec(self, rr: Reg16) -> u32 {
        match rr {
            Reg16::AF => self.get16_spec(Reg16::AF) as u32,
            Reg16::BC => (self.bcu * 0x10000 + self.b * 0x100 + self.c) as u32,
            Reg16::DE => (self.deu * 0x10000 + self.d * 0x100 + self.e) as u32,
            Reg16::HL => (self.hlu * 0x10000 + self.h * 0x100 + self.l) as u32,
            Reg16::IX => (self.ixu * 0x10000 + self.ixh * 0x100 + self.ixl) as u32,
            Reg16::IY => (self.iyu * 0x10000 + self.iyh * 0x100 + self.iyl) as u32,
            Reg16::SP => (self.spu * 0x10000 + self.sph * 0x100 + self.spl) as u32,
        }
    }

    pub fn get24(&self, rr: Reg16) -> (v: u32)
        ensures
            v == self.get24_spec(rr),
    {
        match rr {
            Reg16::AF => self.get16(Reg16::AF) as u32,
            Reg16::BC => self.bcu as u32 * 0x10000 + self.b as u32 * 0x100 + self.c as u32,
            Reg16::DE => self.deu as u32 * 0x10000 + self.d as u32 * 0x100 + self.e as u32,
            Reg16::HL => self.hlu as u32 * 0x10000 + self.h as u32 * 0x100 + self.l as u32,
            Reg16::IX => self.ixu as u32 * 0x10000 + self.ixh as u32 * 0x100 + self.ixl as u32,
            Reg16::IY => self.iyu as u32 * 0x10000 + self.iyh as u32 * 0x100 + self.iyl as u32,
            Reg16::SP => self.spu as u32 * 0x10000 + self.sph as u32 * 0x100 + self.spl as u32,
        }
    }

    /// The 16-bit value of a pair relocated by the bank base: the effective
    /// short-mode address `MBASE:rr`.
    pub open spec fn get16_mbase_spec(self, rr: Reg16) -> u32 {
        (self.mbase * 0x10000 + self.get16_spec(rr)) as u32
    }

    pub fn get16_mbase(&self, rr: Reg16) -> (v: u32)
        ensures
            v == self.get16_mbase_spec(rr),
    {
        self.mbase as u32 * 0x10000 + self.get16(rr) as u32
    }

    /// Writing 16 bits leaves the upper byte of a 24-bit pair untouched; for
    /// `SP` it writes the short-mode pointer only.
    pub open spec fn set16_spec(self, rr: Reg16, v: u16) -> Registers {
        match rr {
            Reg16::AF => Registers { a: (v / 0x100) as u8, f: (v % 0x100) as u8, ..self },
            Reg16::BC => Registers { b: (v / 0x100) as u8, c: (v % 0x100) as u8, ..self },
            Reg16::DE => Registers { d: (v / 0x100) as u8, e: (v % 0x100) as u8, ..self },
            Reg16::HL => Registers { h: (v / 0x100) as u8, l: (v % 0x100) as u8, ..self },
            Reg16::IX => Registers { ixh: (v / 0x100) as u8, ixl: (v % 0x100) as u8, ..self },
            Reg16::IY => Registers { iyh: (v / 0x100) as u8, iyl: (v % 0x100) as u8, ..self },
            Reg16::SP => Registers { sps: v, ..self },
        }
    }

    pub fn set16(&mut self, rr: Reg16, v: u16)
        ensures
            *final(self) == old(self).set16_spec(rr, v),
    {
        let hi: u8 = (v / 0x100) as u8;
        let lo: u8 = (v % 0x100) as u8;
        match rr {
            Reg16::AF => {
                self.a = hi;
                self.f = lo;
            },
            Reg16::BC => {
                self.b = hi;
                self.c = lo;
            },
            Reg16::DE => {
                self.d = hi;
                self.e = lo;
            },
            Reg16::HL => {
                self.h = hi;
                self.l = lo;
            },
            Reg16::IX => {
                self.ixh = hi;
                self.ixl = lo;
            },
            Reg16::IY => {
                self.iyh = hi;
                self.iyl = lo;
            },
            Reg16::SP => {
                self.sps = v;
            },
        }
    }

    /// Writing 24 bits stores the low three bytes of `v`; anything above
    /// bit 23 is discarded, as the registers are 24 bits wide.  `AF` has no
    /// 24-bit form and takes the low 16 bits; `SP` here is the long-mode
    /// pointer.
    pub open spec fn set24_spec(self, rr: Reg16, v: u32) -> Registers {
        let u = (v / 0x10000 % 0x100) as u8;
        let h = (v / 0x100 % 0x100) as u8;
        let l = (v % 0x100) as u8;
        match rr {
            Reg16::AF => self.set16_spec(Reg16::AF, (v % 0x10000) as u16),
            Reg16::BC => Registers { bcu: u, b: h, c: l, ..self },
            Reg16::DE => Registers { deu: u, d: h, e: l, ..self },
            Reg16::HL => Registers { hlu: u, h: h, l: l, ..self },
            Reg16::IX => Registers { ixu: u, ixh: h, ixl: l, ..self },
            Reg16::IY => Registers { iyu: u, iyh: h, iyl: l, ..self },
            Reg16::SP => Registers { spu: u, sph: h, spl: l, ..self },
        }
    }

    pub fn set24(&mut self, rr: Reg16, v: u32)
        ensures
            *final(self) == old(self).set24_spec(rr, v),
    {
        let u: u8 = (v / 0x10000 % 0x100) as u8;
        let h: u8 = (v / 0x100 % 0x100) as u8;
        let l: u8 = (v % 0x100) as u8;
        match rr {
            Reg16::AF => {
                self.set16(Reg16::AF, (v % 0x10000) as u16);
            },
            Reg16::BC => {
                self.bcu = u;
                self.b = h;
                self.c = l;
            },
            Reg16::DE => {
                self.deu = u;
                self.d = h;
                self.e = l;
            },
            Reg16::HL => {
                self.hlu = u;
                self.h = h;
                self.l = l;
            },
            Reg16::IX => {
                self.ixu = u;
                self.ixh = h;
                self.ixl = l;
            },
            Reg16::IY => {
                self.iyu = u;
                self.iyh = h;
                self.iyl = l;
            },
            Reg16::SP => {
                self.spu = u;
                self.sph = h;
                self.spl = l;
            },
        }
    }
}

} // verus!
