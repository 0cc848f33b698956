use crate::lameboy::cpu::registers::{lemma_word_join, lemma_word_split, Flags, RegistersView};
use vstd::prelude::*;

verus! {

/// An 8-bit register of the CPU.
#[derive(Clone, Copy, Debug, PartialEq, Eq, Structural)]
pub enum Reg8 {
    A,
    B,
    C,
    D,
    E,
    H,
    L,
}

/// A 16-bit register of the CPU: a pair of 8-bit registers, or the stack pointer.
#[derive(Clone, Copy, Debug, PartialEq, Eq, Structural)]
pub enum Reg16 {
    AF,
    BC,
    DE,
    HL,
    SP,
}

impl Reg16 {
    /// The same register as the CPU core names it.
    pub open spec fn pair(self) -> crate::lameboy::cpu::registers::Reg16 {
        match self {
            Reg16::AF => crate::lameboy::cpu::registers::Reg16::AF,
            Reg16::BC => crate::lameboy::cpu::registers::Reg16::BC,
            Reg16::DE => crate::lameboy::cpu::registers::Reg16::DE,
            Reg16::HL => crate::lameboy::cpu::registers::Reg16::HL,
            Reg16::SP => crate::lameboy::cpu::registers::Reg16::SP,
        }
    }
}

/// The registers of the CPU.
pub struct Registers {
    pub a: u8,
    pub f: Flags,
    pub b: u8,
    pub c: u8,
    pub d: u8,
    pub e: u8,
    pub h: u8,
    pub l: u8,
    pub pc: u16,
    pub sp: u16,
}

impl View for Registers {
    type V = RegistersView;

    open spec fn view(&self) -> RegistersView {
        RegistersView {
            a: self.a,
            f: self.f@,
            b: self.b,
            c: self.c,
            d: self.d,
            e: self.e,
            h: self.h,
            l: self.l,
            pc: self.pc,
            sp: self.sp,
        }
    }
}

impl Registers {
    /// All registers zero.
    pub fn new() -> (r: Registers)
        ensures
            r@ == RegistersView::zeroed(),
    {
        Registers { a: 0, f: Flags::empty(), b: 0, c: 0, d: 0, e: 0, h: 0, l: 0, pc: 0, sp: 0 }
    }

    /// Read a 16-bit register: the first register of a pair is the high byte.
    pub fn read16(&self, reg: &Reg16) -> (v: u16)
        ensures
            v == self@.read16(reg.pair()),
    {
        proof {
            lemma_word_join(self.a, self.f@);
            lemma_word_join(self.b, self.c);
            lemma_word_join(self.d, self.e);
            lemma_word_join(self.h, self.l);
        }
        match reg {
            Reg16::AF => ((self.a as u16) << 8) | (self.f.bits() as u16),
            Reg16::BC => ((self.b as u16) << 8) | (self.c as u16),
            Reg16::DE => ((self.d as u16) << 8) | (self.e as u16),
            Reg16::HL => ((self.h as u16) << 8) | (self.l as u16),
            Reg16::SP => self.sp,
        }
    }

    /// Write a 16-bit register: the high byte goes to the first register of a pair; of the low
    /// byte the flags register keeps only the upper four bits.
    pub fn write16(&mut self, reg: &Reg16, value: u16)
        ensures
            final(self)@ == old(self)@.write16(reg.pair(), value),
    {
        proof {
            lemma_word_split(value);
        }
        match reg {
            Reg16::AF => {
                self.a = (value >> 8) as u8;
                self.f = Flags::from_bits_truncate(value as u8)
            },
            Reg16::BC => {
                self.b = (value >> 8) as u8;
                self.c = value as u8
            },
            Reg16::DE => {
                self.d = (value >> 8) as u8;
                self.e = value as u8
            },
            Reg16::HL => {
                self.h = (value >> 8) as u8;
                self.l = value as u8
            },
            Reg16::SP => self.sp = value,
        }
    }
}

} // verus!
