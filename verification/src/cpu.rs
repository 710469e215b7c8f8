//! The register file: eight 16-bit general registers and four segment
//! registers. The 8-bit registers are the high and low halves of AX..DX and
//! share their 16-bit backing store, so access goes through masked get/set
//! accessors; writing one half never disturbs the other.

use vstd::prelude::*;
use crate::arch::{Register8, Register16};

verus! {

/// CPU register state. Created once at machine reset and mutated in place.
#[derive(Clone, Copy, Debug, PartialEq, Eq, Structural)]
pub struct Cpu {
    pub ax: u16,
    pub bx: u16,
    pub cx: u16,
    pub dx: u16,
    pub sp: u16,
    pub bp: u16,
    pub si: u16,
    pub di: u16,
    pub es: u16,
    pub cs: u16,
    pub ss: u16,
    pub ds: u16,
}

impl Cpu {
    /// The value of an 8-bit register: the high or low byte of its backing
    /// 16-bit register.
    pub open spec fn reg8(self, r: Register8) -> u8 {
        match r {
            Register8::AH => (self.ax / 0x100) as u8,
            Register8::AL => (self.ax % 0x100) as u8,
            Register8::BH => (self.bx / 0x100) as u8,
            Register8::BL => (self.bx % 0x100) as u8,
            Register8::CH => (self.cx / 0x100) as u8,
            Register8::CL => (self.cx % 0x100) as u8,
            Register8::DH => (self.dx / 0x100) as u8,
            Register8::DL => (self.dx % 0x100) as u8,
        }
    }

    /// The value of a 16-bit register.
    pub open spec fn reg16(self, r: Register16) -> u16 {
        match r {
            Register16::AX => self.ax,
            Register16::CX => self.cx,
            Register16::DX => self.dx,
            Register16::BX => self.bx,
            Register16::SP => self.sp,
            Register16::BP => self.bp,
            Register16::SI => self.si,
            Register16::DI => self.di,
            Register16::ES => self.es,
            Register16::CS => self.cs,
            Register16::SS => self.ss,
            Register16::DS => self.ds,
        }
    }

    /// The register file after an 8-bit write: the named half replaced, the
    /// other half of the same backing register and every other register kept.
    pub open spec fn with_reg8(self, r: Register8, v: u8) -> Cpu {
        match r {
            Register8::AH => Cpu { ax: (v * 0x100 + self.ax % 0x100) as u16, ..self },
            Register8::AL => Cpu { ax: (self.ax / 0x100 * 0x100 + v) as u16, ..self },
            Register8::BH => Cpu { bx: (v * 0x100 + self.bx % 0x100) as u16, ..self },
            Register8::BL => Cpu { bx: (self.bx / 0x100 * 0x100 + v) as u16, ..self },
            Register8::CH => Cpu { cx: (v * 0x100 + self.cx % 0x100) as u16, ..self },
            Register8::CL => Cpu { cx: (self.cx / 0x100 * 0x100 + v) as u16, ..self },
            Register8::DH => Cpu { dx: (v * 0x100 + self.dx % 0x100) as u16, ..self },
            Register8::DL => Cpu { dx: (self.dx / 0x100 * 0x100 + v) as u16, ..self },
        }
    }

    /// The register file after a 16-bit write.
    pub open spec fn with_reg16(self, r: Register16, v: u16) -> Cpu {
        match r {
            Register16::AX => Cpu { ax: v, ..self },
            Register16::CX => Cpu { cx: v, ..self },
            Register16::DX => Cpu { dx: v, ..self },
            Register16::BX => Cpu { bx: v, ..self },
            Register16::SP => Cpu { sp: v, ..self },
            Register16::BP => Cpu { bp: v, ..self },
            Register16::SI => Cpu { si: v, ..self },
            Register16::DI => Cpu { di: v, ..self },
            Register16::ES => Cpu { es: v, ..self },
            Register16::CS => Cpu { cs: v, ..self },
            Register16::SS => Cpu { ss: v, ..self },
            Register16::DS => Cpu { ds: v, ..self },
        }
    }

    /// A register file with every register cleared, as at machine reset.
    pub fn new() -> (r: Cpu)
        ensures
            r == (Cpu {
                ax: 0u16,
                bx: 0u16,
                cx: 0u16,
                dx: 0u16,
                sp: 0u16,
                bp: 0u16,
                si: 0u16,
                di: 0u16,
                es: 0u16,
                cs: 0u16,
                ss: 0u16,
                ds: 0u16,
            }),
    {
        Cpu {
            ax: 0,
            bx: 0,
            cx: 0,
            dx: 0,
            sp: 0,
            bp: 0,
            si: 0,
            di: 0,
            es: 0,
            cs: 0,
            ss: 0,
            ds: 0,
        }
    }

    /// Reads an 8-bit register as the masked half of its backing register.
    pub fn get_register8(&self, r: Register8) -> (v: u8)
        ensures
            v == self.reg8(r),
    {
        match r {
            Register8::AH => (self.ax / 0x100) as u8,
            Register8::AL => (self.ax % 0x100) as u8,
            Register8::BH => (self.bx / 0x100) as u8,
            Register8::BL => (self.bx % 0x100) as u8,
            Register8::CH => (self.cx / 0x100) as u8,
            Register8::CL => (self.cx % 0x100) as u8,
            Register8::DH => (self.dx / 0x100) as u8,
            Register8::DL => (self.dx % 0x100) as u8,
        }
    }

    /// Writes an 8-bit register by masking it into its backing register,
    /// leaving the other half untouched.
    pub fn set_register8(&mut self, r: Register8, v: u8)
        ensures
            *final(self) == old(self).with_reg8(r, v),
    {
        match r {
            Register8::AH => { self.ax = self.ax % 0x100 + (v as u16) * 0x100; },
            Register8::AL => { self.ax = self.ax / 0x100 * 0x100 + (v as u16); },
            Register8::BH => { self.bx = self.bx % 0x100 + (v as u16) * 0x100; },
            Register8::BL => { self.bx = self.bx / 0x100 * 0x100 + (v as u16); },
            Register8::CH => { self.cx = self.cx % 0x100 + (v as u16) * 0x100; },
            Register8::CL => { self.cx = self.cx / 0x100 * 0x100 + (v as u16); },
            Register8::DH => { self.dx = self.dx % 0x100 + (v as u16) * 0x100; },
            Register8::DL => { self.dx = self.dx / 0x100 * 0x100 + (v as u16); },
        }
    }

    /// Reads a 16-bit register (segment registers included).
    pub fn get_register16(&self, r: Register16) -> (v: u16)
        ensures
            v == self.reg16(r),
    {
        match r {
            Register16::AX => self.ax,
            Register16::CX => self.cx,
            Register16::DX => self.dx,
            Register16::BX => self.bx,
            Register16::SP => self.sp,
            Register16::BP => self.bp,
            Register16::SI => self.si,
            Register16::DI => self.di,
            Register16::ES => self.es,
            Register16::CS => self.cs,
            Register16::SS => self.ss,
            Register16::DS => self.ds,
        }
    }

    /// Writes a 16-bit register (segment registers included).
    pub fn set_register16(&mut self, r: Register16, v: u16)
        ensures
            *final(self) == old(self).with_reg16(r, v),
    {
        match r {
            Register16::AX => { self.ax = v; },
            Register16::CX => { self.cx = v; },
            Register16::DX => { self.dx = v; },
            Register16::BX => { self.bx = v; },
            Register16::SP => { self.sp = v; },
            Register16::BP => { self.bp = v; },
            Register16::SI => { self.si = v; },
            Register16::DI => { self.di = v; },
            Register16::ES => { self.es = v; },
            Register16::CS => { self.cs = v; },
            Register16::SS => { self.ss = v; },
            Register16::DS => { self.ds = v; },
        }
    }
}

} // verus!
