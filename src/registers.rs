//! The register file: eight 8-bit registers, the stack pointer and the
//! program counter. Register pairs are views over their two halves.
use vstd::prelude::*;

use crate::alu::{carry_flag, zero_flag, FLAG_C, FLAG_Z};
use crate::error::CpuError;
use crate::memory::{load, store, Memory};

verus! {

/// The 16-bit value of a pair whose high half is `hi` and low half is `lo`.
pub open spec fn pair(hi: u8, lo: u8) -> u16 {
    (hi * 256 + lo) as u16
}

pub open spec fn high_byte(v: u16) -> u8 {
    (v / 256) as u8
}

pub open spec fn low_byte(v: u16) -> u8 {
    (v % 256) as u8
}

/// Splitting a 16-bit value into its halves and joining them gives it back,
/// and the other way round.
pub proof fn lemma_pair_split(v: u16, hi: u8, lo: u8)
    ensures
        pair(high_byte(v), low_byte(v)) == v,
        high_byte(pair(hi, lo)) == hi,
        low_byte(pair(hi, lo)) == lo,
{
}

/// The 8-bit operand selector that names the byte at address HL. Three
/// opcode bits select B, C, D, E, H, L, that byte, or A.
pub const R8_HL_MEMORY: u8 = 6;

#[derive(Clone, Copy, Debug, PartialEq, Eq, Structural)]
pub struct Registers {
    pub a: u8,
    pub f: u8,
    pub b: u8,
    pub c: u8,
    pub d: u8,
    pub e: u8,
    pub h: u8,
    pub l: u8,
    pub sp: u16,
    pub pc: u16,
}

impl Registers {
    /// Every register zero, as at power-on.
    pub open spec fn zeroed() -> Registers {
        Registers { a: 0, f: 0, b: 0, c: 0, d: 0, e: 0, h: 0, l: 0, sp: 0, pc: 0 }
    }

    pub open spec fn bc(self) -> u16 {
        pair(self.b, self.c)
    }

    pub open spec fn de(self) -> u16 {
        pair(self.d, self.e)
    }

    pub open spec fn hl(self) -> u16 {
        pair(self.h, self.l)
    }

    pub open spec fn af(self) -> u16 {
        pair(self.a, self.f)
    }

    /// The 8-bit register that selector `sel` names; selector 6 names memory
    /// and has no register.
    pub open spec fn r8(self, sel: u8) -> u8 {
        match sel {
            0 => self.b,
            1 => self.c,
            2 => self.d,
            3 => self.e,
            4 => self.h,
            5 => self.l,
            _ => self.a,
        }
    }

    /// The register file with the register that `sel` names set to `v`.
    pub open spec fn with_r8(self, sel: u8, v: u8) -> Registers {
        match sel {
            0 => Registers { b: v, ..self },
            1 => Registers { c: v, ..self },
            2 => Registers { d: v, ..self },
            3 => Registers { e: v, ..self },
            4 => Registers { h: v, ..self },
            5 => Registers { l: v, ..self },
            6 => self,
            _ => Registers { a: v, ..self },
        }
    }

    /// The 8-bit operand that `sel` names, read from memory at HL for
    /// selector 6.
    pub open spec fn read_r8(self, mem: Seq<u8>, sel: u8) -> Result<u8, CpuError> {
        if sel == R8_HL_MEMORY {
            load(mem, self.hl())
        } else {
            Ok(self.r8(sel))
        }
    }

    /// Registers and memory after writing `v` to the operand that `sel` names.
    pub open spec fn write_r8(self, mem: Seq<u8>, sel: u8, v: u8) -> Result<(Registers, Seq<u8>), CpuError> {
        if sel == R8_HL_MEMORY {
            match store(mem, self.hl(), v) {
                Ok(m) => Ok((self, m)),
                Err(e) => Err(e),
            }
        } else {
            Ok((self.with_r8(sel, v), mem))
        }
    }

    /// The pair that two opcode bits name in the general encoding: BC, DE,
    /// HL, SP.
    pub open spec fn r16(self, sel: u8) -> u16 {
        match sel {
            0 => self.bc(),
            1 => self.de(),
            2 => self.hl(),
            _ => self.sp,
        }
    }

    pub open spec fn with_r16(self, sel: u8, v: u16) -> Registers {
        match sel {
            0 => Registers { b: high_byte(v), c: low_byte(v), ..self },
            1 => Registers { d: high_byte(v), e: low_byte(v), ..self },
            2 => Registers { h: high_byte(v), l: low_byte(v), ..self },
            _ => Registers { sp: v, ..self },
        }
    }

    /// The pair that two opcode bits name in the push/pop encoding: BC, DE,
    /// HL, AF.
    pub open spec fn r16_stack(self, sel: u8) -> u16 {
        match sel {
            0 => self.bc(),
            1 => self.de(),
            2 => self.hl(),
            _ => self.af(),
        }
    }

    pub open spec fn with_r16_stack(self, sel: u8, v: u16) -> Registers {
        match sel {
            0 => Registers { b: high_byte(v), c: low_byte(v), ..self },
            1 => Registers { d: high_byte(v), e: low_byte(v), ..self },
            2 => Registers { h: high_byte(v), l: low_byte(v), ..self },
            _ => Registers { a: high_byte(v), f: low_byte(v), ..self },
        }
    }

    /// Condition `cc` of a conditional jump, call or return: NZ, Z, NC, C.
    pub open spec fn condition(self, cc: u8) -> bool {
        match cc {
            0 => !zero_flag(self.f),
            1 => zero_flag(self.f),
            2 => !carry_flag(self.f),
            _ => carry_flag(self.f),
        }
    }

    pub fn new() -> (r: Registers)
        ensures
            r == Registers::zeroed(),
    {
        Registers { a: 0, f: 0, b: 0, c: 0, d: 0, e: 0, h: 0, l: 0, sp: 0, pc: 0 }
    }

    pub fn get_hl_value(&self) -> (r: u16)
        ensures
            r == self.hl(),
    {
        (self.h as u16) * 256 + self.l as u16
    }

    pub fn get_r8_register_value(&self, register_bits: u8, memory: &Memory) -> (r: Result<u8, CpuError>)
        requires
            register_bits < 8,
        ensures
            r == self.read_r8(memory.bytes(), register_bits),
    {
        match register_bits {
            0 => Ok(self.b),
            1 => Ok(self.c),
            2 => Ok(self.d),
            3 => Ok(self.e),
            4 => Ok(self.h),
            5 => Ok(self.l),
            6 => memory.load(self.get_hl_value()),
            _ => Ok(self.a),
        }
    }

    /// Writes the operand that `register_bits` names; on a fault nothing
    /// changes.
    pub fn set_r8_register_value(&mut self, register_bits: u8, value: u8, memory: &mut Memory) -> (r: Result<(), CpuError>)
        requires
            register_bits < 8,
        ensures
            match old(self).write_r8(old(memory).bytes(), register_bits, value) {
                Ok((regs, mem)) => r is Ok && *final(self) == regs && final(memory).bytes() == mem,
                Err(e) => r == Err::<(), CpuError>(e) && *final(self) == *old(self) && final(memory).bytes() == old(memory).bytes(),
            },
    {
        match register_bits {
            0 => self.b = value,
            1 => self.c = value,
            2 => self.d = value,
            3 => self.e = value,
            4 => self.h = value,
            5 => self.l = value,
            6 => {
                let address = self.get_hl_value();
                return memory.store(address, value);
            },
            _ => self.a = value,
        }
        Ok(())
    }

    pub fn get_r16_register_value(&self, register_bits: u8) -> (r: u16)
        requires
            register_bits < 4,
        ensures
            r == self.r16(register_bits),
    {
        match register_bits {
            0 => (self.b as u16) * 256 + self.c as u16,
            1 => (self.d as u16) * 256 + self.e as u16,
            2 => (self.h as u16) * 256 + self.l as u16,
            _ => self.sp,
        }
    }

    pub fn set_r16_register_value(&mut self, register_bits: u8, value: u16)
        requires
            register_bits < 4,
        ensures
            *final(self) == old(self).with_r16(register_bits, value),
    {
        let msb: u8 = (value / 256) as u8;
        let lsb: u8 = (value % 256) as u8;
        match register_bits {
            0 => {
                self.b = msb;
                self.c = lsb;
            },
            1 => {
                self.d = msb;
                self.e = lsb;
            },
            2 => {
                self.h = msb;
                self.l = lsb;
            },
            _ => self.sp = value,
        }
    }

    pub fn get_r16_register_stack_value(&self, register_bits: u8) -> (r: u16)
        requires
            register_bits < 4,
        ensures
            r == self.r16_stack(register_bits),
    {
        match register_bits {
            0 => (self.b as u16) * 256 + self.c as u16,
            1 => (self.d as u16) * 256 + self.e as u16,
            2 => (self.h as u16) * 256 + self.l as u16,
            _ => (self.a as u16) * 256 + self.f as u16,
        }
    }

    pub fn set_r16_register_stack_value(&mut self, register_bits: u8, value: u16)
        requires
            register_bits < 4,
        ensures
            *final(self) == old(self).with_r16_stack(register_bits, value),
    {
        let msb: u8 = (value / 256) as u8;
        let lsb: u8 = (value % 256) as u8;
        match register_bits {
            0 => {
                self.b = msb;
                self.c = lsb;
            },
            1 => {
                self.d = msb;
                self.e = lsb;
            },
            2 => {
                self.h = msb;
                self.l = lsb;
            },
            _ => {
                self.a = msb;
                self.f = lsb;
            },
        }
    }

    /// Whether condition `condition_bits` (NZ, Z, NC, C) holds of the flags.
    pub fn should_execute(&self, condition_bits: u8) -> (r: bool)
        requires
            condition_bits < 4,
        ensures
            r == self.condition(condition_bits),
    {
        match condition_bits {
            0 => self.f & FLAG_Z == 0,
            1 => self.f & FLAG_Z != 0,
            2 => self.f & FLAG_C == 0,
            _ => self.f & FLAG_C != 0,
        }
    }
}

impl Default for Registers {
    fn default() -> (r: Registers)
        ensures
            r == Registers::zeroed(),
    {
        Registers::new()
    }
}

} // verus!
