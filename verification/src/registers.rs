//! A reduced register file: the eight 8-bit slots and the flag register,
//! with 16-bit pair views but no stack pointer; the SP pair name resolves to
//! HL here.

use crate::cpu::flags_registers::FlagsRegister;
use crate::memory::MemoryBus;
use vstd::prelude::*;

verus! {

#[derive(Clone, Copy, PartialEq, Eq, Structural, Debug)]
pub enum R8 {
    B,
    C,
    D,
    E,
    H,
    L,
    HLIndirect,
    A,
}

#[derive(Clone, Copy, PartialEq, Eq, Structural, Debug)]
pub enum R16 {
    BC,
    DE,
    HL,
    SP,
}

impl R16 {
    /// The pair encoded by a 2-bit field.
    pub open spec fn spec_from_index(value: u8) -> R16 {
        if value == 0 {
            R16::BC
        } else if value == 1 {
            R16::DE
        } else if value == 2 {
            R16::HL
        } else {
            R16::SP
        }
    }

    #[verifier::when_used_as_spec(spec_from_index)]
    pub fn from_index(value: u8) -> (r: R16)
        returns
            R16::spec_from_index(value),
    {
        if value == 0 {
            R16::BC
        } else if value == 1 {
            R16::DE
        } else if value == 2 {
            R16::HL
        } else {
            R16::SP
        }
    }
}

#[derive(Clone, Copy, PartialEq, Eq, Structural)]
pub struct Registers {
    pub b: u8,
    pub c: u8,
    pub d: u8,
    pub e: u8,
    pub h: u8,
    pub l: u8,
    /// The storage slot behind the HL-indirect operand index.
    pub ind: u8,
    pub a: u8,
    pub f: FlagsRegister,
}

impl Registers {
    pub open spec fn spec_r8(self, target: R8) -> u8 {
        match target {
            R8::B => self.b,
            R8::C => self.c,
            R8::D => self.d,
            R8::E => self.e,
            R8::H => self.h,
            R8::L => self.l,
            R8::HLIndirect => self.ind,
            R8::A => self.a,
        }
    }

    pub open spec fn spec_with_r8(self, target: R8, value: u8) -> Registers {
        match target {
            R8::B => Registers { b: value, ..self },
            R8::C => Registers { c: value, ..self },
            R8::D => Registers { d: value, ..self },
            R8::E => Registers { e: value, ..self },
            R8::H => Registers { h: value, ..self },
            R8::L => Registers { l: value, ..self },
            R8::HLIndirect => Registers { ind: value, ..self },
            R8::A => Registers { a: value, ..self },
        }
    }

    pub open spec fn spec_bc(self) -> u16 {
        ((self.b as u16) << 8) | (self.c as u16)
    }

    pub open spec fn spec_de(self) -> u16 {
        ((self.d as u16) << 8) | (self.e as u16)
    }

    pub open spec fn spec_hl(self) -> u16 {
        ((self.h as u16) << 8) | (self.l as u16)
    }

    pub open spec fn spec_af(self) -> u16 {
        ((self.a as u16) << 8) | (self.f.spec_to_byte() as u16)
    }

    pub open spec fn spec_with_bc(self, value: u16) -> Registers {
        Registers { b: ((value & 0xFF00) >> 8) as u8, c: (value & 0xFF) as u8, ..self }
    }

    pub open spec fn spec_with_de(self, value: u16) -> Registers {
        Registers { d: ((value & 0xFF00) >> 8) as u8, e: (value & 0xFF) as u8, ..self }
    }

    pub open spec fn spec_with_hl(self, value: u16) -> Registers {
        Registers { h: ((value & 0xFF00) >> 8) as u8, l: (value & 0xFF) as u8, ..self }
    }

    /// The pair's value; the SP name resolves to HL in this file.
    pub open spec fn spec_r16(self, target: R16) -> u16 {
        match target {
            R16::BC => self.spec_bc(),
            R16::DE => self.spec_de(),
            R16::HL => self.spec_hl(),
            R16::SP => self.spec_hl(),
        }
    }

    pub open spec fn spec_with_r16(self, target: R16, value: u16) -> Registers {
        match target {
            R16::BC => self.spec_with_bc(value),
            R16::DE => self.spec_with_de(value),
            R16::HL => self.spec_with_hl(value),
            R16::SP => self.spec_with_hl(value),
        }
    }

    pub fn set_r8_value(&mut self, target: R8, value: u8)
        ensures
            *final(self) == old(self).spec_with_r8(target, value),
    {
        match target {
            R8::B => self.b = value,
            R8::C => self.c = value,
            R8::D => self.d = value,
            R8::E => self.e = value,
            R8::H => self.h = value,
            R8::L => self.l = value,
            R8::HLIndirect => self.ind = value,
            R8::A => self.a = value,
        }
    }

    pub fn get_r8_value(&self, target: R8) -> (r: u8)
        returns
            self.spec_r8(target),
    {
        match target {
            R8::B => self.b,
            R8::C => self.c,
            R8::D => self.d,
            R8::E => self.e,
            R8::H => self.h,
            R8::L => self.l,
            R8::HLIndirect => self.ind,
            R8::A => self.a,
        }
    }

    pub fn get_r16_value(&self, target: R16) -> (r: u16)
        returns
            self.spec_r16(target),
    {
        match target {
            R16::BC => self.get_bc(),
            R16::DE => self.get_de(),
            R16::HL => self.get_hl(),
            R16::SP => self.get_hl(),
        }
    }

    pub fn set_r16_value(&mut self, target: R16, value: u16)
        ensures
            *final(self) == old(self).spec_with_r16(target, value),
    {
        match target {
            R16::BC => self.set_bc(value),
            R16::DE => self.set_de(value),
            R16::HL => self.set_hl(value),
            R16::SP => self.set_hl(value),
        }
    }

    /// Store `value` at the address the pair holds.
    pub fn set_r16_mem_value(&mut self, memory: &mut MemoryBus, target: R16, value: u8)
        requires
            old(memory).wf(),
        ensures
            *final(self) == *old(self),
            final(memory).wf(),
            final(memory).data@ == old(memory).spec_data_after(old(self).spec_r16(target), value),
            final(memory).rom_banks == old(memory).rom_banks,
            final(memory).current_rom_bank == old(memory).current_rom_bank,
    {
        let addr = match target {
            R16::BC => self.get_bc(),
            R16::DE => self.get_de(),
            R16::HL => self.get_hl(),
            R16::SP => self.get_hl(),
        };
        memory.write_byte(addr, value);
    }

    /// Read the byte at the address the pair holds.
    pub fn get_r16_mem_value(&self, memory: &MemoryBus, target: R16) -> (r: u8)
        requires
            memory.wf(),
        returns
            memory.spec_read(self.spec_r16(target)),
    {
        let addr = match target {
            R16::BC => self.get_bc(),
            R16::DE => self.get_de(),
            R16::HL => self.get_hl(),
            R16::SP => self.get_hl(),
        };
        memory.read_byte(addr)
    }

    /// 16-bit add into a pair: Z reports the operand being zero here, N
    /// clears, H and C come from the bit-11 and bit-15 carries.
    pub open spec fn spec_after_add16(self, target: R16, value: u16) -> Registers {
        let x = self.spec_r16(target);
        let result = x.wrapping_add(value);
        Registers {
            f: FlagsRegister {
                zero: value == 0,
                subtract: false,
                half_carry: (x & 0xFFF) + (value & 0xFFF) > 0xFFF,
                carry: x + value > 0xFFFF,
            },
            ..self.spec_with_r16(target, result)
        }
    }

    pub fn add_to_r16(&mut self, target: R16, value: u16)
        ensures
            *final(self) == old(self).spec_after_add16(target, value),
    {
        broadcast use crate::bits::lemma_u16_and_bound;

        let r16_value = self.get_r16_value(target);
        let new_value = r16_value.wrapping_add(value);
        let did_overflow = (r16_value as u32) + (value as u32) > 0xFFFF;

        self.set_r16_value(target, new_value);
        self.f.zero = value == 0;
        self.f.subtract = false;
        self.f.carry = did_overflow;
        self.f.half_carry = (r16_value & 0xFFF) + (value & 0xFFF) > 0xFFF;
    }

    pub fn get_a(&self) -> (r: u8)
        returns
            self.a,
    {
        self.a
    }

    pub fn get_b(&self) -> (r: u8)
        returns
            self.b,
    {
        self.b
    }

    pub fn get_c(&self) -> (r: u8)
        returns
            self.c,
    {
        self.c
    }

    pub fn get_d(&self) -> (r: u8)
        returns
            self.d,
    {
        self.d
    }

    pub fn get_e(&self) -> (r: u8)
        returns
            self.e,
    {
        self.e
    }

    pub fn get_h(&self) -> (r: u8)
        returns
            self.h,
    {
        self.h
    }

    pub fn get_l(&self) -> (r: u8)
        returns
            self.l,
    {
        self.l
    }

    pub fn get_af(&self) -> (r: u16)
        returns
            self.spec_af(),
    {
        let byte: u8 = self.f.to_byte();
        ((self.a as u16) << 8u16) | (byte as u16)
    }

    pub fn set_af(&mut self, value: u16)
        ensures
            *final(self) == (Registers {
                a: ((value & 0xFF00) >> 8) as u8,
                f: FlagsRegister::spec_from_byte((value & 0xFF) as u8),
                ..*old(self)
            }),
    {
        self.a = ((value & 0xFF00) >> 8u16) as u8;
        self.f = FlagsRegister::from_byte((value & 0xFF) as u8);
    }

    pub fn get_bc(&self) -> (r: u16)
        returns
            self.spec_bc(),
    {
        ((self.b as u16) << 8u16) | (self.c as u16)
    }

    pub fn set_bc(&mut self, value: u16)
        ensures
            *final(self) == old(self).spec_with_bc(value),
    {
        self.b = ((value & 0xFF00) >> 8u16) as u8;
        self.c = (value & 0xFF) as u8;
    }

    pub fn get_de(&self) -> (r: u16)
        returns
            self.spec_de(),
    {
        ((self.d as u16) << 8u16) | (self.e as u16)
    }

    pub fn set_de(&mut self, value: u16)
        ensures
            *final(self) == old(self).spec_with_de(value),
    {
        self.d = ((value & 0xFF00) >> 8u16) as u8;
        self.e = (value & 0xFF) as u8;
    }

    pub fn get_hl(&self) -> (r: u16)
        returns
            self.spec_hl(),
    {
        ((self.h as u16) << 8u16) | (self.l as u16)
    }

    pub fn set_hl(&mut self, value: u16)
        ensures
            *final(self) == old(self).spec_with_hl(value),
    {
        self.h = ((value & 0xFF00) >> 8u16) as u8;
        self.l = (value & 0xFF) as u8;
    }
}

impl Default for Registers {
    fn default() -> (r: Registers)
        ensures
            r == (Registers {
                b: 0,
                c: 0,
                d: 0,
                e: 0,
                h: 0,
                l: 0,
                ind: 0,
                a: 0,
                f: FlagsRegister { zero: true, subtract: false, half_carry: true, carry: true },
            }),
    {
        Registers {
            b: 0,
            c: 0,
            d: 0,
            e: 0,
            h: 0,
            l: 0,
            ind: 0,
            a: 0,
            f: FlagsRegister::default(),
        }
    }
}

} // verus!
