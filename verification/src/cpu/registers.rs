//! The CPU register file: eight 8-bit registers (index 6 standing for the
//! memory operand addressed by HL), the packed flag register, the 16-bit pair
//! views and the stack pointer.

use crate::cpu::conditions::Cond;
use crate::cpu::flags_registers::FlagsRegister;
use crate::mmu::{mmu_read, mmu_write, Mmu};
use vstd::prelude::*;

verus! {

/// An 8-bit register operand. `HLIndirect` is the slot that addresses memory
/// through HL rather than a physical register.
#[derive(Clone, Copy, PartialEq, Eq, Structural, Debug)]
pub enum R8 {
    B,
    C,
    D,
    E,
    H,
    L,
    HLIndirect,
    A,
}

impl R8 {
    /// The register encoded by a 3-bit field.
    pub open spec fn spec_from_index(value: u8) -> R8 {
        if value == 0 {
            R8::B
        } else if value == 1 {
            R8::C
        } else if value == 2 {
            R8::D
        } else if value == 3 {
            R8::E
        } else if value == 4 {
            R8::H
        } else if value == 5 {
            R8::L
        } else if value == 6 {
            R8::HLIndirect
        } else {
            R8::A
        }
    }

    #[verifier::when_used_as_spec(spec_from_index)]
    pub fn from_index(value: u8) -> (r: R8)
        returns
            R8::spec_from_index(value),
    {
        if value == 0 {
            R8::B
        } else if value == 1 {
            R8::C
        } else if value == 2 {
            R8::D
        } else if value == 3 {
            R8::E
        } else if value == 4 {
            R8::H
        } else if value == 5 {
            R8::L
        } else if value == 6 {
            R8::HLIndirect
        } else {
            R8::A
        }
    }
}

/// A 16-bit register pair operand.
#[derive(Clone, Copy, PartialEq, Eq, Structural, Debug)]
pub enum R16 {
    BC,
    DE,
    HL,
    SP,
}

impl R16 {
    /// The pair encoded by a 2-bit field.
    pub open spec fn spec_from_index(value: u8) -> R16 {
        if value == 0 {
            R16::BC
        } else if value == 1 {
            R16::DE
        } else if value == 2 {
            R16::HL
        } else {
            R16::SP
        }
    }

    #[verifier::when_used_as_spec(spec_from_index)]
    pub fn from_index(value: u8) -> (r: R16)
        returns
            R16::spec_from_index(value),
    {
        if value == 0 {
            R16::BC
        } else if value == 1 {
            R16::DE
        } else if value == 2 {
            R16::HL
        } else {
            R16::SP
        }
    }

    /// The pair a memory operand resolves to: HL+ and HL- both address
    /// through HL.
    pub open spec fn spec_of_mem(value: R16Mem) -> R16 {
        match value {
            R16Mem::BC => R16::BC,
            R16Mem::DE => R16::DE,
            R16Mem::HLincrement => R16::HL,
            R16Mem::HLdecrement => R16::HL,
        }
    }

    #[verifier::when_used_as_spec(spec_of_mem)]
    pub fn of_mem(value: R16Mem) -> (r: R16)
        returns
            R16::spec_of_mem(value),
    {
        match value {
            R16Mem::BC => R16::BC,
            R16Mem::DE => R16::DE,
            R16Mem::HLincrement | R16Mem::HLdecrement => R16::HL,
        }
    }
}

/// A 16-bit memory operand: BC, DE, or HL with a post-increment or
/// post-decrement of HL.
#[derive(Clone, Copy, PartialEq, Eq, Structural, Debug)]
pub enum R16Mem {
    BC,
    DE,
    HLincrement,
    HLdecrement,
}

impl R16Mem {
    pub open spec fn spec_from_index(value: u8) -> R16Mem {
        if value == 0 {
            R16Mem::BC
        } else if value == 1 {
            R16Mem::DE
        } else if value == 2 {
            R16Mem::HLincrement
        } else {
            R16Mem::HLdecrement
        }
    }

    #[verifier::when_used_as_spec(spec_from_index)]
    pub fn from_index(value: u8) -> (r: R16Mem)
        returns
            R16Mem::spec_from_index(value),
    {
        if value == 0 {
            R16Mem::BC
        } else if value == 1 {
            R16Mem::DE
        } else if value == 2 {
            R16Mem::HLincrement
        } else {
            R16Mem::HLdecrement
        }
    }
}

#[derive(Clone, Copy, PartialEq, Eq, Structural)]
pub struct Registers {
    pub b: u8,
    pub c: u8,
    pub d: u8,
    pub e: u8,
    pub h: u8,
    pub l: u8,
    /// The storage slot behind index 6; the CPU intercepts that index and
    /// addresses memory instead, so this cell only changes through direct
    /// register-file access.
    pub ind: u8,
    pub a: u8,
    pub sp: u16,
    pub f: FlagsRegister,
}

impl Default for Registers {
    /// The documented power-up register values.
    fn default() -> (r: Registers)
        ensures
            r == Registers::spec_default(),
    {
        Registers {
            b: 0x00,
            c: 0x13,
            d: 0x00,
            e: 0xD8,
            h: 0x01,
            l: 0x4D,
            ind: 0x01,
            a: 0x01,
            sp: 0xFFFE,
            f: FlagsRegister { zero: true, subtract: false, half_carry: true, carry: true },
        }
    }
}

impl Registers {
    pub open spec fn spec_default() -> Registers {
        Registers {
            b: 0x00,
            c: 0x13,
            d: 0x00,
            e: 0xD8,
            h: 0x01,
            l: 0x4D,
            ind: 0x01,
            a: 0x01,
            sp: 0xFFFE,
            f: FlagsRegister { zero: true, subtract: false, half_carry: true, carry: true },
        }
    }

    /// The value of the register-file slot for `target`.
    pub open spec fn spec_r8(self, target: R8) -> u8 {
        match target {
            R8::B => self.b,
            R8::C => self.c,
            R8::D => self.d,
            R8::E => self.e,
            R8::H => self.h,
            R8::L => self.l,
            R8::HLIndirect => self.ind,
            R8::A => self.a,
        }
    }

    /// This register file with the slot for `target` set to `value`.
    pub open spec fn spec_with_r8(self, target: R8, value: u8) -> Registers {
        match target {
            R8::B => Registers { b: value, ..self },
            R8::C => Registers { c: value, ..self },
            R8::D => Registers { d: value, ..self },
            R8::E => Registers { e: value, ..self },
            R8::H => Registers { h: value, ..self },
            R8::L => Registers { l: value, ..self },
            R8::HLIndirect => Registers { ind: value, ..self },
            R8::A => Registers { a: value, ..self },
        }
    }

    /// This register file with all four flags replaced.
    pub open spec fn spec_with_flags(
        self,
        zero: bool,
        subtract: bool,
        half_carry: bool,
        carry: bool,
    ) -> Registers {
        Registers { f: FlagsRegister { zero, subtract, half_carry, carry }, ..self }
    }

    pub open spec fn spec_bc(self) -> u16 {
        ((self.b as u16) << 8) | (self.c as u16)
    }

    pub open spec fn spec_de(self) -> u16 {
        ((self.d as u16) << 8) | (self.e as u16)
    }

    pub open spec fn spec_hl(self) -> u16 {
        ((self.h as u16) << 8) | (self.l as u16)
    }

    pub open spec fn spec_af(self) -> u16 {
        ((self.a as u16) << 8) | (self.f.spec_to_byte() as u16)
    }

    pub open spec fn spec_with_bc(self, value: u16) -> Registers {
        Registers { b: ((value & 0xFF00) >> 8) as u8, c: (value & 0xFF) as u8, ..self }
    }

    pub open spec fn spec_with_de(self, value: u16) -> Registers {
        Registers { d: ((value & 0xFF00) >> 8) as u8, e: (value & 0xFF) as u8, ..self }
    }

    pub open spec fn spec_with_hl(self, value: u16) -> Registers {
        Registers { h: ((value & 0xFF00) >> 8) as u8, l: (value & 0xFF) as u8, ..self }
    }

    pub open spec fn spec_with_af(self, value: u16) -> Registers {
        Registers {
            a: ((value & 0xFF00) >> 8) as u8,
            f: FlagsRegister::spec_from_byte((value & 0xFF) as u8),
            ..self
        }
    }

    /// The value of the 16-bit pair `target`.
    pub open spec fn spec_r16(self, target: R16) -> u16 {
        match target {
            R16::BC => self.spec_bc(),
            R16::DE => self.spec_de(),
            R16::HL => self.spec_hl(),
            R16::SP => self.sp,
        }
    }

    /// This register file with the pair `target` set to `value`.
    pub open spec fn spec_with_r16(self, target: R16, value: u16) -> Registers {
        match target {
            R16::BC => self.spec_with_bc(value),
            R16::DE => self.spec_with_de(value),
            R16::HL => self.spec_with_hl(value),
            R16::SP => Registers { sp: value, ..self },
        }
    }

    pub fn get_flags(&self) -> (r: FlagsRegister)
        returns
            self.f,
    {
        self.f
    }

    pub fn get_flags_u8(&self) -> (r: u8)
        returns
            self.f.spec_to_byte(),
    {
        self.f.to_byte()
    }

    pub fn set_r8_value(&mut self, target: R8, value: u8)
        ensures
            *final(self) == old(self).spec_with_r8(target, value),
    {
        match target {
            R8::B => self.b = value,
            R8::C => self.c = value,
            R8::D => self.d = value,
            R8::E => self.e = value,
            R8::H => self.h = value,
            R8::L => self.l = value,
            R8::HLIndirect => self.ind = value,
            R8::A => self.a = value,
        }
    }

    pub fn get_r8_value(&self, target: R8) -> (r: u8)
        returns
            self.spec_r8(target),
    {
        match target {
            R8::B => self.b,
            R8::C => self.c,
            R8::D => self.d,
            R8::E => self.e,
            R8::H => self.h,
            R8::L => self.l,
            R8::HLIndirect => self.ind,
            R8::A => self.a,
        }
    }

    /// The sum for the 8-bit add family, wrapped to a byte.
    pub open spec fn add8_result(x: u8, y: u8, carry_in: u8) -> u8 {
        x.wrapping_add(y).wrapping_add(carry_in)
    }

    /// This register file after `ADD`/`ADC` of `value` into `target`: the
    /// wrapped sum lands in the slot; Z is set from the result, N cleared,
    /// H from nibble overflow and C from byte overflow.
    pub open spec fn spec_after_add8(self, target: R8, value: u8, with_carry: bool) -> Registers {
        let carry_in: u8 = if with_carry && self.f.carry {
            1
        } else {
            0
        };
        let x = self.spec_r8(target);
        let result = Self::add8_result(x, value, carry_in);
        self.spec_with_r8(target, result).spec_with_flags(
            result == 0,
            false,
            (x & 0x0F) + (value & 0x0F) + carry_in > 0x0F,
            x + value + carry_in > 0xFF,
        )
    }

    pub fn add_to_r8(&mut self, target: R8, value: u8, with_carry: bool)
        ensures
            *final(self) == old(self).spec_after_add8(target, value, with_carry),
    {
        broadcast use crate::bits::lemma_u8_and_bound;

        let target_value = self.get_r8_value(target);
        let carry_in: u8 = if with_carry && self.get_carry_flag() {
            1
        } else {
            0
        };

        let intermediate = target_value.wrapping_add(value);
        let carry1 = (target_value as u16) + (value as u16) > 0xFF;
        let result = intermediate.wrapping_add(carry_in);
        let carry2 = (intermediate as u16) + (carry_in as u16) > 0xFF;

        self.set_r8_value(target, result);

        let half_carry = (target_value & 0x0F) + (value & 0x0F) + carry_in > 0x0F;
        let carry = carry1 || carry2;

        self.f.set_all(result == 0, false, half_carry, carry);
    }

    /// The difference for the 8-bit subtract family, wrapped to a byte.
    pub open spec fn sub8_result(x: u8, y: u8, carry_in: u8) -> u8 {
        x.wrapping_sub(y).wrapping_sub(carry_in)
    }

    /// This register file after `SUB`/`SBC` of `value` from `target`: the
    /// wrapped difference lands in the slot; Z from the result, N set, H from
    /// a nibble borrow and C from a byte borrow.
    pub open spec fn spec_after_sub8(self, target: R8, value: u8, with_carry: bool) -> Registers {
        let carry_in: u8 = if with_carry && self.f.carry {
            1
        } else {
            0
        };
        let x = self.spec_r8(target);
        let result = Self::sub8_result(x, value, carry_in);
        self.spec_with_r8(target, result).spec_with_flags(
            result == 0,
            true,
            (x & 0x0F).wrapping_sub(value & 0x0F).wrapping_sub(carry_in) & 0x10 != 0,
            (x as int) < value + carry_in,
        )
    }

    pub fn sub_to_r8(&mut self, target: R8, value: u8, with_carry: bool)
        ensures
            *final(self) == old(self).spec_after_sub8(target, value, with_carry),
    {
        broadcast use crate::bits::lemma_u8_and_bound;

        let original = self.get_r8_value(target);
        let carry: u8 = if with_carry && self.get_carry_flag() {
            1
        } else {
            0
        };

        let intermediate = original.wrapping_sub(value);
        let carry1 = original < value;
        let result = intermediate.wrapping_sub(carry);
        let carry2 = intermediate < carry;

        self.set_r8_value(target, result);

        let zero = result == 0;
        let subtract = true;
        let half_carry = (original & 0x0F).wrapping_sub(value & 0x0F).wrapping_sub(carry) & 0x10
            != 0;
        let carry = carry1 || carry2;

        self.f.set_all(zero, subtract, half_carry, carry);
    }

    pub fn get_r16_value(&self, target: R16) -> (r: u16)
        returns
            self.spec_r16(target),
    {
        match target {
            R16::BC => self.get_bc(),
            R16::DE => self.get_de(),
            R16::HL => self.get_hl(),
            R16::SP => self.sp,
        }
    }

    pub fn set_r16_value(&mut self, target: R16, value: u16)
        ensures
            *final(self) == old(self).spec_with_r16(target, value),
    {
        match target {
            R16::BC => self.set_bc(value),
            R16::DE => self.set_de(value),
            R16::HL => self.set_hl(value),
            R16::SP => self.sp = value,
        }
    }

    /// Store `value` at the address held in the pair `target`.
    pub fn set_r16_mem_value(&mut self, memory: &mut Mmu, target: R16, value: u8)
        requires
            old(memory).wf(),
            target != R16::SP,
        ensures
            *final(self) == *old(self),
            final(memory).wf(),
            final(memory)@ == mmu_write(old(memory)@, old(self).spec_r16(target), value),
    {
        let addr = match target {
            R16::BC => self.get_bc(),
            R16::DE => self.get_de(),
            _ => self.get_hl(),
        };
        memory.write_byte(addr, value);
    }

    /// Read the byte at the address held in the pair `target`.
    pub fn get_r16_mem_value(&self, memory: &Mmu, target: R16) -> (r: u8)
        requires
            memory.wf(),
            target != R16::SP,
        returns
            mmu_read(memory@, self.spec_r16(target)),
    {
        let addr = match target {
            R16::BC => self.get_bc(),
            R16::DE => self.get_de(),
            _ => self.get_hl(),
        };
        memory.read_byte(addr)
    }

    /// This register file after `ADD HL`-style 16-bit addition into `target`:
    /// Z is preserved, N cleared, H from bit-11 carry, C from bit-15 carry.
    pub open spec fn spec_after_add16(self, target: R16, value: u16) -> Registers {
        let x = self.spec_r16(target);
        let result = x.wrapping_add(value);
        self.spec_with_r16(target, result).spec_with_flags(
            self.f.zero,
            false,
            (x & 0xFFF) + (value & 0xFFF) > 0xFFF,
            x + value > 0xFFFF,
        )
    }

    pub fn add_to_r16(&mut self, target: R16, value: u16)
        ensures
            *final(self) == old(self).spec_after_add16(target, value),
    {
        broadcast use crate::bits::lemma_u16_and_bound;

        let r16_value = self.get_r16_value(target);
        let new_value = r16_value.wrapping_add(value);
        let did_overflow = (r16_value as u32) + (value as u32) > 0xFFFF;

        self.set_r16_value(target, new_value);
        let zero = self.get_zero_flag();
        let subtract = false;
        let half_carry = (r16_value & 0xFFF) + (value & 0xFFF) > 0xFFF;
        let carry = did_overflow;
        self.f.set_all(zero, subtract, half_carry, carry);
    }

    /// The signed byte `offset` sign-extended to the 16-bit address width.
    pub open spec fn spec_offset_u16(offset: i8) -> u16 {
        if offset >= 0 {
            offset as u16
        } else {
            (0x10000 + offset as int) as u16
        }
    }

    /// This register file after `ADD SP, e8`: SP moves by the signed offset;
    /// Z and N clear, H and C from the low-nibble and low-byte sums.
    pub open spec fn spec_after_add_sp(self, offset: i8) -> Registers {
        let off = Self::spec_offset_u16(offset);
        let result = self.sp.wrapping_add(off);
        Registers { sp: result, ..self }.spec_with_flags(
            false,
            false,
            (self.sp & 0xF) + (off & 0xF) > 0xF,
            (self.sp & 0xFF) + (off & 0xFF) > 0xFF,
        )
    }

    pub fn add_sp_i8(&mut self, offset: i8)
        ensures
            *final(self) == old(self).spec_after_add_sp(offset),
    {
        broadcast use crate::bits::lemma_u16_and_bound;

        let sp = self.sp;
        let offset_u16: u16 = if offset >= 0 {
            offset as u16
        } else {
            (0x10000i32 + offset as i32) as u16
        };
        let result = sp.wrapping_add(offset_u16);

        self.set_zero_flag(false);
        self.set_subtract_flag(false);

        self.set_half_carry_flag((sp & 0xF) + (offset_u16 & 0xF) > 0xF);
        self.set_carry_flag((sp & 0xFF) + (offset_u16 & 0xFF) > 0xFF);

        self.sp = result;
    }

    /// This register file after a left rotate of `target`: through the carry
    /// flag when `through_carry` is set, circularly otherwise. C takes the
    /// outgoing bit 7; Z is forced clear for A and set from the result for
    /// the other slots; N and H clear.
    pub open spec fn spec_after_rotate_left(self, target: R8, through_carry: bool) -> Registers {
        let value = self.spec_r8(target);
        let old_carry: u8 = if self.f.carry {
            1
        } else {
            0
        };
        let result: u8 = if through_carry {
            ((value << 1) & 0xFE) | old_carry
        } else {
            (value << 1) | (value >> 7)
        };
        let zero = if target == R8::A {
            false
        } else {
            result == 0
        };
        self.spec_with_r8(target, result).spec_with_flags(
            zero,
            false,
            false,
            (value & 0x80) >> 7 == 1,
        )
    }

    pub fn rotate_left(&mut self, target: R8, through_carry: bool)
        ensures
            *final(self) == old(self).spec_after_rotate_left(target, through_carry),
    {
        let value = self.get_r8_value(target);
        let old_carry: u8 = if self.f.get_carry() {
            1
        } else {
            0
        };
        let bit7 = (value & 0x80) >> 7;

        let result = if through_carry {
            let rotated = value << 1u8;
            (rotated & 0b1111_1110) | old_carry
        } else {
            (value << 1u8) | (value >> 7u8)
        };

        self.set_r8_value(target, result);
        self.set_carry_flag(bit7 == 1);

        if target == R8::A {
            self.set_zero_flag(false);
        } else {
            self.set_zero_flag(result == 0);
        }

        self.set_subtract_flag(false);
        self.set_half_carry_flag(false);
    }

    /// This register file after a right rotate of `target`: circular when
    /// `circular` is set, through the carry flag otherwise. C takes the
    /// outgoing bit 0; Z is set from the result except for A; N and H clear.
    pub open spec fn spec_after_rotate_right(self, target: R8, circular: bool) -> Registers {
        let value = self.spec_r8(target);
        let result: u8 = if circular {
            (value >> 1) | (value << 7)
        } else {
            (value >> 1) | (if self.f.carry {
                0x80u8
            } else {
                0u8
            })
        };
        let zero = result == 0 && target != R8::A;
        self.spec_with_r8(target, result).spec_with_flags(zero, false, false, value & 0x01 != 0)
    }

    pub fn rotate_right(&mut self, target: R8, circular: bool)
        ensures
            *final(self) == old(self).spec_after_rotate_right(target, circular),
    {
        let r8 = self.get_r8_value(target);
        let old_carry = self.f.get_carry();
        let outgoing_bit = r8 & 0b0000_0001 != 0;

        let result = if circular {
            (r8 >> 1u8) | (r8 << 7u8)
        } else {
            (r8 >> 1u8) | (if old_carry {
                0x80u8
            } else {
                0x00u8
            })
        };

        let zero = result == 0 && target != R8::A;
        self.set_r8_value(target, result);
        self.set_carry_flag(outgoing_bit);
        self.set_zero_flag(zero);
        self.set_subtract_flag(false);
        self.set_half_carry_flag(false);
    }

    /// This register file after `SLA`: the slot shifts left one bit, C takes
    /// the outgoing bit 7, Z from the result, N and H clear.
    pub open spec fn spec_after_shift_left(self, target: R8) -> Registers {
        let value = self.spec_r8(target);
        let result: u8 = value << 1;
        self.spec_with_r8(target, result).spec_with_flags(
            result == 0,
            false,
            false,
            (value & 0x80) >> 7 == 1,
        )
    }

    pub fn shift_left(&mut self, target: R8)
        ensures
            *final(self) == old(self).spec_after_shift_left(target),
    {
        let r8 = self.get_r8_value(target);
        let outgoing_bit = (r8 & 0b1000_0000) >> 7;

        let result = r8 << 1u8;
        self.set_r8_value(target, result);
        self.set_carry_flag(outgoing_bit == 1);
        self.set_zero_flag(result == 0);
        self.set_subtract_flag(false);
        self.set_half_carry_flag(false);
    }

    /// This register file after `SRA`/`SRL`: the slot shifts right one bit,
    /// keeping bit 7 in the arithmetic form; C takes the outgoing bit 0, Z
    /// from the result, N and H clear.
    pub open spec fn spec_after_shift_right(self, target: R8, arithmetic: bool) -> Registers {
        let value = self.spec_r8(target);
        let result: u8 = if arithmetic {
            (value >> 1) | (value & 0x80)
        } else {
            value >> 1
        };
        self.spec_with_r8(target, result).spec_with_flags(
            result == 0,
            false,
            false,
            value & 0x01 == 1,
        )
    }

    pub fn shift_right(&mut self, target: R8, arithmetic: bool)
        ensures
            *final(self) == old(self).spec_after_shift_right(target, arithmetic),
    {
        let r8 = self.get_r8_value(target);
        let outgoing_bit = r8 & 0b0000_0001;

        let result = if arithmetic {
            (r8 >> 1u8) | (r8 & 0x80)
        } else {
            r8 >> 1u8
        };
        self.set_r8_value(target, result);
        self.set_carry_flag(outgoing_bit == 1);
        self.set_zero_flag(result == 0);
        self.set_subtract_flag(false);
        self.set_half_carry_flag(false);
    }

    /// This register file after `SWAP`: the slot's nibbles exchange, Z from
    /// the result and the other flags clear.
    pub open spec fn spec_after_swap(self, target: R8) -> Registers {
        let value = self.spec_r8(target);
        let result: u8 = ((value & 0x0F) << 4) | ((value & 0xF0) >> 4);
        self.spec_with_r8(target, result).spec_with_flags(result == 0, false, false, false)
    }

    pub fn swap(&mut self, target: R8)
        ensures
            *final(self) == old(self).spec_after_swap(target),
    {
        let r8 = self.get_r8_value(target);
        let high_nibble = (r8 & 0xF0) >> 4u8;
        let low_nibble = (r8 & 0x0F) << 4u8;

        let result = low_nibble | high_nibble;
        self.set_r8_value(target, result);
        self.set_zero_flag(result == 0);
        self.set_subtract_flag(false);
        self.set_half_carry_flag(false);
        self.set_carry_flag(false);
    }

    pub fn set_zero_flag(&mut self, value: bool)
        ensures
            *final(self) == (Registers {
                f: FlagsRegister { zero: value, ..old(self).f },
                ..*old(self)
            }),
    {
        self.f.set_zero(value);
    }

    pub fn set_subtract_flag(&mut self, value: bool)
        ensures
            *final(self) == (Registers {
                f: FlagsRegister { subtract: value, ..old(self).f },
                ..*old(self)
            }),
    {
        self.f.set_subtract(value);
    }

    pub fn set_half_carry_flag(&mut self, value: bool)
        ensures
            *final(self) == (Registers {
                f: FlagsRegister { half_carry: value, ..old(self).f },
                ..*old(self)
            }),
    {
        self.f.set_half_carry(value);
    }

    pub fn set_carry_flag(&mut self, value: bool)
        ensures
            *final(self) == (Registers {
                f: FlagsRegister { carry: value, ..old(self).f },
                ..*old(self)
            }),
    {
        self.f.set_carry(value);
    }

    pub fn get_zero_flag(&self) -> (r: bool)
        returns
            self.f.zero,
    {
        self.f.get_zero()
    }

    pub fn get_subtract_flag(&self) -> (r: bool)
        returns
            self.f.subtract,
    {
        self.f.get_subtract()
    }

    pub fn get_half_carry_flag(&self) -> (r: bool)
        returns
            self.f.half_carry,
    {
        self.f.get_half_carry()
    }

    pub fn get_carry_flag(&self) -> (r: bool)
        returns
            self.f.carry,
    {
        self.f.get_carry()
    }

    pub fn get_a(&self) -> (r: u8)
        returns
            self.a,
    {
        self.a
    }

    pub fn get_b(&self) -> (r: u8)
        returns
            self.b,
    {
        self.b
    }

    pub fn get_c(&self) -> (r: u8)
        returns
            self.c,
    {
        self.c
    }

    pub fn get_d(&self) -> (r: u8)
        returns
            self.d,
    {
        self.d
    }

    pub fn get_e(&self) -> (r: u8)
        returns
            self.e,
    {
        self.e
    }

    pub fn get_h(&self) -> (r: u8)
        returns
            self.h,
    {
        self.h
    }

    pub fn get_l(&self) -> (r: u8)
        returns
            self.l,
    {
        self.l
    }

    pub fn get_af(&self) -> (r: u16)
        returns
            self.spec_af(),
    {
        let byte: u8 = self.f.to_byte();
        ((self.a as u16) << 8u16) | (byte as u16)
    }

    pub fn set_af(&mut self, value: u16)
        ensures
            *final(self) == old(self).spec_with_af(value),
    {
        self.a = ((value & 0xFF00) >> 8u16) as u8;
        self.f = FlagsRegister::from_byte((value & 0xFF) as u8);
    }

    pub fn get_bc(&self) -> (r: u16)
        returns
            self.spec_bc(),
    {
        ((self.b as u16) << 8u16) | (self.c as u16)
    }

    pub fn set_bc(&mut self, value: u16)
        ensures
            *final(self) == old(self).spec_with_bc(value),
    {
        self.b = ((value & 0xFF00) >> 8u16) as u8;
        self.c = (value & 0xFF) as u8;
    }

    pub fn get_de(&self) -> (r: u16)
        returns
            self.spec_de(),
    {
        ((self.d as u16) << 8u16) | (self.e as u16)
    }

    pub fn set_de(&mut self, value: u16)
        ensures
            *final(self) == old(self).spec_with_de(value),
    {
        self.d = ((value & 0xFF00) >> 8u16) as u8;
        self.e = (value & 0xFF) as u8;
    }

    pub fn get_hl(&self) -> (r: u16)
        returns
            self.spec_hl(),
    {
        ((self.h as u16) << 8u16) | (self.l as u16)
    }

    pub fn set_hl(&mut self, value: u16)
        ensures
            *final(self) == old(self).spec_with_hl(value),
    {
        self.h = ((value & 0xFF00) >> 8u16) as u8;
        self.l = (value & 0xFF) as u8;
    }

    pub fn get_sp(&self) -> (r: u16)
        returns
            self.sp,
    {
        self.sp
    }

    pub fn set_sp(&mut self, value: u16)
        ensures
            *final(self) == (Registers { sp: value, ..*old(self) }),
    {
        self.sp = value;
    }

    /// Push `value`: SP moves down twice, the high byte landing above the
    /// low byte.
    pub fn push_sp(&mut self, bus: &mut Mmu, value: u16)
        requires
            old(bus).wf(),
        ensures
            *final(self) == (Registers { sp: old(self).sp.wrapping_sub(2), ..*old(self) }),
            final(bus).wf(),
            final(bus)@ == mmu_write(
                mmu_write(old(bus)@, old(self).sp.wrapping_sub(1), (value >> 8) as u8),
                old(self).sp.wrapping_sub(2),
                (value & 0xFF) as u8,
            ),
    {
        let low = (value & 0x00FF) as u8;
        let high = (value >> 8u16) as u8;
        proof {
            let v = value;
            assert(v >> 8 <= 0xFF) by (bit_vector);
        }
        self.sp = self.sp.wrapping_sub(1);
        bus.write_byte(self.sp, high);
        self.sp = self.sp.wrapping_sub(1);
        bus.write_byte(self.sp, low);
    }

    /// The 16-bit value on top of the stack: low byte at SP, high byte above.
    pub open spec fn spec_stack_top(self, m: crate::mmu::MmuView) -> u16 {
        ((mmu_read(m, self.sp.wrapping_add(1)) as u16) << 8) | (mmu_read(m, self.sp) as u16)
    }

    /// Pop a 16-bit value: SP moves up twice.
    pub fn pop_sp(&mut self, bus: &Mmu) -> (r: u16)
        requires
            bus.wf(),
        ensures
            *final(self) == (Registers { sp: old(self).sp.wrapping_add(2), ..*old(self) }),
            r == old(self).spec_stack_top(bus@),
    {
        let low = bus.read_byte(self.sp) as u16;
        let high = bus.read_byte(self.sp.wrapping_add(1)) as u16;
        self.sp = self.sp.wrapping_add(2);
        (high << 8u16) | low
    }

    /// Whether the condition holds of the current flags.
    pub fn check_condition(&self, cond: Cond) -> (r: bool)
        returns
            cond.spec_test(self.f.zero, self.f.carry),
    {
        match cond {
            Cond::NZ => !self.get_zero_flag(),
            Cond::Z => self.get_zero_flag(),
            Cond::NC => !self.get_carry_flag(),
            Cond::C => self.get_carry_flag(),
            Cond::Always => true,
        }
    }
}

} // verus!
