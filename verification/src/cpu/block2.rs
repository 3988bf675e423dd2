//! Opcode block 10: the 8-bit ALU operations between A and a register
//! operand — ADD, ADC, SUB, SBC, AND, XOR, OR and CP.

use crate::cpu::registers::R8;
use crate::cpu::utils::spec_source_r8_of;
use crate::cpu::{cpu_r8, utils, with_pc, with_regs, Cpu, CpuView};
use vstd::prelude::*;

verus! {

/// `ADD A, r8` / `ADC A, r8`.
pub open spec fn after_add_a_r8(c: CpuView, instruction: u8, with_carry: bool) -> CpuView {
    let value = cpu_r8(c, spec_source_r8_of(instruction));
    with_pc(with_regs(c, c.regs.spec_after_add8(R8::A, value, with_carry)), c.pc.wrapping_add(1))
}

/// `SUB A, r8` / `SBC A, r8`.
pub open spec fn after_sub_a_r8(c: CpuView, instruction: u8, with_carry: bool) -> CpuView {
    let value = cpu_r8(c, spec_source_r8_of(instruction));
    with_pc(with_regs(c, c.regs.spec_after_sub8(R8::A, value, with_carry)), c.pc.wrapping_add(1))
}

/// `AND A, r8`: Z from the result, H set, N and C clear.
pub open spec fn after_and_a_r8(c: CpuView, instruction: u8) -> CpuView {
    let value = cpu_r8(c, spec_source_r8_of(instruction));
    let result = c.regs.a & value;
    let regs = c.regs.spec_with_r8(R8::A, result).spec_with_flags(result == 0, false, true, false);
    with_pc(with_regs(c, regs), c.pc.wrapping_add(1))
}

/// `XOR A, r8`: Z from the result, the other flags clear.
pub open spec fn after_xor_a_r8(c: CpuView, instruction: u8) -> CpuView {
    let value = cpu_r8(c, spec_source_r8_of(instruction));
    let result = c.regs.a ^ value;
    let regs = c.regs.spec_with_r8(R8::A, result).spec_with_flags(result == 0, false, false, false);
    with_pc(with_regs(c, regs), c.pc.wrapping_add(1))
}

/// `OR A, r8`: Z from the result, the other flags clear.
pub open spec fn after_or_a_r8(c: CpuView, instruction: u8) -> CpuView {
    let value = cpu_r8(c, spec_source_r8_of(instruction));
    let result = c.regs.a | value;
    let regs = c.regs.spec_with_r8(R8::A, result).spec_with_flags(result == 0, false, false, false);
    with_pc(with_regs(c, regs), c.pc.wrapping_add(1))
}

/// `CP A, r8`: compare without storing; Z from the wrapped difference, N
/// set, H from the low-nibble borrow, C when the operand exceeds A.
pub open spec fn after_cp_a_r8(c: CpuView, instruction: u8) -> CpuView {
    let r8_value = cpu_r8(c, spec_source_r8_of(instruction));
    let value = c.regs.a.wrapping_sub(r8_value);
    let regs = c.regs.spec_with_flags(
        value == 0,
        true,
        (c.regs.a & 0x0F) < (value & 0x0F),
        r8_value > c.regs.a,
    );
    with_pc(with_regs(c, regs), c.pc.wrapping_add(1))
}

/// The effect of a block-10 opcode: bits 3-5 select the ALU operation.
pub open spec fn after_block2(c: CpuView, instruction: u8) -> CpuView {
    let op = instruction & 0x38;
    if op == 0x00 {
        after_add_a_r8(c, instruction, false)
    } else if op == 0x08 {
        after_add_a_r8(c, instruction, true)
    } else if op == 0x10 {
        after_sub_a_r8(c, instruction, false)
    } else if op == 0x18 {
        after_sub_a_r8(c, instruction, true)
    } else if op == 0x20 {
        after_and_a_r8(c, instruction)
    } else if op == 0x28 {
        after_xor_a_r8(c, instruction)
    } else if op == 0x30 {
        after_or_a_r8(c, instruction)
    } else {
        after_cp_a_r8(c, instruction)
    }
}

pub fn match_instruction_block2(cpu: &mut Cpu, instruction: u8)
    requires
        old(cpu).wf(),
    ensures
        final(cpu).wf(),
        final(cpu)@ == after_block2(old(cpu)@, instruction),
{
    broadcast use crate::bits::lemma_u8_and_bound;

    let op = instruction & 0x38;
    if op == 0x00 {
        add_a_r8(cpu, instruction, false);
    } else if op == 0x08 {
        add_a_r8(cpu, instruction, true);
    } else if op == 0x10 {
        sub_a_r8(cpu, instruction, false);
    } else if op == 0x18 {
        sub_a_r8(cpu, instruction, true);
    } else if op == 0x20 {
        and_a_r8(cpu, instruction);
    } else if op == 0x28 {
        xor_a_r8(cpu, instruction);
    } else if op == 0x30 {
        or_a_r8(cpu, instruction);
    } else {
        proof {
            let i = instruction;
            assert((i & 0x38 == 0x00) || (i & 0x38 == 0x08) || (i & 0x38 == 0x10) || (i & 0x38
                == 0x18) || (i & 0x38 == 0x20) || (i & 0x38 == 0x28) || (i & 0x38 == 0x30) || (i
                & 0x38 == 0x38)) by (bit_vector);
        }
        cp_a_r8(cpu, instruction);
    }
}

pub fn add_a_r8(cpu: &mut Cpu, instruction: u8, with_carry: bool)
    requires
        old(cpu).wf(),
    ensures
        final(cpu).wf(),
        final(cpu)@ == after_add_a_r8(old(cpu)@, instruction, with_carry),
{
    let r8: R8 = utils::convert_source_index_to_r8(instruction);

    let r8_value = cpu.get_r8_value(r8);
    cpu.registers.add_to_r8(R8::A, r8_value, with_carry);
    cpu.pc = cpu.pc.wrapping_add(1);
    proof {
        assert(cpu@ =~~= after_add_a_r8(old(cpu)@, instruction, with_carry));
    }
}

pub fn sub_a_r8(cpu: &mut Cpu, instruction: u8, with_carry: bool)
    requires
        old(cpu).wf(),
    ensures
        final(cpu).wf(),
        final(cpu)@ == after_sub_a_r8(old(cpu)@, instruction, with_carry),
{
    let r8: R8 = utils::convert_source_index_to_r8(instruction);

    let r8_value = cpu.get_r8_value(r8);
    cpu.registers.sub_to_r8(R8::A, r8_value, with_carry);
    cpu.pc = cpu.pc.wrapping_add(1);
    proof {
        assert(cpu@ =~~= after_sub_a_r8(old(cpu)@, instruction, with_carry));
    }
}

pub fn and_a_r8(cpu: &mut Cpu, instruction: u8)
    requires
        old(cpu).wf(),
    ensures
        final(cpu).wf(),
        final(cpu)@ == after_and_a_r8(old(cpu)@, instruction),
{
    let r8: R8 = utils::convert_source_index_to_r8(instruction);

    let r8_value = cpu.get_r8_value(r8);
    let a_value = cpu.get_r8_value(R8::A);

    let new_value = a_value & r8_value;
    cpu.set_r8_value(R8::A, new_value);

    cpu.registers.set_zero_flag(new_value == 0);
    cpu.registers.set_subtract_flag(false);
    cpu.registers.set_half_carry_flag(true);
    cpu.registers.set_carry_flag(false);

    cpu.pc = cpu.pc.wrapping_add(1);
    proof {
        assert(cpu@ =~~= after_and_a_r8(old(cpu)@, instruction));
    }
}

pub fn xor_a_r8(cpu: &mut Cpu, instruction: u8)
    requires
        old(cpu).wf(),
    ensures
        final(cpu).wf(),
        final(cpu)@ == after_xor_a_r8(old(cpu)@, instruction),
{
    let r8: R8 = utils::convert_source_index_to_r8(instruction);

    let r8_value = cpu.get_r8_value(r8);
    let a_value = cpu.get_r8_value(R8::A);

    let new_value = a_value ^ r8_value;
    cpu.set_r8_value(R8::A, new_value);

    cpu.registers.set_zero_flag(new_value == 0);
    cpu.registers.set_subtract_flag(false);
    cpu.registers.set_half_carry_flag(false);
    cpu.registers.set_carry_flag(false);

    cpu.pc = cpu.pc.wrapping_add(1);
    proof {
        assert(cpu@ =~~= after_xor_a_r8(old(cpu)@, instruction));
    }
}

pub fn or_a_r8(cpu: &mut Cpu, instruction: u8)
    requires
        old(cpu).wf(),
    ensures
        final(cpu).wf(),
        final(cpu)@ == after_or_a_r8(old(cpu)@, instruction),
{
    let r8: R8 = utils::convert_source_index_to_r8(instruction);

    let r8_value = cpu.get_r8_value(r8);
    let a_value = cpu.get_r8_value(R8::A);

    let new_value = a_value | r8_value;
    cpu.set_r8_value(R8::A, new_value);

    cpu.registers.set_zero_flag(new_value == 0);
    cpu.registers.set_subtract_flag(false);
    cpu.registers.set_half_carry_flag(false);
    cpu.registers.set_carry_flag(false);

    cpu.pc = cpu.pc.wrapping_add(1);
    proof {
        assert(cpu@ =~~= after_or_a_r8(old(cpu)@, instruction));
    }
}

pub fn cp_a_r8(cpu: &mut Cpu, instruction: u8)
    requires
        old(cpu).wf(),
    ensures
        final(cpu).wf(),
        final(cpu)@ == after_cp_a_r8(old(cpu)@, instruction),
{
    let r8: R8 = utils::convert_source_index_to_r8(instruction);

    let r8_value = cpu.get_r8_value(r8);
    let a_value = cpu.get_r8_value(R8::A);

    let value = a_value.wrapping_sub(r8_value);

    cpu.registers.set_zero_flag(value == 0);
    cpu.registers.set_subtract_flag(true);
    cpu.registers.set_half_carry_flag((a_value & 0x0F) < (value & 0x0F));
    cpu.registers.set_carry_flag(r8_value > a_value);

    cpu.pc = cpu.pc.wrapping_add(1);
    proof {
        assert(cpu@ =~~= after_cp_a_r8(old(cpu)@, instruction));
    }
}

} // verus!
