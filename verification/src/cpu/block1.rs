//! Opcode block 01: the register-to-register loads, with the one slot (0x76)
//! that encodes HALT instead.

use crate::cpu::registers::R8;
use crate::cpu::utils::{spec_dest_r8_of, spec_source_r8_of};
use crate::cpu::{cpu_r8, cpu_with_r8, utils, with_pc, Cpu, CpuView};
use vstd::prelude::*;

verus! {

/// The processor after `LD r8, r8`: the destination operand takes the source
/// operand's value and PC advances one byte.
pub open spec fn after_load_r8_r8(c: CpuView, instruction: u8) -> CpuView {
    let value = cpu_r8(c, spec_source_r8_of(instruction));
    with_pc(cpu_with_r8(c, spec_dest_r8_of(instruction), value), c.pc.wrapping_add(1))
}

/// The processor after HALT: the halted flag is raised and PC advances.
pub open spec fn after_halt(c: CpuView) -> CpuView {
    CpuView { halted: true, pc: c.pc.wrapping_add(1), ..c }
}

/// The effect of any opcode in block 01.
pub open spec fn after_block1(c: CpuView, instruction: u8) -> CpuView {
    if instruction == 0x76 {
        after_halt(c)
    } else {
        after_load_r8_r8(c, instruction)
    }
}

pub fn execute_instruction_block1(cpu: &mut Cpu, instruction: u8)
    requires
        old(cpu).wf(),
    ensures
        final(cpu).wf(),
        final(cpu)@ == after_block1(old(cpu)@, instruction),
{
    if instruction == 0x76 {
        cpu.halted = true;
        cpu.pc = cpu.pc.wrapping_add(1);
        proof {
            assert(cpu@ =~~= after_halt(old(cpu)@));
        }
    } else {
        load_r8_r8(cpu, instruction);
    }
}

pub fn load_r8_r8(cpu: &mut Cpu, instruction: u8)
    requires
        old(cpu).wf(),
    ensures
        final(cpu).wf(),
        final(cpu)@ == after_load_r8_r8(old(cpu)@, instruction),
{
    let source: R8 = utils::convert_source_index_to_r8(instruction);
    let dest: R8 = utils::convert_dest_index_to_r8(instruction);

    let value = cpu.get_r8_value(source);

    cpu.set_r8_value(dest, value);
    cpu.pc = cpu.pc.wrapping_add(1);
    proof {
        assert(cpu@ =~~= after_load_r8_r8(old(cpu)@, instruction));
    }
}

} // verus!
