//! Instruction dispatch for the reduced processor: only the first opcode
//! block is wired up here.

pub mod block0;
pub mod conditions;

use crate::cpu::cpu::CPU;
use vstd::prelude::*;

verus! {

/// The program counter after dispatching `instruction`; an opcode outside
/// the supported block leaves it alone.
pub open spec fn spec_pc_after(c: CPU, instruction: u8) -> u16 {
    if (instruction & 0xC0) >> 6 == 0 {
        block0::spec_pc_after_block0(c, instruction)
    } else {
        c.pc
    }
}

/// Dispatch on the top two opcode bits; only block 00 is supported, and
/// `None` reports anything else (or a block-00 byte the decoder rejects).
pub fn execute_instruction(cpu: &mut CPU, instruction: u8) -> (r: Option<()>)
    requires
        old(cpu).wf(),
    ensures
        final(cpu).wf(),
        final(cpu).pc == spec_pc_after(*old(cpu), instruction),
        r is Some <==> ((instruction & 0xC0) >> 6 == 0 && block0::spec_block0_supported(
            instruction,
        )),
        (instruction & 0xC0) >> 6 != 0 ==> *final(cpu) == *old(cpu),
        (instruction & 0xC0) >> 6 == 0 ==> block0::block0_effect(*old(cpu), *final(cpu), instruction),
{
    let block_mask = 0b1100_0000u8;
    let block = (instruction & block_mask) >> 6u8;
    if block == 0b00 {
        block0::match_instruction_block0(cpu, instruction)
    } else {
        Option::None
    }
}

} // verus!
