//! A reduced processor around the flat memory bus: fetch, execute, advance.

use crate::cpu::flags_registers::FlagsRegister;
use crate::instructions::execute_instruction;
use crate::memory::MemoryBus;
use crate::registers::Registers;
use vstd::prelude::*;

verus! {

pub struct CPU {
    pub registers: Registers,
    pub pc: u16,
    pub bus: MemoryBus,
}

impl CPU {
    pub open spec fn wf(self) -> bool {
        self.bus.wf()
    }

    /// Fetch the opcode at PC, run it, and advance PC one byte past
    /// whatever the instruction itself consumed.
    fn step(&mut self)
        requires
            old(self).wf(),
        ensures
            final(self).wf(),
            final(self).pc == crate::instructions::spec_pc_after(
                *old(self),
                old(self).bus.spec_read(old(self).pc),
            ).wrapping_add(1),
    {
        let instruction_byte = self.bus.read_byte(self.pc);
        let _ = execute_instruction(self, instruction_byte);

        self.pc = self.pc.wrapping_add(1);
    }
}

impl Default for CPU {
    fn default() -> (r: CPU)
        ensures
            r.wf(),
            r.pc == 0,
            r.registers == (Registers {
                b: 0,
                c: 0,
                d: 0,
                e: 0,
                h: 0,
                l: 0,
                ind: 0,
                a: 0,
                f: FlagsRegister { zero: true, subtract: false, half_carry: true, carry: true },
            }),
            forall|i: int| 0 <= i < 0x10000 ==> r.bus.data[i] == 0,
    {
        CPU { registers: Registers::default(), bus: MemoryBus::default(), pc: 0 }
    }
}

} // verus!
