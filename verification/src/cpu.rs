//! The CPU: register file, program counter, the owned memory bus, the
//! interrupt-enable machinery (IME, the EI delay, HALT and the HALT bug) and
//! the fetch/decode/execute loop.

pub mod block0;
pub mod block1;
pub mod block2;
pub mod block3;
pub mod block_prefix;
pub mod conditions;
pub mod cpu;
pub mod flags_registers;
pub mod ops8;
pub mod registers;
pub mod utils;

use crate::cpu::registers::{Registers, R8};
use crate::mmu::interrupt::{next_request_spec, Interrupt};
use crate::mmu::{mmu_read, mmu_write, Mmu, MmuView};
use vstd::prelude::*;

verus! {

/// The mathematical model of the whole processor, bus included.
#[verifier::ext_equal]
pub ghost struct CpuView {
    pub regs: Registers,
    pub pc: u16,
    pub bus: MmuView,
    pub ime: bool,
    pub ime_delay: bool,
    pub halted: bool,
    pub halt_bug: bool,
    pub tick_to_wait: u8,
}

/// The value of an 8-bit operand: the HL-indirect slot reads memory at HL,
/// every other slot reads the register file.
pub open spec fn cpu_r8(c: CpuView, register: R8) -> u8 {
    if register == R8::HLIndirect {
        mmu_read(c.bus, c.regs.spec_hl())
    } else {
        c.regs.spec_r8(register)
    }
}

/// The processor after storing to an 8-bit operand: the HL-indirect slot
/// writes memory at HL, every other slot writes the register file.
pub open spec fn cpu_with_r8(c: CpuView, register: R8, value: u8) -> CpuView {
    if register == R8::HLIndirect {
        CpuView { bus: mmu_write(c.bus, c.regs.spec_hl(), value), ..c }
    } else {
        CpuView { regs: c.regs.spec_with_r8(register, value), ..c }
    }
}

/// The processor with a new register file.
pub open spec fn with_regs(c: CpuView, regs: Registers) -> CpuView {
    CpuView { regs, ..c }
}

/// The processor with a new program counter.
pub open spec fn with_pc(c: CpuView, pc: u16) -> CpuView {
    CpuView { pc, ..c }
}

/// The byte at the program counter plus `k`.
pub open spec fn code_byte(c: CpuView, k: u16) -> u8 {
    mmu_read(c.bus, c.pc.wrapping_add(k))
}

/// The 16-bit immediate after the opcode: low byte first.
pub open spec fn imm16(c: CpuView) -> u16 {
    ((code_byte(c, 2) as u16) << 8) | (code_byte(c, 1) as u16)
}

pub struct Cpu {
    pub registers: Registers,
    pub pc: u16,
    pub bus: Mmu,
    pub ime: bool,
    /// Mimics the hardware delay of EI: IME turns on one instruction later.
    pub ime_delay: bool,
    pub halted: bool,
    pub halt_bug: bool,
    pub tick_to_wait: u8,
}

impl View for Cpu {
    type V = CpuView;

    open spec fn view(&self) -> CpuView {
        CpuView {
            regs: self.registers,
            pc: self.pc,
            bus: self.bus@,
            ime: self.ime,
            ime_delay: self.ime_delay,
            halted: self.halted,
            halt_bug: self.halt_bug,
            tick_to_wait: self.tick_to_wait,
        }
    }
}

impl Cpu {
    pub open spec fn wf(self) -> bool {
        self.bus.wf()
    }

    /// A processor at the documented power-up state, owning `bus`.
    pub fn new(bus: Mmu) -> (r: Cpu)
        ensures
            r@ == (CpuView {
                regs: Registers::spec_default(),
                pc: 0x0100,
                bus: bus@,
                ime: false,
                ime_delay: false,
                halted: false,
                halt_bug: false,
                tick_to_wait: 0,
            }),
            bus.wf() ==> r.wf(),
    {
        Cpu {
            registers: Registers::default(),
            pc: 0x0100,
            bus,
            ime: false,
            ime_delay: false,
            halted: false,
            halt_bug: false,
            tick_to_wait: 0,
        }
    }

    /// The value of an 8-bit operand, reading memory at HL for the indirect
    /// slot.
    pub fn get_r8_value(&self, register: R8) -> (r: u8)
        requires
            self.wf(),
        returns
            cpu_r8(self@, register),
    {
        match register {
            R8::HLIndirect => {
                let addr = self.registers.get_r16_value(crate::cpu::registers::R16::HL);
                self.bus.read_byte(addr)
            },
            _ => self.registers.get_r8_value(register),
        }
    }

    /// Store to an 8-bit operand, writing memory at HL for the indirect slot.
    pub fn set_r8_value(&mut self, register: R8, value: u8)
        requires
            old(self).wf(),
        ensures
            final(self).wf(),
            final(self)@ == cpu_with_r8(old(self)@, register, value),
    {
        match register {
            R8::HLIndirect => {
                let addr = self.registers.get_r16_value(crate::cpu::registers::R16::HL);
                self.bus.write_byte(addr, value);
            },
            _ => self.registers.set_r8_value(register, value),
        }
        proof {
            assert(self@ =~~= cpu_with_r8(old(self)@, register, value));
        }
    }
}

/// Whether the halt state sees an interrupt both enabled and pending, as the
/// halt handler reads the two registers back.
pub open spec fn halt_pending_mask(c: CpuView) -> u8 {
    (c.bus.ienable & 0x1F) & (c.bus.iflag | 0xE0)
}

/// The effect of one opcode, dispatched on its top two bits. A byte that no
/// decode-table entry resolves is consumed as a one-byte no-operation, so
/// execution moves past it rather than wedging at the same address.
#[verifier::opaque]
pub open spec fn after_instruction(c: CpuView, instruction: u8) -> CpuView {
    let block = (instruction & 0xC0) >> 6;
    if block == 0 {
        if crate::cpu::block0::spec_decode_block0(instruction) is Some {
            crate::cpu::block0::after_block0(c, instruction)
        } else {
            with_pc(c, c.pc.wrapping_add(1))
        }
    } else if block == 1 {
        crate::cpu::block1::after_block1(c, instruction)
    } else if block == 2 {
        crate::cpu::block2::after_block2(c, instruction)
    } else {
        if crate::cpu::block3::spec_decode_block3(instruction) is Some {
            crate::cpu::block3::after_block3(c, instruction)
        } else {
            with_pc(c, c.pc.wrapping_add(1))
        }
    }
}

/// The processor after servicing `interrupt`: the master enable drops, the
/// pending bit clears, PC is pushed high byte first to the two cells below
/// SP, and PC takes the interrupt's vector.
pub open spec fn after_interrupt_service(c: CpuView, interrupt: Interrupt) -> CpuView {
    let cleared = MmuView { iflag: c.bus.iflag & !interrupt.spec_mask(), ..c.bus };
    let bus = mmu_write(
        mmu_write(cleared, c.regs.sp.wrapping_sub(1), (c.pc >> 8) as u8),
        c.regs.sp.wrapping_sub(2),
        (c.pc & 0xFF) as u8,
    );
    CpuView {
        regs: Registers { sp: c.regs.sp.wrapping_sub(2), ..c.regs },
        pc: interrupt.spec_vector(),
        bus,
        ime: false,
        ..c
    }
}

/// One full step of the processor, and the latency it reports: an idle
/// halted step (4), an interrupt service (5), or a fetched and executed
/// instruction with the HALT-bug and EI-delay bookkeeping around it (0).
/// The delayed master enable of EI is promoted after the service check and
/// before the fetch, so an interrupt is never serviced before the
/// instruction that follows EI has completed.
pub open spec fn spec_step(c: CpuView) -> (CpuView, u8) {
    if c.halted && halt_pending_mask(c) == 0 {
        (c, 4)
    } else {
        let c1 = if c.halted {
            CpuView {
                halted: false,
                halt_bug: if !c.ime {
                    true
                } else {
                    c.halt_bug
                },
                ..c
            }
        } else {
            c
        };
        let pending = next_request_spec(c1.bus.ienable & c1.bus.iflag);
        if c1.ime && pending is Some {
            (after_interrupt_service(c1, pending->0), 5)
        } else {
            let c2 = if c1.ime_delay {
                CpuView { ime: true, ime_delay: false, ..c1 }
            } else {
                c1
            };
            let opcode = mmu_read(c2.bus, c2.pc);
            let c3 = after_instruction(c2, opcode);
            let c4 = if c3.halt_bug {
                CpuView { pc: c3.pc.wrapping_sub(1), halt_bug: false, ..c3 }
            } else {
                c3
            };
            (c4, 0)
        }
    }
}

/// One machine tick: wait out the current instruction's latency, or step.
pub open spec fn spec_tick(c: CpuView) -> CpuView {
    if c.tick_to_wait > 0 {
        CpuView { tick_to_wait: (c.tick_to_wait - 1) as u8, ..c }
    } else {
        let (c2, cycles) = spec_step(c);
        CpuView { tick_to_wait: cycles, ..c2 }
    }
}

#[derive(Debug, Clone, Copy, PartialEq, Eq, Structural)]
enum StepStatus {
    Continue,
    Halted,
}

impl Cpu {
    fn execute_instruction(&mut self, instruction: u8)
        requires
            old(self).wf(),
        ensures
            final(self).wf(),
            final(self)@ == after_instruction(old(self)@, instruction),
    {
        broadcast use crate::bits::lemma_u8_and_bound;

        proof {
            reveal(crate::cpu::after_instruction);
        }
        let block = (instruction & 0xC0) >> 6u8;
        if block == 0b00 {
            if crate::cpu::block0::execute_instruction_block0(self, instruction).is_none() {
                self.pc = self.pc.wrapping_add(1);
                proof {
                    assert(self@ =~~= with_pc(old(self)@, old(self)@.pc.wrapping_add(1)));
                }
            }
        } else if block == 0b01 {
            crate::cpu::block1::execute_instruction_block1(self, instruction);
        } else if block == 0b10 {
            crate::cpu::block2::match_instruction_block2(self, instruction);
        } else {
            proof {
                let i = instruction;
                assert(((i & 0xC0) >> 6) < 4) by (bit_vector);
            }
            if crate::cpu::block3::execute_instruction_block3(self, instruction).is_none() {
                self.pc = self.pc.wrapping_add(1);
                proof {
                    assert(self@ =~~= with_pc(old(self)@, old(self)@.pc.wrapping_add(1)));
                }
            }
        }
    }

    pub fn tick(&mut self)
        requires
            old(self).wf(),
        ensures
            final(self).wf(),
            final(self)@ == spec_tick(old(self)@),
    {
        if self.tick_to_wait > 0 {
            self.tick_to_wait = self.tick_to_wait - 1;
            proof {
                assert(self@ =~~= spec_tick(old(self)@));
            }
        } else {
            let cycles = self.step();
            self.tick_to_wait = cycles;
            proof {
                assert(self@ =~~= spec_tick(old(self)@));
            }
        }
    }

    fn handle_halt_state(&mut self) -> (r: StepStatus)
        requires
            old(self).wf(),
        ensures
            final(self).wf(),
            r == StepStatus::Halted <==> old(self)@.halted && halt_pending_mask(old(self)@) == 0,
            final(self)@ == if old(self)@.halted && halt_pending_mask(old(self)@) != 0 {
                CpuView {
                    halted: false,
                    halt_bug: if !old(self)@.ime {
                        true
                    } else {
                        old(self)@.halt_bug
                    },
                    ..old(self)@
                }
            } else {
                old(self)@
            },
    {
        if self.halted {
            let iflag = self.bus.read_interrupt_flag();
            let ienable = self.bus.read_interrupt_enable();

            if ienable & iflag == 0 {
                return StepStatus::Halted;
            }

            self.halted = false;

            if !self.ime {
                self.halt_bug = true;
            }
        }
        proof {
            if old(self)@.halted && halt_pending_mask(old(self)@) != 0 {
                assert(self@ =~~= CpuView {
                    halted: false,
                    halt_bug: if !old(self)@.ime {
                        true
                    } else {
                        old(self)@.halt_bug
                    },
                    ..old(self)@
                });
            }
        }
        StepStatus::Continue
    }

    fn handle_ime_state(&mut self) -> (r: StepStatus)
        requires
            old(self).wf(),
        ensures
            final(self).wf(),
            ({
                let pending = next_request_spec(old(self)@.bus.ienable & old(self)@.bus.iflag);
                if old(self)@.ime && pending is Some {
                    r == StepStatus::Halted && final(self)@ == after_interrupt_service(
                        old(self)@,
                        pending->0,
                    )
                } else {
                    r == StepStatus::Continue && final(self)@ == old(self)@
                }
            }),
    {
        if self.ime {
            let next = self.bus.interrupts_next_request();
            if let Option::Some(interrupt) = next {
                self.ime = false;
                self.bus.interrupts_clear_request(interrupt);

                let ret_addr = self.pc;

                let sp1 = self.registers.get_sp().wrapping_sub(1);
                self.registers.set_sp(sp1);
                proof {
                    let v = ret_addr;
                    assert(v >> 8 <= 0xFF) by (bit_vector);
                }
                self.bus.write_byte(sp1, (ret_addr >> 8u16) as u8);

                let sp2 = sp1.wrapping_sub(1);
                self.registers.set_sp(sp2);
                self.bus.write_byte(sp2, (ret_addr & 0xFF) as u8);

                self.pc = interrupt.vector();
                proof {
                    assert(self@ =~~= after_interrupt_service(old(self)@, interrupt));
                }
                StepStatus::Halted
            } else {
                StepStatus::Continue
            }
        } else {
            StepStatus::Continue
        }
    }

    fn handle_halt_bug(&mut self)
        ensures
            final(self)@ == if old(self)@.halt_bug {
                CpuView { pc: old(self)@.pc.wrapping_sub(1), halt_bug: false, ..old(self)@ }
            } else {
                old(self)@
            },
            final(self).wf() == old(self).wf(),
    {
        if self.halt_bug {
            self.pc = self.pc.wrapping_sub(1);
            self.halt_bug = false;
            proof {
                assert(self@ =~~= CpuView {
                    pc: old(self)@.pc.wrapping_sub(1),
                    halt_bug: false,
                    ..old(self)@
                });
            }
        }
    }

    fn handle_ime_delay(&mut self)
        ensures
            final(self)@ == if old(self)@.ime_delay {
                CpuView { ime: true, ime_delay: false, ..old(self)@ }
            } else {
                old(self)@
            },
            final(self).wf() == old(self).wf(),
    {
        if self.ime_delay {
            self.ime = true;
            self.ime_delay = false;
            proof {
                assert(self@ =~~= CpuView { ime: true, ime_delay: false, ..old(self)@ });
            }
        }
    }

    /// One step: wake or idle in the halt state, service a pending interrupt
    /// when the master enable allows it, or promote a delayed EI, fetch and
    /// execute the opcode at PC, and settle the HALT-bug bookkeeping.
    pub fn step(&mut self) -> (cycles: u8)
        requires
            old(self).wf(),
        ensures
            final(self).wf(),
            final(self)@ == spec_step(old(self)@).0,
            cycles == spec_step(old(self)@).1,
    {
        if self.handle_halt_state() == StepStatus::Halted {
            return 4;
        }
        if self.handle_ime_state() == StepStatus::Halted {
            return 5;
        }

        self.handle_ime_delay();

        let instruction_byte = self.bus.read_byte(self.pc);
        self.execute_instruction(instruction_byte);

        self.handle_halt_bug();

        0
    }
}

impl Default for Cpu {
    fn default() -> (r: Cpu)
        ensures
            r.wf(),
            r@.regs == Registers::spec_default(),
            r@.pc == 0x0100,
            !r@.ime && !r@.ime_delay && !r@.halted && !r@.halt_bug,
            r@.tick_to_wait == 0,
            forall|i: int| 0 <= i < 0x10000 ==> r@.bus.data[i] == 0,
            r@.bus.bank1 == 1 && r@.bus.bank2 == 0 && !r@.bus.mode,
            r@.bus.banks.len() == 2,
            forall|b: int, i: int| 0 <= b < 2 && 0 <= i < 0x4000 ==> r@.bus.banks[b][i] == 0,
            r@.bus.ienable == 0 && r@.bus.iflag == 0,
            r@.bus.timers.div == 0 && r@.bus.timers.tima == 0 && r@.bus.timers.tma == 0
                && r@.bus.timers.tac == 0,
            !r@.bus.timers.previous_and_result,
    {
        Cpu::new(Mmu::default())
    }
}

} // verus!
