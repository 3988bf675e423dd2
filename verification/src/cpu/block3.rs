//! Opcode block 11: ALU with immediates, RET/JP/CALL (conditional and not),
//! RETI, RST, the stack PUSH/POP family, the zero-page and absolute loads of
//! A, the SP arithmetic, DI/EI and the CB prefix.

use crate::cpu::conditions::Cond;
use crate::cpu::registers::{Registers, R16, R8};
use crate::cpu::utils::{spec_cond_of, spec_i8_as_u16, spec_r16_of, spec_u8_to_i8};
use crate::cpu::{block_prefix, code_byte, imm16, utils, with_pc, with_regs, Cpu, CpuView};
use crate::mmu::{mmu_read, mmu_write};
use vstd::prelude::*;

verus! {

pub const TGT3_MASK: u8 = 0b0011_1000;

pub const COND_MASK: u8 = 0b0001_1000;

/// Whether `b` is one of the block-11 opcodes with a table entry of its own.
pub open spec fn is_block3_direct(b: u8) -> bool {
    ||| b == 0xC6 || b == 0xCE || b == 0xD6 || b == 0xDE || b == 0xE6 || b == 0xEE || b == 0xF6
        || b == 0xFE
    ||| b == 0xC0 || b == 0xC9 || b == 0xD9 || b == 0xC2 || b == 0xC3 || b == 0xE9 || b == 0xC4
        || b == 0xCD || b == 0xC7 || b == 0xCB
    ||| b == 0xE2 || b == 0xE0 || b == 0xEA || b == 0xF2 || b == 0xF0 || b == 0xFA
    ||| b == 0xE8 || b == 0xF8 || b == 0xF1 || b == 0xF5 || b == 0xF9
    ||| b == 0xF3 || b == 0xFB
}

/// The canonical opcode a block-11 byte decodes to, or nothing where no
/// single table entry matches it.
pub open spec fn spec_decode_block3(b: u8) -> Option<u8> {
    if is_block3_direct(b) {
        Some(b)
    } else if b & 0x0F == 1 {
        Some(0xC1u8)
    } else if b & 0x0F == 5 {
        Some(0xC5u8)
    } else {
        let low3 = b & 0x07;
        if low3 == 0 {
            if b & 0xE0 == 0xC0 {
                Some(0xC0u8)
            } else {
                None
            }
        } else if low3 == 2 {
            if b & 0xE0 == 0xC0 {
                Some(0xC2u8)
            } else {
                None
            }
        } else if low3 == 4 {
            Some(0xC4u8)
        } else if low3 == 5 {
            if b & 0xE0 == 0xC0 {
                Some(0xCDu8)
            } else if b & 0xE0 == 0xE0 {
                Some(0xF5u8)
            } else {
                None
            }
        } else if low3 == 7 {
            Some(0xC7u8)
        } else {
            None
        }
    }
}

#[verifier::when_used_as_spec(spec_decode_block3)]
pub fn decode_block3(b: u8) -> (r: Option<u8>)
    returns
        spec_decode_block3(b),
{
    if b == 0xC6 || b == 0xCE || b == 0xD6 || b == 0xDE || b == 0xE6 || b == 0xEE || b == 0xF6
        || b == 0xFE || b == 0xC0 || b == 0xC9 || b == 0xD9 || b == 0xC2 || b == 0xC3 || b == 0xE9
        || b == 0xC4 || b == 0xCD || b == 0xC7 || b == 0xCB || b == 0xE2 || b == 0xE0 || b == 0xEA
        || b == 0xF2 || b == 0xF0 || b == 0xFA || b == 0xE8 || b == 0xF8 || b == 0xF1 || b == 0xF5
        || b == 0xF9 || b == 0xF3 || b == 0xFB {
        Some(b)
    } else if b & 0x0F == 1 {
        Some(0xC1)
    } else if b & 0x0F == 5 {
        Some(0xC5)
    } else {
        let low3 = b & 0x07;
        if low3 == 0 {
            if b & 0xE0 == 0xC0 {
                Some(0xC0)
            } else {
                None
            }
        } else if low3 == 2 {
            if b & 0xE0 == 0xC0 {
                Some(0xC2)
            } else {
                None
            }
        } else if low3 == 4 {
            Some(0xC4)
        } else if low3 == 5 {
            if b & 0xE0 == 0xC0 {
                Some(0xCD)
            } else if b & 0xE0 == 0xE0 {
                Some(0xF5)
            } else {
                None
            }
        } else if low3 == 7 {
            Some(0xC7)
        } else {
            None
        }
    }
}

/// `ADD A, imm8` / `ADC A, imm8`.
pub open spec fn after_add_a_imm8(c: CpuView, with_carry: bool) -> CpuView {
    let imm8 = code_byte(c, 1);
    with_pc(with_regs(c, c.regs.spec_after_add8(R8::A, imm8, with_carry)), c.pc.wrapping_add(2))
}

/// `SUB A, imm8` / `SBC A, imm8`.
pub open spec fn after_sub_a_imm8(c: CpuView, with_carry: bool) -> CpuView {
    let imm8 = code_byte(c, 1);
    with_pc(with_regs(c, c.regs.spec_after_sub8(R8::A, imm8, with_carry)), c.pc.wrapping_add(2))
}

/// `AND A, imm8`.
pub open spec fn after_and_a_imm8(c: CpuView) -> CpuView {
    let result = c.regs.a & code_byte(c, 1);
    let regs = c.regs.spec_with_r8(R8::A, result).spec_with_flags(result == 0, false, true, false);
    with_pc(with_regs(c, regs), c.pc.wrapping_add(2))
}

/// `XOR A, imm8`.
pub open spec fn after_xor_a_imm8(c: CpuView) -> CpuView {
    let result = c.regs.a ^ code_byte(c, 1);
    let regs = c.regs.spec_with_r8(R8::A, result).spec_with_flags(result == 0, false, false, false);
    with_pc(with_regs(c, regs), c.pc.wrapping_add(2))
}

/// `OR A, imm8`.
pub open spec fn after_or_a_imm8(c: CpuView) -> CpuView {
    let result = c.regs.a | code_byte(c, 1);
    let regs = c.regs.spec_with_r8(R8::A, result).spec_with_flags(result == 0, false, false, false);
    with_pc(with_regs(c, regs), c.pc.wrapping_add(2))
}

/// `CP A, imm8`: compare without storing.
pub open spec fn after_cp_a_imm8(c: CpuView) -> CpuView {
    let imm8 = code_byte(c, 1);
    let value = c.regs.a.wrapping_sub(imm8);
    let regs = c.regs.spec_with_flags(
        value == 0,
        true,
        (c.regs.a & 0x0F) < (value & 0x0F),
        c.regs.a < imm8,
    );
    with_pc(with_regs(c, regs), c.pc.wrapping_add(2))
}

/// `RET` / `RET cond`: a taken return pops PC off the stack.
pub open spec fn after_ret(c: CpuView, instruction: u8, with_cond: bool) -> CpuView {
    let cond = if with_cond {
        spec_cond_of(instruction)
    } else {
        Cond::Always
    };
    if cond.spec_test(c.regs.f.zero, c.regs.f.carry) || !with_cond {
        CpuView {
            regs: Registers { sp: c.regs.sp.wrapping_add(2), ..c.regs },
            pc: c.regs.spec_stack_top(c.bus),
            ..c
        }
    } else {
        with_pc(c, c.pc.wrapping_add(1))
    }
}

/// `RETI`: pop PC and turn the master enable on at once.
pub open spec fn after_reti(c: CpuView) -> CpuView {
    CpuView {
        regs: Registers { sp: c.regs.sp.wrapping_add(2), ..c.regs },
        pc: c.regs.spec_stack_top(c.bus),
        ime: true,
        ..c
    }
}

/// `JP imm16` / `JP cond, imm16`.
pub open spec fn after_jp_imm16(c: CpuView, instruction: u8, with_cond: bool) -> CpuView {
    let cond = if with_cond {
        spec_cond_of(instruction)
    } else {
        Cond::Always
    };
    if cond.spec_test(c.regs.f.zero, c.regs.f.carry) || !with_cond {
        with_pc(c, imm16(c))
    } else {
        with_pc(c, c.pc.wrapping_add(3))
    }
}

/// `JP HL`.
pub open spec fn after_jp_hl(c: CpuView) -> CpuView {
    with_pc(c, c.regs.spec_hl())
}

/// `CALL imm16` / `CALL cond, imm16`: a taken call pushes the address of the
/// following instruction and jumps.
pub open spec fn after_call_imm16(c: CpuView, instruction: u8, with_cond: bool) -> CpuView {
    let cond = if with_cond {
        spec_cond_of(instruction)
    } else {
        Cond::Always
    };
    if cond.spec_test(c.regs.f.zero, c.regs.f.carry) || !with_cond {
        let ret_addr = c.pc.wrapping_add(3);
        let bus = mmu_write(
            mmu_write(c.bus, c.regs.sp.wrapping_sub(1), (ret_addr >> 8) as u8),
            c.regs.sp.wrapping_sub(2),
            (ret_addr & 0xFF) as u8,
        );
        CpuView {
            regs: Registers { sp: c.regs.sp.wrapping_sub(2), ..c.regs },
            pc: imm16(c),
            bus,
            ..c
        }
    } else {
        with_pc(c, c.pc.wrapping_add(3))
    }
}

/// `RST tgt3`: the address of the next instruction is pushed, high byte
/// first, and PC jumps to the fixed vector encoded in bits 3-5.
pub open spec fn after_rst_tgt3(c: CpuView, instruction: u8) -> CpuView {
    CpuView {
        regs: Registers { sp: c.regs.sp.wrapping_sub(2), ..c.regs },
        bus: bus_after_push(c, c.pc.wrapping_add(1)),
        pc: (8 * ((instruction & TGT3_MASK) >> 3)) as u16,
        ..c
    }
}

/// `POP r16`.
pub open spec fn after_pop_r16(c: CpuView, instruction: u8) -> CpuView {
    let value = c.regs.spec_stack_top(c.bus);
    let regs = Registers { sp: c.regs.sp.wrapping_add(2), ..c.regs }.spec_with_r16(
        spec_r16_of(instruction),
        value,
    );
    with_pc(with_regs(c, regs), c.pc.wrapping_add(1))
}

/// `POP AF`: the flag register takes the popped low byte, its low nibble
/// discarded.
pub open spec fn after_pop_af(c: CpuView) -> CpuView {
    let value = c.regs.spec_stack_top(c.bus);
    let regs = Registers { sp: c.regs.sp.wrapping_add(2), ..c.regs }.spec_with_af(value);
    with_pc(with_regs(c, regs), c.pc.wrapping_add(1))
}

/// The bus after pushing a 16-bit value below `sp`.
pub open spec fn bus_after_push(c: CpuView, value: u16) -> crate::mmu::MmuView {
    mmu_write(
        mmu_write(c.bus, c.regs.sp.wrapping_sub(1), (value >> 8) as u8),
        c.regs.sp.wrapping_sub(2),
        (value & 0xFF) as u8,
    )
}

/// `PUSH r16`.
pub open spec fn after_push_r16(c: CpuView, instruction: u8) -> CpuView {
    let value = c.regs.spec_r16(spec_r16_of(instruction));
    CpuView {
        regs: Registers { sp: c.regs.sp.wrapping_sub(2), ..c.regs },
        bus: bus_after_push(c, value),
        pc: c.pc.wrapping_add(1),
        ..c
    }
}

/// `PUSH AF`: the packed flag byte travels as the low byte.
pub open spec fn after_push_af(c: CpuView) -> CpuView {
    let value = c.regs.spec_af();
    CpuView {
        regs: Registers { sp: c.regs.sp.wrapping_sub(2), ..c.regs },
        bus: bus_after_push(c, value),
        pc: c.pc.wrapping_add(1),
        ..c
    }
}

/// The CB prefix: the next byte selects the prefixed instruction.
pub open spec fn after_prefix(c: CpuView) -> CpuView {
    block_prefix::after_block_prefix(c, code_byte(c, 1))
}

/// `LDH [C], A`.
pub open spec fn after_ldh_c_a(c: CpuView) -> CpuView {
    let addr = (0xFF00 + c.regs.c as int) as u16;
    with_pc(CpuView { bus: mmu_write(c.bus, addr, c.regs.a), ..c }, c.pc.wrapping_add(1))
}

/// `LDH [imm8], A`.
pub open spec fn after_ldh_imm8_a(c: CpuView) -> CpuView {
    let addr = (0xFF00 + code_byte(c, 1) as int) as u16;
    with_pc(CpuView { bus: mmu_write(c.bus, addr, c.regs.a), ..c }, c.pc.wrapping_add(2))
}

/// `LD [imm16], A`.
pub open spec fn after_ld_imm16_a(c: CpuView) -> CpuView {
    with_pc(CpuView { bus: mmu_write(c.bus, imm16(c), c.regs.a), ..c }, c.pc.wrapping_add(3))
}

/// `LDH A, [C]`.
pub open spec fn after_ldh_a_c(c: CpuView) -> CpuView {
    let addr = (0xFF00 + c.regs.c as int) as u16;
    let value = mmu_read(c.bus, addr);
    with_pc(with_regs(c, c.regs.spec_with_r8(R8::A, value)), c.pc.wrapping_add(2))
}

/// `LDH A, [imm8]`.
pub open spec fn after_ldh_a_imm8(c: CpuView) -> CpuView {
    let addr = (0xFF00 + code_byte(c, 1) as int) as u16;
    let value = mmu_read(c.bus, addr);
    with_pc(with_regs(c, c.regs.spec_with_r8(R8::A, value)), c.pc.wrapping_add(2))
}

/// `LD A, [imm16]`.
pub open spec fn after_ld_a_imm16(c: CpuView) -> CpuView {
    let value = mmu_read(c.bus, imm16(c));
    with_pc(with_regs(c, c.regs.spec_with_r8(R8::A, value)), c.pc.wrapping_add(3))
}

/// `ADD SP, imm8` (signed).
pub open spec fn after_add_sp_imm8(c: CpuView) -> CpuView {
    let offset = spec_u8_to_i8(code_byte(c, 1));
    with_pc(with_regs(c, c.regs.spec_after_add_sp(offset)), c.pc.wrapping_add(2))
}

/// `LD HL, SP + imm8` (signed): H and C come from the low-nibble and
/// low-byte sums; Z and N clear.
pub open spec fn after_ld_hl_sp_add_imm8(c: CpuView) -> CpuView {
    let raw = code_byte(c, 1);
    let result = c.regs.sp.wrapping_add(spec_i8_as_u16(raw));
    let sp_lo = c.regs.sp & 0xFF;
    let regs = c.regs.spec_with_hl(result).spec_with_flags(
        false,
        false,
        (sp_lo & 0xF) + (raw as u16 & 0xF) > 0xF,
        sp_lo + raw as u16 > 0xFF,
    );
    with_pc(with_regs(c, regs), c.pc.wrapping_add(2))
}

/// `LD SP, HL`.
pub open spec fn after_ld_sp_hl(c: CpuView) -> CpuView {
    with_pc(
        with_regs(c, Registers { sp: c.regs.spec_hl(), ..c.regs }),
        c.pc.wrapping_add(1),
    )
}

/// `DI`: the master enable drops at once.
pub open spec fn after_di(c: CpuView) -> CpuView {
    CpuView { ime: false, pc: c.pc.wrapping_add(1), ..c }
}

/// `EI`: the master enable turns on only after the next instruction.
pub open spec fn after_ei(c: CpuView) -> CpuView {
    CpuView { ime_delay: true, pc: c.pc.wrapping_add(1), ..c }
}

/// The effect of a block-11 opcode; an undecodable byte leaves the processor
/// unchanged.
pub open spec fn after_block3(c: CpuView, instruction: u8) -> CpuView {
    match spec_decode_block3(instruction) {
        Option::None => c,
        Option::Some(op) => {
            if op == 0xC6 {
                after_add_a_imm8(c, false)
            } else if op == 0xCE {
                after_add_a_imm8(c, true)
            } else if op == 0xD6 {
                after_sub_a_imm8(c, false)
            } else if op == 0xDE {
                after_sub_a_imm8(c, true)
            } else if op == 0xE6 {
                after_and_a_imm8(c)
            } else if op == 0xEE {
                after_xor_a_imm8(c)
            } else if op == 0xF6 {
                after_or_a_imm8(c)
            } else if op == 0xFE {
                after_cp_a_imm8(c)
            } else if op == 0xC0 {
                after_ret(c, instruction, true)
            } else if op == 0xC9 {
                after_ret(c, instruction, false)
            } else if op == 0xD9 {
                after_reti(c)
            } else if op == 0xC2 {
                after_jp_imm16(c, instruction, true)
            } else if op == 0xC3 {
                after_jp_imm16(c, instruction, false)
            } else if op == 0xE9 {
                after_jp_hl(c)
            } else if op == 0xC4 {
                after_call_imm16(c, instruction, true)
            } else if op == 0xCD {
                after_call_imm16(c, instruction, false)
            } else if op == 0xC7 {
                after_rst_tgt3(c, instruction)
            } else if op == 0xC1 {
                after_pop_r16(c, instruction)
            } else if op == 0xF1 {
                after_pop_af(c)
            } else if op == 0xC5 {
                after_push_r16(c, instruction)
            } else if op == 0xF5 {
                after_push_af(c)
            } else if op == 0xCB {
                after_prefix(c)
            } else if op == 0xE2 {
                after_ldh_c_a(c)
            } else if op == 0xE0 {
                after_ldh_imm8_a(c)
            } else if op == 0xEA {
                after_ld_imm16_a(c)
            } else if op == 0xF2 {
                after_ldh_a_c(c)
            } else if op == 0xF0 {
                after_ldh_a_imm8(c)
            } else if op == 0xFA {
                after_ld_a_imm16(c)
            } else if op == 0xE8 {
                after_add_sp_imm8(c)
            } else if op == 0xF8 {
                after_ld_hl_sp_add_imm8(c)
            } else if op == 0xF9 {
                after_ld_sp_hl(c)
            } else if op == 0xF3 {
                after_di(c)
            } else if op == 0xFB {
                after_ei(c)
            } else {
                with_pc(c, c.pc.wrapping_add(1))
            }
        },
    }
}

/// Execute a block-11 opcode. `None` reports a byte that no table entry
/// uniquely matches; the processor is left unchanged then.
pub fn execute_instruction_block3(cpu: &mut Cpu, instruction: u8) -> (r: Option<()>)
    requires
        old(cpu).wf(),
    ensures
        final(cpu).wf(),
        final(cpu)@ == after_block3(old(cpu)@, instruction),
        r is Some <==> spec_decode_block3(instruction) is Some,
{
    let decoded = decode_block3(instruction);
    let opcode = match decoded {
        Option::Some(op) => op,
        Option::None => {
            return Option::None;
        },
    };

    if opcode == 0xC6 {
        add_a_imm8(cpu, false);
    } else if opcode == 0xCE {
        add_a_imm8(cpu, true);
    } else if opcode == 0xD6 {
        sub_a_imm8(cpu, false);
    } else if opcode == 0xDE {
        sub_a_imm8(cpu, true);
    } else if opcode == 0xE6 {
        and_a_imm8(cpu);
    } else if opcode == 0xEE {
        xor_a_imm8(cpu);
    } else if opcode == 0xF6 {
        or_a_imm8(cpu);
    } else if opcode == 0xFE {
        cp_a_imm8(cpu);
    } else if opcode == 0xC0 {
        ret(cpu, instruction, true);
    } else if opcode == 0xC9 {
        ret(cpu, instruction, false);
    } else if opcode == 0xD9 {
        reti(cpu);
    } else if opcode == 0xC2 {
        jp_imm16(cpu, instruction, true);
    } else if opcode == 0xC3 {
        jp_imm16(cpu, instruction, false);
    } else if opcode == 0xE9 {
        jp_hl(cpu);
    } else if opcode == 0xC4 {
        call_imm16(cpu, instruction, true);
    } else if opcode == 0xCD {
        call_imm16(cpu, instruction, false);
    } else if opcode == 0xC7 {
        rst_tgt3(cpu, instruction);
    } else if opcode == 0xC1 {
        pop_r16(cpu, instruction);
    } else if opcode == 0xF1 {
        pop_af(cpu);
    } else if opcode == 0xC5 {
        push_r16(cpu, instruction);
    } else if opcode == 0xF5 {
        push_af(cpu);
    } else if opcode == 0xCB {
        prefix(cpu);
    } else if opcode == 0xE2 {
        ldh_c_a(cpu);
    } else if opcode == 0xE0 {
        ldh_imm8_a(cpu);
    } else if opcode == 0xEA {
        ld_imm16_a(cpu);
    } else if opcode == 0xF2 {
        ldh_a_c(cpu);
    } else if opcode == 0xF0 {
        ldh_a_imm8(cpu);
    } else if opcode == 0xFA {
        ld_a_imm16(cpu);
    } else if opcode == 0xE8 {
        add_sp_imm8(cpu);
    } else if opcode == 0xF8 {
        ld_hl_sp_add_imm8(cpu);
    } else if opcode == 0xF9 {
        ld_sp_hl(cpu);
    } else if opcode == 0xF3 {
        di(cpu);
    } else if opcode == 0xFB {
        ei(cpu);
    } else {
        cpu.pc = cpu.pc.wrapping_add(1);
        proof {
            assert(cpu@ =~~= after_block3(old(cpu)@, instruction));
        }
    }
    Option::Some(())
}

pub fn add_a_imm8(cpu: &mut Cpu, with_carry: bool)
    requires
        old(cpu).wf(),
    ensures
        final(cpu).wf(),
        final(cpu)@ == after_add_a_imm8(old(cpu)@, with_carry),
{
    let imm8 = cpu.bus.read_byte(cpu.pc.wrapping_add(1));

    cpu.registers.add_to_r8(R8::A, imm8, with_carry);
    cpu.pc = cpu.pc.wrapping_add(2);
    proof {
        assert(cpu@ =~~= after_add_a_imm8(old(cpu)@, with_carry));
    }
}

pub fn sub_a_imm8(cpu: &mut Cpu, with_carry: bool)
    requires
        old(cpu).wf(),
    ensures
        final(cpu).wf(),
        final(cpu)@ == after_sub_a_imm8(old(cpu)@, with_carry),
{
    let imm8 = cpu.bus.read_byte(cpu.pc.wrapping_add(1));

    cpu.registers.sub_to_r8(R8::A, imm8, with_carry);
    cpu.pc = cpu.pc.wrapping_add(2);
    proof {
        assert(cpu@ =~~= after_sub_a_imm8(old(cpu)@, with_carry));
    }
}

pub fn and_a_imm8(cpu: &mut Cpu)
    requires
        old(cpu).wf(),
    ensures
        final(cpu).wf(),
        final(cpu)@ == after_and_a_imm8(old(cpu)@),
{
    let imm8 = cpu.bus.read_byte(cpu.pc.wrapping_add(1));
    let a_value = cpu.get_r8_value(R8::A);

    let new_value = a_value & imm8;
    cpu.set_r8_value(R8::A, new_value);

    cpu.registers.set_zero_flag(new_value == 0);
    cpu.registers.set_subtract_flag(false);
    cpu.registers.set_half_carry_flag(true);
    cpu.registers.set_carry_flag(false);

    cpu.pc = cpu.pc.wrapping_add(2);
    proof {
        assert(cpu@ =~~= after_and_a_imm8(old(cpu)@));
    }
}

pub fn xor_a_imm8(cpu: &mut Cpu)
    requires
        old(cpu).wf(),
    ensures
        final(cpu).wf(),
        final(cpu)@ == after_xor_a_imm8(old(cpu)@),
{
    let imm8 = cpu.bus.read_byte(cpu.pc.wrapping_add(1));
    let a_value = cpu.get_r8_value(R8::A);

    let new_value = a_value ^ imm8;
    cpu.set_r8_value(R8::A, new_value);

    cpu.registers.set_zero_flag(new_value == 0);
    cpu.registers.set_subtract_flag(false);
    cpu.registers.set_half_carry_flag(false);
    cpu.registers.set_carry_flag(false);

    cpu.pc = cpu.pc.wrapping_add(2);
    proof {
        assert(cpu@ =~~= after_xor_a_imm8(old(cpu)@));
    }
}

pub fn or_a_imm8(cpu: &mut Cpu)
    requires
        old(cpu).wf(),
    ensures
        final(cpu).wf(),
        final(cpu)@ == after_or_a_imm8(old(cpu)@),
{
    let imm8 = cpu.bus.read_byte(cpu.pc.wrapping_add(1));
    let a_value = cpu.get_r8_value(R8::A);

    let new_value = a_value | imm8;
    cpu.set_r8_value(R8::A, new_value);

    cpu.registers.set_zero_flag(new_value == 0);
    cpu.registers.set_subtract_flag(false);
    cpu.registers.set_half_carry_flag(false);
    cpu.registers.set_carry_flag(false);

    cpu.pc = cpu.pc.wrapping_add(2);
    proof {
        assert(cpu@ =~~= after_or_a_imm8(old(cpu)@));
    }
}

pub fn cp_a_imm8(cpu: &mut Cpu)
    requires
        old(cpu).wf(),
    ensures
        final(cpu).wf(),
        final(cpu)@ == after_cp_a_imm8(old(cpu)@),
{
    let imm8 = cpu.bus.read_byte(cpu.pc.wrapping_add(1));
    let a_value = cpu.get_r8_value(R8::A);

    let value = a_value.wrapping_sub(imm8);

    cpu.registers.set_zero_flag(value == 0);
    cpu.registers.set_subtract_flag(true);
    cpu.registers.set_half_carry_flag((a_value & 0x0F) < (value & 0x0F));
    cpu.registers.set_carry_flag(a_value < imm8);

    cpu.pc = cpu.pc.wrapping_add(2);
    proof {
        assert(cpu@ =~~= after_cp_a_imm8(old(cpu)@));
    }
}

pub fn ret(cpu: &mut Cpu, instruction: u8, with_cond: bool)
    requires
        old(cpu).wf(),
    ensures
        final(cpu).wf(),
        final(cpu)@ == after_ret(old(cpu)@, instruction, with_cond),
{
    let cond = if with_cond {
        utils::convert_index_to_cond(instruction)
    } else {
        Cond::Always
    };

    if cpu.registers.check_condition(cond) || !with_cond {
        cpu.pc = cpu.registers.pop_sp(&cpu.bus);
    } else {
        cpu.pc = cpu.pc.wrapping_add(1);
    }
    proof {
        assert(cpu@ =~~= after_ret(old(cpu)@, instruction, with_cond));
    }
}

/// Return and re-enable interrupts at once.
pub fn reti(cpu: &mut Cpu)
    requires
        old(cpu).wf(),
    ensures
        final(cpu).wf(),
        final(cpu)@ == after_reti(old(cpu)@),
{
    cpu.pc = cpu.registers.pop_sp(&cpu.bus);
    cpu.ime = true;
    proof {
        assert(cpu@ =~~= after_reti(old(cpu)@));
    }
}

pub fn jp_imm16(cpu: &mut Cpu, instruction: u8, with_cond: bool)
    requires
        old(cpu).wf(),
    ensures
        final(cpu).wf(),
        final(cpu)@ == after_jp_imm16(old(cpu)@, instruction, with_cond),
{
    let cond = if with_cond {
        utils::convert_index_to_cond(instruction)
    } else {
        Cond::Always
    };

    let imm16 = utils::get_imm16(cpu);

    if cpu.registers.check_condition(cond) || !with_cond {
        cpu.pc = imm16;
    } else {
        cpu.pc = cpu.pc.wrapping_add(3);
    }
    proof {
        assert(cpu@ =~~= after_jp_imm16(old(cpu)@, instruction, with_cond));
    }
}

pub fn jp_hl(cpu: &mut Cpu)
    requires
        old(cpu).wf(),
    ensures
        final(cpu).wf(),
        final(cpu)@ == after_jp_hl(old(cpu)@),
{
    let hl_value = cpu.registers.get_r16_value(R16::HL);
    cpu.pc = hl_value;
    proof {
        assert(cpu@ =~~= after_jp_hl(old(cpu)@));
    }
}

pub fn call_imm16(cpu: &mut Cpu, instruction: u8, with_cond: bool)
    requires
        old(cpu).wf(),
    ensures
        final(cpu).wf(),
        final(cpu)@ == after_call_imm16(old(cpu)@, instruction, with_cond),
{
    let cond = if with_cond {
        utils::convert_index_to_cond(instruction)
    } else {
        Cond::Always
    };

    let imm16 = utils::get_imm16(cpu);

    if cpu.registers.check_condition(cond) || !with_cond {
        let ret_addr = cpu.pc.wrapping_add(3);
        cpu.registers.push_sp(&mut cpu.bus, ret_addr);
        cpu.pc = imm16;
    } else {
        cpu.pc = cpu.pc.wrapping_add(3);
    }
    proof {
        assert(cpu@ =~~= after_call_imm16(old(cpu)@, instruction, with_cond));
    }
}

pub fn rst_tgt3(cpu: &mut Cpu, instruction: u8)
    requires
        old(cpu).wf(),
    ensures
        final(cpu).wf(),
        final(cpu)@ == after_rst_tgt3(old(cpu)@, instruction),
{
    broadcast use crate::bits::lemma_u8_bit_field;

    let tgt3_index = (instruction & TGT3_MASK) >> 3u8;
    let tgt3_address: u8 = 8 * tgt3_index;
    let ret_addr = cpu.pc.wrapping_add(1);
    cpu.registers.push_sp(&mut cpu.bus, ret_addr);
    cpu.pc = tgt3_address as u16;
    proof {
        assert(cpu@ =~~= after_rst_tgt3(old(cpu)@, instruction));
    }
}

pub fn pop_r16(cpu: &mut Cpu, instruction: u8)
    requires
        old(cpu).wf(),
    ensures
        final(cpu).wf(),
        final(cpu)@ == after_pop_r16(old(cpu)@, instruction),
{
    let r16 = utils::convert_index_to_r16(instruction);
    let value = cpu.registers.pop_sp(&cpu.bus);
    cpu.registers.set_r16_value(r16, value);
    cpu.pc = cpu.pc.wrapping_add(1);
    proof {
        assert(cpu@ =~~= after_pop_r16(old(cpu)@, instruction));
    }
}

pub fn pop_af(cpu: &mut Cpu)
    requires
        old(cpu).wf(),
    ensures
        final(cpu).wf(),
        final(cpu)@ == after_pop_af(old(cpu)@),
{
    let value = cpu.registers.pop_sp(&cpu.bus);
    cpu.registers.set_af(value);
    cpu.pc = cpu.pc.wrapping_add(1);
    proof {
        assert(cpu@ =~~= after_pop_af(old(cpu)@));
    }
}

pub fn push_r16(cpu: &mut Cpu, instruction: u8)
    requires
        old(cpu).wf(),
    ensures
        final(cpu).wf(),
        final(cpu)@ == after_push_r16(old(cpu)@, instruction),
{
    let r16 = utils::convert_index_to_r16(instruction);
    let value = cpu.registers.get_r16_value(r16);
    cpu.registers.push_sp(&mut cpu.bus, value);
    cpu.pc = cpu.pc.wrapping_add(1);
    proof {
        assert(cpu@ =~~= after_push_r16(old(cpu)@, instruction));
    }
}

pub fn push_af(cpu: &mut Cpu)
    requires
        old(cpu).wf(),
    ensures
        final(cpu).wf(),
        final(cpu)@ == after_push_af(old(cpu)@),
{
    let value = cpu.registers.get_af();
    cpu.registers.push_sp(&mut cpu.bus, value);
    cpu.pc = cpu.pc.wrapping_add(1);
    proof {
        assert(cpu@ =~~= after_push_af(old(cpu)@));
    }
}

/// Fetch the byte after the prefix and run the prefixed instruction.
pub fn prefix(cpu: &mut Cpu)
    requires
        old(cpu).wf(),
    ensures
        final(cpu).wf(),
        final(cpu)@ == after_prefix(old(cpu)@),
{
    let next_instruction = cpu.bus.read_byte(cpu.pc.wrapping_add(1));
    block_prefix::execute_instruction_block_prefix(cpu, next_instruction);
}

pub fn ldh_c_a(cpu: &mut Cpu)
    requires
        old(cpu).wf(),
    ensures
        final(cpu).wf(),
        final(cpu)@ == after_ldh_c_a(old(cpu)@),
{
    let a_value = cpu.get_r8_value(R8::A);
    let c_value = cpu.get_r8_value(R8::C);

    let address = 0xFF00 + (c_value as u16);
    cpu.bus.write_byte(address, a_value);
    cpu.pc = cpu.pc.wrapping_add(1);
    proof {
        assert(cpu@ =~~= after_ldh_c_a(old(cpu)@));
    }
}

pub fn ldh_imm8_a(cpu: &mut Cpu)
    requires
        old(cpu).wf(),
    ensures
        final(cpu).wf(),
        final(cpu)@ == after_ldh_imm8_a(old(cpu)@),
{
    let a_value = cpu.get_r8_value(R8::A);
    let imm8 = cpu.bus.read_byte(cpu.pc.wrapping_add(1));

    let address = 0xFF00 + (imm8 as u16);
    cpu.bus.write_byte(address, a_value);
    cpu.pc = cpu.pc.wrapping_add(2);
    proof {
        assert(cpu@ =~~= after_ldh_imm8_a(old(cpu)@));
    }
}

pub fn ld_imm16_a(cpu: &mut Cpu)
    requires
        old(cpu).wf(),
    ensures
        final(cpu).wf(),
        final(cpu)@ == after_ld_imm16_a(old(cpu)@),
{
    let a_value = cpu.get_r8_value(R8::A);
    let imm16 = utils::get_imm16(cpu);

    cpu.bus.write_byte(imm16, a_value);
    cpu.pc = cpu.pc.wrapping_add(3);
    proof {
        assert(cpu@ =~~= after_ld_imm16_a(old(cpu)@));
    }
}

pub fn ldh_a_c(cpu: &mut Cpu)
    requires
        old(cpu).wf(),
    ensures
        final(cpu).wf(),
        final(cpu)@ == after_ldh_a_c(old(cpu)@),
{
    let c_value = cpu.get_r8_value(R8::C);
    let address = 0xFF00 + (c_value as u16);
    let value = cpu.bus.read_byte(address);

    cpu.set_r8_value(R8::A, value);
    cpu.pc = cpu.pc.wrapping_add(2);
    proof {
        assert(cpu@ =~~= after_ldh_a_c(old(cpu)@));
    }
}

pub fn ldh_a_imm8(cpu: &mut Cpu)
    requires
        old(cpu).wf(),
    ensures
        final(cpu).wf(),
        final(cpu)@ == after_ldh_a_imm8(old(cpu)@),
{
    let imm8 = cpu.bus.read_byte(cpu.pc.wrapping_add(1));
    let address = 0xFF00 + (imm8 as u16);
    let value = cpu.bus.read_byte(address);

    cpu.set_r8_value(R8::A, value);
    cpu.pc = cpu.pc.wrapping_add(2);
    proof {
        assert(cpu@ =~~= after_ldh_a_imm8(old(cpu)@));
    }
}

pub fn ld_a_imm16(cpu: &mut Cpu)
    requires
        old(cpu).wf(),
    ensures
        final(cpu).wf(),
        final(cpu)@ == after_ld_a_imm16(old(cpu)@),
{
    let imm16 = utils::get_imm16(cpu);
    let value = cpu.bus.read_byte(imm16);

    cpu.set_r8_value(R8::A, value);
    cpu.pc = cpu.pc.wrapping_add(3);
    proof {
        assert(cpu@ =~~= after_ld_a_imm16(old(cpu)@));
    }
}

pub fn add_sp_imm8(cpu: &mut Cpu)
    requires
        old(cpu).wf(),
    ensures
        final(cpu).wf(),
        final(cpu)@ == after_add_sp_imm8(old(cpu)@),
{
    let byte = cpu.bus.read_byte(cpu.pc.wrapping_add(1));
    let offset = utils::u8_to_i8(byte);

    cpu.registers.add_sp_i8(offset);
    cpu.pc = cpu.pc.wrapping_add(2);
    proof {
        assert(cpu@ =~~= after_add_sp_imm8(old(cpu)@));
    }
}

pub fn ld_hl_sp_add_imm8(cpu: &mut Cpu)
    requires
        old(cpu).wf(),
    ensures
        final(cpu).wf(),
        final(cpu)@ == after_ld_hl_sp_add_imm8(old(cpu)@),
{
    broadcast use crate::bits::lemma_u16_and_bound;

    let imm8 = cpu.bus.read_byte(cpu.pc.wrapping_add(1));
    let sp = cpu.registers.get_sp();

    let result = sp.wrapping_add(utils::i8_as_u16(imm8));
    cpu.registers.set_r16_value(R16::HL, result);

    cpu.registers.set_zero_flag(false);
    cpu.registers.set_subtract_flag(false);

    let sp_lo = sp & 0xFF;

    cpu.registers.set_half_carry_flag((sp_lo & 0xF) + (imm8 as u16 & 0xF) > 0xF);
    cpu.registers.set_carry_flag(sp_lo + imm8 as u16 > 0xFF);

    cpu.pc = cpu.pc.wrapping_add(2);
    proof {
        assert(cpu@ =~~= after_ld_hl_sp_add_imm8(old(cpu)@));
    }
}

pub fn ld_sp_hl(cpu: &mut Cpu)
    requires
        old(cpu).wf(),
    ensures
        final(cpu).wf(),
        final(cpu)@ == after_ld_sp_hl(old(cpu)@),
{
    let hl_value = cpu.registers.get_r16_value(R16::HL);
    cpu.registers.set_sp(hl_value);
    cpu.pc = cpu.pc.wrapping_add(1);
    proof {
        assert(cpu@ =~~= after_ld_sp_hl(old(cpu)@));
    }
}

/// Disable the interrupt master enable at once.
pub fn di(cpu: &mut Cpu)
    requires
        old(cpu).wf(),
    ensures
        final(cpu).wf(),
        final(cpu)@ == after_di(old(cpu)@),
{
    cpu.ime = false;
    cpu.pc = cpu.pc.wrapping_add(1);
    proof {
        assert(cpu@ =~~= after_di(old(cpu)@));
    }
}

/// Schedule the interrupt master enable for after the next instruction.
pub fn ei(cpu: &mut Cpu)
    requires
        old(cpu).wf(),
    ensures
        final(cpu).wf(),
        final(cpu)@ == after_ei(old(cpu)@),
{
    cpu.ime_delay = true;
    cpu.pc = cpu.pc.wrapping_add(1);
    proof {
        assert(cpu@ =~~= after_ei(old(cpu)@));
    }
}

} // verus!
