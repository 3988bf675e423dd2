//! Opcode block 00: NOP, the 16-bit loads and arithmetic, the 8-bit
//! increments and immediate loads, the accumulator rotates, DAA and the flag
//! instructions, and the relative jumps.

use crate::cpu::registers::{Registers, R16, R8};
use crate::cpu::utils::{
    spec_after_modify_hl, spec_cond_of, spec_dest_r8_of, spec_i8_as_u16, spec_r16_mem_of,
    spec_r16_of,
};
use crate::cpu::{code_byte, cpu_r8, cpu_with_r8, imm16, utils, with_pc, with_regs, Cpu, CpuView};
use crate::mmu::{mmu_read, mmu_write};
use vstd::prelude::*;

verus! {

/// The canonical opcode that a block-00 byte decodes to, or nothing where no
/// single table entry matches. Bytes whose low three bits pick a unique
/// instruction family decode even outside the block.
pub open spec fn spec_decode_block0(instruction: u8) -> Option<u8> {
    let low3 = instruction & 0x07;
    if low3 == 1 {
        if instruction & 0x0F == 1 {
            Some(0x01u8)
        } else {
            Some(0x09u8)
        }
    } else if low3 == 2 {
        if instruction & 0x0F == 2 {
            Some(0x02u8)
        } else {
            Some(0x0Au8)
        }
    } else if low3 == 3 {
        if instruction & 0x0F == 3 {
            Some(0x03u8)
        } else {
            Some(0x0Bu8)
        }
    } else if low3 == 4 {
        Some(0x04u8)
    } else if low3 == 5 {
        Some(0x05u8)
    } else if low3 == 6 {
        Some(0x06u8)
    } else if low3 == 7 {
        if instruction < 0x40 {
            Some(instruction)
        } else {
            None
        }
    } else {
        // low3 == 0
        if instruction == 0x00 || instruction == 0x08 || instruction == 0x10 || instruction == 0x18
            || instruction == 0x20 {
            Some(instruction)
        } else if instruction == 0x28 || instruction == 0x30 || instruction == 0x38 {
            Some(0x20u8)
        } else {
            None
        }
    }
}

#[verifier::when_used_as_spec(spec_decode_block0)]
pub fn decode_block0(instruction: u8) -> (r: Option<u8>)
    returns
        spec_decode_block0(instruction),
{
    let low3 = instruction & 0x07;
    if low3 == 1 {
        if instruction & 0x0F == 1 {
            Some(0x01)
        } else {
            Some(0x09)
        }
    } else if low3 == 2 {
        if instruction & 0x0F == 2 {
            Some(0x02)
        } else {
            Some(0x0A)
        }
    } else if low3 == 3 {
        if instruction & 0x0F == 3 {
            Some(0x03)
        } else {
            Some(0x0B)
        }
    } else if low3 == 4 {
        Some(0x04)
    } else if low3 == 5 {
        Some(0x05)
    } else if low3 == 6 {
        Some(0x06)
    } else if low3 == 7 {
        if instruction < 0x40 {
            Some(instruction)
        } else {
            None
        }
    } else {
        if instruction == 0x00 || instruction == 0x08 || instruction == 0x10 || instruction == 0x18
            || instruction == 0x20 {
            Some(instruction)
        } else if instruction == 0x28 || instruction == 0x30 || instruction == 0x38 {
            Some(0x20)
        } else {
            None
        }
    }
}

/// `LD r16, imm16`.
pub open spec fn after_load_r16_imm16(c: CpuView, instruction: u8) -> CpuView {
    let regs = c.regs.spec_with_r16(spec_r16_of(instruction), imm16(c));
    with_pc(with_regs(c, regs), c.pc.wrapping_add(3))
}

/// `LD [r16mem], A`, with the HL post-step.
pub open spec fn after_load_r16mem_a(c: CpuView, instruction: u8) -> CpuView {
    let r16_mem = spec_r16_mem_of(instruction);
    let addr = c.regs.spec_r16(R16::spec_of_mem(r16_mem));
    let c1 = CpuView { bus: mmu_write(c.bus, addr, c.regs.a), ..c };
    let c2 = with_regs(c1, spec_after_modify_hl(c1.regs, r16_mem));
    with_pc(c2, c.pc.wrapping_add(1))
}

/// `LD A, [r16mem]`, with the HL post-step.
pub open spec fn after_load_a_r16mem(c: CpuView, instruction: u8) -> CpuView {
    let r16_mem = spec_r16_mem_of(instruction);
    let addr = c.regs.spec_r16(R16::spec_of_mem(r16_mem));
    let value = mmu_read(c.bus, addr);
    let c1 = with_regs(c, c.regs.spec_with_r8(R8::A, value));
    let c2 = with_regs(c1, spec_after_modify_hl(c1.regs, r16_mem));
    with_pc(c2, c.pc.wrapping_add(1))
}

/// `LD [imm16], SP`: the low byte lands at the immediate address and the
/// high byte just above it.
pub open spec fn after_load_mem_imm16_sp(c: CpuView) -> CpuView {
    let addr = imm16(c);
    let sp_lsb = (c.regs.sp & 0xFF) as u8;
    let sp_msb = (c.regs.sp >> 8) as u8;
    let bus = mmu_write(mmu_write(c.bus, addr, sp_lsb), addr.wrapping_add(1), sp_msb);
    with_pc(CpuView { bus, ..c }, c.pc.wrapping_add(3))
}

/// `INC r16` (no flags).
pub open spec fn after_inc_r16(c: CpuView, instruction: u8) -> CpuView {
    let r16 = spec_r16_of(instruction);
    let regs = c.regs.spec_with_r16(r16, c.regs.spec_r16(r16).wrapping_add(1));
    with_pc(with_regs(c, regs), c.pc.wrapping_add(1))
}

/// `DEC r16` (no flags).
pub open spec fn after_dec_r16(c: CpuView, instruction: u8) -> CpuView {
    let r16 = spec_r16_of(instruction);
    let regs = c.regs.spec_with_r16(r16, c.regs.spec_r16(r16).wrapping_sub(1));
    with_pc(with_regs(c, regs), c.pc.wrapping_add(1))
}

/// `ADD HL, r16`.
pub open spec fn after_add_hl_r16(c: CpuView, instruction: u8) -> CpuView {
    let value = c.regs.spec_r16(spec_r16_of(instruction));
    with_pc(with_regs(c, c.regs.spec_after_add16(R16::HL, value)), c.pc.wrapping_add(1))
}

/// `INC r8`: Z, N and H from the increment, C preserved.
pub open spec fn after_inc_r8(c: CpuView, instruction: u8) -> CpuView {
    let r8 = spec_dest_r8_of(instruction);
    let value = cpu_r8(c, r8);
    let new_value = value.wrapping_add(1);
    let regs = c.regs.spec_with_flags(
        new_value == 0,
        false,
        (value & 0x0F) + 1 > 0x0F,
        c.regs.f.carry,
    );
    with_pc(cpu_with_r8(with_regs(c, regs), r8, new_value), c.pc.wrapping_add(1))
}

/// `DEC r8`: Z, N and H from the decrement, C preserved.
pub open spec fn after_dec_r8(c: CpuView, instruction: u8) -> CpuView {
    let r8 = spec_dest_r8_of(instruction);
    let value = cpu_r8(c, r8);
    let new_value = value.wrapping_sub(1);
    let regs = c.regs.spec_with_flags(new_value == 0, true, value & 0x0F == 0, c.regs.f.carry);
    with_pc(cpu_with_r8(with_regs(c, regs), r8, new_value), c.pc.wrapping_add(1))
}

/// `LD r8, imm8`.
pub open spec fn after_ld_r8_imm8(c: CpuView, instruction: u8) -> CpuView {
    with_pc(cpu_with_r8(c, spec_dest_r8_of(instruction), code_byte(c, 1)), c.pc.wrapping_add(2))
}

/// The accumulator rotates RLCA/RLA (Z forced clear).
pub open spec fn after_rotate_a_left(c: CpuView, through_carry: bool) -> CpuView {
    with_pc(with_regs(c, c.regs.spec_after_rotate_left(R8::A, through_carry)), c.pc.wrapping_add(1))
}

/// The accumulator rotates RRCA/RRA (Z forced clear).
pub open spec fn after_rotate_a_right(c: CpuView, circular: bool) -> CpuView {
    with_pc(with_regs(c, c.regs.spec_after_rotate_right(R8::A, circular)), c.pc.wrapping_add(1))
}

/// `DAA`: adjust A to packed BCD after an addition or subtraction, using N,
/// H and C; Z from the result, H cleared, C set when the high digit
/// overflowed an addition.
pub open spec fn after_daa(c: CpuView) -> CpuView {
    let a = c.regs.a;
    if c.regs.f.subtract {
        let adjust: u8 = ((if c.regs.f.half_carry {
            0x06u8
        } else {
            0u8
        }) + (if c.regs.f.carry {
            0x60u8
        } else {
            0u8
        })) as u8;
        let result = a.wrapping_sub(adjust);
        let regs = Registers { a: result, ..c.regs }.spec_with_flags(
            result == 0,
            c.regs.f.subtract,
            false,
            c.regs.f.carry,
        );
        with_pc(with_regs(c, regs), c.pc.wrapping_add(1))
    } else {
        let low_adjust: u8 = if c.regs.f.half_carry || a & 0x0F > 0x09 {
            0x06u8
        } else {
            0u8
        };
        let high = c.regs.f.carry || a > 0x99;
        let adjust: u8 = if high {
            (low_adjust + 0x60) as u8
        } else {
            low_adjust
        };
        let carry = if high {
            true
        } else {
            c.regs.f.carry
        };
        let result = a.wrapping_add(adjust);
        let regs = Registers { a: result, ..c.regs }.spec_with_flags(
            result == 0,
            c.regs.f.subtract,
            false,
            carry,
        );
        with_pc(with_regs(c, regs), c.pc.wrapping_add(1))
    }
}

/// `CPL`: complement A; N and H set, Z and C preserved.
pub open spec fn after_cpl(c: CpuView) -> CpuView {
    let regs = Registers { a: !c.regs.a, ..c.regs }.spec_with_flags(
        c.regs.f.zero,
        true,
        true,
        c.regs.f.carry,
    );
    with_pc(with_regs(c, regs), c.pc.wrapping_add(1))
}

/// `SCF`: set C, clear N and H.
pub open spec fn after_scf(c: CpuView) -> CpuView {
    let regs = c.regs.spec_with_flags(c.regs.f.zero, false, false, true);
    with_pc(with_regs(c, regs), c.pc.wrapping_add(1))
}

/// `CCF`: complement C, clear N and H.
pub open spec fn after_ccf(c: CpuView) -> CpuView {
    let regs = c.regs.spec_with_flags(c.regs.f.zero, false, false, !c.regs.f.carry);
    with_pc(with_regs(c, regs), c.pc.wrapping_add(1))
}

/// `JR` / `JR cond`: a taken jump moves PC past the two instruction bytes
/// and then by the signed offset; an untaken one just moves past them.
pub open spec fn after_jr(c: CpuView, instruction: u8, has_cond: bool) -> CpuView {
    let taken = !has_cond || spec_cond_of(instruction).spec_test(c.regs.f.zero, c.regs.f.carry);
    if taken {
        let offset = spec_i8_as_u16(code_byte(c, 1));
        with_pc(c, c.pc.wrapping_add(2).wrapping_add(offset))
    } else {
        with_pc(c, c.pc.wrapping_add(2))
    }
}

/// The effect of a block-00 opcode; an undecodable byte leaves the processor
/// unchanged.
pub open spec fn after_block0(c: CpuView, instruction: u8) -> CpuView {
    match spec_decode_block0(instruction) {
        Option::None => c,
        Option::Some(opcode) => {
            if opcode == 0x00 {
                with_pc(c, c.pc.wrapping_add(1))
            } else if opcode == 0x01 {
                after_load_r16_imm16(c, instruction)
            } else if opcode == 0x02 {
                after_load_r16mem_a(c, instruction)
            } else if opcode == 0x0A {
                after_load_a_r16mem(c, instruction)
            } else if opcode == 0x08 {
                after_load_mem_imm16_sp(c)
            } else if opcode == 0x03 {
                after_inc_r16(c, instruction)
            } else if opcode == 0x0B {
                after_dec_r16(c, instruction)
            } else if opcode == 0x09 {
                after_add_hl_r16(c, instruction)
            } else if opcode == 0x04 {
                after_inc_r8(c, instruction)
            } else if opcode == 0x05 {
                after_dec_r8(c, instruction)
            } else if opcode == 0x06 {
                after_ld_r8_imm8(c, instruction)
            } else if opcode == 0x07 {
                after_rotate_a_left(c, false)
            } else if opcode == 0x0F {
                after_rotate_a_right(c, true)
            } else if opcode == 0x17 {
                after_rotate_a_left(c, true)
            } else if opcode == 0x1F {
                after_rotate_a_right(c, false)
            } else if opcode == 0x27 {
                after_daa(c)
            } else if opcode == 0x2F {
                after_cpl(c)
            } else if opcode == 0x37 {
                after_scf(c)
            } else if opcode == 0x3F {
                after_ccf(c)
            } else if opcode == 0x18 {
                after_jr(c, instruction, false)
            } else if opcode == 0x20 {
                after_jr(c, instruction, true)
            } else {
                // STOP and the instruction slots left unimplemented consume
                // one byte.
                with_pc(c, c.pc.wrapping_add(1))
            }
        },
    }
}

/// Execute a block-00 opcode. `None` reports a byte that no table entry
/// uniquely matches; the processor is left unchanged then.
pub fn execute_instruction_block0(cpu: &mut Cpu, instruction: u8) -> (r: Option<()>)
    requires
        old(cpu).wf(),
    ensures
        final(cpu).wf(),
        final(cpu)@ == after_block0(old(cpu)@, instruction),
        r is Some <==> spec_decode_block0(instruction) is Some,
{
    let decoded = decode_block0(instruction);
    let opcode = match decoded {
        Option::Some(op) => op,
        Option::None => {
            return Option::None;
        },
    };

    if opcode == 0x00 {
        cpu.pc = cpu.pc.wrapping_add(1);
        proof {
            assert(cpu@ =~~= after_block0(old(cpu)@, instruction));
        }
    } else if opcode == 0x01 {
        load_r16_imm16(cpu, instruction);
    } else if opcode == 0x02 {
        load_r16mem_a(cpu, instruction);
    } else if opcode == 0x0A {
        load_a_r16mem(cpu, instruction);
    } else if opcode == 0x08 {
        load_mem_imm16_sp(cpu);
    } else if opcode == 0x03 {
        inc_r16(cpu, instruction);
    } else if opcode == 0x0B {
        dec_r16(cpu, instruction);
    } else if opcode == 0x09 {
        add_hl_r16(cpu, instruction);
    } else if opcode == 0x04 {
        inc_r8(cpu, instruction);
    } else if opcode == 0x05 {
        dec_r8(cpu, instruction);
    } else if opcode == 0x06 {
        ld_r8_imm8(cpu, instruction);
    } else if opcode == 0x07 {
        rotate_left(cpu, false);
    } else if opcode == 0x0F {
        rotate_right(cpu, true);
    } else if opcode == 0x17 {
        rotate_left(cpu, true);
    } else if opcode == 0x1F {
        rotate_right(cpu, false);
    } else if opcode == 0x27 {
        daa(cpu);
    } else if opcode == 0x2F {
        cpl(cpu);
    } else if opcode == 0x37 {
        scf(cpu);
    } else if opcode == 0x3F {
        ccf(cpu);
    } else if opcode == 0x18 {
        jr(cpu, instruction, false);
    } else if opcode == 0x20 {
        jr(cpu, instruction, true);
    } else {
        cpu.pc = cpu.pc.wrapping_add(1);
        proof {
            assert(cpu@ =~~= after_block0(old(cpu)@, instruction));
        }
    }
    Option::Some(())
}

pub fn load_r16_imm16(cpu: &mut Cpu, instruction: u8)
    requires
        old(cpu).wf(),
    ensures
        final(cpu).wf(),
        final(cpu)@ == after_load_r16_imm16(old(cpu)@, instruction),
{
    let imm16 = utils::get_imm16(cpu);
    let r16 = utils::convert_index_to_r16(instruction);

    cpu.registers.set_r16_value(r16, imm16);
    cpu.pc = cpu.pc.wrapping_add(3);
    proof {
        assert(cpu@ =~~= after_load_r16_imm16(old(cpu)@, instruction));
    }
}

pub fn load_r16mem_a(cpu: &mut Cpu, instruction: u8)
    requires
        old(cpu).wf(),
    ensures
        final(cpu).wf(),
        final(cpu)@ == after_load_r16mem_a(old(cpu)@, instruction),
{
    let r16_mem = utils::convert_index_to_r16_mem(instruction);
    let a_value = cpu.registers.get_a();

    let target = R16::of_mem(r16_mem);
    let addr = cpu.registers.get_r16_value(target);
    cpu.bus.write_byte(addr, a_value);
    utils::modify_hl(cpu, r16_mem);
    cpu.pc = cpu.pc.wrapping_add(1);
    proof {
        assert(cpu@ =~~= after_load_r16mem_a(old(cpu)@, instruction));
    }
}

pub fn load_a_r16mem(cpu: &mut Cpu, instruction: u8)
    requires
        old(cpu).wf(),
    ensures
        final(cpu).wf(),
        final(cpu)@ == after_load_a_r16mem(old(cpu)@, instruction),
{
    let r16_mem = utils::convert_index_to_r16_mem(instruction);
    let target = R16::of_mem(r16_mem);
    let value = cpu.registers.get_r16_mem_value(&cpu.bus, target);

    cpu.set_r8_value(R8::A, value);
    utils::modify_hl(cpu, r16_mem);

    cpu.pc = cpu.pc.wrapping_add(1);
    proof {
        assert(cpu@ =~~= after_load_a_r16mem(old(cpu)@, instruction));
    }
}

pub fn load_mem_imm16_sp(cpu: &mut Cpu)
    requires
        old(cpu).wf(),
    ensures
        final(cpu).wf(),
        final(cpu)@ == after_load_mem_imm16_sp(old(cpu)@),
{
    let sp = cpu.registers.get_sp();
    let sp_msb = (sp >> 8u16) as u8;
    let sp_lsb = (sp & 0xFF) as u8;
    proof {
        let v = sp;
        assert(v >> 8 <= 0xFF) by (bit_vector);
    }

    let imm16 = utils::get_imm16(cpu);

    cpu.bus.write_byte(imm16, sp_lsb);
    cpu.bus.write_byte(imm16.wrapping_add(1), sp_msb);

    cpu.pc = cpu.pc.wrapping_add(3);
    proof {
        assert(cpu@ =~~= after_load_mem_imm16_sp(old(cpu)@));
    }
}

pub fn inc_r16(cpu: &mut Cpu, instruction: u8)
    requires
        old(cpu).wf(),
    ensures
        final(cpu).wf(),
        final(cpu)@ == after_inc_r16(old(cpu)@, instruction),
{
    let r16 = utils::convert_index_to_r16(instruction);
    let value = cpu.registers.get_r16_value(r16);

    cpu.registers.set_r16_value(r16, value.wrapping_add(1));
    cpu.pc = cpu.pc.wrapping_add(1);
    proof {
        assert(cpu@ =~~= after_inc_r16(old(cpu)@, instruction));
    }
}

pub fn dec_r16(cpu: &mut Cpu, instruction: u8)
    requires
        old(cpu).wf(),
    ensures
        final(cpu).wf(),
        final(cpu)@ == after_dec_r16(old(cpu)@, instruction),
{
    let r16 = utils::convert_index_to_r16(instruction);
    let value = cpu.registers.get_r16_value(r16);

    cpu.registers.set_r16_value(r16, value.wrapping_sub(1));
    cpu.pc = cpu.pc.wrapping_add(1);
    proof {
        assert(cpu@ =~~= after_dec_r16(old(cpu)@, instruction));
    }
}

pub fn add_hl_r16(cpu: &mut Cpu, instruction: u8)
    requires
        old(cpu).wf(),
    ensures
        final(cpu).wf(),
        final(cpu)@ == after_add_hl_r16(old(cpu)@, instruction),
{
    let r16 = utils::convert_index_to_r16(instruction);
    let value = cpu.registers.get_r16_value(r16);
    cpu.registers.add_to_r16(R16::HL, value);

    cpu.pc = cpu.pc.wrapping_add(1);
    proof {
        assert(cpu@ =~~= after_add_hl_r16(old(cpu)@, instruction));
    }
}

pub fn inc_r8(cpu: &mut Cpu, instruction: u8)
    requires
        old(cpu).wf(),
    ensures
        final(cpu).wf(),
        final(cpu)@ == after_inc_r8(old(cpu)@, instruction),
{
    broadcast use crate::bits::lemma_u8_and_bound;

    let r8 = utils::convert_dest_index_to_r8(instruction);
    let value = cpu.get_r8_value(r8);
    let new_value = value.wrapping_add(1);

    cpu.registers.set_zero_flag(new_value == 0);
    cpu.registers.set_subtract_flag(false);
    cpu.registers.set_half_carry_flag((value & 0x0F) + 1 > 0x0F);

    cpu.set_r8_value(r8, new_value);
    cpu.pc = cpu.pc.wrapping_add(1);
    proof {
        assert(cpu@ =~~= after_inc_r8(old(cpu)@, instruction));
    }
}

pub fn dec_r8(cpu: &mut Cpu, instruction: u8)
    requires
        old(cpu).wf(),
    ensures
        final(cpu).wf(),
        final(cpu)@ == after_dec_r8(old(cpu)@, instruction),
{
    let r8 = utils::convert_dest_index_to_r8(instruction);
    let value = cpu.get_r8_value(r8);
    let new_value = value.wrapping_sub(1);

    cpu.registers.set_zero_flag(new_value == 0);
    cpu.registers.set_subtract_flag(true);
    cpu.registers.set_half_carry_flag((value & 0x0F) == 0x00);
    cpu.set_r8_value(r8, new_value);
    cpu.pc = cpu.pc.wrapping_add(1);
    proof {
        assert(cpu@ =~~= after_dec_r8(old(cpu)@, instruction));
    }
}

pub fn ld_r8_imm8(cpu: &mut Cpu, instruction: u8)
    requires
        old(cpu).wf(),
    ensures
        final(cpu).wf(),
        final(cpu)@ == after_ld_r8_imm8(old(cpu)@, instruction),
{
    let imm8 = cpu.bus.read_byte(cpu.pc.wrapping_add(1));
    let r8 = utils::convert_dest_index_to_r8(instruction);

    cpu.set_r8_value(r8, imm8);
    cpu.pc = cpu.pc.wrapping_add(2);
    proof {
        assert(cpu@ =~~= after_ld_r8_imm8(old(cpu)@, instruction));
    }
}

/// Rotate A left: circularly for RLCA, through the carry for RLA.
pub fn rotate_left(cpu: &mut Cpu, through_carry: bool)
    requires
        old(cpu).wf(),
    ensures
        final(cpu).wf(),
        final(cpu)@ == after_rotate_a_left(old(cpu)@, through_carry),
{
    cpu.registers.rotate_left(R8::A, through_carry);
    cpu.pc = cpu.pc.wrapping_add(1);
    proof {
        assert(cpu@ =~~= after_rotate_a_left(old(cpu)@, through_carry));
    }
}

/// Rotate A right: circularly for RRCA, through the carry for RRA.
pub fn rotate_right(cpu: &mut Cpu, circular: bool)
    requires
        old(cpu).wf(),
    ensures
        final(cpu).wf(),
        final(cpu)@ == after_rotate_a_right(old(cpu)@, circular),
{
    cpu.registers.rotate_right(R8::A, circular);
    cpu.pc = cpu.pc.wrapping_add(1);
    proof {
        assert(cpu@ =~~= after_rotate_a_right(old(cpu)@, circular));
    }
}

pub fn daa(cpu: &mut Cpu)
    requires
        old(cpu).wf(),
    ensures
        final(cpu).wf(),
        final(cpu)@ == after_daa(old(cpu)@),
{
    broadcast use crate::bits::lemma_u8_and_bound;

    let mut adjust: u8 = 0;
    let mut a = cpu.registers.get_a();
    if cpu.registers.get_subtract_flag() {
        if cpu.registers.get_half_carry_flag() {
            adjust += 0x6;
        }
        if cpu.registers.get_carry_flag() {
            adjust += 0x60;
        }
        a = a.wrapping_sub(adjust);
        cpu.set_r8_value(R8::A, a);
    } else {
        if cpu.registers.get_half_carry_flag() || (a & 0xF) > 0x9 {
            adjust += 0x6;
        }
        if cpu.registers.get_carry_flag() || a > 0x99 {
            adjust += 0x60;
            cpu.registers.set_carry_flag(true);
        }
        a = a.wrapping_add(adjust);
        cpu.set_r8_value(R8::A, a);
    }
    cpu.registers.set_zero_flag(a == 0);
    cpu.registers.set_half_carry_flag(false);
    cpu.pc = cpu.pc.wrapping_add(1);
    proof {
        assert(cpu@ =~~= after_daa(old(cpu)@));
    }
}

pub fn cpl(cpu: &mut Cpu)
    requires
        old(cpu).wf(),
    ensures
        final(cpu).wf(),
        final(cpu)@ == after_cpl(old(cpu)@),
{
    let a = cpu.get_r8_value(R8::A);
    let new_value = !a;
    cpu.set_r8_value(R8::A, new_value);
    cpu.registers.set_subtract_flag(true);
    cpu.registers.set_half_carry_flag(true);
    cpu.pc = cpu.pc.wrapping_add(1);
    proof {
        assert(cpu@ =~~= after_cpl(old(cpu)@));
    }
}

pub fn scf(cpu: &mut Cpu)
    requires
        old(cpu).wf(),
    ensures
        final(cpu).wf(),
        final(cpu)@ == after_scf(old(cpu)@),
{
    cpu.registers.set_subtract_flag(false);
    cpu.registers.set_half_carry_flag(false);
    cpu.registers.set_carry_flag(true);
    cpu.pc = cpu.pc.wrapping_add(1);
    proof {
        assert(cpu@ =~~= after_scf(old(cpu)@));
    }
}

pub fn ccf(cpu: &mut Cpu)
    requires
        old(cpu).wf(),
    ensures
        final(cpu).wf(),
        final(cpu)@ == after_ccf(old(cpu)@),
{
    let carry_value = cpu.registers.get_carry_flag();
    cpu.registers.set_subtract_flag(false);
    cpu.registers.set_half_carry_flag(false);
    cpu.registers.set_carry_flag(!carry_value);
    cpu.pc = cpu.pc.wrapping_add(1);
    proof {
        assert(cpu@ =~~= after_ccf(old(cpu)@));
    }
}

pub fn jr(cpu: &mut Cpu, instruction: u8, has_cond: bool)
    requires
        old(cpu).wf(),
    ensures
        final(cpu).wf(),
        final(cpu)@ == after_jr(old(cpu)@, instruction, has_cond),
{
    if has_cond {
        let cond = utils::convert_index_to_cond(instruction);
        if !cpu.registers.check_condition(cond) {
            cpu.pc = cpu.pc.wrapping_add(2);
            proof {
                assert(cpu@ =~~= after_jr(old(cpu)@, instruction, has_cond));
            }
            return;
        }
    }
    let offset = utils::i8_as_u16(cpu.bus.read_byte(cpu.pc.wrapping_add(1)));
    cpu.pc = cpu.pc.wrapping_add(2).wrapping_add(offset);
    proof {
        assert(cpu@ =~~= after_jr(old(cpu)@, instruction, has_cond));
    }
}

} // verus!
