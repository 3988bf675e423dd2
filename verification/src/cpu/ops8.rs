//! Rotate, shift and swap operations phrased directly on an 8-bit operand of
//! the processor, memory operand included; the program counter is left to
//! the caller.

use crate::cpu::registers::R8;
use crate::cpu::{cpu_r8, cpu_with_r8, with_regs, Cpu, CpuView};
use vstd::prelude::*;

verus! {

/// The processor after a left rotate of `target`; `z_always_zero` forces the
/// Z flag clear as the accumulator forms do.
pub open spec fn after_op_rotate_left(
    c: CpuView,
    target: R8,
    through_carry: bool,
    z_always_zero: bool,
) -> CpuView {
    let value = cpu_r8(c, target);
    let carry_in: u8 = if through_carry && c.regs.f.carry {
        1
    } else {
        0
    };
    let carry_out = value & 0x80 != 0;
    let result: u8 = if through_carry {
        (value << 1) | carry_in
    } else {
        (value << 1) | (value >> 7)
    };
    let zero = if z_always_zero {
        false
    } else {
        result == 0
    };
    let c1 = cpu_with_r8(c, target, result);
    with_regs(c1, c1.regs.spec_with_flags(zero, false, false, carry_out))
}

/// The processor after a right rotate of `target`.
pub open spec fn after_op_rotate_right(
    c: CpuView,
    target: R8,
    through_carry: bool,
    z_always_zero: bool,
) -> CpuView {
    let value = cpu_r8(c, target);
    let carry_in: u8 = if through_carry && c.regs.f.carry {
        1
    } else {
        0
    };
    let carry_out = value & 0x01 != 0;
    let result: u8 = if through_carry {
        (value >> 1) | (carry_in << 7)
    } else {
        (value >> 1) | (value << 7)
    };
    let zero = if z_always_zero {
        false
    } else {
        result == 0
    };
    let c1 = cpu_with_r8(c, target, result);
    with_regs(c1, c1.regs.spec_with_flags(zero, false, false, carry_out))
}

/// The processor after `SLA` on `target`.
pub open spec fn after_op_sla(c: CpuView, target: R8) -> CpuView {
    let value = cpu_r8(c, target);
    let result: u8 = value << 1;
    let c1 = cpu_with_r8(c, target, result);
    with_regs(c1, c1.regs.spec_with_flags(result == 0, false, false, value & 0x80 != 0))
}

/// The processor after `SRA` (arithmetic) or `SRL` on `target`.
pub open spec fn after_op_sr(c: CpuView, target: R8, arithmetic: bool) -> CpuView {
    let value = cpu_r8(c, target);
    let result: u8 = if arithmetic {
        (value >> 1) | (value & 0x80)
    } else {
        value >> 1
    };
    let c1 = cpu_with_r8(c, target, result);
    with_regs(c1, c1.regs.spec_with_flags(result == 0, false, false, value & 0x01 != 0))
}

/// The processor after `SWAP` on `target`.
pub open spec fn after_op_swap(c: CpuView, target: R8) -> CpuView {
    let value = cpu_r8(c, target);
    let result: u8 = (value >> 4) | (value << 4);
    let c1 = cpu_with_r8(c, target, result);
    with_regs(c1, c1.regs.spec_with_flags(result == 0, false, false, false))
}

impl Cpu {
    #[verifier::rlimit(60)]
    pub fn op_rotate_left(&mut self, target: R8, through_carry: bool, z_always_zero: bool)
        requires
            old(self).wf(),
        ensures
            final(self).wf(),
            final(self)@ == after_op_rotate_left(old(self)@, target, through_carry, z_always_zero),
    {
        let value = self.get_r8_value(target);

        let carry_in: u8 = if through_carry && self.registers.get_carry_flag() {
            1
        } else {
            0
        };
        let carry_out = (value & 0x80) != 0;

        let result = if through_carry {
            (value << 1u8) | carry_in
        } else {
            (value << 1u8) | (value >> 7u8)
        };

        self.set_r8_value(target, result);

        self.registers.set_carry_flag(carry_out);
        self.registers.set_subtract_flag(false);
        self.registers.set_half_carry_flag(false);

        let zero = if z_always_zero {
            false
        } else {
            result == 0
        };
        self.registers.set_zero_flag(zero);
        proof {
            assert(self@ =~~= after_op_rotate_left(old(self)@, target, through_carry,
            z_always_zero));
        }
    }

    #[verifier::rlimit(60)]
    pub fn op_rotate_right(&mut self, target: R8, through_carry: bool, z_always_zero: bool)
        requires
            old(self).wf(),
        ensures
            final(self).wf(),
            final(self)@ == after_op_rotate_right(old(self)@, target, through_carry, z_always_zero),
    {
        let value = self.get_r8_value(target);

        let carry_in: u8 = if through_carry && self.registers.get_carry_flag() {
            1
        } else {
            0
        };
        let carry_out = (value & 0x01) != 0;

        let result = if through_carry {
            (value >> 1u8) | (carry_in << 7u8)
        } else {
            (value >> 1u8) | (value << 7u8)
        };

        self.set_r8_value(target, result);

        self.registers.set_carry_flag(carry_out);
        self.registers.set_subtract_flag(false);
        self.registers.set_half_carry_flag(false);

        let zero = if z_always_zero {
            false
        } else {
            result == 0
        };
        self.registers.set_zero_flag(zero);
        proof {
            assert(self@ =~~= after_op_rotate_right(old(self)@, target, through_carry,
            z_always_zero));
        }
    }

    #[verifier::rlimit(60)]
    pub fn op_sla(&mut self, target: R8)
        requires
            old(self).wf(),
        ensures
            final(self).wf(),
            final(self)@ == after_op_sla(old(self)@, target),
    {
        let value = self.get_r8_value(target);
        let carry_out = (value & 0x80) != 0;
        let result = value << 1u8;

        self.set_r8_value(target, result);
        self.registers.set_zero_flag(result == 0);
        self.registers.set_subtract_flag(false);
        self.registers.set_half_carry_flag(false);
        self.registers.set_carry_flag(carry_out);
        proof {
            assert(self@ =~~= after_op_sla(old(self)@, target));
        }
    }

    #[verifier::rlimit(60)]
    pub fn op_sr(&mut self, target: R8, arithmetic: bool)
        requires
            old(self).wf(),
        ensures
            final(self).wf(),
            final(self)@ == after_op_sr(old(self)@, target, arithmetic),
    {
        let value = self.get_r8_value(target);
        let carry_out = (value & 0x01) != 0;

        let result = if arithmetic {
            (value >> 1u8) | (value & 0x80)
        } else {
            value >> 1u8
        };

        self.set_r8_value(target, result);
        self.registers.set_zero_flag(result == 0);
        self.registers.set_subtract_flag(false);
        self.registers.set_half_carry_flag(false);
        self.registers.set_carry_flag(carry_out);
        proof {
            assert(self@ =~~= after_op_sr(old(self)@, target, arithmetic));
        }
    }

    #[verifier::rlimit(60)]
    pub fn op_swap(&mut self, target: R8)
        requires
            old(self).wf(),
        ensures
            final(self).wf(),
            final(self)@ == after_op_swap(old(self)@, target),
    {
        let value = self.get_r8_value(target);
        let result = (value >> 4u8) | (value << 4u8);

        self.set_r8_value(target, result);
        self.registers.set_zero_flag(result == 0);
        self.registers.set_subtract_flag(false);
        self.registers.set_half_carry_flag(false);
        self.registers.set_carry_flag(false);
        proof {
            assert(self@ =~~= after_op_swap(old(self)@, target));
        }
    }
}

} // verus!
