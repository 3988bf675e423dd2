//! Jump conditions: the four flag tests of the conditional instructions, and
//! the unconditional case.

use vstd::prelude::*;

verus! {

#[derive(Debug, Clone, Copy, PartialEq, Eq, Structural)]
pub enum Cond {
    NZ,
    Z,
    NC,
    C,
    Always,
}

impl Cond {
    /// The condition index encoded in bits 3-4 of an opcode; anything past 3
    /// stands for the unconditional case.
    pub open spec fn spec_from(value: u8) -> Cond {
        if value == 0 {
            Cond::NZ
        } else if value == 1 {
            Cond::Z
        } else if value == 2 {
            Cond::NC
        } else if value == 3 {
            Cond::C
        } else {
            Cond::Always
        }
    }

    #[verifier::when_used_as_spec(spec_from)]
    pub fn from(value: u8) -> (r: Cond)
        returns
            Cond::spec_from(value),
    {
        if value == 0 {
            Cond::NZ
        } else if value == 1 {
            Cond::Z
        } else if value == 2 {
            Cond::NC
        } else if value == 3 {
            Cond::C
        } else {
            Cond::Always
        }
    }

    /// Whether the condition holds of the zero and carry flags.
    pub open spec fn spec_test(self, z: bool, c: bool) -> bool {
        match self {
            Cond::NZ => !z,
            Cond::Z => z,
            Cond::NC => !c,
            Cond::C => c,
            Cond::Always => true,
        }
    }

    #[verifier::when_used_as_spec(spec_test)]
    pub fn test(self, z: bool, c: bool) -> (r: bool)
        returns
            self.spec_test(z, c),
    {
        match self {
            Cond::NZ => !z,
            Cond::Z => z,
            Cond::NC => !c,
            Cond::C => c,
            Cond::Always => true,
        }
    }
}

} // verus!
