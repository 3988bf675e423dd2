//! The four flag tests of the conditional jump family.

use vstd::prelude::*;

verus! {

#[derive(Clone, Copy, PartialEq, Eq, Structural, Debug)]
pub enum COND {
    NZ,
    Z,
    NC,
    C,
}

impl COND {
    /// Whether the condition holds of the zero and carry flags.
    pub open spec fn spec_test(self, z: bool, c: bool) -> bool {
        match self {
            COND::NZ => !z,
            COND::Z => z,
            COND::NC => !c,
            COND::C => c,
        }
    }

    #[verifier::when_used_as_spec(spec_test)]
    pub fn test(self, z: bool, c: bool) -> (r: bool)
        returns
            self.spec_test(z, c),
    {
        match self {
            COND::NZ => !z,
            COND::Z => z,
            COND::NC => !c,
            COND::C => c,
        }
    }
}

} // verus!
