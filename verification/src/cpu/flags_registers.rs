//! The F register: four flags held as booleans, packed into the upper nibble
//! of a byte. The lower nibble of the packed form is always zero.

use vstd::prelude::*;

verus! {

/// The packed byte for a set of flags: Z at bit 7, N at bit 6, H at bit 5,
/// C at bit 4, and the low nibble clear.
pub open spec fn flags_to_byte(zero: bool, subtract: bool, half_carry: bool, carry: bool) -> u8 {
    (if zero {
        0x80u8
    } else {
        0u8
    }) | (if subtract {
        0x40u8
    } else {
        0u8
    }) | (if half_carry {
        0x20u8
    } else {
        0u8
    }) | (if carry {
        0x10u8
    } else {
        0u8
    })
}

/// The low nibble of a packed flag byte is always zero.
pub proof fn lemma_flags_byte_low_nibble(zero: bool, subtract: bool, half_carry: bool, carry: bool)
    ensures
        flags_to_byte(zero, subtract, half_carry, carry) & 0x0F == 0,
{
    let z: u8 = if zero {
        0x80
    } else {
        0
    };
    let n: u8 = if subtract {
        0x40
    } else {
        0
    };
    let h: u8 = if half_carry {
        0x20
    } else {
        0
    };
    let c: u8 = if carry {
        0x10
    } else {
        0
    };
    assert((z | n | h | c) & 0x0F == 0) by (bit_vector)
        requires
            (z == 0x80 || z == 0) && (n == 0x40 || n == 0) && (h == 0x20 || h == 0) && (c == 0x10
                || c == 0),
    ;
}

/// Packing and unpacking are inverse, up to the discarded low nibble.
pub proof fn lemma_flags_byte_round_trip(byte: u8)
    ensures
        flags_to_byte(
            (byte >> 7) & 1 != 0,
            (byte >> 6) & 1 != 0,
            (byte >> 5) & 1 != 0,
            (byte >> 4) & 1 != 0,
        ) == byte & 0xF0,
{
    let z: u8 = if (byte >> 7) & 1 != 0 {
        0x80
    } else {
        0
    };
    let n: u8 = if (byte >> 6) & 1 != 0 {
        0x40
    } else {
        0
    };
    let h: u8 = if (byte >> 5) & 1 != 0 {
        0x20
    } else {
        0
    };
    let c: u8 = if (byte >> 4) & 1 != 0 {
        0x10
    } else {
        0
    };
    assert((z | n | h | c) == byte & 0xF0) by (bit_vector)
        requires
            z == (if (byte >> 7) & 1 != 0 {
                0x80u8
            } else {
                0u8
            }),
            n == (if (byte >> 6) & 1 != 0 {
                0x40u8
            } else {
                0u8
            }),
            h == (if (byte >> 5) & 1 != 0 {
                0x20u8
            } else {
                0u8
            }),
            c == (if (byte >> 4) & 1 != 0 {
                0x10u8
            } else {
                0u8
            }),
    ;
}

#[derive(Clone, Copy, PartialEq, Eq, Structural, Debug)]
pub struct FlagsRegister {
    pub zero: bool,
    pub subtract: bool,
    pub half_carry: bool,
    pub carry: bool,
}

impl FlagsRegister {
    /// The packed byte this flag set reads back as.
    pub open spec fn spec_to_byte(self) -> u8 {
        flags_to_byte(self.zero, self.subtract, self.half_carry, self.carry)
    }

    pub fn to_byte(&self) -> (r: u8)
        returns
            self.spec_to_byte(),
    {
        (if self.zero {
            0x80u8
        } else {
            0u8
        }) | (if self.subtract {
            0x40u8
        } else {
            0u8
        }) | (if self.half_carry {
            0x20u8
        } else {
            0u8
        }) | (if self.carry {
            0x10u8
        } else {
            0u8
        })
    }

    /// The flag set a write of `byte` stores; the low nibble is discarded.
    pub open spec fn spec_from_byte(byte: u8) -> FlagsRegister {
        FlagsRegister {
            zero: (byte >> 7) & 1 != 0,
            subtract: (byte >> 6) & 1 != 0,
            half_carry: (byte >> 5) & 1 != 0,
            carry: (byte >> 4) & 1 != 0,
        }
    }

    pub fn from_byte(byte: u8) -> (r: FlagsRegister)
        returns
            FlagsRegister::spec_from_byte(byte),
    {
        FlagsRegister {
            zero: (byte >> 7) & 1 != 0,
            subtract: (byte >> 6) & 1 != 0,
            half_carry: (byte >> 5) & 1 != 0,
            carry: (byte >> 4) & 1 != 0,
        }
    }

    pub fn set_zero(&mut self, value: bool)
        ensures
            *final(self) == (FlagsRegister { zero: value, ..*old(self) }),
    {
        self.zero = value;
    }

    pub fn get_zero(&self) -> (r: bool)
        returns
            self.zero,
    {
        self.zero
    }

    pub fn set_subtract(&mut self, value: bool)
        ensures
            *final(self) == (FlagsRegister { subtract: value, ..*old(self) }),
    {
        self.subtract = value;
    }

    pub fn get_subtract(&self) -> (r: bool)
        returns
            self.subtract,
    {
        self.subtract
    }

    pub fn set_half_carry(&mut self, value: bool)
        ensures
            *final(self) == (FlagsRegister { half_carry: value, ..*old(self) }),
    {
        self.half_carry = value;
    }

    pub fn get_half_carry(&self) -> (r: bool)
        returns
            self.half_carry,
    {
        self.half_carry
    }

    pub fn set_carry(&mut self, value: bool)
        ensures
            *final(self) == (FlagsRegister { carry: value, ..*old(self) }),
    {
        self.carry = value;
    }

    pub fn get_carry(&self) -> (r: bool)
        returns
            self.carry,
    {
        self.carry
    }

    pub fn set_all(&mut self, zero: bool, subtract: bool, half_carry: bool, carry: bool)
        ensures
            *final(self) == (FlagsRegister { zero, subtract, half_carry, carry }),
    {
        self.zero = zero;
        self.subtract = subtract;
        self.half_carry = half_carry;
        self.carry = carry;
    }
}

impl Default for FlagsRegister {
    /// The documented power-up value: Z, H and C set, N clear.
    fn default() -> (r: FlagsRegister)
        ensures
            r == (FlagsRegister { zero: true, subtract: false, half_carry: true, carry: true }),
    {
        FlagsRegister { zero: true, subtract: false, half_carry: true, carry: true }
    }
}

} // verus!
