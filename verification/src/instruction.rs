//! A symbolic instruction vocabulary: operand names and the decode table
//! from opcode bytes to symbolic instructions, for the loads, one ADD form
//! and the HL jump.

use vstd::prelude::*;

verus! {

#[derive(Clone, Copy, PartialEq, Eq, Structural, Debug)]
pub enum ArithmeticTarget {
    A,
    B,
    C,
    D,
    E,
    H,
    L,
}

#[derive(Clone, Copy, PartialEq, Eq, Structural, Debug)]
pub enum JumpTest {
    Unconditional,
    Zero,
    NotZero,
    Carry,
    NotCarry,
}

#[derive(Clone, Copy, PartialEq, Eq, Structural, Debug)]
pub enum JumpTarget {
    A16,
    HL,
}

#[derive(Clone, Copy, PartialEq, Eq, Structural, Debug)]
pub enum LoadSource {
    A,
    B,
    C,
    D,
    E,
    H,
    L,
    BC,
    BCAddr,
    DE,
    DEAddr,
    HL,
    HLAddr,
    D8,
    D16,
    HLI,
    HLD,
}

#[derive(Clone, Copy, PartialEq, Eq, Structural, Debug)]
pub enum LoadTarget {
    A,
    B,
    C,
    D,
    E,
    H,
    L,
    BC,
    BCAddr,
    DE,
    DEAddr,
    HL,
    HLAddr,
    N16,
    HLI,
    HLD,
}

#[derive(Clone, Copy, PartialEq, Eq, Structural)]
pub enum Is16BitLoad {
    True,
    False,
}

#[derive(Clone, Copy, PartialEq, Eq, Structural, Debug)]
pub enum Instructions {
    ADD(ArithmeticTarget),
    JP(JumpTest, JumpTarget),
    LD(LoadTarget, LoadSource),
}

/// The load target register picked by a 3-bit field of the register block.
pub open spec fn spec_load_target_of(v: u8) -> LoadTarget {
    if v == 0 {
        LoadTarget::B
    } else if v == 1 {
        LoadTarget::C
    } else if v == 2 {
        LoadTarget::D
    } else if v == 3 {
        LoadTarget::E
    } else if v == 4 {
        LoadTarget::H
    } else if v == 5 {
        LoadTarget::L
    } else if v == 6 {
        LoadTarget::HL
    } else {
        LoadTarget::A
    }
}

/// The load source register picked by a 3-bit field of the register block.
pub open spec fn spec_load_source_of(v: u8) -> LoadSource {
    if v == 0 {
        LoadSource::B
    } else if v == 1 {
        LoadSource::C
    } else if v == 2 {
        LoadSource::D
    } else if v == 3 {
        LoadSource::E
    } else if v == 4 {
        LoadSource::H
    } else if v == 5 {
        LoadSource::L
    } else if v == 6 {
        LoadSource::HL
    } else {
        LoadSource::A
    }
}

fn load_target_of(v: u8) -> (r: LoadTarget)
    returns
        spec_load_target_of(v),
{
    if v == 0 {
        LoadTarget::B
    } else if v == 1 {
        LoadTarget::C
    } else if v == 2 {
        LoadTarget::D
    } else if v == 3 {
        LoadTarget::E
    } else if v == 4 {
        LoadTarget::H
    } else if v == 5 {
        LoadTarget::L
    } else if v == 6 {
        LoadTarget::HL
    } else {
        LoadTarget::A
    }
}

fn load_source_of(v: u8) -> (r: LoadSource)
    returns
        spec_load_source_of(v),
{
    if v == 0 {
        LoadSource::B
    } else if v == 1 {
        LoadSource::C
    } else if v == 2 {
        LoadSource::D
    } else if v == 3 {
        LoadSource::E
    } else if v == 4 {
        LoadSource::H
    } else if v == 5 {
        LoadSource::L
    } else if v == 6 {
        LoadSource::HL
    } else {
        LoadSource::A
    }
}

/// The table entry for an unprefixed byte: the column of accumulator and
/// immediate loads, the register-to-register block (with the HALT hole at
/// 0x76), one ADD form and `JP HL`. Anything else has no entry.
pub open spec fn spec_from_byte_not_prefixed(byte: u8) -> Option<Instructions> {
    if byte == 0x02 {
        Some(Instructions::LD(LoadTarget::BC, LoadSource::A))
    } else if byte == 0x06 {
        Some(Instructions::LD(LoadTarget::B, LoadSource::D8))
    } else if byte == 0x0A {
        Some(Instructions::LD(LoadTarget::A, LoadSource::BC))
    } else if byte == 0x0E {
        Some(Instructions::LD(LoadTarget::C, LoadSource::D8))
    } else if byte == 0x12 {
        Some(Instructions::LD(LoadTarget::DE, LoadSource::A))
    } else if byte == 0x16 {
        Some(Instructions::LD(LoadTarget::D, LoadSource::D8))
    } else if byte == 0x1A {
        Some(Instructions::LD(LoadTarget::A, LoadSource::DE))
    } else if byte == 0x1E {
        Some(Instructions::LD(LoadTarget::E, LoadSource::D8))
    } else if byte == 0x22 {
        Some(Instructions::LD(LoadTarget::HLI, LoadSource::A))
    } else if byte == 0x26 {
        Some(Instructions::LD(LoadTarget::H, LoadSource::D8))
    } else if byte == 0x2A {
        Some(Instructions::LD(LoadTarget::A, LoadSource::HLI))
    } else if byte == 0x2E {
        Some(Instructions::LD(LoadTarget::L, LoadSource::D8))
    } else if byte == 0x32 {
        Some(Instructions::LD(LoadTarget::HLD, LoadSource::A))
    } else if byte == 0x36 {
        Some(Instructions::LD(LoadTarget::HL, LoadSource::D8))
    } else if byte == 0x3A {
        Some(Instructions::LD(LoadTarget::HLD, LoadSource::A))
    } else if byte == 0x3E {
        Some(Instructions::LD(LoadTarget::A, LoadSource::D8))
    } else if 0x40 <= byte <= 0x7F && byte != 0x76 {
        Some(
            Instructions::LD(
                spec_load_target_of((byte >> 3) & 0x07),
                spec_load_source_of(byte & 0x07),
            ),
        )
    } else if byte == 0x80 {
        Some(Instructions::ADD(ArithmeticTarget::B))
    } else if byte == 0xE9 {
        Some(Instructions::JP(JumpTest::Unconditional, JumpTarget::HL))
    } else {
        None
    }
}

impl Instructions {
    /// Look a byte up in the decode table; prefixed entries are not wired
    /// up, so a prefixed lookup never resolves.
    pub fn from_byte(byte: u8, prefixed: bool) -> (r: Option<Instructions>)
        ensures
            r == if prefixed {
                Option::<Instructions>::None
            } else {
                spec_from_byte_not_prefixed(byte)
            },
    {
        if prefixed {
            Option::None
        } else {
            Instructions::from_byte_not_prefixed(byte)
        }
    }

    fn from_byte_not_prefixed(byte: u8) -> (r: Option<Instructions>)
        returns
            spec_from_byte_not_prefixed(byte),
    {
        if byte == 0x02 {
            Some(Instructions::LD(LoadTarget::BC, LoadSource::A))
        } else if byte == 0x06 {
            Some(Instructions::LD(LoadTarget::B, LoadSource::D8))
        } else if byte == 0x0A {
            Some(Instructions::LD(LoadTarget::A, LoadSource::BC))
        } else if byte == 0x0E {
            Some(Instructions::LD(LoadTarget::C, LoadSource::D8))
        } else if byte == 0x12 {
            Some(Instructions::LD(LoadTarget::DE, LoadSource::A))
        } else if byte == 0x16 {
            Some(Instructions::LD(LoadTarget::D, LoadSource::D8))
        } else if byte == 0x1A {
            Some(Instructions::LD(LoadTarget::A, LoadSource::DE))
        } else if byte == 0x1E {
            Some(Instructions::LD(LoadTarget::E, LoadSource::D8))
        } else if byte == 0x22 {
            Some(Instructions::LD(LoadTarget::HLI, LoadSource::A))
        } else if byte == 0x26 {
            Some(Instructions::LD(LoadTarget::H, LoadSource::D8))
        } else if byte == 0x2A {
            Some(Instructions::LD(LoadTarget::A, LoadSource::HLI))
        } else if byte == 0x2E {
            Some(Instructions::LD(LoadTarget::L, LoadSource::D8))
        } else if byte == 0x32 {
            Some(Instructions::LD(LoadTarget::HLD, LoadSource::A))
        } else if byte == 0x36 {
            Some(Instructions::LD(LoadTarget::HL, LoadSource::D8))
        } else if byte == 0x3A {
            Some(Instructions::LD(LoadTarget::HLD, LoadSource::A))
        } else if byte == 0x3E {
            Some(Instructions::LD(LoadTarget::A, LoadSource::D8))
        } else if 0x40 <= byte && byte <= 0x7F && byte != 0x76 {
            Some(
                Instructions::LD(load_target_of((byte >> 3u8) & 0x07), load_source_of(byte & 0x07)),
            )
        } else if byte == 0x80 {
            Some(Instructions::ADD(ArithmeticTarget::B))
        } else if byte == 0xE9 {
            Some(Instructions::JP(JumpTest::Unconditional, JumpTarget::HL))
        } else {
            None
        }
    }
}

} // verus!
