//! Interrupt controller: the IE (enable) and IF (pending) bit masks and the
//! prioritised choice of the next interrupt to service.

use vstd::prelude::*;

verus! {

/// The five interrupt sources, in fixed priority order (VBlank first).
#[derive(Copy, Clone, Debug, PartialEq, Eq, Structural)]
pub enum Interrupt {
    VBlank,
    LcdStat,
    Timer,
    Serial,
    Joypad,
}

impl Interrupt {
    /// The bit this interrupt occupies in IE and IF.
    pub open spec fn spec_mask(self) -> u8 {
        match self {
            Interrupt::VBlank => 0x01,
            Interrupt::LcdStat => 0x02,
            Interrupt::Timer => 0x04,
            Interrupt::Serial => 0x08,
            Interrupt::Joypad => 0x10,
        }
    }

    /// The fixed service vector of this interrupt: 0x40 + 8 * priority.
    pub open spec fn spec_vector(self) -> u16 {
        match self {
            Interrupt::VBlank => 0x40,
            Interrupt::LcdStat => 0x48,
            Interrupt::Timer => 0x50,
            Interrupt::Serial => 0x58,
            Interrupt::Joypad => 0x60,
        }
    }

    #[verifier::when_used_as_spec(spec_mask)]
    pub fn mask(self) -> (r: u8)
        returns
            self.spec_mask(),
    {
        match self {
            Interrupt::VBlank => 0x01,
            Interrupt::LcdStat => 0x02,
            Interrupt::Timer => 0x04,
            Interrupt::Serial => 0x08,
            Interrupt::Joypad => 0x10,
        }
    }

    #[verifier::when_used_as_spec(spec_vector)]
    pub fn vector(self) -> (r: u16)
        returns
            self.spec_vector(),
    {
        match self {
            Interrupt::VBlank => 0x40,
            Interrupt::LcdStat => 0x48,
            Interrupt::Timer => 0x50,
            Interrupt::Serial => 0x58,
            Interrupt::Joypad => 0x60,
        }
    }
}

/// The highest-priority interrupt whose bit is set in `pending`, if any.
pub open spec fn next_request_spec(pending: u8) -> Option<Interrupt> {
    if pending & 0x01 != 0 {
        Some(Interrupt::VBlank)
    } else if pending & 0x02 != 0 {
        Some(Interrupt::LcdStat)
    } else if pending & 0x04 != 0 {
        Some(Interrupt::Timer)
    } else if pending & 0x08 != 0 {
        Some(Interrupt::Serial)
    } else if pending & 0x10 != 0 {
        Some(Interrupt::Joypad)
    } else {
        None
    }
}

/// Holds the IE and IF masks. Only the low five bits of either are state:
/// IE reads back with the high bits clear, IF with the high bits set.
#[derive(Clone)]
pub struct InterruptController {
    pub ienable: u8,
    pub iflag: u8,
}

impl InterruptController {
    /// The controller's invariant: only the low five bits are ever stored.
    pub open spec fn wf(self) -> bool {
        self.ienable & 0xE0 == 0 && self.iflag & 0xE0 == 0
    }

    pub fn new() -> (r: InterruptController)
        ensures
            r.wf(),
            r.ienable == 0,
            r.iflag == 0,
    {
        proof {
            assert(0u8 & 0xE0 == 0) by (bit_vector);
        }
        InterruptController { ienable: 0, iflag: 0 }
    }

    pub fn read_interrupt_enable(&self) -> (r: u8)
        returns
            self.ienable & 0x1F,
    {
        self.ienable & 0b0001_1111
    }

    pub fn write_interrupt_enable(&mut self, val: u8)
        ensures
            final(self).ienable == val & 0x1F,
            final(self).iflag == old(self).iflag,
            final(self).wf() <==> old(self).iflag & 0xE0 == 0,
    {
        proof {
            assert((val & 0x1F) & 0xE0 == 0) by (bit_vector);
        }
        self.ienable = val & 0b0001_1111;
    }

    pub fn read_interrupt_flag(&self) -> (r: u8)
        returns
            self.iflag | 0xE0,
    {
        self.iflag | 0b1110_0000
    }

    pub fn write_interrupt_flag(&mut self, val: u8)
        ensures
            final(self).iflag == val & 0x1F,
            final(self).ienable == old(self).ienable,
            final(self).wf() <==> old(self).ienable & 0xE0 == 0,
    {
        proof {
            assert((val & 0x1F) & 0xE0 == 0) by (bit_vector);
        }
        self.iflag = val & 0b0001_1111;
    }

    /// Raise `interrupt`: set its bit in IF.
    pub fn request(&mut self, interrupt: Interrupt)
        ensures
            final(self).iflag == old(self).iflag | interrupt.spec_mask(),
            final(self).ienable == old(self).ienable,
            old(self).wf() ==> final(self).wf(),
    {
        proof {
            let f = self.iflag;
            let m = interrupt.spec_mask();
            assert(f & 0xE0 == 0 && m & 0xE0 == 0 ==> (f | m) & 0xE0 == 0) by (bit_vector);
            assert(interrupt.spec_mask() & 0xE0 == 0) by {
                match interrupt {
                    Interrupt::VBlank => assert(0x01u8 & 0xE0 == 0) by (bit_vector),
                    Interrupt::LcdStat => assert(0x02u8 & 0xE0 == 0) by (bit_vector),
                    Interrupt::Timer => assert(0x04u8 & 0xE0 == 0) by (bit_vector),
                    Interrupt::Serial => assert(0x08u8 & 0xE0 == 0) by (bit_vector),
                    Interrupt::Joypad => assert(0x10u8 & 0xE0 == 0) by (bit_vector),
                }
            }
        }
        self.iflag |= interrupt.mask();
    }

    /// Drop the request for `interrupt`: clear its bit in IF.
    pub fn clear_request(&mut self, interrupt: Interrupt)
        ensures
            final(self).iflag == old(self).iflag & !interrupt.spec_mask(),
            final(self).ienable == old(self).ienable,
            old(self).wf() ==> final(self).wf(),
    {
        proof {
            let f = self.iflag;
            let m = interrupt.spec_mask();
            assert(f & 0xE0 == 0 ==> (f & !m) & 0xE0 == 0) by (bit_vector);
        }
        self.iflag &= !interrupt.mask();
    }

    /// The highest-priority interrupt that is both enabled and pending.
    pub fn next_request(&self) -> (r: Option<Interrupt>)
        returns
            next_request_spec(self.ienable & self.iflag),
    {
        let pending = self.ienable & self.iflag;
        if pending & 0x01 != 0 {
            Some(Interrupt::VBlank)
        } else if pending & 0x02 != 0 {
            Some(Interrupt::LcdStat)
        } else if pending & 0x04 != 0 {
            Some(Interrupt::Timer)
        } else if pending & 0x08 != 0 {
            Some(Interrupt::Serial)
        } else if pending & 0x10 != 0 {
            Some(Interrupt::Joypad)
        } else {
            None
        }
    }
}

} // verus!
