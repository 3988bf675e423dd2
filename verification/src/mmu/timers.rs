//! Timer unit: a 16-bit internal divider whose selected bit, gated by the
//! enable bit of TAC, drives TIMA through a falling-edge detector.

use vstd::prelude::*;

verus! {

pub const DIV_ADDR: u16 = 0xFF04;

pub const TIMA_ADDR: u16 = 0xFF05;

pub const TMA_ADDR: u16 = 0xFF06;

pub const TAC_ADDR: u16 = 0xFF07;

#[derive(Clone, Copy)]
pub struct Timers {
    pub div: u16,
    pub tima: u8,
    pub tma: u8,
    pub tac: u8,
    pub previous_and_result: bool,
}

/// The divider bit selected by the low two bits of TAC: {00 -> 9, 01 -> 3,
/// 10 -> 5, 11 -> 7}, as a mask over the 16-bit divider.
pub open spec fn tac_selected_mask(tac: u8) -> u16 {
    if tac & 0b11 == 0b00 {
        1u16 << 9
    } else if tac & 0b11 == 0b01 {
        1u16 << 3
    } else if tac & 0b11 == 0b10 {
        1u16 << 5
    } else {
        1u16 << 7
    }
}

/// The edge-detector input for a given divider value and TAC: the selected
/// divider bit AND the enable bit (TAC bit 2).
pub open spec fn timer_and_result(div: u16, tac: u8) -> bool {
    (div & tac_selected_mask(tac)) > 0 && (tac & 0b100) > 0
}

impl Timers {
    pub fn tick(&mut self) -> (overflowed: bool)
        ensures
            final(self).div == old(self).div.wrapping_add(1),
            final(self).tma == old(self).tma,
            final(self).tac == old(self).tac,
            final(self).previous_and_result == timer_and_result(
                old(self).div.wrapping_add(1),
                old(self).tac,
            ),
            ({
                let falling = old(self).previous_and_result && !timer_and_result(
                    old(self).div.wrapping_add(1),
                    old(self).tac,
                );
                if falling {
                    if old(self).tima == 0xFF {
                        final(self).tima == old(self).tma && overflowed
                    } else {
                        final(self).tima == old(self).tima + 1 && !overflowed
                    }
                } else {
                    final(self).tima == old(self).tima && !overflowed
                }
            }),
    {
        self.div = self.div.wrapping_add(1);
        let enabled = (self.tac & 0b100) > 0;
        let mask: u16 = if self.tac & 0b11 == 0b00 {
            1u16 << 9
        } else if self.tac & 0b11 == 0b01 {
            1u16 << 3
        } else if self.tac & 0b11 == 0b10 {
            1u16 << 5
        } else {
            1u16 << 7
        };

        let kept_bit = (self.div & mask) > 0;
        let and_result = kept_bit && enabled;

        let mut overflowed = false;
        if self.previous_and_result && !and_result {
            let result = self.tima.wrapping_add(1);
            if result == 0 {
                self.tima = self.tma;
                overflowed = true;
            } else {
                self.tima = result;
            }
        }
        self.previous_and_result = and_result;
        overflowed
    }

    /// Writes route by address: any write to DIV resets the whole divider.
    pub fn write_byte(&mut self, addr: u16, value: u8)
        requires
            addr == DIV_ADDR || addr == TIMA_ADDR || addr == TMA_ADDR || addr == TAC_ADDR,
        ensures
            final(self).div == if addr == DIV_ADDR {
                0
            } else {
                old(self).div
            },
            final(self).tima == if addr == TIMA_ADDR {
                value
            } else {
                old(self).tima
            },
            final(self).tma == if addr == TMA_ADDR {
                value
            } else {
                old(self).tma
            },
            final(self).tac == if addr == TAC_ADDR {
                value
            } else {
                old(self).tac
            },
            final(self).previous_and_result == old(self).previous_and_result,
    {
        if addr == DIV_ADDR {
            self.div = 0;
        } else if addr == TIMA_ADDR {
            self.tima = value;
        } else if addr == TMA_ADDR {
            self.tma = value;
        } else {
            self.tac = value;
        }
    }

    /// The value a read of a timer register observes; DIV exposes only the
    /// high byte of the divider.
    pub open spec fn spec_read(self, addr: u16) -> u8 {
        if addr == DIV_ADDR {
            (self.div >> 8) as u8
        } else if addr == TIMA_ADDR {
            self.tima
        } else if addr == TMA_ADDR {
            self.tma
        } else {
            self.tac
        }
    }

    pub fn read_byte(&self, addr: u16) -> (r: u8)
        requires
            addr == DIV_ADDR || addr == TIMA_ADDR || addr == TMA_ADDR || addr == TAC_ADDR,
        returns
            self.spec_read(addr),
    {
        if addr == DIV_ADDR {
            proof {
                let d = self.div;
                assert(d >> 8 <= 0xFF) by (bit_vector);
            }
            (self.div >> 8) as u8
        } else if addr == TIMA_ADDR {
            self.tima
        } else if addr == TMA_ADDR {
            self.tma
        } else {
            self.tac
        }
    }
}

impl Default for Timers {
    fn default() -> (r: Timers)
        ensures
            r.div == 0 && r.tima == 0 && r.tma == 0 && r.tac == 0,
            !r.previous_and_result,
    {
        Timers { div: 0, tima: 0, tma: 0, tac: 0, previous_and_result: false }
    }
}

} // verus!
