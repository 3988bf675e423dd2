//! The background pixel FIFO: a first-in-first-out queue of pending pixels.

use crate::ppu::pixel::Pixel;
use std::collections::VecDeque;
use vstd::prelude::*;

verus! {

#[derive(Debug, Clone)]
pub struct PixelFifo {
    pub bg: VecDeque<Pixel>,
    pub y: u8,
    pub state: u8,
}

impl View for PixelFifo {
    type V = Seq<Pixel>;

    open spec fn view(&self) -> Seq<Pixel> {
        self.bg@
    }
}

impl PixelFifo {
    pub fn new() -> (r: PixelFifo)
        ensures
            r@ == Seq::<Pixel>::empty(),
            r.y == 0 && r.state == 0,
    {
        PixelFifo { bg: VecDeque::with_capacity(8), y: 0, state: 0 }
    }

    /// Enqueue a pixel at the back.
    pub fn push(&mut self, pixel: Pixel)
        ensures
            final(self)@ == old(self)@.push(pixel),
            final(self).y == old(self).y && final(self).state == old(self).state,
    {
        self.bg.push_back(pixel);
    }

    /// Dequeue the oldest pixel, if any.
    pub fn pop(&mut self) -> (r: Option<Pixel>)
        ensures
            old(self)@.len() == 0 ==> r is None && final(self)@ == old(self)@,
            old(self)@.len() > 0 ==> r == Some(old(self)@[0]) && final(self)@ == old(
                self,
            )@.subrange(1, old(self)@.len() as int),
            final(self).y == old(self).y && final(self).state == old(self).state,
    {
        self.bg.pop_front()
    }

    pub fn is_empty(&self) -> (r: bool)
        returns
            self@.len() == 0,
    {
        self.bg.len() == 0
    }

    pub fn len(&self) -> (r: usize)
        returns
            self@.len() as usize,
    {
        self.bg.len()
    }

    pub fn clear(&mut self)
        ensures
            final(self)@ == Seq::<Pixel>::empty(),
            final(self).y == old(self).y && final(self).state == old(self).state,
    {
        self.bg.clear();
    }
}

impl Default for PixelFifo {
    fn default() -> (r: PixelFifo)
        ensures
            r@ == Seq::<Pixel>::empty(),
            r.y == 0 && r.state == 0,
    {
        PixelFifo::new()
    }
}

} // verus!
