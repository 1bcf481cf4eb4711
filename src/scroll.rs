use vstd::prelude::*;

verus! {

/// The scroll register at $2005: two writes, X first and Y second.
#[derive(Debug, Clone, Copy, PartialEq, Eq, Structural)]
pub struct ScrollRegister {
    pub scroll_x: u8,
    pub scroll_y: u8,
    /// Set when the next write is the first of a pair.
    pub first_write: bool,
}

impl ScrollRegister {
    /// Both offsets zero, waiting for the first write.
    pub fn new() -> (r: ScrollRegister)
        ensures
            r == (ScrollRegister { scroll_x: 0, scroll_y: 0, first_write: true }),
    {
        ScrollRegister { scroll_x: 0, scroll_y: 0, first_write: true }
    }

    /// The register after a write of `data`.
    pub open spec fn spec_write(self, data: u8) -> ScrollRegister {
        if self.first_write {
            ScrollRegister { scroll_x: data, first_write: false, ..self }
        } else {
            ScrollRegister { scroll_y: data, first_write: true, ..self }
        }
    }

    /// Stores `data` as X on the first write of a pair and as Y on the second.
    pub fn write(&mut self, data: u8)
        ensures
            *final(self) == old(self).spec_write(data),
    {
        if self.first_write {
            self.scroll_x = data;
        } else {
            self.scroll_y = data;
        }
        self.first_write = !self.first_write;
    }

    /// Makes the next write the first of a pair.
    pub fn reset_latch(&mut self)
        ensures
            *final(self) == (ScrollRegister { first_write: true, ..*old(self) }),
    {
        self.first_write = true;
    }
}

} // verus!
