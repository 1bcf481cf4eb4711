use vstd::prelude::*;

use crate::addressable::{pack_u16, word, AddressableMut, ReadableMut, Writable};

verus! {

/// A standard controller: eight buttons behind a shift register.
#[derive(Debug, Clone, Copy, PartialEq, Eq, Structural)]
pub struct Joypad {
    pub button_a: bool,
    pub button_b: bool,
    pub select: bool,
    pub start: bool,
    pub up: bool,
    pub down: bool,
    pub left: bool,
    pub right: bool,
    /// While set, the shift register keeps reloading and every read reports button A.
    pub strobe: bool,
    /// The button that the next read reports; past the eighth, reads return 1.
    pub button_index: u8,
}

impl Joypad {
    /// No button pressed.
    pub fn new() -> (r: Joypad)
        ensures
            r == (Joypad {
                button_a: false,
                button_b: false,
                select: false,
                start: false,
                up: false,
                down: false,
                left: false,
                right: false,
                strobe: false,
                button_index: 0,
            }),
    {
        Joypad {
            button_a: false,
            button_b: false,
            select: false,
            start: false,
            up: false,
            down: false,
            left: false,
            right: false,
            strobe: false,
            button_index: 0,
        }
    }

    /// Whether button `i` is pressed, in the order A, B, Select, Start, Up, Down, Left, Right.
    pub open spec fn spec_button(self, i: u8) -> bool {
        if i == 0 {
            self.button_a
        } else if i == 1 {
            self.button_b
        } else if i == 2 {
            self.select
        } else if i == 3 {
            self.start
        } else if i == 4 {
            self.up
        } else if i == 5 {
            self.down
        } else if i == 6 {
            self.left
        } else {
            self.right
        }
    }

    /// What a read returns and the controller after it.
    pub open spec fn spec_read(self) -> (u8, Joypad) {
        if self.button_index > 7 {
            (1, self)
        } else {
            (
                if self.spec_button(self.button_index) {
                    1
                } else {
                    0
                },
                if self.strobe {
                    self
                } else {
                    Joypad { button_index: (self.button_index + 1) as u8, ..self }
                },
            )
        }
    }

    /// The controller after a write: bit 0 sets the strobe, which rewinds the register.
    pub open spec fn spec_write(self, data: u8) -> Joypad {
        if data & 1 == 1 {
            Joypad { strobe: true, button_index: 0, ..self }
        } else {
            Joypad { strobe: false, ..self }
        }
    }

    fn button(&self, i: u8) -> (r: bool)
        ensures
            r == self.spec_button(i),
    {
        match i {
            0 => self.button_a,
            1 => self.button_b,
            2 => self.select,
            3 => self.start,
            4 => self.up,
            5 => self.down,
            6 => self.left,
            _ => self.right,
        }
    }
}

impl ReadableMut for Joypad {
    fn read(&mut self, addr: u16) -> (r: u8)
        ensures
            (r, *final(self)) == old(self).spec_read(),
    {
        if self.button_index > 7 {
            return 1;
        }
        let r: u8 = if self.button(self.button_index) {
            1
        } else {
            0
        };
        if !self.strobe {
            self.button_index = self.button_index + 1;
        }
        r
    }

    /// Two reads: the first bit is the low byte, the second the high byte.
    fn read_u16(&mut self, addr: u16) -> (r: u16)
        ensures
            ({
                let (low, j1) = old(self).spec_read();
                let (high, j2) = j1.spec_read();
                r == word(low, high) && *final(self) == j2
            }),
    {
        let low = self.read(addr);
        let high = self.read(addr);
        pack_u16(high, low)
    }
}

impl Writable for Joypad {
    fn write(&mut self, addr: u16, data: u8)
        ensures
            *final(self) == old(self).spec_write(data),
    {
        self.strobe = data & 1 == 1;
        if self.strobe {
            self.button_index = 0;
        }
    }

    /// Two writes: the low byte, then the high byte; the last one sets the strobe.
    fn write_u16(&mut self, addr: u16, data: u16)
        ensures
            *final(self) == old(self).spec_write((data % 256) as u8).spec_write((data / 256) as u8),
    {
        self.write(addr, (data % 256) as u8);
        self.write(addr, (data / 256) as u8);
    }
}

impl AddressableMut for Joypad {

}

} // verus!
