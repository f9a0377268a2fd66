use vstd::prelude::*;

verus! {

/// The eight buttons of a controller, in the order the shift register reports them.
#[derive(Debug, Clone, Copy, PartialEq, Eq, Structural)]
pub enum Button {
    A,
    B,
    Select,
    Start,
    Up,
    Down,
    Left,
    Right,
}

impl Button {
    /// The button's bit in the latched state: A in bit 0 up to Right in bit 7.
    pub open spec fn spec_mask(self) -> u8 {
        match self {
            Button::A => 0b0000_0001,
            Button::B => 0b0000_0010,
            Button::Select => 0b0000_0100,
            Button::Start => 0b0000_1000,
            Button::Up => 0b0001_0000,
            Button::Down => 0b0010_0000,
            Button::Left => 0b0100_0000,
            Button::Right => 0b1000_0000,
        }
    }

    pub fn mask(self) -> (r: u8)
        ensures
            r == self.spec_mask(),
    {
        match self {
            Button::A => 0b0000_0001,
            Button::B => 0b0000_0010,
            Button::Select => 0b0000_0100,
            Button::Start => 0b0000_1000,
            Button::Up => 0b0001_0000,
            Button::Down => 0b0010_0000,
            Button::Left => 0b0100_0000,
            Button::Right => 0b1000_0000,
        }
    }
}

/// The bit that a read at `index` reports: a button's state while buttons are
/// left to report, 1 after all eight have been read.
pub open spec fn reported_bit(buttons: u8, index: u8) -> u8 {
    if index < 8 {
        (buttons >> index) & 1
    } else {
        1
    }
}

/// A controller's shift-register protocol.
pub struct Controller {
    pub buttons: u8,
    pub strobe: bool,
    pub index: u8,
}

impl Controller {
    /// The state after a write of `value` to the register.
    pub open spec fn after_write(self, value: u8) -> Controller {
        Controller {
            strobe: value % 2 == 1,
            index: if value % 2 == 1 {
                0
            } else {
                self.index
            },
            ..self
        }
    }

    /// The byte that a read of the register returns.
    pub open spec fn read_value(self) -> u8 {
        (0x40 + reported_bit(self.buttons, self.index)) as u8
    }

    /// The state after a read of the register.
    pub open spec fn after_read(self) -> Controller {
        Controller {
            index: if self.strobe || self.index == 255 {
                self.index
            } else {
                (self.index + 1) as u8
            },
            ..self
        }
    }

    pub open spec fn new_spec() -> Controller {
        Controller { buttons: 0, strobe: false, index: 0 }
    }

    pub fn new() -> (r: Controller)
        ensures
            r == Controller::new_spec(),
    {
        Controller { buttons: 0, strobe: false, index: 0 }
    }

    /// Bit 0 is the strobe; while it is high the read index stays at 0.
    pub fn write_register(&mut self, value: u8)
        ensures
            final(self).strobe == (value % 2 == 1),
            final(self).index == if value % 2 == 1 {
                0
            } else {
                old(self).index
            },
            final(self).buttons == old(self).buttons,
            *final(self) == old(self).after_write(value),
    {
        assert((value & 0x01 != 0) == (value % 2 == 1)) by (bit_vector);
        self.strobe = value & 0x01 != 0;
        if self.strobe {
            self.index = 0;
        }
    }

    /// Reports the next button bit, with the open-bus pattern 0x40 above it,
    /// and moves on to the next button unless the strobe is held.
    pub fn read_register(&mut self) -> (r: u8)
        ensures
            r == 0x40 + reported_bit(old(self).buttons, old(self).index),
            final(self).index == if old(self).strobe || old(self).index == 255 {
                old(self).index as int
            } else {
                old(self).index + 1
            },
            final(self).buttons == old(self).buttons,
            final(self).strobe == old(self).strobe,
            r == old(self).read_value(),
            *final(self) == old(self).after_read(),
    {
        let buttons = self.buttons;
        let index = self.index;
        let value: u8 = if index < 8 {
            (buttons >> index) & 1
        } else {
            1
        };
        assert(value <= 1) by (bit_vector)
            requires
                value == (buttons >> index) & 1 || value == 1,
        ;
        if !self.strobe && self.index < 255 {
            self.index = self.index + 1;
        }
        assert(0x40u8 | value == 0x40u8 + value) by (bit_vector)
            requires
                value <= 1,
        ;
        0x40 | value
    }

    pub fn set_button(&mut self, button: Button, pressed: bool)
        ensures
            final(self).buttons == if pressed {
                old(self).buttons | button.spec_mask()
            } else {
                old(self).buttons & !button.spec_mask()
            },
            final(self).strobe == old(self).strobe,
            final(self).index == old(self).index,
    {
        let mask = button.mask();
        let old_buttons = self.buttons;
        self.buttons = self.buttons & !mask;
        if pressed {
            self.buttons = self.buttons | mask;
            assert(((old_buttons & !mask) | mask) == (old_buttons | mask)) by (bit_vector);
        }
    }
}

} // verus!
