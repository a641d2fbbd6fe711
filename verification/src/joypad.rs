//! The joypad: eight buttons in two groups of four, read through the P1
//! register. A pressed button reads 0.

use vstd::prelude::*;

verus! {

/// The joypad register.
pub const P1: u16 = 0xFF00;

/// Which group of buttons the low nibble of P1 shows, from bits 4 and 5 of
/// the last value written to it.
#[derive(Clone, Copy, Debug, PartialEq, Eq, Structural)]
pub enum ReadType {
    Neither,
    Actions,
    Directions,
    Both,
}

/// The eight buttons.
#[derive(Clone, Copy, Debug, PartialEq, Eq, Structural)]
pub enum Button {
    Right,
    Left,
    Up,
    Down,
    A,
    B,
    Select,
    Start,
}

/// The state of the buttons and of the P1 register.
#[derive(Clone, Copy, Debug, PartialEq, Eq, Structural)]
pub struct Joypad {
    pub m_p1: u8,
    pub directions: u8,
    pub actions: u8,
    pub read_type: ReadType,
    pub interrupt_request: bool,
}

/// The bit that a button has within its group.
pub open spec fn button_bit(button: Button) -> u8 {
    match button {
        Button::Right | Button::A => 0b0001,
        Button::Left | Button::B => 0b0010,
        Button::Up | Button::Select => 0b0100,
        Button::Down | Button::Start => 0b1000,
    }
}

/// Whether a button is one of the four directions.
pub open spec fn is_direction(button: Button) -> bool {
    match button {
        Button::Right | Button::Left | Button::Up | Button::Down => true,
        _ => false,
    }
}

/// The group that bits 4 and 5 of a value written to P1 select.
pub open spec fn read_type_of(value: u8) -> ReadType {
    let select: u8 = (value & 0b0011_0000) >> 4;
    if select == 0 {
        ReadType::Neither
    } else if select == 1 {
        ReadType::Actions
    } else if select == 2 {
        ReadType::Directions
    } else {
        ReadType::Both
    }
}

impl Joypad {
    /// The state at power-on.
    pub open spec fn power_on() -> Joypad {
        Joypad {
            m_p1: 0b1111_1111,
            directions: 0b1110_1111,
            actions: 0b1101_1111,
            read_type: ReadType::Neither,
            interrupt_request: false,
        }
    }

    /// What P1 shows for the selected group.
    pub open spec fn selected(self) -> u8 {
        match self.read_type {
            ReadType::Neither => 0b00_1111,
            ReadType::Actions => self.actions,
            ReadType::Directions => self.directions,
            ReadType::Both => self.actions | self.directions,
        }
    }

    /// The joypad after P1 is brought up to date: an interrupt is requested
    /// when the low nibble changes, and a request once made stays.
    pub open spec fn refreshed(self) -> Joypad {
        Joypad {
            m_p1: self.selected(),
            interrupt_request: self.interrupt_request || (self.m_p1 & 0x0F) != (self.selected()
                & 0x0F),
            ..self
        }
    }

    /// The joypad with the button's bit set (released) or cleared (pressed) in its group.
    pub open spec fn with_button(self, button: Button, pressed: bool) -> Joypad {
        if is_direction(button) {
            Joypad {
                directions: if pressed {
                    self.directions & !button_bit(button)
                } else {
                    self.directions | button_bit(button)
                },
                ..self
            }
        } else {
            Joypad {
                actions: if pressed {
                    self.actions & !button_bit(button)
                } else {
                    self.actions | button_bit(button)
                },
                ..self
            }
        }
    }

    /// A joypad with no button pressed, before its first reset.
    pub fn new() -> (j: Joypad)
        ensures
            j == (Joypad {
                m_p1: 0b1100_1111,
                directions: 0b0010_1111,
                actions: 0b0001_1111,
                read_type: ReadType::Neither,
                interrupt_request: false,
            }),
    {
        Joypad {
            m_p1: 0b1100_1111,
            directions: 0b0010_1111,
            actions: 0b0001_1111,
            read_type: ReadType::Neither,
            interrupt_request: false,
        }
    }

    /// Back to the power-on state.
    pub fn reset(&mut self)
        ensures
            *final(self) == Joypad::power_on(),
    {
        self.m_p1 = 0b1111_1111;
        self.directions = 0b1110_1111;
        self.actions = 0b1101_1111;
        self.read_type = ReadType::Neither;
        self.interrupt_request = false;
    }

    /// Hands over a pending interrupt request, once.
    pub fn step(&mut self) -> (interrupt: bool)
        ensures
            interrupt == old(self).interrupt_request,
            *final(self) == (Joypad { interrupt_request: false, ..*old(self) }),
    {
        if self.interrupt_request {
            self.interrupt_request = false;
            true
        } else {
            false
        }
    }

    /// Brings P1 up to date with the buttons and the selected group.
    pub fn set_p1(&mut self)
        ensures
            *final(self) == old(self).refreshed(),
    {
        let new_value: u8 = match self.read_type {
            ReadType::Neither => 0b00_1111,
            ReadType::Actions => self.actions,
            ReadType::Directions => self.directions,
            ReadType::Both => self.actions | self.directions,
        };
        if (self.m_p1 & 0x0F) != (new_value & 0x0F) {
            self.interrupt_request = true;
        }
        self.m_p1 = new_value;
    }

    /// Releases a button.
    pub fn release(&mut self, button: Button)
        ensures
            *final(self) == old(self).with_button(button, false).refreshed(),
    {
        match button {
            Button::Right => self.directions = self.directions | 0b0001,
            Button::Left => self.directions = self.directions | 0b0010,
            Button::Up => self.directions = self.directions | 0b0100,
            Button::Down => self.directions = self.directions | 0b1000,
            Button::A => self.actions = self.actions | 0b0001,
            Button::B => self.actions = self.actions | 0b0010,
            Button::Select => self.actions = self.actions | 0b0100,
            Button::Start => self.actions = self.actions | 0b1000,
        }
        self.set_p1();
    }

    /// Presses a button.
    pub fn press(&mut self, button: Button)
        ensures
            *final(self) == old(self).with_button(button, true).refreshed(),
    {
        match button {
            Button::Right => self.directions = self.directions & !0b0001u8,
            Button::Left => self.directions = self.directions & !0b0010u8,
            Button::Up => self.directions = self.directions & !0b0100u8,
            Button::Down => self.directions = self.directions & !0b1000u8,
            Button::A => self.actions = self.actions & !0b0001u8,
            Button::B => self.actions = self.actions & !0b0010u8,
            Button::Select => self.actions = self.actions & !0b0100u8,
            Button::Start => self.actions = self.actions & !0b1000u8,
        }
        self.set_p1();
    }

    /// Reads the byte at `address`.
    pub fn b(&self, address: u16) -> (value: u8)
        requires
            address == P1,
        ensures
            value == self.m_p1,
    {
        self.m_p1
    }

    /// A write to P1 selects the group to show and brings P1 up to date.
    pub fn wb(&mut self, address: u16, value: u8)
        requires
            address == P1,
        ensures
            *final(self) == (Joypad { read_type: read_type_of(value), ..*old(self) }).refreshed(),
    {
        let select: u8 = (value & 0b0011_0000) >> 4;
        self.read_type = if select == 0 {
            ReadType::Neither
        } else if select == 1 {
            ReadType::Actions
        } else if select == 2 {
            ReadType::Directions
        } else {
            ReadType::Both
        };
        self.set_p1();
    }
}

} // verus!
