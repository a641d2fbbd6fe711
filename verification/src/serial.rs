//! The serial link: a data latch and a transfer that completes after a fixed
//! number of T-cycles, with no peer on the line.

use vstd::prelude::*;

verus! {

/// The data register.
pub const SB: u16 = 0xFF01;

/// The control register.
pub const SC: u16 = 0xFF02;

/// T-cycles that one byte takes on the internal clock.
pub const SERIAL_CYCLES: u32 = 4096;

/// Bit 7 of SC: a transfer is requested or under way.
pub const TRANSFER_START: u8 = 0x80;

/// The serial link.
#[derive(Clone, Copy, Debug, PartialEq, Eq, Structural)]
pub struct Serial {
    pub m_data: u8,
    pub m_control: u8,
    pub in_transfer: bool,
    pub internal_timer: u32,
}

/// Whether the transfer-start bit is set in an SC value.
pub open spec fn start_requested(value: u8) -> bool {
    value & TRANSFER_START != 0
}

impl Serial {
    /// The state at power-on.
    pub open spec fn power_on() -> Serial {
        Serial { m_data: 0xFF, m_control: 0b0111_1110, in_transfer: false, internal_timer: 0 }
    }

    /// Whether a running transfer completes within the next `cycles` T-cycles.
    pub open spec fn completes(self, cycles: u32) -> bool {
        self.in_transfer && self.internal_timer + cycles >= SERIAL_CYCLES
    }

    /// The link after `cycles` T-cycles. On completion the data latch reads 0xFF
    /// (nothing is connected) and the start bit is cleared.
    pub open spec fn after_step(self, cycles: u32) -> Serial {
        if self.completes(cycles) {
            Serial {
                m_data: 0xFF,
                m_control: self.m_control & !TRANSFER_START,
                in_transfer: false,
                internal_timer: 0,
            }
        } else if self.in_transfer {
            Serial { internal_timer: (self.internal_timer + cycles) as u32, ..self }
        } else {
            self
        }
    }

    /// The value that a read gives.
    pub open spec fn read(self, address: u16) -> u8
        recommends
            address == SB || address == SC,
    {
        if address == SB {
            self.m_data
        } else {
            self.m_control
        }
    }

    /// The link after a write. A write to SC with the start bit starts a
    /// transfer, or lets a running one go on; without it, it stops one.
    pub open spec fn after_write(self, address: u16, value: u8) -> Serial
        recommends
            address == SB || address == SC,
    {
        if address == SB {
            Serial { m_data: value, ..self }
        } else if start_requested(value) {
            Serial { m_control: value, in_transfer: true, ..self }
        } else {
            Serial { m_control: value, in_transfer: false, internal_timer: 0, ..self }
        }
    }

    /// The serial link at power-on.
    pub fn new() -> (s: Serial)
        ensures
            s == Serial::power_on(),
    {
        Serial { m_data: 0xFF, m_control: 0b0111_1110, in_transfer: false, internal_timer: 0 }
    }

    /// Back to the power-on state.
    pub fn reset(&mut self)
        ensures
            *final(self) == Serial::power_on(),
    {
        *self = Serial::new();
    }

    /// Advances a running transfer; true when it completed and the serial
    /// interrupt is to be raised.
    pub fn step(&mut self, cycles: u32) -> (interrupt: bool)
        ensures
            interrupt == old(self).completes(cycles),
            *final(self) == old(self).after_step(cycles),
    {
        if self.in_transfer {
            let total: u64 = self.internal_timer as u64 + cycles as u64;
            if total >= SERIAL_CYCLES as u64 {
                self.m_data = 0xFF;
                self.set_control_flag(TRANSFER_START, false);
                self.internal_timer = 0;
                self.in_transfer = false;
                return true;
            }
            self.internal_timer = total as u32;
        }
        false
    }

    /// Sets or clears the bits of `flag` in SC.
    pub fn set_control_flag(&mut self, flag: u8, is_1: bool)
        ensures
            *final(self) == (Serial {
                m_control: if is_1 {
                    old(self).m_control | flag
                } else {
                    old(self).m_control & !flag
                },
                ..*old(self)
            }),
    {
        if is_1 {
            self.m_control = self.m_control | flag;
        } else {
            self.m_control = self.m_control & !flag;
        }
    }

    /// Reads the byte at `address`.
    pub fn b(&self, address: u16) -> (value: u8)
        requires
            address == SB || address == SC,
        ensures
            value == self.read(address),
    {
        if address == SB {
            self.m_data
        } else {
            self.m_control
        }
    }

    /// Writes `value` at `address`.
    pub fn wb(&mut self, address: u16, value: u8)
        requires
            address == SB || address == SC,
        ensures
            *final(self) == old(self).after_write(address, value),
    {
        if address == SB {
            self.m_data = value;
        } else {
            if control_flag(value, TRANSFER_START) {
                self.in_transfer = true;
            } else {
                self.in_transfer = false;
                self.internal_timer = 0;
            }
            self.m_control = value;
        }
    }
}

/// Whether any bit of `flag` is set in `value`.
pub fn control_flag(value: u8, flag: u8) -> (on: bool)
    ensures
        on == (value & flag != 0),
{
    value & flag != 0
}

} // verus!
