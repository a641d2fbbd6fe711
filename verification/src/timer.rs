//! The programmable timer: the free-running divider DIV and the counter TIMA,
//! both driven by the T-cycles that the CPU hands over.

use vstd::prelude::*;

verus! {

/// The divider.
pub const DIV: u16 = 0xFF04;

/// The counter.
pub const TIMA: u16 = 0xFF05;

/// The value that the counter reloads from.
pub const TMA: u16 = 0xFF06;

/// The control register: enable and rate of the counter.
pub const TAC: u16 = 0xFF07;

/// `div_count` counts T-cycles towards the next DIV increment (one every 256),
/// `tima_count` towards the next TIMA increment (one every `tima_step`).
#[derive(Clone, Copy, Debug, PartialEq, Eq, Structural)]
pub struct Timer {
    pub m_div: u8,
    pub m_tima: u8,
    pub m_tma: u8,
    pub m_tac: u8,
    pub div_count: u32,
    pub tima_count: u32,
    pub enable_tima: bool,
    pub tima_step: u32,
}

/// The TIMA period in T-cycles that the low two bits of a TAC value select.
pub open spec fn period_of(tac: u8) -> u32 {
    if tac & 0b011 == 0 {
        1024
    } else if tac & 0b011 == 1 {
        16
    } else if tac & 0b011 == 2 {
        64
    } else {
        256
    }
}

/// One TIMA increment: past 0xFF the counter reloads from TMA and asks for the interrupt.
pub open spec fn tick(tima: u8, tma: u8) -> (u8, bool) {
    if tima == 0xFF {
        (tma, true)
    } else {
        ((tima + 1) as u8, false)
    }
}

/// `n` TIMA increments in a row: the counter afterwards, and whether any of them overflowed.
pub open spec fn ticks(tima: u8, tma: u8, n: nat) -> (u8, bool)
    decreases n,
{
    if n == 0 {
        (tima, false)
    } else {
        let first = tick(tima, tma);
        let rest = ticks(first.0, tma, (n - 1) as nat);
        (rest.0, first.1 || rest.1)
    }
}

impl Timer {
    /// The period is one of the four that TAC can select.
    pub open spec fn wf(self) -> bool {
        self.tima_step == 1024 || self.tima_step == 16 || self.tima_step == 64 || self.tima_step
            == 256
    }

    /// The state at power-on.
    pub open spec fn power_on() -> Timer {
        Timer {
            m_div: 0x18,
            m_tima: 0x00,
            m_tma: 0x00,
            m_tac: 0xF8,
            div_count: 0,
            tima_count: 0,
            enable_tima: false,
            tima_step: 1024,
        }
    }

    /// The timer after `cycles` T-cycles of the divider alone.
    pub open spec fn after_div(self, cycles: u32) -> Timer {
        Timer {
            m_div: ((self.m_div + (self.div_count + cycles) / 256) % 256) as u8,
            div_count: ((self.div_count + cycles) % 256) as u32,
            ..self
        }
    }

    /// The number of TIMA increments that fall into the next `cycles` T-cycles.
    pub open spec fn due_ticks(self, cycles: u32) -> nat {
        ((self.tima_count + cycles) / (self.tima_step as int)) as nat
    }

    /// The timer after `cycles` T-cycles of TIMA alone; a stopped TIMA stays as it is.
    pub open spec fn after_tima(self, cycles: u32) -> Timer {
        if self.enable_tima {
            Timer {
                m_tima: ticks(self.m_tima, self.m_tma, self.due_ticks(cycles)).0,
                tima_count: ((self.tima_count + cycles) % (self.tima_step as int)) as u32,
                ..self
            }
        } else {
            self
        }
    }

    /// Whether TIMA overflows within the next `cycles` T-cycles.
    pub open spec fn overflows(self, cycles: u32) -> bool {
        self.enable_tima && ticks(self.m_tima, self.m_tma, self.due_ticks(cycles)).1
    }

    /// The timer after `cycles` T-cycles.
    pub open spec fn after_step(self, cycles: u32) -> Timer {
        self.after_div(cycles).after_tima(cycles)
    }

    /// The value that a read of one of the four registers gives.
    pub open spec fn read(self, address: u16) -> u8
        recommends
            DIV <= address <= TAC,
    {
        if address == DIV {
            self.m_div
        } else if address == TIMA {
            self.m_tima
        } else if address == TMA {
            self.m_tma
        } else {
            self.m_tac
        }
    }

    /// The timer after a write to one of the four registers. Any write to DIV
    /// clears the divider and both cycle counts; a write to TAC sets enable and
    /// period, and of the value written bits 3 to 7 are kept to be read.
    pub open spec fn after_write(self, address: u16, value: u8) -> Timer
        recommends
            DIV <= address <= TAC,
    {
        if address == DIV {
            Timer { m_div: 0, div_count: 0, tima_count: 0, ..self }
        } else if address == TIMA {
            Timer { m_tima: value, ..self }
        } else if address == TMA {
            Timer { m_tma: value, ..self }
        } else {
            Timer {
                m_tac: 0xF8 & value,
                enable_tima: value & 0b100 != 0,
                tima_step: period_of(value),
                ..self
            }
        }
    }

    /// The timer at power-on.
    pub fn new() -> (t: Timer)
        ensures
            t == Timer::power_on(),
            t.wf(),
    {
        Timer {
            m_div: 0x18,
            m_tima: 0x00,
            m_tma: 0x00,
            m_tac: 0xF8,
            div_count: 0,
            tima_count: 0,
            enable_tima: false,
            tima_step: 1024,
        }
    }

    /// Back to the power-on state.
    pub fn reset(&mut self)
        ensures
            *final(self) == Timer::power_on(),
            final(self).wf(),
    {
        *self = Timer::new();
    }

    /// Advances both counters by `cycles` T-cycles; true when TIMA overflowed
    /// and the timer interrupt is to be raised.
    pub fn step(&mut self, cycles: u32) -> (interrupt: bool)
        requires
            old(self).wf(),
        ensures
            final(self).wf(),
            *final(self) == old(self).after_step(cycles),
            interrupt == old(self).overflows(cycles),
    {
        self.step_div(cycles);
        self.step_timer(cycles)
    }

    /// Advances the divider by `cycles` T-cycles.
    pub fn step_div(&mut self, cycles: u32)
        ensures
            *final(self) == old(self).after_div(cycles),
    {
        let total: u64 = self.div_count as u64 + cycles as u64;
        self.div_count = (total % 256) as u32;
        self.m_div = ((self.m_div as u64 + total / 256) % 256) as u8;
    }

    /// Advances the counter by `cycles` T-cycles; true when it overflowed.
    pub fn step_timer(&mut self, cycles: u32) -> (interrupt: bool)
        requires
            old(self).wf(),
        ensures
            final(self).wf(),
            *final(self) == old(self).after_tima(cycles),
            interrupt == old(self).overflows(cycles),
    {
        if !self.enable_tima {
            return false;
        }
        let total: u64 = self.tima_count as u64 + cycles as u64;
        let due: u64 = total / (self.tima_step as u64);
        self.tima_count = (total % (self.tima_step as u64)) as u32;
        let mut left: u64 = due;
        let mut overflowed: bool = false;
        let ghost start: u8 = self.m_tima;
        while left > 0
            invariant
                self.m_tma == old(self).m_tma,
                self.m_tac == old(self).m_tac,
                self.m_div == old(self).m_div,
                self.div_count == old(self).div_count,
                self.enable_tima == old(self).enable_tima,
                self.tima_step == old(self).tima_step,
                self.tima_count == (total % (self.tima_step as u64)) as u32,
                left <= due,
                ticks(start, self.m_tma, due as nat).0 == ticks(
                    self.m_tima,
                    self.m_tma,
                    left as nat,
                ).0,
                ticks(start, self.m_tma, due as nat).1 == (overflowed || ticks(
                    self.m_tima,
                    self.m_tma,
                    left as nat,
                ).1),
            decreases left,
        {
            if self.m_tima == 0xFF {
                self.m_tima = self.m_tma;
                overflowed = true;
            } else {
                self.m_tima = self.m_tima + 1;
            }
            left = left - 1;
        }
        overflowed
    }

    /// Reads the byte at `address`.
    pub fn b(&self, address: u16) -> (value: u8)
        requires
            DIV <= address <= TAC,
        ensures
            value == self.read(address),
    {
        if address == DIV {
            self.m_div
        } else if address == TIMA {
            self.m_tima
        } else if address == TMA {
            self.m_tma
        } else {
            self.m_tac
        }
    }

    /// Writes `value` at `address`.
    pub fn wb(&mut self, address: u16, value: u8)
        requires
            DIV <= address <= TAC,
            old(self).wf(),
        ensures
            final(self).wf(),
            *final(self) == old(self).after_write(address, value),
    {
        if address == DIV {
            self.m_div = 0x00;
            self.div_count = 0;
            self.tima_count = 0;
        } else if address == TIMA {
            self.m_tima = value;
        } else if address == TMA {
            self.m_tma = value;
        } else {
            let select: u8 = value & 0b011;
            self.m_tac = 0xF8 & value;
            self.enable_tima = value & 0b100 != 0;
            self.tima_step = if select == 0 {
                1024
            } else if select == 1 {
                16
            } else if select == 2 {
                64
            } else {
                256
            };
        }
    }
}

} // verus!
