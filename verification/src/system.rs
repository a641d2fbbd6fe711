//! The console as a host drives it: inputs come in, frames go out. The
//! host does the waiting, the sending and the drawing; what is decided on
//! an input and on a tick is decided here.

use crate::cpu::info::LONGEST_INSTRUCTION;
use crate::cpu::model::CpuModel;
use crate::gb::Gb;
use crate::joypad::Button;
use crate::ppu::model::ONE_FRAME_CYCLES;
use vstd::prelude::*;

verus! {

/// What the host can ask of the console.
#[derive(Clone, Copy, Debug, PartialEq, Eq, Structural)]
pub enum SystemInput {
    Exit,
    Reset,
    TogglePause,
    JoypadOn(Button),
    JoypadOff(Button),
}

/// What the console tells the host.
#[derive(Clone, Copy, Debug, PartialEq, Eq, Structural)]
pub enum SystemEvent {
    ExitNow,
    /// A frame is complete.
    Frame,
    Serial,
}

/// A console with its run state: paused or not, and the T-cycles that the
/// last frame left over.
pub struct System {
    pub gb: Gb,
    pub paused: bool,
    pub cycles: u32,
}

/// A console with its run state, as plain values.
pub struct SystemModel {
    pub gb: CpuModel,
    pub paused: bool,
    pub cycles: u32,
}

impl View for System {
    type V = SystemModel;

    open spec fn view(&self) -> SystemModel {
        SystemModel { gb: self.gb@, paused: self.paused, cycles: self.cycles }
    }
}

impl SystemModel {
    /// The state after an input. Exit changes nothing: the host stops asking.
    pub open spec fn after_input(self, input: SystemInput) -> SystemModel {
        match input {
            SystemInput::Exit => self,
            SystemInput::Reset => SystemModel { gb: self.gb.reset(), ..self },
            SystemInput::TogglePause => SystemModel { paused: !self.paused, ..self },
            SystemInput::JoypadOn(button) => SystemModel {
                gb: self.gb.with_button(button, true),
                ..self
            },
            SystemInput::JoypadOff(button) => SystemModel {
                gb: self.gb.with_button(button, false),
                ..self
            },
        }
    }

    /// The state after a tick: a console that is not paused runs one frame.
    pub open spec fn after_tick(self) -> SystemModel {
        if self.paused {
            self
        } else {
            SystemModel {
                gb: self.gb.run_frame(self.cycles).cpu,
                cycles: self.gb.run_frame(self.cycles).carry,
                ..self
            }
        }
    }
}

/// The four bytes, red, green, blue and alpha, in which a colour of the
/// frame is shown.
pub open spec fn shade_of(color: u8) -> Seq<u8>
    recommends
        color <= 3,
{
    if color == 0 {
        seq![255u8, 239u8, 206u8, 0xFFu8]
    } else if color == 1 {
        seq![222u8, 148u8, 74u8, 0xFFu8]
    } else if color == 2 {
        seq![173u8, 41u8, 33u8, 0xFFu8]
    } else {
        seq![49u8, 24u8, 82u8, 0xFFu8]
    }
}

/// The four bytes in which a colour of the frame is shown.
pub fn shade(color: u8) -> (rgba: [u8; 4])
    requires
        color <= 3,
    ensures
        rgba@ == shade_of(color),
{
    let rgba: [u8; 4] = if color == 0 {
        [255, 239, 206, 0xFF]
    } else if color == 1 {
        [222, 148, 74, 0xFF]
    } else if color == 2 {
        [173, 41, 33, 0xFF]
    } else {
        [49, 24, 82, 0xFF]
    };
    assert(rgba@ =~= shade_of(color));
    rgba
}

impl System {
    /// The console is in order.
    pub open spec fn wf(&self) -> bool {
        self.gb.wf()
    }

    /// The console, paused, with nothing left over.
    pub fn new(gb: Gb) -> (s: System)
        requires
            gb.wf(),
        ensures
            s.wf(),
            s@ == (SystemModel { gb: gb@, paused: true, cycles: 0 }),
    {
        System { gb, paused: true, cycles: 0 }
    }

    /// Takes an input. The result is `ExitNow` for the input `Exit`, after
    /// which the host stops, and nothing else.
    pub fn input(&mut self, input: SystemInput) -> (event: Option<SystemEvent>)
        requires
            old(self).wf(),
        ensures
            final(self).wf(),
            final(self)@ == old(self)@.after_input(input),
            event == (if input == SystemInput::Exit {
                Some(SystemEvent::ExitNow)
            } else {
                None
            }),
    {
        match input {
            SystemInput::Exit => Some(SystemEvent::ExitNow),
            SystemInput::Reset => {
                self.gb.reset();
                None
            },
            SystemInput::TogglePause => {
                self.paused = !self.paused;
                None
            },
            SystemInput::JoypadOn(button) => {
                self.gb.button_press(button);
                None
            },
            SystemInput::JoypadOff(button) => {
                self.gb.button_release(button);
                None
            },
        }
    }

    /// One tick of the host: a console that is not paused runs one frame, and
    /// the result is `Frame`; a paused one stays as it is.
    pub fn tick(&mut self) -> (event: Option<SystemEvent>)
        requires
            old(self).wf(),
        ensures
            final(self).wf(),
            final(self)@ == old(self)@.after_tick(),
            event == (if old(self)@.paused {
                None
            } else {
                Some(SystemEvent::Frame)
            }),
            old(self)@.cycles < ONE_FRAME_CYCLES + LONGEST_INSTRUCTION ==> final(self)@.cycles
                < LONGEST_INSTRUCTION || old(self)@.paused,
    {
        if self.paused {
            None
        } else {
            self.cycles = self.gb.step_frame(self.cycles);
            Some(SystemEvent::Frame)
        }
    }
}

} // verus!
