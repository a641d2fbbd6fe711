//! MBC3: up to 2 MiB of ROM behind a bank register of seven bits, up to four
//! banks of RAM, and the registers of a real-time clock, which here always
//! read zero.

use crate::cart::info::CartridgeInfo;
use crate::cart::info::InfoModel;
use crate::cart::mapper::byte_at;
use crate::cart::mapper::clear_bytes;
use crate::cart::mapper::count_banks;
use crate::cart::mapper::effective_bank;
use crate::cart::mapper::lemma_and_bounds;
use crate::cart::mapper::load_into;
use crate::cart::mapper::load_outcome;
use crate::cart::mapper::ram_after_load;
use crate::cart::mapper::read_byte;
use crate::cart::mapper::save_from;
use crate::cart::mapper::save_size_of;
use crate::cart::mapper::with_byte;
use crate::cart::mapper::write_byte;
use crate::cart::mapper::zeroed;
use crate::cart::mapper::zeros;
use crate::cart::mapper::RamLoadError;
use crate::cart::mapper::RamSaveError;
use crate::cart::mapper::RAM_BANK_SIZE;
use crate::cart::mapper::ROM_BANK_SIZE;
use vstd::prelude::*;

verus! {

/// The selector of the seconds register of the clock.
pub const RTC_S: u8 = 0x08;

/// The selector of the minutes register of the clock.
pub const RTC_M: u8 = 0x09;

/// The selector of the hours register of the clock.
pub const RTC_H: u8 = 0x0A;

/// The selector of the low byte of the day counter.
pub const RTC_DL: u8 = 0x0B;

/// The selector of the high bit of the day counter and the clock flags.
pub const RTC_DH: u8 = 0x0C;

/// What the RAM window shows.
#[derive(Clone, Copy, Debug, PartialEq, Eq, Structural)]
pub enum RamMode {
    /// Nothing: reads give 0xFF.
    Unmapped,
    /// The RAM bank of this number.
    Bank(u8),
    Seconds,
    Minutes,
    Hours,
    DayLow,
    DayHigh,
}

/// The state of an MBC3 as plain values.
pub struct Mbc3Model {
    pub rom: Seq<u8>,
    pub ram: Seq<u8>,
    pub has_ram: bool,
    pub has_battery: bool,
    pub has_timer: bool,
    pub ram_rtc_enable: bool,
    /// The ROM bank register, 1 to 127.
    pub rom_bank: u8,
    pub mode: RamMode,
    /// A zero was written to the latch register and waits for its one.
    pub latch_read_0: bool,
    /// The clock has been latched since the last reset.
    pub rtc_latched: bool,
}

/// The bank that a value written to the ROM bank register selects: its low
/// seven bits, 1 in place of 0.
pub open spec fn mbc3_bank_of(value: u8) -> u8 {
    if value & 0x7F == 0 {
        1
    } else {
        value & 0x7F
    }
}

/// What a value written to 0x4000..0x5FFF selects for the RAM window: a RAM
/// bank for 0 to 3 where there is RAM, a clock register for 8 to 12 where
/// there is a battery, else nothing.
pub open spec fn ram_mode_of(value: u8, has_ram: bool, has_battery: bool) -> RamMode {
    if value <= 0x03 && has_ram {
        RamMode::Bank(value)
    } else if value == RTC_S && has_battery {
        RamMode::Seconds
    } else if value == RTC_M && has_battery {
        RamMode::Minutes
    } else if value == RTC_H && has_battery {
        RamMode::Hours
    } else if value == RTC_DL && has_battery {
        RamMode::DayLow
    } else if value == RTC_DH && has_battery {
        RamMode::DayHigh
    } else {
        RamMode::Unmapped
    }
}

impl Mbc3Model {
    /// An MBC3 over the given image at power-on: RAM of zeros, the RAM
    /// window disabled and showing nothing, bank 1 selected.
    pub open spec fn power_on(rom: Seq<u8>, info: InfoModel) -> Mbc3Model {
        Mbc3Model {
            rom,
            ram: zeros(info.ram_size as nat),
            has_ram: info.ram,
            has_battery: info.battery,
            has_timer: info.time,
            ram_rtc_enable: false,
            rom_bank: 1,
            mode: RamMode::Unmapped,
            latch_read_0: false,
            rtc_latched: false,
        }
    }

    /// The bank registers are within their widths.
    pub open spec fn wf(self) -> bool {
        &&& self.rom_bank < 128
        &&& self.mode matches RamMode::Bank(b) ==> b < 4
    }

    /// The RAM bank that the window shows, where it shows one.
    pub open spec fn chosen_ram_bank(self) -> nat {
        match self.mode {
            RamMode::Bank(b) => b as nat,
            _ => 0,
        }
    }

    /// The value that a read in the ROM window gives.
    pub open spec fn rom_read(self, address: u16) -> u8
        recommends
            address < 0x8000,
    {
        if address < 0x4000 {
            byte_at(self.rom, address as int)
        } else {
            byte_at(
                self.rom,
                effective_bank(self.rom_bank as nat, self.rom.len(), ROM_BANK_SIZE as nat)
                    * ROM_BANK_SIZE + (address - 0x4000),
            )
        }
    }

    /// The state after a write to the latch register: a zero arms the latch,
    /// and the next write disarms it and, where it is a one, latches the clock.
    pub open spec fn latch_write(self, value: u8) -> Mbc3Model {
        if value == 0x00 && !self.latch_read_0 {
            Mbc3Model { latch_read_0: true, ..self }
        } else if self.latch_read_0 {
            Mbc3Model {
                latch_read_0: false,
                rtc_latched: self.rtc_latched || value == 0x01,
                ..self
            }
        } else {
            self
        }
    }

    /// The state after a write in the ROM window, which goes to one of four registers.
    pub open spec fn rom_write(self, address: u16, value: u8) -> Mbc3Model
        recommends
            address < 0x8000,
    {
        if address < 0x2000 {
            if self.has_ram || self.has_timer {
                Mbc3Model { ram_rtc_enable: value & 0x0F == 0x0A, ..self }
            } else {
                self
            }
        } else if address < 0x4000 {
            Mbc3Model { rom_bank: mbc3_bank_of(value), ..self }
        } else if address < 0x6000 {
            Mbc3Model { mode: ram_mode_of(value, self.has_ram, self.has_battery), ..self }
        } else {
            self.latch_write(value)
        }
    }

    /// The index into the RAM that an address of the RAM window stands for.
    pub open spec fn ram_index(self, address: u16) -> int
        recommends
            0xA000 <= address < 0xC000,
    {
        effective_bank(self.chosen_ram_bank(), self.ram.len(), RAM_BANK_SIZE as nat)
            * RAM_BANK_SIZE + (address - 0xA000)
    }

    /// The value that a read in the RAM window gives: the RAM byte, zero for a
    /// clock register, 0xFF where nothing is selected or the window is disabled.
    pub open spec fn ram_read(self, address: u16) -> u8
        recommends
            0xA000 <= address < 0xC000,
    {
        if self.ram_rtc_enable {
            match self.mode {
                RamMode::Unmapped => 0xFF,
                RamMode::Bank(_) => byte_at(self.ram, self.ram_index(address)),
                _ => 0x00,
            }
        } else {
            0xFF
        }
    }

    /// The state after a write in the RAM window: only a RAM bank takes it.
    pub open spec fn ram_write(self, address: u16, value: u8) -> Mbc3Model
        recommends
            0xA000 <= address < 0xC000,
    {
        if self.ram_rtc_enable && self.mode is Bank {
            Mbc3Model { ram: with_byte(self.ram, self.ram_index(address), value), ..self }
        } else {
            self
        }
    }

    /// The state after a reset: registers as at power-on; the RAM is cleared unless a battery keeps it.
    pub open spec fn reset(self) -> Mbc3Model {
        Mbc3Model {
            ram: if self.has_battery {
                self.ram
            } else {
                zeros(self.ram.len())
            },
            ram_rtc_enable: false,
            rom_bank: 1,
            mode: RamMode::Unmapped,
            latch_read_0: false,
            rtc_latched: false,
            ..self
        }
    }

    /// Takes a save as the new RAM contents.
    pub open spec fn load_save(self, bytes: Seq<u8>) -> Mbc3Model {
        Mbc3Model { ram: ram_after_load(self.has_battery, self.ram, bytes), ..self }
    }

    /// Clears the RAM.
    pub open spec fn reset_save(self) -> Mbc3Model {
        Mbc3Model { ram: zeros(self.ram.len()), ..self }
    }
}

/// An MBC3 with its image and RAM.
pub struct Mbc3 {
    rom: Vec<u8>,
    ram: Vec<u8>,
    has_ram: bool,
    has_battery: bool,
    has_timer: bool,
    ram_rtc_enable: bool,
    rom_bank: u8,
    rom_offset: usize,
    ram_offset: usize,
    mode: RamMode,
    latch_read_0: bool,
    rtc_latched: bool,
}

impl View for Mbc3 {
    type V = Mbc3Model;

    closed spec fn view(&self) -> Mbc3Model {
        Mbc3Model {
            rom: self.rom@,
            ram: self.ram@,
            has_ram: self.has_ram,
            has_battery: self.has_battery,
            has_timer: self.has_timer,
            ram_rtc_enable: self.ram_rtc_enable,
            rom_bank: self.rom_bank,
            mode: self.mode,
            latch_read_0: self.latch_read_0,
            rtc_latched: self.rtc_latched,
        }
    }
}

impl Mbc3 {
    /// The two offsets are those of the banks that the registers select.
    pub closed spec fn offsets_current(&self) -> bool {
        &&& self.rom_offset == effective_bank(
            self.rom_bank as nat,
            self.rom@.len(),
            ROM_BANK_SIZE as nat,
        ) * ROM_BANK_SIZE
        &&& self.ram_offset == effective_bank(
            self@.chosen_ram_bank(),
            self.ram@.len(),
            RAM_BANK_SIZE as nat,
        ) * RAM_BANK_SIZE
    }

    /// The registers are within their widths and the offsets are current.
    pub open spec fn wf(&self) -> bool {
        &&& self@.wf()
        &&& self.offsets_current()
    }

    /// An MBC3 over the given image, as the header describes it, in its power-on state.
    pub fn new(rom: Vec<u8>, info: &CartridgeInfo) -> (m: Mbc3)
        ensures
            m.wf(),
            m@ == Mbc3Model::power_on(rom@, info@),
    {
        let mut m = Mbc3 {
            rom,
            ram: zeroed(info.ram_size),
            has_ram: info.ram,
            has_battery: info.battery,
            has_timer: info.time,
            ram_rtc_enable: false,
            rom_bank: 1,
            rom_offset: 0,
            ram_offset: 0,
            mode: RamMode::Unmapped,
            latch_read_0: false,
            rtc_latched: false,
        };
        m.recalculate_offsets();
        m
    }

    /// Brings the two offsets up to date with the registers.
    fn recalculate_offsets(&mut self)
        requires
            old(self)@.wf(),
        ensures
            final(self)@ == old(self)@,
            final(self).wf(),
    {
        let rom_banks: usize = count_banks(self.rom.len(), ROM_BANK_SIZE);
        let ram_banks: usize = count_banks(self.ram.len(), RAM_BANK_SIZE);
        self.rom_offset = ((self.rom_bank as usize) % rom_banks) * ROM_BANK_SIZE;
        let ram_bank: usize = match self.mode {
            RamMode::Bank(b) => b as usize,
            _ => 0,
        };
        self.ram_offset = (ram_bank % ram_banks) * RAM_BANK_SIZE;
    }

    /// Whether the clock has been latched since the last reset.
    pub fn rtc_latched(&self) -> (latched: bool)
        ensures
            latched == self@.rtc_latched,
    {
        self.rtc_latched
    }

    /// The registers go back to their power-on values; the RAM is cleared
    /// unless a battery keeps it.
    pub fn reset(&mut self)
        requires
            old(self).wf(),
        ensures
            final(self).wf(),
            final(self)@ == old(self)@.reset(),
    {
        if !self.has_battery {
            clear_bytes(&mut self.ram);
        }
        self.ram_rtc_enable = false;
        self.rom_bank = 1;
        self.mode = RamMode::Unmapped;
        self.latch_read_0 = false;
        self.rtc_latched = false;
        self.recalculate_offsets();
    }

    /// The size of the save: present exactly for a battery-backed cartridge.
    pub fn save_size(&self) -> (size: Option<usize>)
        ensures
            size == save_size_of(self@.has_battery, self@.ram),
    {
        if self.has_battery {
            Some(self.ram.len())
        } else {
            None
        }
    }

    /// Takes a save as the new RAM contents.
    pub fn load_save(&mut self, bytes: Vec<u8>) -> (r: Result<(), RamLoadError>)
        requires
            old(self).wf(),
        ensures
            final(self).wf(),
            r == load_outcome(old(self)@.has_battery, old(self)@.ram.len(), bytes@.len()),
            final(self)@ == old(self)@.load_save(bytes@),
    {
        load_into(&mut self.ram, self.has_battery, bytes)
    }

    /// A copy of the RAM of a battery-backed cartridge.
    pub fn save_save(&self) -> (r: Result<Vec<u8>, RamSaveError>)
        ensures
            self@.has_battery ==> r is Ok && r->Ok_0@ == self@.ram,
            !self@.has_battery ==> r == Err::<Vec<u8>, RamSaveError>(RamSaveError::Incompatible),
    {
        save_from(&self.ram, self.has_battery)
    }

    /// Clears the RAM.
    pub fn reset_save(&mut self)
        requires
            old(self).wf(),
        ensures
            final(self).wf(),
            final(self)@ == old(self)@.reset_save(),
    {
        clear_bytes(&mut self.ram);
    }

    /// Reads a byte in the ROM window.
    pub fn rom_b(&self, address: u16) -> (value: u8)
        requires
            self.wf(),
            address < 0x8000,
        ensures
            value == self@.rom_read(address),
    {
        if address < 0x4000 {
            read_byte(&self.rom, address as usize)
        } else {
            read_byte(&self.rom, (address as usize - 0x4000) + self.rom_offset)
        }
    }

    /// Writes in the ROM window, where the registers of the circuit stand.
    pub fn rom_wb(&mut self, address: u16, value: u8)
        requires
            old(self).wf(),
            address < 0x8000,
        ensures
            final(self).wf(),
            final(self)@ == old(self)@.rom_write(address, value),
    {
        if address < 0x2000 {
            if self.has_ram || self.has_timer {
                self.ram_rtc_enable = value & 0x0F == 0x0A;
            }
        } else if address < 0x4000 {
            let low: u8 = value & 0x7F;
            proof {
                lemma_and_bounds(value, 0x7F);
            }
            self.rom_bank = if low == 0 {
                1
            } else {
                low
            };
            self.recalculate_offsets();
        } else if address < 0x6000 {
            self.mode = if value <= 0x03 && self.has_ram {
                RamMode::Bank(value)
            } else if value == RTC_S && self.has_battery {
                RamMode::Seconds
            } else if value == RTC_M && self.has_battery {
                RamMode::Minutes
            } else if value == RTC_H && self.has_battery {
                RamMode::Hours
            } else if value == RTC_DL && self.has_battery {
                RamMode::DayLow
            } else if value == RTC_DH && self.has_battery {
                RamMode::DayHigh
            } else {
                RamMode::Unmapped
            };
            self.recalculate_offsets();
        } else {
            if value == 0x00 && !self.latch_read_0 {
                self.latch_read_0 = true;
            } else if self.latch_read_0 {
                if value == 0x01 {
                    self.rtc_latched = true;
                }
                self.latch_read_0 = false;
            }
        }
    }

    /// Reads a byte in the RAM window.
    pub fn ram_b(&self, address: u16) -> (value: u8)
        requires
            self.wf(),
            0xA000 <= address < 0xC000,
        ensures
            value == self@.ram_read(address),
    {
        if self.ram_rtc_enable {
            match self.mode {
                RamMode::Unmapped => 0xFF,
                RamMode::Bank(_) => read_byte(
                    &self.ram,
                    (address - 0xA000) as usize + self.ram_offset,
                ),
                _ => 0x00,
            }
        } else {
            0xFF
        }
    }

    /// Writes a byte in the RAM window.
    pub fn ram_wb(&mut self, address: u16, value: u8)
        requires
            old(self).wf(),
            0xA000 <= address < 0xC000,
        ensures
            final(self).wf(),
            final(self)@ == old(self)@.ram_write(address, value),
    {
        if self.ram_rtc_enable {
            match self.mode {
                RamMode::Bank(_) => {
                    write_byte(&mut self.ram, (address - 0xA000) as usize + self.ram_offset, value);
                        },
                _ => {},
            }
        }
    }
}

} // verus!
