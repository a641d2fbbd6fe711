//! MBC1: up to 2 MiB of ROM and 32 KiB of RAM behind a bank register of
//! seven bits, in a low part of five bits and a high part of two.

use crate::cart::info::CartridgeInfo;
use crate::cart::info::InfoModel;
use crate::cart::mapper::byte_at;
use crate::cart::mapper::clear_bytes;
use crate::cart::mapper::count_banks;
use crate::cart::mapper::effective_bank;
use crate::cart::mapper::lemma_and_bounds;
use crate::cart::mapper::load_into;
use crate::cart::mapper::load_outcome;
use crate::cart::mapper::ram_after_load;
use crate::cart::mapper::read_byte;
use crate::cart::mapper::save_from;
use crate::cart::mapper::save_size_of;
use crate::cart::mapper::with_byte;
use crate::cart::mapper::write_byte;
use crate::cart::mapper::zeroed;
use crate::cart::mapper::zeros;
use crate::cart::mapper::RamLoadError;
use crate::cart::mapper::RamSaveError;
use crate::cart::mapper::RAM_BANK_SIZE;
use crate::cart::mapper::ROM_BANK_SIZE;
use vstd::prelude::*;

verus! {

/// In the simple mode the high part of the bank register applies to the
/// switchable ROM window only; in the advanced mode also to the fixed ROM
/// window and to the RAM window.
#[derive(Clone, Copy, Debug, PartialEq, Eq, Structural)]
pub enum BankingMode {
    Simple,
    Advanced,
}

/// The state of an MBC1 as plain values.
pub struct Mbc1Model {
    pub rom: Seq<u8>,
    pub ram: Seq<u8>,
    pub has_ram: bool,
    pub has_battery: bool,
    pub ram_enable: bool,
    /// The low five bits of the bank register.
    pub bank_low: u8,
    /// The high two bits of the bank register.
    pub bank_high: u8,
    /// The bits of the low part that the ROM size leaves in use.
    pub bank_mask: u8,
    pub mode: BankingMode,
}

/// The mask on the low part of the bank register for a ROM of `rom_size` bytes.
pub open spec fn bank_mask_of(rom_size: usize) -> u8 {
    if rom_size / 1024 == 32 {
        0b1
    } else if rom_size / 1024 == 64 {
        0b11
    } else if rom_size / 1024 == 128 {
        0b111
    } else if rom_size / 1024 == 256 {
        0b1111
    } else {
        0b1_1111
    }
}

/// The ROM sizes that an MBC1 can address: 32 KiB to 2 MiB.
pub open spec fn rom_size_fits(rom_size: usize) -> bool {
    rom_size / 1024 == 32 || rom_size / 1024 == 64 || rom_size / 1024 == 128 || rom_size / 1024
        == 256 || rom_size / 1024 == 512 || rom_size / 1024 == 1024 || rom_size / 1024 == 2048
}

/// The size of the RAM: that of the header, or 32 KiB where the header names
/// RAM without a size; none where the cartridge type has no RAM.
pub open spec fn ram_size_for(has_ram: bool, ram_size: usize) -> usize {
    if !has_ram {
        0
    } else if ram_size == 0 {
        32768
    } else {
        ram_size
    }
}

/// The low part that a value written to 0x2000..0x3FFF selects: its low five
/// bits, 1 in place of 0, then cut to the bits in use.
pub open spec fn low_part_of(value: u8, mask: u8) -> u8 {
    (if value & 0b1_1111 == 0 {
        1u8
    } else {
        value & 0b1_1111
    }) & mask
}

impl Mbc1Model {
    /// An MBC1 over the given image at power-on: RAM of zeros and disabled,
    /// bank 1 selected, simple mode.
    pub open spec fn power_on(rom: Seq<u8>, info: InfoModel) -> Mbc1Model {
        Mbc1Model {
            rom,
            ram: zeros(ram_size_for(info.ram, info.ram_size) as nat),
            has_ram: info.ram,
            has_battery: info.battery,
            ram_enable: false,
            bank_low: 1,
            bank_high: 0,
            bank_mask: bank_mask_of(info.rom_size),
            mode: BankingMode::Simple,
        }
    }

    /// Both parts stay within their width.
    pub open spec fn wf(self) -> bool {
        self.bank_low < 32 && self.bank_high < 4
    }

    /// The whole bank register.
    pub open spec fn bank(self) -> nat {
        (self.bank_high * 32 + self.bank_low) as nat
    }

    /// The bank that the register selects for 0x0000..0x3FFF.
    pub open spec fn chosen_low_bank(self) -> nat {
        match self.mode {
            BankingMode::Simple => 0,
            BankingMode::Advanced => (self.bank_high * 32) as nat,
        }
    }

    /// The bank that the register selects for the RAM window.
    pub open spec fn chosen_ram_bank(self) -> nat {
        match self.mode {
            BankingMode::Simple => 0,
            BankingMode::Advanced => self.bank_high as nat,
        }
    }

    /// The value that a read in the ROM window gives.
    pub open spec fn rom_read(self, address: u16) -> u8
        recommends
            address < 0x8000,
    {
        if address < 0x4000 {
            byte_at(
                self.rom,
                effective_bank(self.chosen_low_bank(), self.rom.len(), ROM_BANK_SIZE as nat)
                    * ROM_BANK_SIZE + address,
            )
        } else {
            byte_at(
                self.rom,
                effective_bank(self.bank(), self.rom.len(), ROM_BANK_SIZE as nat) * ROM_BANK_SIZE
                    + (address - 0x4000),
            )
        }
    }

    /// The state after a write in the ROM window, which goes to one of four registers.
    pub open spec fn rom_write(self, address: u16, value: u8) -> Mbc1Model
        recommends
            address < 0x8000,
    {
        if address < 0x2000 {
            if self.has_ram {
                Mbc1Model { ram_enable: value & 0x0F == 0x0A, ..self }
            } else {
                self
            }
        } else if address < 0x4000 {
            Mbc1Model { bank_low: low_part_of(value, self.bank_mask), ..self }
        } else if address < 0x6000 {
            Mbc1Model { bank_high: value & 0b11, ..self }
        } else {
            Mbc1Model {
                mode: if value & 0b1 == 0 {
                    BankingMode::Simple
                } else {
                    BankingMode::Advanced
                },
                ..self
            }
        }
    }

    /// The index into the RAM that an address of the RAM window stands for.
    pub open spec fn ram_index(self, address: u16) -> int
        recommends
            0xA000 <= address < 0xC000,
    {
        effective_bank(self.chosen_ram_bank(), self.ram.len(), RAM_BANK_SIZE as nat)
            * RAM_BANK_SIZE + (address - 0xA000) % (RAM_BANK_SIZE as int)
    }

    /// The value that a read in the RAM window gives: 0xFF while the RAM is disabled.
    pub open spec fn ram_read(self, address: u16) -> u8
        recommends
            0xA000 <= address < 0xC000,
    {
        if self.ram_enable {
            byte_at(self.ram, self.ram_index(address))
        } else {
            0xFF
        }
    }

    /// The state after a write in the RAM window: dropped while the RAM is disabled.
    pub open spec fn ram_write(self, address: u16, value: u8) -> Mbc1Model
        recommends
            0xA000 <= address < 0xC000,
    {
        if self.ram_enable {
            Mbc1Model { ram: with_byte(self.ram, self.ram_index(address), value), ..self }
        } else {
            self
        }
    }

    /// The state after a reset: registers as at power-on; the RAM is cleared unless a battery keeps it.
    pub open spec fn reset(self) -> Mbc1Model {
        Mbc1Model {
            ram: if self.has_battery {
                self.ram
            } else {
                zeros(self.ram.len())
            },
            ram_enable: false,
            bank_low: 1,
            bank_high: 0,
            mode: BankingMode::Simple,
            ..self
        }
    }

    /// Takes a save as the new RAM contents.
    pub open spec fn load_save(self, bytes: Seq<u8>) -> Mbc1Model {
        Mbc1Model { ram: ram_after_load(self.has_battery, self.ram, bytes), ..self }
    }

    /// Clears the RAM.
    pub open spec fn reset_save(self) -> Mbc1Model {
        Mbc1Model { ram: zeros(self.ram.len()), ..self }
    }
}

/// An MBC1 with its image and RAM.
pub struct Mbc1 {
    rom: Vec<u8>,
    ram: Vec<u8>,
    has_ram: bool,
    has_battery: bool,
    ram_enable: bool,
    bank_low: u8,
    bank_high: u8,
    bank_mask: u8,
    mode: BankingMode,
    rom_lo_offset: usize,
    rom_hi_offset: usize,
    ram_offset: usize,
}

impl View for Mbc1 {
    type V = Mbc1Model;

    closed spec fn view(&self) -> Mbc1Model {
        Mbc1Model {
            rom: self.rom@,
            ram: self.ram@,
            has_ram: self.has_ram,
            has_battery: self.has_battery,
            ram_enable: self.ram_enable,
            bank_low: self.bank_low,
            bank_high: self.bank_high,
            bank_mask: self.bank_mask,
            mode: self.mode,
        }
    }
}

impl Mbc1 {
    /// The three offsets are those of the banks that the registers select.
    pub closed spec fn offsets_current(&self) -> bool {
        &&& self.rom_lo_offset == effective_bank(
            self@.chosen_low_bank(),
            self.rom@.len(),
            ROM_BANK_SIZE as nat,
        ) * ROM_BANK_SIZE
        &&& self.rom_hi_offset == effective_bank(
            self@.bank(),
            self.rom@.len(),
            ROM_BANK_SIZE as nat,
        ) * ROM_BANK_SIZE
        &&& self.ram_offset == effective_bank(
            self@.chosen_ram_bank(),
            self.ram@.len(),
            RAM_BANK_SIZE as nat,
        ) * RAM_BANK_SIZE
    }

    /// The registers are within their widths and the offsets are current.
    pub open spec fn wf(&self) -> bool {
        &&& self@.wf()
        &&& self.offsets_current()
    }

    /// An MBC1 over the given image, as the header describes it, in its power-on state.
    pub fn new(rom: Vec<u8>, info: &CartridgeInfo) -> (m: Mbc1)
        requires
            rom_size_fits(info.rom_size),
        ensures
            m.wf(),
            m@ == Mbc1Model::power_on(rom@, info@),
    {
        let ram_size: usize = if info.ram {
            if info.ram_size == 0 {
                32768
            } else {
                info.ram_size
            }
        } else {
            0
        };
        let kib: usize = info.rom_size / 1024;
        let bank_mask: u8 = if kib == 32 {
            0b1
        } else if kib == 64 {
            0b11
        } else if kib == 128 {
            0b111
        } else if kib == 256 {
            0b1111
        } else {
            0b1_1111
        };
        let mut m = Mbc1 {
            rom,
            ram: zeroed(ram_size),
            has_ram: info.ram,
            has_battery: info.battery,
            ram_enable: false,
            bank_low: 1,
            bank_high: 0,
            bank_mask,
            mode: BankingMode::Simple,
            rom_lo_offset: 0,
            rom_hi_offset: 0,
            ram_offset: 0,
        };
        m.recalculate_offsets();
        m
    }

    /// Brings the three offsets up to date with the registers.
    fn recalculate_offsets(&mut self)
        requires
            old(self)@.wf(),
        ensures
            final(self)@ == old(self)@,
            final(self).wf(),
    {
        let rom_banks: usize = count_banks(self.rom.len(), ROM_BANK_SIZE);
        let ram_banks: usize = count_banks(self.ram.len(), RAM_BANK_SIZE);
        let bank_hi: usize = self.bank_high as usize;
        let (chosen_lo, chosen_ram): (usize, usize) = match self.mode {
            BankingMode::Simple => (0, 0),
            BankingMode::Advanced => (bank_hi * 32, bank_hi),
        };
        let rom_lo: usize = chosen_lo % rom_banks;
        let ram: usize = chosen_ram % ram_banks;
        let bank: usize = bank_hi * 32 + (self.bank_low as usize);
        self.rom_lo_offset = rom_lo * ROM_BANK_SIZE;
        self.rom_hi_offset = (bank % rom_banks) * ROM_BANK_SIZE;
        self.ram_offset = ram * RAM_BANK_SIZE;
    }

    /// The registers go back to their power-on values; the RAM is cleared
    /// unless a battery keeps it.
    pub fn reset(&mut self)
        requires
            old(self).wf(),
        ensures
            final(self).wf(),
            final(self)@ == old(self)@.reset(),
    {
        if !self.has_battery {
            clear_bytes(&mut self.ram);
        }
        self.ram_enable = false;
        self.bank_low = 1;
        self.bank_high = 0;
        self.mode = BankingMode::Simple;
        self.recalculate_offsets();
    }

    /// The size of the save: present exactly for a battery-backed cartridge.
    pub fn save_size(&self) -> (size: Option<usize>)
        ensures
            size == save_size_of(self@.has_battery, self@.ram),
    {
        if self.has_battery {
            Some(self.ram.len())
        } else {
            None
        }
    }

    /// Takes a save as the new RAM contents.
    pub fn load_save(&mut self, bytes: Vec<u8>) -> (r: Result<(), RamLoadError>)
        requires
            old(self).wf(),
        ensures
            final(self).wf(),
            r == load_outcome(old(self)@.has_battery, old(self)@.ram.len(), bytes@.len()),
            final(self)@ == old(self)@.load_save(bytes@),
    {
        load_into(&mut self.ram, self.has_battery, bytes)
    }

    /// A copy of the RAM of a battery-backed cartridge.
    pub fn save_save(&self) -> (r: Result<Vec<u8>, RamSaveError>)
        ensures
            self@.has_battery ==> r is Ok && r->Ok_0@ == self@.ram,
            !self@.has_battery ==> r == Err::<Vec<u8>, RamSaveError>(RamSaveError::Incompatible),
    {
        save_from(&self.ram, self.has_battery)
    }

    /// Clears the RAM.
    pub fn reset_save(&mut self)
        requires
            old(self).wf(),
        ensures
            final(self).wf(),
            final(self)@ == old(self)@.reset_save(),
    {
        clear_bytes(&mut self.ram);
    }

    /// Reads a byte in the ROM window.
    pub fn rom_b(&self, address: u16) -> (value: u8)
        requires
            self.wf(),
            address < 0x8000,
        ensures
            value == self@.rom_read(address),
    {
        if address < 0x4000 {
            read_byte(&self.rom, address as usize + self.rom_lo_offset)
        } else {
            read_byte(&self.rom, address as usize - 0x4000 + self.rom_hi_offset)
        }
    }

    /// Writes in the ROM window, where the registers of the circuit stand.
    pub fn rom_wb(&mut self, address: u16, value: u8)
        requires
            old(self).wf(),
            address < 0x8000,
        ensures
            final(self).wf(),
            final(self)@ == old(self)@.rom_write(address, value),
    {
        if address < 0x2000 {
            if self.has_ram {
                self.ram_enable = (value & 0x0F) == 0x0A;
            }
        } else if address < 0x4000 {
            let low: u8 = value & 0b1_1111;
            let bank: u8 = if low == 0 {
                1
            } else {
                low
            };
            proof {
                lemma_and_bounds(value, 0b1_1111);
                lemma_and_bounds(bank, self.bank_mask);
            }
            self.bank_low = bank & self.bank_mask;
            self.recalculate_offsets();
        } else if address < 0x6000 {
            proof {
                lemma_and_bounds(value, 0b11);
            }
            self.bank_high = value & 0b11;
            self.recalculate_offsets();
        } else {
            self.mode = if value & 0b1 == 0 {
                BankingMode::Simple
            } else {
                BankingMode::Advanced
            };
            self.recalculate_offsets();
        }
    }

    /// Reads a byte in the RAM window.
    pub fn ram_b(&self, address: u16) -> (value: u8)
        requires
            self.wf(),
            0xA000 <= address < 0xC000,
        ensures
            value == self@.ram_read(address),
    {
        if self.ram_enable {
            read_byte(&self.ram, (address as usize - 0xA000) % RAM_BANK_SIZE + self.ram_offset)
        } else {
            0xFF
        }
    }

    /// Writes a byte in the RAM window.
    pub fn ram_wb(&mut self, address: u16, value: u8)
        requires
            old(self).wf(),
            0xA000 <= address < 0xC000,
        ensures
            final(self).wf(),
            final(self)@ == old(self)@.ram_write(address, value),
    {
        if self.ram_enable {
            write_byte(
                &mut self.ram,
                (address as usize - 0xA000) % RAM_BANK_SIZE + self.ram_offset,
                value,
            );
        }
    }
}

} // verus!
