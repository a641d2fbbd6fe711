//! MBC2: up to 256 KiB of ROM behind a bank register of four bits, and 512
//! half-bytes of RAM inside the chip.

use crate::cart::info::CartridgeInfo;
use crate::cart::info::InfoModel;
use crate::cart::mapper::byte_at;
use crate::cart::mapper::clear_bytes;
use crate::cart::mapper::count_banks;
use crate::cart::mapper::effective_bank;
use crate::cart::mapper::lemma_and_bounds;
use crate::cart::mapper::load_into;
use crate::cart::mapper::load_outcome;
use crate::cart::mapper::ram_after_load;
use crate::cart::mapper::read_byte;
use crate::cart::mapper::save_from;
use crate::cart::mapper::save_size_of;
use crate::cart::mapper::with_byte;
use crate::cart::mapper::write_byte;
use crate::cart::mapper::zeroed;
use crate::cart::mapper::zeros;
use crate::cart::mapper::RamLoadError;
use crate::cart::mapper::RamSaveError;
use crate::cart::mapper::ROM_BANK_SIZE;
use vstd::prelude::*;

verus! {

/// The number of RAM cells; the RAM window repeats them.
pub const MBC2_RAM_CELLS: usize = 0x200;

/// The state of an MBC2 as plain values.
pub struct Mbc2Model {
    pub rom: Seq<u8>,
    pub ram: Seq<u8>,
    pub has_battery: bool,
    pub ram_enable: bool,
    /// The ROM bank register, 1 to 15.
    pub bank: u8,
}

/// The bank that a value written to the bank register selects: its low
/// nibble, 1 in place of 0.
pub open spec fn mbc2_bank_of(value: u8) -> u8 {
    if value & 0x0F == 0 {
        1
    } else {
        value & 0x0F
    }
}

/// The size of the RAM: that of the header, or the 512 cells of the chip where it names none.
pub open spec fn mbc2_ram_size(ram_size: usize) -> usize {
    if ram_size == 0 {
        0x200
    } else {
        ram_size
    }
}

impl Mbc2Model {
    /// An MBC2 over the given image at power-on: RAM of zeros and disabled, bank 1 selected.
    pub open spec fn power_on(rom: Seq<u8>, info: InfoModel) -> Mbc2Model {
        Mbc2Model {
            rom,
            ram: zeros(mbc2_ram_size(info.ram_size) as nat),
            has_battery: info.battery,
            ram_enable: false,
            bank: 1,
        }
    }

    /// The bank register is within its width.
    pub open spec fn wf(self) -> bool {
        self.bank < 16
    }

    /// The value that a read in the ROM window gives.
    pub open spec fn rom_read(self, address: u16) -> u8
        recommends
            address < 0x8000,
    {
        if address < 0x4000 {
            byte_at(self.rom, address as int)
        } else {
            byte_at(
                self.rom,
                effective_bank(self.bank as nat, self.rom.len(), ROM_BANK_SIZE as nat)
                    * ROM_BANK_SIZE + (address - 0x4000),
            )
        }
    }

    /// The state after a write in the ROM window. Below 0x4000 bit 8 of the
    /// address picks the register: clear for the RAM enable, set for the bank.
    pub open spec fn rom_write(self, address: u16, value: u8) -> Mbc2Model
        recommends
            address < 0x8000,
    {
        if address < 0x4000 {
            if address & 0x0100 == 0 {
                Mbc2Model { ram_enable: value & 0x0F == 0x0A, ..self }
            } else {
                Mbc2Model { bank: mbc2_bank_of(value), ..self }
            }
        } else {
            self
        }
    }

    /// The value that a read in the RAM window gives: the cell's low nibble
    /// under a high nibble of ones; 0xFF while the RAM is disabled.
    pub open spec fn ram_read(self, address: u16) -> u8
        recommends
            0xA000 <= address < 0xC000,
    {
        if self.ram_enable {
            byte_at(self.ram, address as int % 0x200) | 0xF0
        } else {
            0xFF
        }
    }

    /// The state after a write in the RAM window: the cell takes the low nibble.
    pub open spec fn ram_write(self, address: u16, value: u8) -> Mbc2Model
        recommends
            0xA000 <= address < 0xC000,
    {
        if self.ram_enable {
            Mbc2Model { ram: with_byte(self.ram, address as int % 0x200, value & 0x0F), ..self }
        } else {
            self
        }
    }

    /// The state after a reset: registers as at power-on; the RAM is cleared unless a battery keeps it.
    pub open spec fn reset(self) -> Mbc2Model {
        Mbc2Model {
            ram: if self.has_battery {
                self.ram
            } else {
                zeros(self.ram.len())
            },
            ram_enable: false,
            bank: 1,
            ..self
        }
    }

    /// Takes a save as the new RAM contents.
    pub open spec fn load_save(self, bytes: Seq<u8>) -> Mbc2Model {
        Mbc2Model { ram: ram_after_load(self.has_battery, self.ram, bytes), ..self }
    }

    /// Clears the RAM.
    pub open spec fn reset_save(self) -> Mbc2Model {
        Mbc2Model { ram: zeros(self.ram.len()), ..self }
    }
}

/// An MBC2 with its image and RAM.
pub struct Mbc2 {
    rom: Vec<u8>,
    ram: Vec<u8>,
    has_battery: bool,
    ram_enable: bool,
    bank: u8,
    rom_offset: usize,
}

impl View for Mbc2 {
    type V = Mbc2Model;

    closed spec fn view(&self) -> Mbc2Model {
        Mbc2Model {
            rom: self.rom@,
            ram: self.ram@,
            has_battery: self.has_battery,
            ram_enable: self.ram_enable,
            bank: self.bank,
        }
    }
}

impl Mbc2 {
    /// The offset is that of the bank that the register selects.
    pub closed spec fn offsets_current(&self) -> bool {
        &&& self.rom_offset == effective_bank(
            self.bank as nat,
            self.rom@.len(),
            ROM_BANK_SIZE as nat,
        ) * ROM_BANK_SIZE
    }

    /// The registers are within their widths and the offsets are current.
    pub open spec fn wf(&self) -> bool {
        &&& self@.wf()
        &&& self.offsets_current()
    }

    /// An MBC2 over the given image, as the header describes it, in its power-on state.
    pub fn new(rom: Vec<u8>, info: &CartridgeInfo) -> (m: Mbc2)
        ensures
            m.wf(),
            m@ == Mbc2Model::power_on(rom@, info@),
    {
        let ram_size: usize = if info.ram_size == 0 {
            MBC2_RAM_CELLS
        } else {
            info.ram_size
        };
        let mut m = Mbc2 {
            rom,
            ram: zeroed(ram_size),
            has_battery: info.battery,
            ram_enable: false,
            bank: 1,
            rom_offset: 0,
        };
        m.recalculate_offsets();
        m
    }

    /// Brings the offset up to date with the register.
    fn recalculate_offsets(&mut self)
        requires
            old(self)@.wf(),
        ensures
            final(self)@ == old(self)@,
            final(self).wf(),
    {
        let rom_banks: usize = count_banks(self.rom.len(), ROM_BANK_SIZE);
        self.rom_offset = ((self.bank as usize) % rom_banks) * ROM_BANK_SIZE;
    }

    /// The registers go back to their power-on values; the RAM is cleared
    /// unless a battery keeps it.
    pub fn reset(&mut self)
        requires
            old(self).wf(),
        ensures
            final(self).wf(),
            final(self)@ == old(self)@.reset(),
    {
        if !self.has_battery {
            clear_bytes(&mut self.ram);
        }
        self.ram_enable = false;
        self.bank = 1;
        self.recalculate_offsets();
    }

    /// The size of the save: present exactly for a battery-backed cartridge.
    pub fn save_size(&self) -> (size: Option<usize>)
        ensures
            size == save_size_of(self@.has_battery, self@.ram),
    {
        if self.has_battery {
            Some(self.ram.len())
        } else {
            None
        }
    }

    /// Takes a save as the new RAM contents.
    pub fn load_save(&mut self, bytes: Vec<u8>) -> (r: Result<(), RamLoadError>)
        requires
            old(self).wf(),
        ensures
            final(self).wf(),
            r == load_outcome(old(self)@.has_battery, old(self)@.ram.len(), bytes@.len()),
            final(self)@ == old(self)@.load_save(bytes@),
    {
        load_into(&mut self.ram, self.has_battery, bytes)
    }

    /// A copy of the RAM of a battery-backed cartridge.
    pub fn save_save(&self) -> (r: Result<Vec<u8>, RamSaveError>)
        ensures
            self@.has_battery ==> r is Ok && r->Ok_0@ == self@.ram,
            !self@.has_battery ==> r == Err::<Vec<u8>, RamSaveError>(RamSaveError::Incompatible),
    {
        save_from(&self.ram, self.has_battery)
    }

    /// Clears the RAM.
    pub fn reset_save(&mut self)
        requires
            old(self).wf(),
        ensures
            final(self).wf(),
            final(self)@ == old(self)@.reset_save(),
    {
        clear_bytes(&mut self.ram);
    }

    /// Reads a byte in the ROM window.
    pub fn rom_b(&self, address: u16) -> (value: u8)
        requires
            self.wf(),
            address < 0x8000,
        ensures
            value == self@.rom_read(address),
    {
        if address < 0x4000 {
            read_byte(&self.rom, address as usize)
        } else {
            read_byte(&self.rom, address as usize - 0x4000 + self.rom_offset)
        }
    }

    /// Writes in the ROM window, where the registers of the circuit stand.
    pub fn rom_wb(&mut self, address: u16, value: u8)
        requires
            old(self).wf(),
            address < 0x8000,
        ensures
            final(self).wf(),
            final(self)@ == old(self)@.rom_write(address, value),
    {
        if address < 0x4000 {
            if address & 0x0100 == 0 {
                self.ram_enable = value & 0x0F == 0x0A;
            } else {
                let low: u8 = value & 0x0F;
                proof {
                    lemma_and_bounds(value, 0x0F);
                }
                self.bank = if low == 0 {
                    1
                } else {
                    low
                };
                self.recalculate_offsets();
            }
        }
    }

    /// Reads a byte in the RAM window.
    pub fn ram_b(&self, address: u16) -> (value: u8)
        requires
            self.wf(),
            0xA000 <= address < 0xC000,
        ensures
            value == self@.ram_read(address),
    {
        if self.ram_enable {
            read_byte(&self.ram, (address as usize) % MBC2_RAM_CELLS) | 0xF0
        } else {
            0xFF
        }
    }

    /// Writes a byte in the RAM window.
    pub fn ram_wb(&mut self, address: u16, value: u8)
        requires
            old(self).wf(),
            0xA000 <= address < 0xC000,
        ensures
            final(self).wf(),
            final(self)@ == old(self)@.ram_write(address, value),
    {
        if self.ram_enable {
            write_byte(&mut self.ram, (address as usize) % MBC2_RAM_CELLS, value & 0x0F);
        }
    }
}

} // verus!
