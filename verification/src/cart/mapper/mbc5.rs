//! MBC5: up to 8 MiB of ROM behind a bank register of nine bits, and up to
//! sixteen banks of RAM.

use crate::cart::info::CartridgeInfo;
use crate::cart::info::InfoModel;
use crate::cart::mapper::byte_at;
use crate::cart::mapper::clear_bytes;
use crate::cart::mapper::count_banks;
use crate::cart::mapper::effective_bank;
use crate::cart::mapper::load_into;
use crate::cart::mapper::load_outcome;
use crate::cart::mapper::ram_after_load;
use crate::cart::mapper::read_byte;
use crate::cart::mapper::save_from;
use crate::cart::mapper::save_size_of;
use crate::cart::mapper::with_byte;
use crate::cart::mapper::write_byte;
use crate::cart::mapper::zeroed;
use crate::cart::mapper::zeros;
use crate::cart::mapper::RamLoadError;
use crate::cart::mapper::RamSaveError;
use crate::cart::mapper::RAM_BANK_SIZE;
use crate::cart::mapper::ROM_BANK_SIZE;
use vstd::prelude::*;

verus! {

/// The state of an MBC5 as plain values.
pub struct Mbc5Model {
    pub rom: Seq<u8>,
    pub ram: Seq<u8>,
    pub has_ram: bool,
    pub has_battery: bool,
    pub has_rumble: bool,
    pub ram_enable: bool,
    /// The low eight bits of the ROM bank register.
    pub rom_bank_low: u8,
    /// Bit 8 of the ROM bank register.
    pub rom_bank_high: bool,
    /// The RAM bank register, 0 to 15.
    pub ram_bank: u8,
}

/// The size of the RAM: that of the header, or 32 KiB where the header names
/// RAM without a size; none where the cartridge type has no RAM.
pub open spec fn mbc5_ram_size(has_ram: bool, ram_size: usize) -> usize {
    if !has_ram {
        0
    } else if ram_size == 0 {
        32768
    } else {
        ram_size
    }
}

impl Mbc5Model {
    /// An MBC5 over the given image at power-on: RAM of zeros and disabled,
    /// ROM bank 1 and RAM bank 0 selected.
    pub open spec fn power_on(rom: Seq<u8>, info: InfoModel) -> Mbc5Model {
        Mbc5Model {
            rom,
            ram: zeros(mbc5_ram_size(info.ram, info.ram_size) as nat),
            has_ram: info.ram,
            has_battery: info.battery,
            has_rumble: info.rumble,
            ram_enable: false,
            rom_bank_low: 1,
            rom_bank_high: false,
            ram_bank: 0,
        }
    }

    /// The RAM bank register is within its width.
    pub open spec fn wf(self) -> bool {
        self.ram_bank < 16
    }

    /// The whole ROM bank register. Bank 0 can be selected like any other.
    pub open spec fn rom_bank(self) -> nat {
        ((if self.rom_bank_high {
            256int
        } else {
            0int
        }) + self.rom_bank_low) as nat
    }

    /// The value that a read in the ROM window gives.
    pub open spec fn rom_read(self, address: u16) -> u8
        recommends
            address < 0x8000,
    {
        if address < 0x4000 {
            byte_at(self.rom, address as int)
        } else {
            byte_at(
                self.rom,
                effective_bank(self.rom_bank(), self.rom.len(), ROM_BANK_SIZE as nat)
                    * ROM_BANK_SIZE + (address - 0x4000),
            )
        }
    }

    /// The state after a write in the ROM window. A RAM bank above 15 is not taken.
    pub open spec fn rom_write(self, address: u16, value: u8) -> Mbc5Model
        recommends
            address < 0x8000,
    {
        if address < 0x2000 {
            if self.has_ram {
                Mbc5Model { ram_enable: value & 0x0F == 0x0A, ..self }
            } else {
                self
            }
        } else if address < 0x3000 {
            Mbc5Model { rom_bank_low: value, ..self }
        } else if address < 0x4000 {
            Mbc5Model { rom_bank_high: value & 0b1 != 0, ..self }
        } else if address < 0x6000 {
            if value <= 0x0F {
                Mbc5Model { ram_bank: value, ..self }
            } else {
                self
            }
        } else {
            self
        }
    }

    /// The index into the RAM that an address of the RAM window stands for.
    pub open spec fn ram_index(self, address: u16) -> int
        recommends
            0xA000 <= address < 0xC000,
    {
        effective_bank(self.ram_bank as nat, self.ram.len(), RAM_BANK_SIZE as nat)
            * RAM_BANK_SIZE + (address - 0xA000) % (RAM_BANK_SIZE as int)
    }

    /// The value that a read in the RAM window gives: 0xFF while the RAM is disabled.
    pub open spec fn ram_read(self, address: u16) -> u8
        recommends
            0xA000 <= address < 0xC000,
    {
        if self.ram_enable {
            byte_at(self.ram, self.ram_index(address))
        } else {
            0xFF
        }
    }

    /// The state after a write in the RAM window: dropped while the RAM is disabled.
    pub open spec fn ram_write(self, address: u16, value: u8) -> Mbc5Model
        recommends
            0xA000 <= address < 0xC000,
    {
        if self.ram_enable {
            Mbc5Model { ram: with_byte(self.ram, self.ram_index(address), value), ..self }
        } else {
            self
        }
    }

    /// The state after a reset: the RAM is disabled and ROM bank 1 selected,
    /// the RAM bank stays; the RAM is cleared unless a battery keeps it.
    pub open spec fn reset(self) -> Mbc5Model {
        Mbc5Model {
            ram: if self.has_battery {
                self.ram
            } else {
                zeros(self.ram.len())
            },
            ram_enable: false,
            rom_bank_low: 1,
            rom_bank_high: false,
            ..self
        }
    }

    /// Takes a save as the new RAM contents.
    pub open spec fn load_save(self, bytes: Seq<u8>) -> Mbc5Model {
        Mbc5Model { ram: ram_after_load(self.has_battery, self.ram, bytes), ..self }
    }

    /// Clears the RAM.
    pub open spec fn reset_save(self) -> Mbc5Model {
        Mbc5Model { ram: zeros(self.ram.len()), ..self }
    }
}

/// An MBC5 with its image and RAM.
pub struct Mbc5 {
    rom: Vec<u8>,
    ram: Vec<u8>,
    has_ram: bool,
    has_battery: bool,
    has_rumble: bool,
    ram_enable: bool,
    rom_bank_low: u8,
    rom_bank_high: bool,
    rom_offset: usize,
    ram_bank: u8,
    ram_offset: usize,
}

impl View for Mbc5 {
    type V = Mbc5Model;

    closed spec fn view(&self) -> Mbc5Model {
        Mbc5Model {
            rom: self.rom@,
            ram: self.ram@,
            has_ram: self.has_ram,
            has_battery: self.has_battery,
            has_rumble: self.has_rumble,
            ram_enable: self.ram_enable,
            rom_bank_low: self.rom_bank_low,
            rom_bank_high: self.rom_bank_high,
            ram_bank: self.ram_bank,
        }
    }
}

impl Mbc5 {
    /// The two offsets are those of the banks that the registers select.
    pub closed spec fn offsets_current(&self) -> bool {
        &&& self.rom_offset == effective_bank(
            self@.rom_bank(),
            self.rom@.len(),
            ROM_BANK_SIZE as nat,
        ) * ROM_BANK_SIZE
        &&& self.ram_offset == effective_bank(
            self.ram_bank as nat,
            self.ram@.len(),
            RAM_BANK_SIZE as nat,
        ) * RAM_BANK_SIZE
    }

    /// The registers are within their widths and the offsets are current.
    pub open spec fn wf(&self) -> bool {
        &&& self@.wf()
        &&& self.offsets_current()
    }

    /// An MBC5 over the given image, as the header describes it, in its power-on state.
    pub fn new(rom: Vec<u8>, info: &CartridgeInfo) -> (m: Mbc5)
        ensures
            m.wf(),
            m@ == Mbc5Model::power_on(rom@, info@),
    {
        let ram_size: usize = if info.ram {
            if info.ram_size == 0 {
                32768
            } else {
                info.ram_size
            }
        } else {
            0
        };
        let mut m = Mbc5 {
            rom,
            ram: zeroed(ram_size),
            has_ram: info.ram,
            has_battery: info.battery,
            has_rumble: info.rumble,
            ram_enable: false,
            rom_bank_low: 1,
            rom_bank_high: false,
            rom_offset: 0,
            ram_bank: 0,
            ram_offset: 0,
        };
        m.recalculate_offsets();
        m
    }

    /// Brings the two offsets up to date with the registers.
    fn recalculate_offsets(&mut self)
        requires
            old(self)@.wf(),
        ensures
            final(self)@ == old(self)@,
            final(self).wf(),
    {
        let rom_banks: usize = count_banks(self.rom.len(), ROM_BANK_SIZE);
        let ram_banks: usize = count_banks(self.ram.len(), RAM_BANK_SIZE);
        let high: usize = if self.rom_bank_high {
            256
        } else {
            0
        };
        let rom_bank: usize = high + (self.rom_bank_low as usize);
        self.rom_offset = (rom_bank % rom_banks) * ROM_BANK_SIZE;
        self.ram_offset = ((self.ram_bank as usize) % ram_banks) * RAM_BANK_SIZE;
    }

    /// The registers go back to their power-on values; the RAM is cleared
    /// unless a battery keeps it.
    pub fn reset(&mut self)
        requires
            old(self).wf(),
        ensures
            final(self).wf(),
            final(self)@ == old(self)@.reset(),
    {
        if !self.has_battery {
            clear_bytes(&mut self.ram);
        }
        self.ram_enable = false;
        self.rom_bank_low = 1;
        self.rom_bank_high = false;
        self.recalculate_offsets();
    }

    /// The size of the save: present exactly for a battery-backed cartridge.
    pub fn save_size(&self) -> (size: Option<usize>)
        ensures
            size == save_size_of(self@.has_battery, self@.ram),
    {
        if self.has_battery {
            Some(self.ram.len())
        } else {
            None
        }
    }

    /// Takes a save as the new RAM contents.
    pub fn load_save(&mut self, bytes: Vec<u8>) -> (r: Result<(), RamLoadError>)
        requires
            old(self).wf(),
        ensures
            final(self).wf(),
            r == load_outcome(old(self)@.has_battery, old(self)@.ram.len(), bytes@.len()),
            final(self)@ == old(self)@.load_save(bytes@),
    {
        load_into(&mut self.ram, self.has_battery, bytes)
    }

    /// A copy of the RAM of a battery-backed cartridge.
    pub fn save_save(&self) -> (r: Result<Vec<u8>, RamSaveError>)
        ensures
            self@.has_battery ==> r is Ok && r->Ok_0@ == self@.ram,
            !self@.has_battery ==> r == Err::<Vec<u8>, RamSaveError>(RamSaveError::Incompatible),
    {
        save_from(&self.ram, self.has_battery)
    }

    /// Clears the RAM.
    pub fn reset_save(&mut self)
        requires
            old(self).wf(),
        ensures
            final(self).wf(),
            final(self)@ == old(self)@.reset_save(),
    {
        clear_bytes(&mut self.ram);
    }

    /// Reads a byte in the ROM window.
    pub fn rom_b(&self, address: u16) -> (value: u8)
        requires
            self.wf(),
            address < 0x8000,
        ensures
            value == self@.rom_read(address),
    {
        if address < 0x4000 {
            read_byte(&self.rom, address as usize)
        } else {
            read_byte(&self.rom, address as usize - 0x4000 + self.rom_offset)
        }
    }

    /// Writes in the ROM window, where the registers of the circuit stand.
    pub fn rom_wb(&mut self, address: u16, value: u8)
        requires
            old(self).wf(),
            address < 0x8000,
        ensures
            final(self).wf(),
            final(self)@ == old(self)@.rom_write(address, value),
    {
        if address < 0x2000 {
            if self.has_ram {
                self.ram_enable = (value & 0x0F) == 0x0A;
            }
        } else if address < 0x3000 {
            self.rom_bank_low = value;
            self.recalculate_offsets();
        } else if address < 0x4000 {
            self.rom_bank_high = value & 0b1 != 0;
            self.recalculate_offsets();
        } else if address < 0x6000 {
            if value <= 0x0F {
                self.ram_bank = value;
                self.recalculate_offsets();
            }
        }
    }

    /// Reads a byte in the RAM window.
    pub fn ram_b(&self, address: u16) -> (value: u8)
        requires
            self.wf(),
            0xA000 <= address < 0xC000,
        ensures
            value == self@.ram_read(address),
    {
        if self.ram_enable {
            read_byte(&self.ram, (address as usize - 0xA000) % RAM_BANK_SIZE + self.ram_offset)
        } else {
            0xFF
        }
    }

    /// Writes a byte in the RAM window.
    pub fn ram_wb(&mut self, address: u16, value: u8)
        requires
            old(self).wf(),
            0xA000 <= address < 0xC000,
        ensures
            final(self).wf(),
            final(self)@ == old(self)@.ram_write(address, value),
    {
        if self.ram_enable {
            write_byte(
                &mut self.ram,
                (address as usize - 0xA000) % RAM_BANK_SIZE + self.ram_offset,
                value,
            );
        }
    }
}

} // verus!
