//! The bank-switching circuits of a cartridge.
//!
//! Every circuit answers reads and writes in the ROM window 0x0000 to 0x7FFF
//! and in the RAM window 0xA000 to 0xBFFF. A read past the end of the image or
//! of the RAM gives 0xFF, a write there is dropped.

use crate::cart::info::checksum_upto;
use crate::cart::info::CartridgeInfo;
use crate::cart::info::InfoModel;
use crate::cart::mapper::game_genie::GameGenie;
use crate::cart::mapper::game_genie::GenieModel;
use crate::cart::mapper::mbc1::rom_size_fits;
use crate::cart::mapper::mbc1::Mbc1;
use crate::cart::mapper::mbc1::Mbc1Model;
use crate::cart::mapper::mbc2::Mbc2;
use crate::cart::mapper::mbc2::Mbc2Model;
use crate::cart::mapper::mbc3::Mbc3;
use crate::cart::mapper::mbc3::Mbc3Model;
use crate::cart::mapper::mbc5::Mbc5;
use crate::cart::mapper::mbc5::Mbc5Model;
use crate::cart::mapper::null::NullMapper;
use crate::cart::mapper::rom::Rom;
use vstd::prelude::*;

pub mod game_genie;
pub mod mbc1;
pub mod mbc2;
pub mod mbc3;
pub mod mbc5;
pub mod null;
pub mod rom;

verus! {

/// The size of one switchable ROM bank.
pub const ROM_BANK_SIZE: usize = 0x4000;

/// The size of one switchable RAM bank.
pub const RAM_BANK_SIZE: usize = 0x2000;

/// The first address of the RAM window.
pub const RAM_BEGIN: u16 = 0xA000;

/// The family of bank-switching circuit that a cartridge type byte names.
#[derive(Clone, Copy, Debug, PartialEq, Eq, Structural)]
pub enum MapperType {
    Rom,
    Mbc1,
    Mbc2,
    Mmm01,
    Mbc3,
    Mbc5,
    Mbc6,
    Mbc7,
    Huc3,
    Huc1,
    /// A type byte that names no known circuit, or one without a model here.
    Unknown,
}

/// Why a save could not be loaded.
#[derive(Clone, Copy, Debug, PartialEq, Eq, Structural)]
pub enum RamLoadError {
    TooSmall,
    TooLarge,
    /// The cartridge keeps no RAM on a battery.
    Incompatible,
}

/// Why no save could be taken.
#[derive(Clone, Copy, Debug, PartialEq, Eq, Structural)]
pub enum RamSaveError {
    /// The cartridge keeps no RAM on a battery.
    Incompatible,
}

/// Whether an address lies in the ROM window.
pub open spec fn in_rom_window(address: u16) -> bool {
    address < 0x8000
}

/// Whether an address lies in the RAM window.
pub open spec fn in_ram_window(address: u16) -> bool {
    0xA000 <= address < 0xC000
}

/// The byte at `index`, or 0xFF where the memory has no such byte.
pub open spec fn byte_at(mem: Seq<u8>, index: int) -> u8 {
    if 0 <= index < mem.len() {
        mem[index]
    } else {
        0xFF
    }
}

/// The memory with `value` at `index`, or unchanged where it has no such byte.
pub open spec fn with_byte(mem: Seq<u8>, index: int, value: u8) -> Seq<u8> {
    if 0 <= index < mem.len() {
        mem.update(index, value)
    } else {
        mem
    }
}

/// The number of banks of `bank_size` bytes that a memory of `len` bytes
/// holds; a memory shorter than one bank counts as one.
pub open spec fn bank_count(len: nat, bank_size: nat) -> nat {
    if len / bank_size == 0 {
        1
    } else {
        len / bank_size
    }
}

/// The bank that a register value selects: the value modulo the number of banks present.
pub open spec fn effective_bank(chosen: nat, len: nat, bank_size: nat) -> nat {
    chosen % bank_count(len, bank_size)
}

/// A memory of `len` zero bytes.
pub open spec fn zeros(len: nat) -> Seq<u8> {
    Seq::new(len, |i: int| 0u8)
}

/// What loading a save of `bytes_len` bytes gives, for a RAM of `ram_len`
/// bytes: only a battery-backed RAM takes one, and only of its own length.
pub open spec fn load_outcome(has_battery: bool, ram_len: nat, bytes_len: nat) -> Result<
    (),
    RamLoadError,
> {
    if !has_battery {
        Err(RamLoadError::Incompatible)
    } else if bytes_len < ram_len {
        Err(RamLoadError::TooSmall)
    } else if bytes_len > ram_len {
        Err(RamLoadError::TooLarge)
    } else {
        Ok(())
    }
}

/// The RAM after a save was offered: the save where it was taken, else the RAM as it was.
pub open spec fn ram_after_load(has_battery: bool, ram: Seq<u8>, bytes: Seq<u8>) -> Seq<u8> {
    if load_outcome(has_battery, ram.len(), bytes.len()) is Ok {
        bytes
    } else {
        ram
    }
}

/// The size of the save: the length of the RAM, for a battery-backed one.
pub open spec fn save_size_of(has_battery: bool, ram: Seq<u8>) -> Option<usize> {
    if has_battery {
        Some(ram.len() as usize)
    } else {
        None
    }
}

/// The save itself: a copy of the RAM, for a battery-backed one.
pub open spec fn save_of(has_battery: bool, ram: Seq<u8>) -> Result<Seq<u8>, RamSaveError> {
    if has_battery {
        Ok(ram)
    } else {
        Err(RamSaveError::Incompatible)
    }
}

/// Reads the byte at `index`, or 0xFF where the memory has no such byte.
pub fn read_byte(mem: &Vec<u8>, index: usize) -> (value: u8)
    ensures
        value == byte_at(mem@, index as int),
{
    if index < mem.len() {
        mem[index]
    } else {
        0xFF
    }
}

/// Writes the byte at `index`, where the memory has such a byte.
pub fn write_byte(mem: &mut Vec<u8>, index: usize, value: u8)
    ensures
        final(mem)@ == with_byte(old(mem)@, index as int, value),
{
    if index < mem.len() {
        mem[index] = value;
    }
}

/// The number of banks of `bank_size` bytes in a memory of `len` bytes, at least one.
pub fn count_banks(len: usize, bank_size: usize) -> (n: usize)
    requires
        bank_size > 0,
    ensures
        n == bank_count(len as nat, bank_size as nat),
        n >= 1,
        n <= len || n == 1,
{
    let n: usize = len / bank_size;
    if n == 0 {
        1
    } else {
        assert(n <= len) by (nonlinear_arith)
            requires
                n == len / bank_size,
                bank_size > 0,
        ;
        n
    }
}

/// Sets every byte to zero.
pub fn clear_bytes(mem: &mut Vec<u8>)
    ensures
        final(mem)@ == zeros(old(mem)@.len()),
{
    let n: usize = mem.len();
    let mut i: usize = 0;
    while i < n
        invariant
            i <= n,
            mem@.len() == n,
            forall|j: int| 0 <= j < i ==> mem@[j] == 0,
        decreases n - i,
    {
        mem[i] = 0;
        i = i + 1;
    }
    assert(mem@ =~= zeros(n as nat));
}

/// A RAM of `len` zero bytes.
pub fn zeroed(len: usize) -> (mem: Vec<u8>)
    ensures
        mem@ == zeros(len as nat),
{
    let mem: Vec<u8> = vec![0u8; len];
    assert(mem@ =~= zeros(len as nat));
    mem
}

/// A copy of the bytes.
pub fn copy_bytes(mem: &Vec<u8>) -> (copy: Vec<u8>)
    ensures
        copy@ == mem@,
{
    let copy: Vec<u8> = mem.clone();
    assert(copy@ =~= mem@);
    copy
}

/// Takes the save into the RAM where `load_outcome` allows it.
pub fn load_into(ram: &mut Vec<u8>, has_battery: bool, bytes: Vec<u8>) -> (r: Result<
    (),
    RamLoadError,
>)
    ensures
        r == load_outcome(has_battery, old(ram)@.len(), bytes@.len()),
        final(ram)@ == ram_after_load(has_battery, old(ram)@, bytes@),
{
    if !has_battery {
        Err(RamLoadError::Incompatible)
    } else if bytes.len() < ram.len() {
        Err(RamLoadError::TooSmall)
    } else if bytes.len() > ram.len() {
        Err(RamLoadError::TooLarge)
    } else {
        *ram = bytes;
        Ok(())
    }
}

/// A copy of a battery-backed RAM.
pub fn save_from(ram: &Vec<u8>, has_battery: bool) -> (r: Result<Vec<u8>, RamSaveError>)
    ensures
        has_battery ==> r is Ok && r->Ok_0@ == ram@,
        !has_battery ==> r == Err::<Vec<u8>, RamSaveError>(RamSaveError::Incompatible),
{
    if has_battery {
        Ok(copy_bytes(ram))
    } else {
        Err(RamSaveError::Incompatible)
    }
}

/// `x & m` keeps only bits of both, so it exceeds neither.
pub proof fn lemma_and_bounds(x: u8, m: u8)
    ensures
        x & m <= m,
        x & m <= x,
{
    assert(x & m <= m && x & m <= x) by (bit_vector);
}

/// The state of any of the circuits as plain values.
pub enum MapperModel {
    Null,
    Rom(Seq<u8>),
    Mbc1(Mbc1Model),
    Mbc2(Mbc2Model),
    Mbc3(Mbc3Model),
    Mbc5(Mbc5Model),
}

impl MapperModel {
    /// The registers of the circuit are within their widths.
    pub open spec fn wf(self) -> bool {
        match self {
            MapperModel::Null => true,
            MapperModel::Rom(_) => true,
            MapperModel::Mbc1(m) => m.wf(),
            MapperModel::Mbc2(m) => m.wf(),
            MapperModel::Mbc3(m) => m.wf(),
            MapperModel::Mbc5(m) => m.wf(),
        }
    }

    /// The image; the null circuit holds none.
    pub open spec fn rom(self) -> Seq<u8> {
        match self {
            MapperModel::Null => Seq::empty(),
            MapperModel::Rom(r) => r,
            MapperModel::Mbc1(m) => m.rom,
            MapperModel::Mbc2(m) => m.rom,
            MapperModel::Mbc3(m) => m.rom,
            MapperModel::Mbc5(m) => m.rom,
        }
    }

    /// The external RAM; none without bank switching.
    pub open spec fn ram(self) -> Seq<u8> {
        match self {
            MapperModel::Null => Seq::empty(),
            MapperModel::Rom(_) => Seq::empty(),
            MapperModel::Mbc1(m) => m.ram,
            MapperModel::Mbc2(m) => m.ram,
            MapperModel::Mbc3(m) => m.ram,
            MapperModel::Mbc5(m) => m.ram,
        }
    }

    /// Whether a battery keeps the RAM.
    pub open spec fn has_battery(self) -> bool {
        match self {
            MapperModel::Null => false,
            MapperModel::Rom(_) => false,
            MapperModel::Mbc1(m) => m.has_battery,
            MapperModel::Mbc2(m) => m.has_battery,
            MapperModel::Mbc3(m) => m.has_battery,
            MapperModel::Mbc5(m) => m.has_battery,
        }
    }

    /// The value that a read in the ROM window gives.
    pub open spec fn rom_read(self, address: u16) -> u8
        recommends
            address < 0x8000,
    {
        match self {
            MapperModel::Null => 0xFF,
            MapperModel::Rom(r) => byte_at(r, address as int),
            MapperModel::Mbc1(m) => m.rom_read(address),
            MapperModel::Mbc2(m) => m.rom_read(address),
            MapperModel::Mbc3(m) => m.rom_read(address),
            MapperModel::Mbc5(m) => m.rom_read(address),
        }
    }

    /// The state after a write in the ROM window.
    pub open spec fn rom_write(self, address: u16, value: u8) -> MapperModel
        recommends
            address < 0x8000,
    {
        match self {
            MapperModel::Null => self,
            MapperModel::Rom(_) => self,
            MapperModel::Mbc1(m) => MapperModel::Mbc1(m.rom_write(address, value)),
            MapperModel::Mbc2(m) => MapperModel::Mbc2(m.rom_write(address, value)),
            MapperModel::Mbc3(m) => MapperModel::Mbc3(m.rom_write(address, value)),
            MapperModel::Mbc5(m) => MapperModel::Mbc5(m.rom_write(address, value)),
        }
    }

    /// The value that a read in the RAM window gives.
    pub open spec fn ram_read(self, address: u16) -> u8
        recommends
            0xA000 <= address < 0xC000,
    {
        match self {
            MapperModel::Null => 0xFF,
            MapperModel::Rom(_) => 0x00,
            MapperModel::Mbc1(m) => m.ram_read(address),
            MapperModel::Mbc2(m) => m.ram_read(address),
            MapperModel::Mbc3(m) => m.ram_read(address),
            MapperModel::Mbc5(m) => m.ram_read(address),
        }
    }

    /// The state after a write in the RAM window.
    pub open spec fn ram_write(self, address: u16, value: u8) -> MapperModel
        recommends
            0xA000 <= address < 0xC000,
    {
        match self {
            MapperModel::Null => self,
            MapperModel::Rom(_) => self,
            MapperModel::Mbc1(m) => MapperModel::Mbc1(m.ram_write(address, value)),
            MapperModel::Mbc2(m) => MapperModel::Mbc2(m.ram_write(address, value)),
            MapperModel::Mbc3(m) => MapperModel::Mbc3(m.ram_write(address, value)),
            MapperModel::Mbc5(m) => MapperModel::Mbc5(m.ram_write(address, value)),
        }
    }

    /// The state after a reset.
    pub open spec fn reset(self) -> MapperModel {
        match self {
            MapperModel::Null => self,
            MapperModel::Rom(_) => self,
            MapperModel::Mbc1(m) => MapperModel::Mbc1(m.reset()),
            MapperModel::Mbc2(m) => MapperModel::Mbc2(m.reset()),
            MapperModel::Mbc3(m) => MapperModel::Mbc3(m.reset()),
            MapperModel::Mbc5(m) => MapperModel::Mbc5(m.reset()),
        }
    }

    /// The state after a save was offered.
    pub open spec fn load_save(self, bytes: Seq<u8>) -> MapperModel {
        match self {
            MapperModel::Null => self,
            MapperModel::Rom(_) => self,
            MapperModel::Mbc1(m) => MapperModel::Mbc1(m.load_save(bytes)),
            MapperModel::Mbc2(m) => MapperModel::Mbc2(m.load_save(bytes)),
            MapperModel::Mbc3(m) => MapperModel::Mbc3(m.load_save(bytes)),
            MapperModel::Mbc5(m) => MapperModel::Mbc5(m.load_save(bytes)),
        }
    }

    /// The state after the RAM was cleared.
    pub open spec fn reset_save(self) -> MapperModel {
        match self {
            MapperModel::Null => self,
            MapperModel::Rom(_) => self,
            MapperModel::Mbc1(m) => MapperModel::Mbc1(m.reset_save()),
            MapperModel::Mbc2(m) => MapperModel::Mbc2(m.reset_save()),
            MapperModel::Mbc3(m) => MapperModel::Mbc3(m.reset_save()),
            MapperModel::Mbc5(m) => MapperModel::Mbc5(m.reset_save()),
        }
    }

    /// What loading a save gives: only a battery-backed RAM takes one, and only of its own length.
    pub open spec fn load_result(self, bytes: Seq<u8>) -> Result<(), RamLoadError> {
        load_outcome(self.has_battery(), self.ram().len(), bytes.len())
    }

    /// The size of the save: the length of the RAM, for a battery-backed one.
    pub open spec fn save_size(self) -> Option<usize> {
        save_size_of(self.has_battery(), self.ram())
    }

    /// The save: the RAM, for a battery-backed one.
    pub open spec fn save(self) -> Result<Seq<u8>, RamSaveError> {
        save_of(self.has_battery(), self.ram())
    }

    /// The circuit for an image at power-on, as its header asks: a model of
    /// the circuit where there is one, else the null circuit.
    pub open spec fn power_on(rom: Seq<u8>, info: InfoModel) -> MapperModel {
        match info.mapper {
            MapperType::Rom => MapperModel::Rom(rom),
            MapperType::Mbc1 => MapperModel::Mbc1(Mbc1Model::power_on(rom, info)),
            MapperType::Mbc2 => MapperModel::Mbc2(Mbc2Model::power_on(rom, info)),
            MapperType::Mbc3 => MapperModel::Mbc3(Mbc3Model::power_on(rom, info)),
            MapperType::Mbc5 => MapperModel::Mbc5(Mbc5Model::power_on(rom, info)),
            _ => MapperModel::Null,
        }
    }

    /// The bank that the registers select for the switchable ROM window.
    pub open spec fn chosen_rom_bank(self) -> nat {
        match self {
            MapperModel::Mbc1(m) => m.bank(),
            MapperModel::Mbc2(m) => m.bank as nat,
            MapperModel::Mbc3(m) => m.rom_bank as nat,
            MapperModel::Mbc5(m) => m.rom_bank(),
            _ => 1,
        }
    }

    /// The bank that the registers select for the RAM window.
    pub open spec fn chosen_ram_bank(self) -> nat {
        match self {
            MapperModel::Mbc1(m) => m.chosen_ram_bank(),
            MapperModel::Mbc3(m) => m.chosen_ram_bank(),
            MapperModel::Mbc5(m) => m.ram_bank as nat,
            _ => 0,
        }
    }

    /// Whether the circuit switches banks.
    pub open spec fn is_banked(self) -> bool {
        self is Mbc1 || self is Mbc2 || self is Mbc3 || self is Mbc5
    }

    /// The state after the writes of `writes`, one after the other; each is
    /// an address in the ROM or RAM window and a value.
    pub open spec fn after_writes(self, writes: Seq<(u16, u8)>) -> MapperModel
        decreases writes.len(),
    {
        if writes.len() == 0 {
            self
        } else {
            let w = writes.last();
            let before = self.after_writes(writes.drop_last());
            if w.0 < 0x8000 {
                before.rom_write(w.0, w.1)
            } else {
                before.ram_write(w.0, w.1)
            }
        }
    }

    /// The bytes that reads of 0x0000 up to the end of the header fields give.
    pub open spec fn visible_header(self) -> Seq<u8> {
        Seq::new(0x014D, |i: int| self.rom_read(i as u16))
    }

    /// The checksum over the header as reads show it.
    pub open spec fn header_checksum(self) -> u8 {
        checksum_upto(self.visible_header(), 0x014D)
    }
}

/// Any of the bank-switching circuits.
pub enum Mapper {
    Null(NullMapper),
    Rom(Rom),
    Mbc1(Mbc1),
    Mbc2(Mbc2),
    Mbc3(Mbc3),
    Mbc5(Mbc5),
}

impl View for Mapper {
    type V = MapperModel;

    open spec fn view(&self) -> MapperModel {
        match self {
            Mapper::Null(_) => MapperModel::Null,
            Mapper::Rom(m) => MapperModel::Rom(m@),
            Mapper::Mbc1(m) => MapperModel::Mbc1(m@),
            Mapper::Mbc2(m) => MapperModel::Mbc2(m@),
            Mapper::Mbc3(m) => MapperModel::Mbc3(m@),
            Mapper::Mbc5(m) => MapperModel::Mbc5(m@),
        }
    }
}

/// The circuit that a header asks for, where there is a model of it.
pub open spec fn supported(mapper: MapperType) -> bool {
    mapper == MapperType::Rom || mapper == MapperType::Mbc1 || mapper == MapperType::Mbc2 || mapper
        == MapperType::Mbc3 || mapper == MapperType::Mbc5
}

impl Mapper {
    /// The model is in order, and so is what the circuit keeps beside it.
    pub open spec fn wf(&self) -> bool {
        match self {
            Mapper::Null(_) => true,
            Mapper::Rom(_) => true,
            Mapper::Mbc1(m) => m.wf(),
            Mapper::Mbc2(m) => m.wf(),
            Mapper::Mbc3(m) => m.wf(),
            Mapper::Mbc5(m) => m.wf(),
        }
    }

    /// The registers go back to their power-on values; the RAM is cleared
    /// unless a battery keeps it.
    pub fn reset(&mut self)
        requires
            old(self).wf(),
        ensures
            final(self).wf(),
            final(self)@ == old(self)@.reset(),
    {
        match self {
            Mapper::Null(m) => m.reset(),
            Mapper::Rom(m) => m.reset(),
            Mapper::Mbc1(m) => m.reset(),
            Mapper::Mbc2(m) => m.reset(),
            Mapper::Mbc3(m) => m.reset(),
            Mapper::Mbc5(m) => m.reset(),
        }
    }

    /// Reads a byte in the ROM window.
    pub fn rom_b(&self, address: u16) -> (value: u8)
        requires
            self.wf(),
            address < 0x8000,
        ensures
            value == self@.rom_read(address),
    {
        match self {
            Mapper::Null(m) => m.rom_b(address),
            Mapper::Rom(m) => m.rom_b(address),
            Mapper::Mbc1(m) => m.rom_b(address),
            Mapper::Mbc2(m) => m.rom_b(address),
            Mapper::Mbc3(m) => m.rom_b(address),
            Mapper::Mbc5(m) => m.rom_b(address),
        }
    }

    /// Writes in the ROM window, where the registers of the circuit stand.
    pub fn rom_wb(&mut self, address: u16, value: u8)
        requires
            old(self).wf(),
            address < 0x8000,
        ensures
            final(self).wf(),
            final(self)@ == old(self)@.rom_write(address, value),
    {
        match self {
            Mapper::Null(m) => m.rom_wb(address, value),
            Mapper::Rom(m) => m.rom_wb(address, value),
            Mapper::Mbc1(m) => m.rom_wb(address, value),
            Mapper::Mbc2(m) => m.rom_wb(address, value),
            Mapper::Mbc3(m) => m.rom_wb(address, value),
            Mapper::Mbc5(m) => m.rom_wb(address, value),
        }
    }

    /// Reads a byte in the RAM window.
    pub fn ram_b(&self, address: u16) -> (value: u8)
        requires
            self.wf(),
            0xA000 <= address < 0xC000,
        ensures
            value == self@.ram_read(address),
    {
        match self {
            Mapper::Null(m) => m.ram_b(address),
            Mapper::Rom(m) => m.ram_b(address),
            Mapper::Mbc1(m) => m.ram_b(address),
            Mapper::Mbc2(m) => m.ram_b(address),
            Mapper::Mbc3(m) => m.ram_b(address),
            Mapper::Mbc5(m) => m.ram_b(address),
        }
    }

    /// Writes a byte in the RAM window.
    pub fn ram_wb(&mut self, address: u16, value: u8)
        requires
            old(self).wf(),
            0xA000 <= address < 0xC000,
        ensures
            final(self).wf(),
            final(self)@ == old(self)@.ram_write(address, value),
    {
        match self {
            Mapper::Null(m) => m.ram_wb(address, value),
            Mapper::Rom(m) => m.ram_wb(address, value),
            Mapper::Mbc1(m) => m.ram_wb(address, value),
            Mapper::Mbc2(m) => m.ram_wb(address, value),
            Mapper::Mbc3(m) => m.ram_wb(address, value),
            Mapper::Mbc5(m) => m.ram_wb(address, value),
        }
    }

    /// The size of the save: present exactly for a battery-backed cartridge,
    /// and then the length of its RAM.
    pub fn save_size(&self) -> (size: Option<usize>)
        ensures
            size == self@.save_size(),
    {
        match self {
            Mapper::Null(m) => m.save_size(),
            Mapper::Rom(m) => m.save_size(),
            Mapper::Mbc1(m) => m.save_size(),
            Mapper::Mbc2(m) => m.save_size(),
            Mapper::Mbc3(m) => m.save_size(),
            Mapper::Mbc5(m) => m.save_size(),
        }
    }

    /// Takes a save as the new RAM contents: only a battery-backed cartridge
    /// takes one, and only of the length of its RAM.
    pub fn load_save(&mut self, bytes: Vec<u8>) -> (r: Result<(), RamLoadError>)
        requires
            old(self).wf(),
        ensures
            final(self).wf(),
            r == old(self)@.load_result(bytes@),
            final(self)@ == old(self)@.load_save(bytes@),
    {
        match self {
            Mapper::Null(m) => m.load_save(bytes),
            Mapper::Rom(m) => m.load_save(bytes),
            Mapper::Mbc1(m) => m.load_save(bytes),
            Mapper::Mbc2(m) => m.load_save(bytes),
            Mapper::Mbc3(m) => m.load_save(bytes),
            Mapper::Mbc5(m) => m.load_save(bytes),
        }
    }

    /// A copy of the RAM of a battery-backed cartridge.
    pub fn save_save(&self) -> (r: Result<Vec<u8>, RamSaveError>)
        ensures
            self@.save() matches Ok(ram) ==> r is Ok && r->Ok_0@ == ram,
            self@.save() matches Err(e) ==> r == Err::<Vec<u8>, RamSaveError>(e),
    {
        match self {
            Mapper::Null(m) => m.save_save(),
            Mapper::Rom(m) => m.save_save(),
            Mapper::Mbc1(m) => m.save_save(),
            Mapper::Mbc2(m) => m.save_save(),
            Mapper::Mbc3(m) => m.save_save(),
            Mapper::Mbc5(m) => m.save_save(),
        }
    }

    /// Clears the RAM.
    pub fn reset_save(&mut self)
        requires
            old(self).wf(),
        ensures
            final(self).wf(),
            final(self)@ == old(self)@.reset_save(),
    {
        match self {
            Mapper::Null(m) => m.reset_save(),
            Mapper::Rom(m) => m.reset_save(),
            Mapper::Mbc1(m) => m.reset_save(),
            Mapper::Mbc2(m) => m.reset_save(),
            Mapper::Mbc3(m) => m.reset_save(),
            Mapper::Mbc5(m) => m.reset_save(),
        }
    }

    /// The checksum over the header bytes 0x0134 to 0x014C as reads show them.
    pub fn calculate_header_checksum(&self) -> (checksum: u8)
        requires
            self.wf(),
        ensures
            checksum == self@.header_checksum(),
    {
        let mut checksum: u8 = 0;
        let mut index: u16 = 0x0134;
        while index < 0x014D
            invariant
                0x0134 <= index <= 0x014D,
                self.wf(),
                checksum == checksum_upto(self@.visible_header(), index as int),
            decreases 0x014D - index,
        {
            checksum = checksum.wrapping_sub(self.rom_b(index)).wrapping_sub(1);
            index = index + 1;
        }
        checksum
    }
}

/// The circuit for an image, as its header asks: a model of the circuit
/// where there is one, else the null circuit.
pub fn new(bytes: Vec<u8>, info: &CartridgeInfo) -> (m: Mapper)
    requires
        info.mapper == MapperType::Mbc1 ==> rom_size_fits(info.rom_size),
    ensures
        m.wf(),
        m@ == MapperModel::power_on(bytes@, info@),
{
    match info.mapper {
        MapperType::Rom => Mapper::Rom(Rom::new(bytes)),
        MapperType::Mbc1 => Mapper::Mbc1(Mbc1::new(bytes, info)),
        MapperType::Mbc2 => Mapper::Mbc2(Mbc2::new(bytes, info)),
        MapperType::Mbc3 => Mapper::Mbc3(Mbc3::new(bytes, info)),
        MapperType::Mbc5 => Mapper::Mbc5(Mbc5::new(bytes, info)),
        _ => Mapper::Null(NullMapper::new()),
    }
}

/// A cheat device over the given circuit, with the device's own image.
pub fn new_genie(genie_bytes: Vec<u8>, genie_info: &CartridgeInfo, mapper: Mapper) -> (g: GameGenie)
    requires
        mapper.wf(),
    ensures
        g.wf(),
        g@ == GenieModel::power_on(genie_bytes@, genie_info.rom_size as nat, mapper@),
{
    GameGenie::new(genie_bytes, genie_info, mapper)
}

/// Whatever has been written to the registers of a bank-switching circuit, a
/// read of the switchable ROM window comes from the chosen bank modulo the
/// number of banks present, and that bank is one of those present.
pub proof fn law_rom_bank_is_chosen_modulo_count(m: MapperModel, address: u16)
    requires
        m.is_banked(),
        0x4000 <= address < 0x8000,
    ensures
        effective_bank(m.chosen_rom_bank(), m.rom().len(), 0x4000) == m.chosen_rom_bank()
            % bank_count(m.rom().len(), 0x4000),
        effective_bank(m.chosen_rom_bank(), m.rom().len(), 0x4000) < bank_count(
            m.rom().len(),
            0x4000,
        ),
        m.rom_read(address) == byte_at(
            m.rom(),
            effective_bank(m.chosen_rom_bank(), m.rom().len(), 0x4000) * 0x4000 + (address
                - 0x4000),
        ),
{
}

/// Whether the RAM window shows a bank of RAM: the RAM is enabled, and on
/// an MBC3 a RAM bank is selected.
pub open spec fn shows_ram_bank(m: MapperModel) -> bool {
    match m {
        MapperModel::Mbc1(s) => s.ram_enable,
        MapperModel::Mbc3(s) => s.ram_rtc_enable && s.mode is Bank,
        MapperModel::Mbc5(s) => s.ram_enable,
        _ => false,
    }
}

/// A read of the RAM window, where it shows a bank of RAM, comes from the
/// chosen RAM bank modulo the number of RAM banks present.
pub proof fn law_ram_bank_is_chosen_modulo_count(m: MapperModel, address: u16)
    requires
        shows_ram_bank(m),
        0xA000 <= address < 0xC000,
    ensures
        effective_bank(m.chosen_ram_bank(), m.ram().len(), 0x2000) < bank_count(
            m.ram().len(),
            0x2000,
        ),
        m.ram_read(address) == byte_at(
            m.ram(),
            (m.chosen_ram_bank() % bank_count(m.ram().len(), 0x2000)) * 0x2000 + (address
                - 0xA000),
        ),
{
    match m {
        MapperModel::Mbc3(s) => {
            assert(s.ram_read(address) == byte_at(s.ram, s.ram_index(address)));
        },
        _ => {},
    }
}

/// No sequence of writes changes the image or the kind of circuit, nor takes
/// the registers out of their widths.
pub proof fn law_writes_keep_image(m: MapperModel, writes: Seq<(u16, u8)>)
    requires
        m.wf(),
        forall|i: int| 0 <= i < writes.len() ==> in_rom_window(#[trigger] writes[i].0)
            || in_ram_window(writes[i].0),
    ensures
        m.after_writes(writes).wf(),
        m.after_writes(writes).rom() == m.rom(),
        m.after_writes(writes).is_banked() == m.is_banked(),
        m.after_writes(writes).ram().len() == m.ram().len(),
    decreases writes.len(),
{
    if writes.len() > 0 {
        let w = writes.last();
        law_writes_keep_image(m, writes.drop_last());
        lemma_and_bounds(w.1, 0b1_1111);
        lemma_and_bounds(w.1, 0b11);
        lemma_and_bounds(w.1, 0x0F);
        lemma_and_bounds(w.1, 0x7F);
        match m.after_writes(writes.drop_last()) {
            MapperModel::Mbc1(s) => {
                lemma_and_bounds(
                    if w.1 & 0b1_1111 == 0 {
                        1u8
                    } else {
                        w.1 & 0b1_1111
                    },
                    s.bank_mask,
                );
            },
            _ => {},
        }
    }
}

/// Loading a save of the RAM's length into a battery-backed cartridge
/// succeeds, and the save taken afterwards is the one loaded.
pub proof fn law_save_round_trip(m: MapperModel, bytes: Seq<u8>)
    requires
        m.has_battery(),
        bytes.len() == m.ram().len(),
    ensures
        m.load_result(bytes) is Ok,
        m.load_save(bytes).save() == Ok::<Seq<u8>, RamSaveError>(bytes),
        m.load_save(bytes).save_size() == Some(bytes.len() as usize),
{
}

/// The checksum of a header is 256 minus its bytes and their number, modulo 256.
pub proof fn law_checksum_is_negated_sum(bytes: Seq<u8>, end: int)
    requires
        0x0134 <= end <= bytes.len(),
    ensures
        checksum_upto(bytes, end) == (-(byte_sum(bytes, 0x0134, end) + (end - 0x0134))) % 256,
    decreases end,
{
    if end > 0x0134 {
        law_checksum_is_negated_sum(bytes, end - 1);
    }
}

/// Whether reads of the fixed ROM window show the image itself from its
/// first byte on: always, but for an MBC1 in the advanced mode, and for the
/// null circuit, which shows no image.
pub open spec fn shows_image(m: MapperModel) -> bool {
    match m {
        MapperModel::Null => false,
        MapperModel::Mbc1(s) => s.mode == crate::cart::mapper::mbc1::BankingMode::Simple,
        _ => true,
    }
}

/// The checksum that a circuit computes over the header of its image is 256
/// minus the sum of the header bytes 0x0134 to 0x014C and their number, 25,
/// modulo 256.
pub proof fn law_header_checksum_of_image(m: MapperModel)
    requires
        shows_image(m),
        m.rom().len() >= 0x014D,
    ensures
        m.header_checksum() == (-(byte_sum(m.rom(), 0x0134, 0x014D) + 25)) % 256,
{
    lemma_checksum_of_equal_headers(m.visible_header(), m.rom(), 0x014D);
    law_checksum_is_negated_sum(m.rom(), 0x014D);
}

/// The checksum looks at the header bytes only.
proof fn lemma_checksum_of_equal_headers(a: Seq<u8>, b: Seq<u8>, end: int)
    requires
        0x0134 <= end <= a.len(),
        end <= b.len(),
        forall|i: int| 0x0134 <= i < end ==> a[i] == b[i],
    ensures
        checksum_upto(a, end) == checksum_upto(b, end),
    decreases end,
{
    if end > 0x0134 {
        lemma_checksum_of_equal_headers(a, b, end - 1);
    }
}

/// The sum of the bytes from `begin` up to `end`.
pub open spec fn byte_sum(bytes: Seq<u8>, begin: int, end: int) -> int
    decreases end - begin,
{
    if end <= begin {
        0
    } else {
        byte_sum(bytes, begin, end - 1) + bytes[end - 1]
    }
}

} // verus!
