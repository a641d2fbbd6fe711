//! A cartridge without bank switching: the image stands at 0x0000 as it is.

use crate::cart::mapper::byte_at;
use crate::cart::mapper::read_byte;
use crate::cart::mapper::RamLoadError;
use crate::cart::mapper::RamSaveError;
use vstd::prelude::*;

verus! {

/// The image of a cartridge without bank switching.
pub struct Rom {
    rom: Vec<u8>,
}

impl View for Rom {
    type V = Seq<u8>;

    closed spec fn view(&self) -> Seq<u8> {
        self.rom@
    }
}

impl Rom {
    /// A cartridge of the given image.
    pub fn new(rom: Vec<u8>) -> (r: Rom)
        ensures
            r@ == rom@,
    {
        Rom { rom }
    }

    /// Back to the power-on state.
    pub fn reset(&mut self)
        ensures
            final(self)@ == old(self)@,
    {
    }

    /// There is no RAM, so there is no save and no size of one.
    pub fn save_size(&self) -> (size: Option<usize>)
        ensures
            size is None,
    {
        None
    }

    /// There is no RAM, so no save is taken: always refused.
    pub fn load_save(&mut self, bytes: Vec<u8>) -> (r: Result<(), RamLoadError>)
        ensures
            r == Err::<(), RamLoadError>(RamLoadError::Incompatible),
            final(self)@ == old(self)@,
    {
        Err(RamLoadError::Incompatible)
    }

    /// There is no RAM, so there is no save to take: always refused.
    pub fn save_save(&self) -> (r: Result<Vec<u8>, RamSaveError>)
        ensures
            r == Err::<Vec<u8>, RamSaveError>(RamSaveError::Incompatible),
    {
        Err(RamSaveError::Incompatible)
    }

    /// Clears the RAM.
    pub fn reset_save(&mut self)
        ensures
            final(self)@ == old(self)@,
    {
    }

    /// Reads a byte in the ROM window.
    pub fn rom_b(&self, address: u16) -> (value: u8)
        ensures
            value == byte_at(self@, address as int),
    {
        read_byte(&self.rom, address as usize)
    }

    /// The image cannot be written.
    pub fn rom_wb(&mut self, address: u16, value: u8)
        ensures
            final(self)@ == old(self)@,
    {
    }

    /// There is no RAM: every read gives zero.
    pub fn ram_b(&self, address: u16) -> (value: u8)
        ensures
            value == 0x00,
    {
        0x00
    }

    /// Writes a byte in the RAM window.
    pub fn ram_wb(&mut self, address: u16, value: u8)
        ensures
            final(self)@ == old(self)@,
    {
    }
}

} // verus!
