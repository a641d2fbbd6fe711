//! The circuit that stands in for a cartridge type without a model: every read gives 0xFF.

use crate::cart::mapper::RamLoadError;
use crate::cart::mapper::RamSaveError;
use vstd::prelude::*;

verus! {

/// The circuit without an image.
pub struct NullMapper;

impl NullMapper {
    /// The circuit without an image.
    pub fn new() -> NullMapper {
        NullMapper
    }

    /// Back to the power-on state.
    pub fn reset(&mut self) {
    }

    /// The circuit has no RAM, so there is no save and no size of one.
    pub fn save_size(&self) -> (size: Option<usize>)
        ensures
            size is None,
    {
        None
    }

    /// The circuit has no RAM, so no save is taken: always refused.
    pub fn load_save(&mut self, bytes: Vec<u8>) -> (r: Result<(), RamLoadError>)
        ensures
            r == Err::<(), RamLoadError>(RamLoadError::Incompatible),
    {
        Err(RamLoadError::Incompatible)
    }

    /// The circuit has no RAM, so there is no save to take: always refused.
    pub fn save_save(&self) -> (r: Result<Vec<u8>, RamSaveError>)
        ensures
            r == Err::<Vec<u8>, RamSaveError>(RamSaveError::Incompatible),
    {
        Err(RamSaveError::Incompatible)
    }

    /// Clears the RAM.
    pub fn reset_save(&mut self) {
    }

    /// Reads a byte in the ROM window.
    pub fn rom_b(&self, address: u16) -> (value: u8)
        ensures
            value == 0xFF,
    {
        0xFF
    }

    /// Writes in the ROM window, where the registers of the circuit stand.
    pub fn rom_wb(&mut self, address: u16, value: u8) {
    }

    /// Reads a byte in the RAM window.
    pub fn ram_b(&self, address: u16) -> (value: u8)
        ensures
            value == 0xFF,
    {
        0xFF
    }

    /// Writes a byte in the RAM window.
    pub fn ram_wb(&mut self, address: u16, value: u8) {
    }
}

} // verus!
