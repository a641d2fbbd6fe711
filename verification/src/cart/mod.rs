//! The cartridge: its header and the circuit that answers reads and writes,
//! with or without a cheat device in between.

use crate::cart::info::checksum_upto;
use crate::cart::info::fault_text;
use crate::cart::info::header_fault;
use crate::cart::info::header_fields;
use crate::cart::info::CartridgeInfo;
use crate::cart::info::CartridgeInfoError;
use crate::cart::info::InfoModel;
use crate::cart::mapper::game_genie::GameGenie;
use crate::cart::mapper::game_genie::GenieModel;
use crate::cart::mapper::mbc1::rom_size_fits;
use crate::cart::mapper::Mapper;
use crate::cart::mapper::MapperModel;
use crate::cart::mapper::MapperType;
use crate::cart::mapper::RamLoadError;
use crate::cart::mapper::RamSaveError;
use vstd::prelude::*;

pub mod info;
pub mod mapper;

verus! {

/// Why a cartridge could not be made of an image.
#[derive(Clone, Copy, Debug, PartialEq, Eq, Structural)]
pub enum CartridgeError {
    /// The header is refused.
    CartridgeInfo(CartridgeInfoError),
}

/// What sits in the cartridge slot, as plain values.
pub enum SlotModel {
    /// A cartridge.
    Direct(MapperModel),
    /// A cheat device with a cartridge in it.
    Genie(GenieModel),
}

impl SlotModel {
    /// What sits in the slot is in order.
    pub open spec fn wf(self) -> bool {
        match self {
            SlotModel::Direct(m) => m.wf(),
            SlotModel::Genie(g) => g.wf(),
        }
    }

    /// The circuit of the cartridge itself.
    pub open spec fn cartridge(self) -> MapperModel {
        match self {
            SlotModel::Direct(m) => m,
            SlotModel::Genie(g) => g.inner,
        }
    }

    /// What the ROM window shows at an address in the present state.
    pub open spec fn visible(self, address: u16) -> u8
        recommends
            address < 0x8000,
    {
        match self {
            SlotModel::Direct(m) => m.rom_read(address),
            SlotModel::Genie(g) => g.visible(address),
        }
    }

    /// The value that a read in the ROM window gives.
    pub open spec fn rom_read(self, address: u16) -> u8
        recommends
            address < 0x8000,
    {
        match self {
            SlotModel::Direct(m) => m.rom_read(address),
            SlotModel::Genie(g) => g.rom_read(address),
        }
    }

    /// The state after a read in the ROM window: only a cheat device takes note of reads.
    pub open spec fn after_rom_read(self, address: u16) -> SlotModel
        recommends
            address < 0x8000,
    {
        match self {
            SlotModel::Direct(m) => self,
            SlotModel::Genie(g) => SlotModel::Genie(g.after_rom_read(address)),
        }
    }

    /// The state after a write in the ROM window.
    pub open spec fn rom_write(self, address: u16, value: u8) -> SlotModel
        recommends
            address < 0x8000,
    {
        match self {
            SlotModel::Direct(m) => SlotModel::Direct(m.rom_write(address, value)),
            SlotModel::Genie(g) => SlotModel::Genie(g.rom_write(address, value)),
        }
    }

    /// The value that a read in the RAM window gives.
    pub open spec fn ram_read(self, address: u16) -> u8
        recommends
            0xA000 <= address < 0xC000,
    {
        match self {
            SlotModel::Direct(m) => m.ram_read(address),
            SlotModel::Genie(g) => g.ram_read(address),
        }
    }

    /// The state after a write in the RAM window.
    pub open spec fn ram_write(self, address: u16, value: u8) -> SlotModel
        recommends
            0xA000 <= address < 0xC000,
    {
        match self {
            SlotModel::Direct(m) => SlotModel::Direct(m.ram_write(address, value)),
            SlotModel::Genie(g) => SlotModel::Genie(g.ram_write(address, value)),
        }
    }

    /// Back to the power-on state.
    pub open spec fn reset(self) -> SlotModel {
        match self {
            SlotModel::Direct(m) => SlotModel::Direct(m.reset()),
            SlotModel::Genie(g) => SlotModel::Genie(g.reset()),
        }
    }

    /// The state with another circuit state for the cartridge itself.
    pub open spec fn with_cartridge(self, m: MapperModel) -> SlotModel {
        match self {
            SlotModel::Direct(_) => SlotModel::Direct(m),
            SlotModel::Genie(g) => SlotModel::Genie(GenieModel { inner: m, ..g }),
        }
    }

    /// The checksum over the header bytes as the ROM window shows them.
    pub open spec fn header_checksum(self) -> u8 {
        checksum_upto(Seq::new(0x014D, |i: int| self.visible(i as u16)), 0x014D)
    }
}

/// A cartridge as plain values: what sits in the slot, and the header of the cartridge.
pub struct CartModel {
    pub slot: SlotModel,
    pub info: InfoModel,
}

/// What sits in the cartridge slot.
pub enum Slot {
    Direct(Mapper),
    Genie(GameGenie),
}

impl View for Slot {
    type V = SlotModel;

    open spec fn view(&self) -> SlotModel {
        match self {
            Slot::Direct(m) => SlotModel::Direct(m@),
            Slot::Genie(g) => SlotModel::Genie(g@),
        }
    }
}

impl Slot {
    /// What sits in the slot is in order.
    pub open spec fn wf(&self) -> bool {
        match self {
            Slot::Direct(m) => m.wf(),
            Slot::Genie(g) => g.wf(),
        }
    }
}

/// A cartridge: what sits in the slot, and the header of the cartridge.
pub struct Cartridge {
    mapper: Slot,
    pub info: CartridgeInfo,
}

impl View for Cartridge {
    type V = CartModel;

    closed spec fn view(&self) -> CartModel {
        CartModel { slot: self.mapper@, info: self.info@ }
    }
}

/// The reason for which an image is refused as a cartridge, if any: a header
/// that is refused, or an MBC1 with more ROM than it can address.
pub open spec fn cartridge_fault(bytes: Seq<u8>) -> Option<CartridgeError> {
    match header_fault(bytes) {
        Some(e) => Some(CartridgeError::CartridgeInfo(e)),
        None => if header_fields(bytes).mapper == MapperType::Mbc1 && !rom_size_fits(
            header_fields(bytes).rom_size,
        ) {
            Some(CartridgeError::CartridgeInfo(CartridgeInfoError::InvalidRom))
        } else {
            None
        },
    }
}

impl Cartridge {
    /// What sits in the slot is in order.
    pub closed spec fn slot_wf(&self) -> bool {
        self.mapper.wf()
    }

    /// The state is in order, and so is what the cartridge keeps beside it.
    pub open spec fn wf(&self) -> bool {
        &&& self@.slot.wf()
        &&& self.slot_wf()
    }

    fn load_cart(bytes: &Vec<u8>) -> (r: Result<CartridgeInfo, CartridgeError>)
        ensures
            cartridge_fault(bytes@) matches Some(e) ==> r == Err::<CartridgeInfo, CartridgeError>(e),
            cartridge_fault(bytes@) is None ==> r is Ok && r->Ok_0@ == header_fields(bytes@),
    {
        let info = match CartridgeInfo::new_from_cartridge(bytes) {
            Ok(i) => i,
            Err(e) => {
                return Err(CartridgeError::CartridgeInfo(e));
            },
        };
        match info.mapper {
            MapperType::Mbc1 => {
                let kib: usize = info.rom_size / 1024;
                if !(kib == 32 || kib == 64 || kib == 128 || kib == 256 || kib == 512 || kib == 1024
                    || kib == 2048) {
                    return Err(CartridgeError::CartridgeInfo(CartridgeInfoError::InvalidRom));
                }
            },
            _ => {},
        }
        Ok(info)
    }

    /// The cartridge of the given image, in its power-on state.
    pub fn new(bytes: Vec<u8>) -> (r: Result<Cartridge, CartridgeError>)
        ensures
            cartridge_fault(bytes@) matches Some(e) ==> r == Err::<Cartridge, CartridgeError>(e),
            cartridge_fault(bytes@) is None ==> r is Ok && r->Ok_0.wf() && r->Ok_0@ == (CartModel {
                slot: SlotModel::Direct(MapperModel::power_on(bytes@, header_fields(bytes@))),
                info: header_fields(bytes@),
            }),
    {
        let info = match Cartridge::load_cart(&bytes) {
            Ok(i) => i,
            Err(e) => {
                return Err(e);
            },
        };
        let mapper = crate::cart::mapper::new(bytes, &info);
        Ok(Cartridge { mapper: Slot::Direct(mapper), info })
    }

    /// The cartridge of the given image inside the cheat device of the
    /// second image. The cartridge's image is looked at first.
    pub fn new_genie(bytes: Vec<u8>, genie_bytes: Vec<u8>) -> (r: Result<Cartridge, CartridgeError>)
        ensures
            cartridge_fault(bytes@) matches Some(e) ==> r == Err::<Cartridge, CartridgeError>(e),
            cartridge_fault(bytes@) is None ==> (cartridge_fault(genie_bytes@) matches Some(e)
                ==> r == Err::<Cartridge, CartridgeError>(e)),
            cartridge_fault(bytes@) is None && cartridge_fault(genie_bytes@) is None ==> r is Ok
                && r->Ok_0.wf() && r->Ok_0@ == (CartModel {
                slot: SlotModel::Genie(
                    GenieModel::power_on(
                        genie_bytes@,
                        header_fields(genie_bytes@).rom_size as nat,
                        MapperModel::power_on(bytes@, header_fields(bytes@)),
                    ),
                ),
                info: header_fields(bytes@),
            }),
    {
        let cart_info = match Cartridge::load_cart(&bytes) {
            Ok(i) => i,
            Err(e) => {
                return Err(e);
            },
        };
        let cart_mapper = crate::cart::mapper::new(bytes, &cart_info);
        let genie_info = match Cartridge::load_cart(&genie_bytes) {
            Ok(i) => i,
            Err(e) => {
                return Err(e);
            },
        };
        let genie = crate::cart::mapper::new_genie(genie_bytes, &genie_info, cart_mapper);
        Ok(Cartridge { mapper: Slot::Genie(genie), info: cart_info })
    }

    /// The header of the cartridge.
    pub fn header(&self) -> (info: &CartridgeInfo)
        ensures
            info@ == self@.info,
    {
        &self.info
    }

    /// Back to the power-on state.
    pub fn reset(&mut self)
        requires
            old(self).wf(),
        ensures
            final(self).wf(),
            final(self)@ == (CartModel { slot: old(self)@.slot.reset(), ..old(self)@ }),
    {
        match &mut self.mapper {
            Slot::Direct(m) => m.reset(),
            Slot::Genie(g) => g.reset(),
        }
    }

    /// Whether the checksum over the header, as the ROM window shows it now,
    /// is the one that the header holds.
    pub fn header_checksum(&self) -> (matches: bool)
        requires
            self.wf(),
        ensures
            matches == (self@.slot.header_checksum() == self@.info.header_checksum),
    {
        let mut checksum: u8 = 0;
        let mut index: u16 = 0x0134;
        let ghost shown = Seq::new(0x014D, |i: int| self@.slot.visible(i as u16));
        while index < 0x014D
            invariant
                0x0134 <= index <= 0x014D,
                self.wf(),
                shown == Seq::new(0x014D, |i: int| self@.slot.visible(i as u16)),
                checksum == checksum_upto(shown, index as int),
            decreases 0x014D - index,
        {
            let byte: u8 = match &self.mapper {
                Slot::Direct(m) => m.rom_b(index),
                Slot::Genie(g) => g.peek(index),
            };
            checksum = checksum.wrapping_sub(byte).wrapping_sub(1);
            index = index + 1;
        }
        checksum == self.info.header_checksum
    }

    /// Reads a byte in the ROM window.
    pub fn rom_b(&mut self, address: u16) -> (value: u8)
        requires
            old(self).wf(),
            address < 0x8000,
        ensures
            final(self).wf(),
            value == old(self)@.slot.rom_read(address),
            final(self)@ == (CartModel {
                slot: old(self)@.slot.after_rom_read(address),
                ..old(self)@
            }),
    {
        match &mut self.mapper {
            Slot::Direct(m) => m.rom_b(address),
            Slot::Genie(g) => g.rom_b(address),
        }
    }

    /// What a read in the ROM window would give, for an address other than
    /// the entry point: such a read leaves no trace.
    pub fn rom_peek(&self, address: u16) -> (value: u8)
        requires
            self.wf(),
            address < 0x8000,
        ensures
            value == self@.slot.visible(address),
    {
        match &self.mapper {
            Slot::Direct(m) => m.rom_b(address),
            Slot::Genie(g) => g.peek(address),
        }
    }

    /// Writes in the ROM window, where the registers of the circuit stand.
    pub fn rom_wb(&mut self, address: u16, value: u8)
        requires
            old(self).wf(),
            address < 0x8000,
        ensures
            final(self).wf(),
            final(self)@ == (CartModel {
                slot: old(self)@.slot.rom_write(address, value),
                ..old(self)@
            }),
    {
        match &mut self.mapper {
            Slot::Direct(m) => m.rom_wb(address, value),
            Slot::Genie(g) => g.rom_wb(address, value),
        }
    }

    /// Reads a byte in the RAM window.
    pub fn ram_b(&self, address: u16) -> (value: u8)
        requires
            self.wf(),
            0xA000 <= address < 0xC000,
        ensures
            value == self@.slot.ram_read(address),
    {
        match &self.mapper {
            Slot::Direct(m) => m.ram_b(address),
            Slot::Genie(g) => g.ram_b(address),
        }
    }

    /// Writes a byte in the RAM window.
    pub fn ram_wb(&mut self, address: u16, value: u8)
        requires
            old(self).wf(),
            0xA000 <= address < 0xC000,
        ensures
            final(self).wf(),
            final(self)@ == (CartModel {
                slot: old(self)@.slot.ram_write(address, value),
                ..old(self)@
            }),
    {
        match &mut self.mapper {
            Slot::Direct(m) => m.ram_wb(address, value),
            Slot::Genie(g) => g.ram_wb(address, value),
        }
    }

    /// The size of the save: present exactly for a battery-backed cartridge,
    /// and then the length of its RAM.
    pub fn save_size(&self) -> (size: Option<usize>)
        ensures
            size == self@.slot.cartridge().save_size(),
    {
        match &self.mapper {
            Slot::Direct(m) => m.save_size(),
            Slot::Genie(g) => g.save_size(),
        }
    }

    /// Takes a save as the new RAM contents: only a battery-backed cartridge
    /// takes one, and only of the length of its RAM.
    pub fn load_save(&mut self, bytes: Vec<u8>) -> (r: Result<(), RamLoadError>)
        requires
            old(self).wf(),
        ensures
            final(self).wf(),
            r == old(self)@.slot.cartridge().load_result(bytes@),
            final(self)@ == (CartModel {
                slot: old(self)@.slot.with_cartridge(
                    old(self)@.slot.cartridge().load_save(bytes@),
                ),
                ..old(self)@
            }),
    {
        match &mut self.mapper {
            Slot::Direct(m) => m.load_save(bytes),
            Slot::Genie(g) => g.load_save(bytes),
        }
    }

    /// A copy of the RAM of a battery-backed cartridge.
    pub fn save_save(&self) -> (r: Result<Vec<u8>, RamSaveError>)
        ensures
            self@.slot.cartridge().save() matches Ok(ram) ==> r is Ok && r->Ok_0@ == ram,
            self@.slot.cartridge().save() matches Err(e) ==> r == Err::<Vec<u8>, RamSaveError>(e),
    {
        match &self.mapper {
            Slot::Direct(m) => m.save_save(),
            Slot::Genie(g) => g.save_save(),
        }
    }
}

impl CartridgeError {
    /// The reason in words.
    pub fn message(&self) -> (s: String)
        ensures
            s@ == (match *self {
                CartridgeError::CartridgeInfo(e) => fault_text(e),
            }),
    {
        match self {
            CartridgeError::CartridgeInfo(e) => e.message(),
        }
    }
}

} // verus!
