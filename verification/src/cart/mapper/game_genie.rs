//! A cheat device between the console and a cartridge. It shows its own
//! program first; once that has handed over, reads go to the cartridge, and
//! up to three of them are answered with a replacement byte.

use crate::cart::info::CartridgeInfo;
use crate::cart::mapper::byte_at;
use crate::cart::mapper::load_outcome;
use crate::cart::mapper::read_byte;
use crate::cart::mapper::save_size_of;
use crate::cart::mapper::Mapper;
use crate::cart::mapper::MapperModel;
use crate::cart::mapper::RamLoadError;
use crate::cart::mapper::RamSaveError;
use vstd::prelude::*;

verus! {

/// The control register of the device.
pub const CONTROL_0: u16 = 0x4000;

/// One enable bit for each of the three code slots.
pub const CODE_ENABLE: u16 = 0x4001;

/// The first byte of code slot 0.
pub const CODE_0: u16 = 0x4003;

/// The last byte of code slot 0.
pub const CODE_0_END: u16 = 0x4007;

/// The first byte of code slot 1.
pub const CODE_1: u16 = 0x4008;

/// The last byte of code slot 1.
pub const CODE_1_END: u16 = 0x400C;

/// The first byte of code slot 2.
pub const CODE_2: u16 = 0x400D;

/// The last byte of code slot 2.
pub const CODE_2_END: u16 = 0x4011;

/// A register of the device that is not modelled.
pub const CONTROL_1: u16 = 0x4012;

/// A register of the device that is not modelled.
pub const CONTROL_2: u16 = 0x4013;

/// Bytes in one code slot.
pub const CODE_SIZE: usize = 5;

/// Number of code slots.
pub const CODE_COUNT: usize = 3;

/// Bit 0 of the control register: reads and writes go to the cartridge.
pub const CART_PASSTHROUGH: u8 = 0b0000_0001;

/// Bit 1 of the control register.
pub const ACTIVITY_LIGHT: u8 = 0b0000_0010;

/// Bit 2 of the control register: the device no longer takes over at the entry point.
pub const LOCK: u8 = 0b0000_0100;

/// The address at which a cartridge program starts.
pub const ENTRY_POINT: u16 = 0x0100;

/// The compare byte that stands for "no compare".
pub const NO_COMPARE: u8 = 0xBA;

/// The control register of the device.
#[derive(Clone, Copy, Debug, PartialEq, Eq, Structural)]
pub struct GameGenieState {
    pub m_control_0: u8,
}

/// One cheat: reads of `address` give `data`, if the cartridge holds
/// `data_compare` there or no compare byte is set.
#[derive(Clone, Copy, Debug)]
pub struct GameGenieCheat {
    pub address: u16,
    pub data: u8,
    pub data_compare: Option<u8>,
}

/// The cheat that the five bytes of a slot stand for: replacement, address
/// low, address high, compare; the fifth byte is not used.
pub open spec fn cheat_of(data: u8, address_low: u8, address_high: u8, compare: u8) -> GameGenieCheat {
    GameGenieCheat {
        address: (address_high * 256 + address_low) as u16,
        data,
        data_compare: if compare == NO_COMPARE {
            None
        } else {
            Some(compare)
        },
    }
}

/// The state of the device and of the cartridge in it, as plain values.
pub struct GenieModel {
    /// The device's own image.
    pub rom: Seq<u8>,
    /// The cartridge.
    pub inner: MapperModel,
    pub control_0: u8,
    pub code_enable: u8,
    /// The fifteen bytes of the three code slots, as written.
    pub code: Seq<u8>,
    /// The three cheats in force.
    pub codes: Seq<GameGenieCheat>,
}

/// Whether an address is one of the fifteen code bytes.
pub open spec fn is_code_register(address: u16) -> bool {
    CODE_0 <= address <= CODE_2_END
}

/// The three cheats that fifteen code bytes stand for.
pub open spec fn cheats_of(code: Seq<u8>) -> Seq<GameGenieCheat> {
    Seq::new(3, |i: int| cheat_of(code[5 * i], code[5 * i + 1], code[5 * i + 2], code[5 * i + 3]))
}

/// The image, filled with zeros up to `size` where it is shorter.
pub open spec fn padded(rom: Seq<u8>, size: nat) -> Seq<u8> {
    if rom.len() < size {
        Seq::new(size, |i: int| if i < rom.len() { rom[i] } else { 0u8 })
    } else {
        rom
    }
}

impl GenieModel {
    /// The cartridge inside is in order and the three code slots are complete.
    pub open spec fn wf(self) -> bool {
        &&& self.inner.wf()
        &&& self.code.len() == 15
        &&& self.codes.len() == 3
    }

    /// The device at power-on: it passes through until the entry point is
    /// read, holds no code bytes and three empty cheats.
    pub open spec fn power_on(rom: Seq<u8>, size: nat, inner: MapperModel) -> GenieModel {
        GenieModel {
            rom: padded(rom, size),
            inner,
            control_0: 0x01,
            code_enable: 0x00,
            code: Seq::new(15, |i: int| 0u8),
            codes: Seq::new(3, |i: int| GameGenieCheat { address: 0, data: 0, data_compare: None }),
        }
    }

    /// Whether reads and writes go to the cartridge.
    pub open spec fn passthrough(self) -> bool {
        self.control_0 & CART_PASSTHROUGH != 0
    }

    /// Whether the device no longer takes over at the entry point.
    pub open spec fn locked(self) -> bool {
        self.control_0 & LOCK != 0
    }

    /// Whether slot `slot` is enabled and set for this address.
    pub open spec fn slot_hits(self, slot: int, address: u16) -> bool
        recommends
            0 <= slot < 3,
    {
        self.code_enable & (1u8 << (slot as u8)) != 0 && self.codes[slot].address == address
    }

    /// The first slot that is enabled and set for this address.
    pub open spec fn first_hit(self, address: u16) -> Option<int> {
        if self.slot_hits(0, address) {
            Some(0int)
        } else if self.slot_hits(1, address) {
            Some(1int)
        } else if self.slot_hits(2, address) {
            Some(2int)
        } else {
            None
        }
    }

    /// The replacement byte for a read of the cartridge, if a cheat applies.
    /// The first slot set for the address decides alone: where its compare
    /// byte differs from the cartridge's byte, no later slot is asked.
    pub open spec fn patch(self, address: u16) -> Option<u8>
        recommends
            address < 0x8000,
    {
        match self.first_hit(address) {
            Some(slot) => match self.codes[slot].data_compare {
                Some(expected) => if expected == self.inner.rom_read(address) {
                    Some(self.codes[slot].data)
                } else {
                    None
                },
                None => Some(self.codes[slot].data),
            },
            None => None,
        }
    }

    /// The state after a read in the ROM window has been seen: a read of the
    /// entry point makes the device take over, unless it is locked.
    pub open spec fn after_rom_read(self, address: u16) -> GenieModel {
        if address == ENTRY_POINT && self.passthrough() && !self.locked() {
            GenieModel { control_0: self.control_0 & !CART_PASSTHROUGH, ..self }
        } else {
            self
        }
    }

    /// What the ROM window shows at an address in the present state.
    pub open spec fn visible(self, address: u16) -> u8
        recommends
            address < 0x8000,
    {
        if !self.passthrough() {
            if address == CONTROL_0 {
                self.control_0 & 0b1
            } else if address == CODE_ENABLE {
                self.code_enable
            } else if is_code_register(address) {
                self.code[address - CODE_0]
            } else {
                byte_at(self.rom, address as int)
            }
        } else {
            match self.patch(address) {
                Some(data) => data,
                None => self.inner.rom_read(address),
            }
        }
    }

    /// The value that a read in the ROM window gives: what the window shows
    /// once the read has been seen.
    pub open spec fn rom_read(self, address: u16) -> u8
        recommends
            address < 0x8000,
    {
        self.after_rom_read(address).visible(address)
    }

    /// The state after a write in the ROM window: to the device's registers
    /// while it has control, else to the cartridge. A write to a code byte
    /// sets all three cheats anew from the code bytes.
    pub open spec fn rom_write(self, address: u16, value: u8) -> GenieModel
        recommends
            address < 0x8000,
    {
        if !self.passthrough() {
            if address == CONTROL_0 {
                GenieModel { control_0: value, ..self }
            } else if address == CODE_ENABLE {
                GenieModel { code_enable: value, ..self }
            } else if is_code_register(address) {
                GenieModel {
                    code: self.code.update(address - CODE_0, value),
                    codes: cheats_of(self.code.update(address - CODE_0, value)),
                    ..self
                }
            } else {
                self
            }
        } else {
            GenieModel { inner: self.inner.rom_write(address, value), ..self }
        }
    }

    /// The value that a read in the RAM window gives: the cartridge's, or 0xFF while the device has control.
    pub open spec fn ram_read(self, address: u16) -> u8
        recommends
            0xA000 <= address < 0xC000,
    {
        if self.passthrough() {
            self.inner.ram_read(address)
        } else {
            0xFF
        }
    }

    /// The state after a write in the RAM window: dropped while the device has control.
    pub open spec fn ram_write(self, address: u16, value: u8) -> GenieModel
        recommends
            0xA000 <= address < 0xC000,
    {
        if self.passthrough() {
            GenieModel { inner: self.inner.ram_write(address, value), ..self }
        } else {
            self
        }
    }

    /// The state after a reset: the cartridge is reset, the device keeps its state.
    pub open spec fn reset(self) -> GenieModel {
        GenieModel { inner: self.inner.reset(), ..self }
    }

    /// The state after the device itself was reset: no code bytes, no slot
    /// enabled, passing through again. The cheats stay until a code byte is written.
    pub open spec fn reset_genie(self) -> GenieModel {
        GenieModel {
            control_0: 0x01,
            code_enable: 0x00,
            code: Seq::new(15, |i: int| 0u8),
            ..self
        }
    }
}

impl GameGenieState {
    /// The control register at power-on: passing through, not locked.
    pub fn new() -> (s: GameGenieState)
        ensures
            s.m_control_0 == 0x01,
    {
        GameGenieState { m_control_0: 0x01 }
    }

    /// Back to the power-on state.
    pub fn reset(&mut self)
        ensures
            final(self).m_control_0 == 0x01,
    {
        self.m_control_0 = 0x01;
    }

    /// Whether a flag is set.
    pub fn get_flag(&self, flag: u8) -> (on: bool)
        ensures
            on == (self.m_control_0 & flag != 0),
    {
        self.m_control_0 & flag != 0
    }

    /// Sets or clears a flag.
    pub fn set_flag(&mut self, flag: u8, is_1: bool)
        ensures
            final(self).m_control_0 == (if is_1 {
                old(self).m_control_0 | flag
            } else {
                old(self).m_control_0 & !flag
            }),
    {
        if is_1 {
            self.m_control_0 = self.m_control_0 | flag;
        } else {
            self.m_control_0 = self.m_control_0 & !flag;
        }
    }
}

impl GameGenieCheat {
    /// Sets the cheat from the bytes of its slot.
    pub fn update_from_code(
        &mut self,
        data: u8,
        address_low: u8,
        address_high: u8,
        compare: u8,
        _verify: u8,
    )
        ensures
            *final(self) == cheat_of(data, address_low, address_high, compare),
    {
        self.data = data;
        self.address = (address_high as u16) * 256 + (address_low as u16);
        self.data_compare = if compare == NO_COMPARE {
            None
        } else {
            Some(compare)
        };
    }
}

/// The cheat device with the circuit of a cartridge in it.
pub struct GameGenie {
    rom: Vec<u8>,
    mapper: Mapper,
    state: GameGenieState,
    m_code_enable: u8,
    m_code: [u8; 15],
    codes: [GameGenieCheat; 3],
}

impl View for GameGenie {
    type V = GenieModel;

    closed spec fn view(&self) -> GenieModel {
        GenieModel {
            rom: self.rom@,
            inner: self.mapper@,
            control_0: self.state.m_control_0,
            code_enable: self.m_code_enable,
            code: self.m_code@,
            codes: self.codes@,
        }
    }
}

impl GameGenie {
    /// The circuit inside is in order.
    pub closed spec fn inner_wf(&self) -> bool {
        self.mapper.wf()
    }

    /// The state is in order, and so is the circuit inside.
    pub open spec fn wf(&self) -> bool {
        &&& self@.wf()
        &&& self.inner_wf()
    }

    /// The device over the given circuit, in its power-on state. An image
    /// shorter than its header says is filled up with zeros.
    pub fn new(rom: Vec<u8>, info: &CartridgeInfo, mapper: Mapper) -> (g: GameGenie)
        requires
            mapper.wf(),
        ensures
            g.wf(),
            g@ == GenieModel::power_on(rom@, info.rom_size as nat, mapper@),
    {
        let mut rom = rom;
        let ghost given = rom@;
        if rom.len() < info.rom_size {
            rom.resize(info.rom_size, 0);
        }
        let empty = GameGenieCheat { address: 0, data: 0, data_compare: None };
        let g = GameGenie {
            rom,
            mapper,
            state: GameGenieState::new(),
            m_code_enable: 0x00,
            m_code: [0; 15],
            codes: [empty, empty, empty],
        };
        proof {
            let want = GenieModel::power_on(given, info.rom_size as nat, mapper@);
            assert(g@.rom =~= want.rom);
            assert(g@.code =~= want.code);
            assert(g@.codes =~= want.codes);
        }
        g
    }

    /// Resets the device itself, which a reset of the console does not.
    pub fn reset_genie(&mut self)
        requires
            old(self).wf(),
        ensures
            final(self).wf(),
            final(self)@ == old(self)@.reset_genie(),
    {
        self.m_code_enable = 0x00;
        self.m_code = [0; 15];
        self.state.reset();
        assert(self@.code =~= old(self)@.reset_genie().code);
    }

    fn update_codes(&mut self)
        requires
            old(self).wf(),
        ensures
            final(self).wf(),
            final(self)@ == (GenieModel { codes: cheats_of(old(self)@.code), ..old(self)@ }),
    {
        let mut slot: usize = 0;
        while slot < 3
            invariant
                slot <= 3,
                self.wf(),
                self.rom == old(self).rom,
                self.mapper == old(self).mapper,
                self.state == old(self).state,
                self.m_code_enable == old(self).m_code_enable,
                self.m_code == old(self).m_code,
                forall|i: int| 0 <= i < slot ==> self.codes@[i] == cheats_of(old(self)@.code)[i],
            decreases 3 - slot,
        {
            let base: usize = slot * 5;
            let mut cheat = self.codes[slot];
            cheat.update_from_code(
                self.m_code[base],
                self.m_code[base + 1],
                self.m_code[base + 2],
                self.m_code[base + 3],
                self.m_code[base + 4],
            );
            self.codes[slot] = cheat;
            slot = slot + 1;
        }
        assert(self@.codes =~= cheats_of(old(self)@.code));
    }

    /// Whether a cheat answers a read of the cartridge at this address, and with what.
    pub fn matches_code(&self, address: u16) -> (r: (bool, u8))
        requires
            self.wf(),
            address < 0x8000,
        ensures
            r.0 == self@.patch(address) is Some,
            self@.patch(address) matches Some(data) ==> r.1 == data,
            self@.patch(address) is None ==> r.1 == 0,
    {
        if self.m_code_enable != 0 {
            let mut slot: usize = 0;
            while slot < 3
                invariant
                    slot <= 3,
                    self.wf(),
                    address < 0x8000,
                    forall|i: int| 0 <= i < slot ==> !self@.slot_hits(i, address),
                decreases 3 - slot,
            {
                if (self.m_code_enable & (1u8 << (slot as u8))) != 0 && self.codes[slot].address
                    == address {
                    assert(self@.slot_hits(slot as int, address));
                    assert(self@.first_hit(address) == Some(slot as int));
                    match self.codes[slot].data_compare {
                        Some(expected) => {
                            if expected == self.mapper.rom_b(address) {
                                return (true, self.codes[slot].data);
                            } else {
                                return (false, 0);
                            }
                        },
                        None => {
                            return (true, self.codes[slot].data);
                        },
                    }
                }
                slot = slot + 1;
            }
        } else {
            assert(forall|i: u8| 0 <= i < 3 ==> 0u8 & (1u8 << i) == 0) by (bit_vector);
            assert(!self@.slot_hits(0, address) && !self@.slot_hits(1, address)
                && !self@.slot_hits(2, address));
        }
        (false, 0)
    }

    /// A reset of the console resets the cartridge; the device keeps its state.
    pub fn reset(&mut self)
        requires
            old(self).wf(),
        ensures
            final(self).wf(),
            final(self)@ == old(self)@.reset(),
    {
        self.mapper.reset();
    }

    /// The size of the save: present exactly for a battery-backed cartridge.
    pub fn save_size(&self) -> (size: Option<usize>)
        ensures
            size == save_size_of(self@.inner.has_battery(), self@.inner.ram()),
    {
        self.mapper.save_size()
    }

    /// Takes a save as the new RAM contents.
    pub fn load_save(&mut self, bytes: Vec<u8>) -> (r: Result<(), RamLoadError>)
        requires
            old(self).wf(),
        ensures
            final(self).wf(),
            r == load_outcome(
                old(self)@.inner.has_battery(),
                old(self)@.inner.ram().len(),
                bytes@.len(),
            ),
            final(self)@ == (GenieModel { inner: old(self)@.inner.load_save(bytes@), ..old(self)@ }),
    {
        self.mapper.load_save(bytes)
    }

    /// A copy of the RAM of a battery-backed cartridge.
    pub fn save_save(&self) -> (r: Result<Vec<u8>, RamSaveError>)
        ensures
            self@.inner.has_battery() ==> r is Ok && r->Ok_0@ == self@.inner.ram(),
            !self@.inner.has_battery() ==> r == Err::<Vec<u8>, RamSaveError>(
                RamSaveError::Incompatible,
            ),
    {
        self.mapper.save_save()
    }

    /// Clears the RAM.
    pub fn reset_save(&mut self)
        requires
            old(self).wf(),
        ensures
            final(self).wf(),
            final(self)@ == (GenieModel { inner: old(self)@.inner.reset_save(), ..old(self)@ }),
    {
        self.mapper.reset_save()
    }

    /// What the ROM window shows at an address, without the read being seen.
    pub fn peek(&self, address: u16) -> (value: u8)
        requires
            self.wf(),
            address < 0x8000,
        ensures
            value == self@.visible(address),
    {
        if !self.state.get_flag(CART_PASSTHROUGH) {
            if address == CONTROL_0 {
                self.state.m_control_0 & 0b1
            } else if address == CODE_ENABLE {
                self.m_code_enable
            } else if CODE_0 <= address && address <= CODE_2_END {
                self.m_code[(address - CODE_0) as usize]
            } else {
                read_byte(&self.rom, address as usize)
            }
        } else {
            let (hit, injected): (bool, u8) = self.matches_code(address);
            if hit {
                injected
            } else {
                self.mapper.rom_b(address)
            }
        }
    }

    /// Reads a byte in the ROM window.
    pub fn rom_b(&mut self, address: u16) -> (value: u8)
        requires
            old(self).wf(),
            address < 0x8000,
        ensures
            final(self).wf(),
            value == old(self)@.rom_read(address),
            final(self)@ == old(self)@.after_rom_read(address),
    {
        if address == ENTRY_POINT && self.state.get_flag(CART_PASSTHROUGH) && !self.state.get_flag(
            LOCK,
        ) {
            self.state.set_flag(CART_PASSTHROUGH, false);
        }
        self.peek(address)
    }

    /// Writes in the ROM window, where the registers of the circuit stand.
    pub fn rom_wb(&mut self, address: u16, value: u8)
        requires
            old(self).wf(),
            address < 0x8000,
        ensures
            final(self).wf(),
            final(self)@ == old(self)@.rom_write(address, value),
    {
        if !self.state.get_flag(CART_PASSTHROUGH) {
            if address == CONTROL_0 {
                self.state.m_control_0 = value;
            } else if address == CODE_ENABLE {
                self.m_code_enable = value;
            } else if CODE_0 <= address && address <= CODE_2_END {
                self.m_code[(address - CODE_0) as usize] = value;
                self.update_codes();
            }
        } else {
            self.mapper.rom_wb(address, value);
        }
    }

    /// Reads a byte in the RAM window.
    pub fn ram_b(&self, address: u16) -> (value: u8)
        requires
            self.wf(),
            0xA000 <= address < 0xC000,
        ensures
            value == self@.ram_read(address),
    {
        if self.state.get_flag(CART_PASSTHROUGH) {
            self.mapper.ram_b(address)
        } else {
            0xFF
        }
    }

    /// Writes a byte in the RAM window.
    pub fn ram_wb(&mut self, address: u16, value: u8)
        requires
            old(self).wf(),
            0xA000 <= address < 0xC000,
        ensures
            final(self).wf(),
            final(self)@ == old(self)@.ram_write(address, value),
    {
        if self.state.get_flag(CART_PASSTHROUGH) {
            self.mapper.ram_wb(address, value);
        }
    }
}

} // verus!
