//! The memory bus: it routes every address to the component that owns it,
//! holds work RAM, high RAM and the two interrupt registers, and advances
//! the other components by the T-cycles that the CPU has used.

use crate::apu::apu_power_on;
use crate::apu::apu_after_write;
use crate::apu::apu_read;
use crate::apu::Apu;
use crate::bios::bios_read;
use crate::bios::Bios;
use crate::cart::CartModel;
use crate::cart::Cartridge;
use crate::cart::info::CartridgeInfo;
use crate::cart::mapper::RamLoadError;
use crate::cart::mapper::RamSaveError;
use crate::joypad::read_type_of;
use crate::joypad::Button;
use crate::joypad::Joypad;
use crate::ppu::model::PpuModel;
use crate::ppu::Ppu;
use crate::serial::Serial;
use crate::timer::Timer;
use vstd::prelude::*;

verus! {

/// The size of work RAM.
pub const WRAM_SIZE: usize = 0x2000;

/// The size of the page at 0xFF00 that holds high RAM.
pub const HRAM_SIZE: usize = 0x100;

/// IF, the interrupt flags.
pub const INTF: u16 = 0xFF0F;

/// A register of the colour model, kept as a byte.
pub const KEY0: u16 = 0xFF4C;

/// A register of the colour model, kept as a byte.
pub const KEY1: u16 = 0xFF4D;

/// A write here starts a transfer to sprite memory.
pub const DMA: u16 = 0xFF46;

/// A write here takes the boot ROM out of the address space.
pub const BOOT_OFF: u16 = 0xFF50;

/// A register of the colour model.
pub const HDMA1: u16 = 0xFF51;

/// A register of the colour model.
pub const HDMA2: u16 = 0xFF52;

/// A register of the colour model.
pub const HDMA3: u16 = 0xFF53;

/// A register of the colour model.
pub const HDMA4: u16 = 0xFF54;

/// A register of the colour model.
pub const HDMA5: u16 = 0xFF55;

/// The infrared register of the colour model.
pub const RP: u16 = 0xFF56;

/// A palette register of the colour model.
pub const BCPS: u16 = 0xFF68;

/// A palette register of the colour model.
pub const BCPD: u16 = 0xFF69;

/// A palette register of the colour model.
pub const OCPS: u16 = 0xFF6A;

/// A palette register of the colour model.
pub const OCPD: u16 = 0xFF6B;

/// The work RAM bank register of the colour model.
pub const SVBK: u16 = 0xFF70;

/// A register without a function.
pub const UNUSED_1: u16 = 0xFF72;

/// A register without a function.
pub const UNUSED_2: u16 = 0xFF73;

/// A register without a function.
pub const UNUSED_3: u16 = 0xFF74;

/// A register without a function.
pub const UNUSED_4: u16 = 0xFF75;

/// IE, the interrupt enable.
pub const INTE: u16 = 0xFFFF;

/// The highest page that an OAM transfer can start from.
pub const DMA_LAST_PAGE: u8 = 0xDF;

/// The five sources of interrupts, highest priority first.
#[derive(Clone, Copy, Debug, PartialEq, Eq, Structural)]
pub enum Interrupt {
    VBlank,
    LCDStat,
    Timer,
    Serial,
    Joypad,
}

/// The bit of IF and IE that stands for an interrupt.
pub open spec fn interrupt_bit(i: Interrupt) -> u8 {
    match i {
        Interrupt::VBlank => 0b0_0001,
        Interrupt::LCDStat => 0b0_0010,
        Interrupt::Timer => 0b0_0100,
        Interrupt::Serial => 0b0_1000,
        Interrupt::Joypad => 0b1_0000,
    }
}

/// The address at which the handler of an interrupt starts.
pub open spec fn handler_of(i: Interrupt) -> u16 {
    match i {
        Interrupt::VBlank => 0x0040,
        Interrupt::LCDStat => 0x0048,
        Interrupt::Timer => 0x0050,
        Interrupt::Serial => 0x0058,
        Interrupt::Joypad => 0x0060,
    }
}

/// The interrupt of highest priority among the bits of `pending`.
pub open spec fn first_pending(pending: u8) -> Interrupt
    recommends
        pending & 0b1_1111 != 0,
{
    if pending & 0b0_0001 != 0 {
        Interrupt::VBlank
    } else if pending & 0b0_0010 != 0 {
        Interrupt::LCDStat
    } else if pending & 0b0_0100 != 0 {
        Interrupt::Timer
    } else if pending & 0b0_1000 != 0 {
        Interrupt::Serial
    } else {
        Interrupt::Joypad
    }
}

/// Where an address leads.
pub enum Region {
    /// The boot ROM, while it is mapped.
    Boot,
    CartRom,
    Video,
    CartRam,
    /// Work RAM at this offset; the echo leads to the same bytes.
    Work(int),
    Unusable,
    Joypad,
    Serial,
    Timer,
    InterruptFlag,
    Sound,
    DmaStart,
    /// High RAM and the registers kept with it, at this offset from 0xFF00.
    High(int),
    InterruptEnable,
}

/// The region of an address; `boot` says whether the boot ROM is mapped.
pub open spec fn region_of(address: u16, boot: bool) -> Region {
    if address < 0x0100 && boot {
        Region::Boot
    } else if address <= 0x7FFF {
        Region::CartRom
    } else if address <= 0x9FFF {
        Region::Video
    } else if address <= 0xBFFF {
        Region::CartRam
    } else if address <= 0xDFFF {
        Region::Work(address - 0xC000)
    } else if address <= 0xFDFF {
        Region::Work(address - 0xE000)
    } else if address <= 0xFE9F {
        Region::Video
    } else if address <= 0xFEFF {
        Region::Unusable
    } else if address == 0xFF00 {
        Region::Joypad
    } else if address == 0xFF01 || address == 0xFF02 {
        Region::Serial
    } else if 0xFF04 <= address <= 0xFF07 {
        Region::Timer
    } else if address == INTF {
        Region::InterruptFlag
    } else if 0xFF10 <= address <= 0xFF3F {
        Region::Sound
    } else if address == DMA {
        Region::DmaStart
    } else if address == KEY0 || address == KEY1 {
        Region::High(address - 0xFF00)
    } else if 0xFF40 <= address <= 0xFF4F || 0xFF68 <= address <= 0xFF6B {
        Region::Video
    } else if address == INTE {
        Region::InterruptEnable
    } else {
        Region::High(address - 0xFF00)
    }
}

/// The whole machine behind the bus, as plain values.
pub struct MmuModel {
    pub cart: CartModel,
    pub ppu: PpuModel,
    pub joypad: Joypad,
    pub serial: Serial,
    pub timer: Timer,
    pub apu: Seq<u8>,
    pub bios: Option<Seq<u8>>,
    pub enable_bios: bool,
    pub wram: Seq<u8>,
    pub hram: Seq<u8>,
    pub intf: u8,
    pub inte: u8,
}

impl MmuModel {
    /// Every component is in order, the memories have their sizes, and IE holds five bits.
    #[verifier::opaque]
    pub open spec fn wf(self) -> bool {
        &&& self.cart.slot.wf()
        &&& self.ppu.wf()
        &&& self.timer.wf()
        &&& self.apu.len() == 0x30
        &&& self.wram.len() == 0x2000
        &&& self.hram.len() == 0x100
        &&& self.inte < 0x20
    }

    /// Whether the boot ROM stands at the bottom of the address space.
    pub open spec fn boot_mapped(self) -> bool {
        self.enable_bios && self.bios is Some
    }

    /// Where an address leads in this state.
    pub open spec fn region(self, address: u16) -> Region {
        region_of(address, self.boot_mapped())
    }

    /// The value that a read gives. The upper three bits of IF and IE read as ones.
    #[verifier::opaque]
    pub open spec fn read(self, address: u16) -> u8 {
        match self.region(address) {
            Region::Boot => bios_read(self.bios->Some_0, address),
            Region::CartRom => self.cart.slot.rom_read(address),
            Region::Video => self.ppu.read(address),
            Region::CartRam => self.cart.slot.ram_read(address),
            Region::Work(offset) => self.wram[offset],
            Region::Unusable => 0,
            Region::Joypad => self.joypad.m_p1,
            Region::Serial => self.serial.read(address),
            Region::Timer => self.timer.read(address),
            Region::InterruptFlag => self.intf | 0b1110_0000,
            Region::Sound => apu_read(self.apu, address),
            Region::DmaStart => 0xFF,
            Region::High(offset) => self.hram[offset],
            Region::InterruptEnable => self.inte | 0b1110_0000,
        }
    }

    /// The machine after a read: only what sits in the cartridge slot takes note of reads.
    #[verifier::opaque]
    pub open spec fn after_read(self, address: u16) -> MmuModel {
        match self.region(address) {
            Region::CartRom => MmuModel {
                cart: CartModel { slot: self.cart.slot.after_rom_read(address), ..self.cart },
                ..self
            },
            _ => self,
        }
    }

    /// The 16-bit value read at an address, low byte first in memory. The
    /// high byte is read first.
    pub open spec fn read_word(self, address: u16) -> u16 {
        let next: u16 = ((address + 1) % 0x1_0000) as u16;
        (self.read(next) * 256 + self.after_read(next).read(address)) as u16
    }

    /// The machine after a 16-bit read.
    pub open spec fn after_read_word(self, address: u16) -> MmuModel {
        let next: u16 = ((address + 1) % 0x1_0000) as u16;
        self.after_read(next).after_read(address)
    }

    /// The machine after the first `n` bytes of an OAM transfer from `src`
    /// were copied, each read and then written in turn.
    pub open spec fn dma_copied(self, src: u16, n: nat) -> MmuModel
        recommends
            src <= 0xDF00,
            n <= 0xA0,
        decreases n,
    {
        if n == 0 {
            self
        } else {
            let before = self.dma_copied(src, (n - 1) as nat);
            let from: u16 = (src + (n - 1)) as u16;
            let to: u16 = (0xFE00 + (n - 1)) as u16;
            MmuModel {
                ppu: before.after_read(from).ppu.write(to, before.read(from)),
                ..before.after_read(from)
            }
        }
    }

    /// The machine after a write to the transfer register: 160 bytes from
    /// page `value` are copied to the sprite memory at once. A page past the
    /// last one that can be a source is refused, and nothing is copied.
    pub open spec fn dma_transfer(self, value: u8) -> MmuModel {
        if value <= DMA_LAST_PAGE {
            self.dma_copied((value * 256) as u16, 0xA0)
        } else {
            self
        }
    }

    /// The machine after a write. IF and IE keep five bits. A write to the
    /// boot-off register unmaps the boot ROM.
    #[verifier::opaque]
    pub open spec fn write(self, address: u16, value: u8) -> MmuModel {
        match self.region(address) {
            Region::Boot => MmuModel {
                cart: CartModel { slot: self.cart.slot.rom_write(address, value), ..self.cart },
                ..self
            },
            Region::CartRom => MmuModel {
                cart: CartModel { slot: self.cart.slot.rom_write(address, value), ..self.cart },
                ..self
            },
            Region::Video => MmuModel { ppu: self.ppu.write(address, value), ..self },
            Region::CartRam => MmuModel {
                cart: CartModel { slot: self.cart.slot.ram_write(address, value), ..self.cart },
                ..self
            },
            Region::Work(offset) => MmuModel { wram: self.wram.update(offset, value), ..self },
            Region::Unusable => self,
            Region::Joypad => MmuModel {
                joypad: (Joypad { read_type: read_type_of(value), ..self.joypad }).refreshed(),
                ..self
            },
            Region::Serial => MmuModel { serial: self.serial.after_write(address, value), ..self },
            Region::Timer => MmuModel { timer: self.timer.after_write(address, value), ..self },
            Region::InterruptFlag => MmuModel { intf: value & 0b0001_1111, ..self },
            Region::Sound => MmuModel { apu: apu_after_write(self.apu, address, value), ..self },
            Region::DmaStart => self.dma_transfer(value),
            Region::High(offset) => MmuModel {
                hram: self.hram.update(offset, value),
                enable_bios: self.enable_bios && address != BOOT_OFF,
                ..self
            },
            Region::InterruptEnable => MmuModel { inte: value & 0b0001_1111, ..self },
        }
    }

    /// The machine after a 16-bit write, low byte first.
    pub open spec fn write_word(self, address: u16, value: u16) -> MmuModel {
        self.write(address, (value % 256) as u8).write(
            ((address + 1) % 0x1_0000) as u16,
            (value / 256) as u8,
        )
    }

    /// The machine after a button was pressed or released.
    pub open spec fn with_button(self, button: Button, pressed: bool) -> MmuModel {
        MmuModel { joypad: self.joypad.with_button(button, pressed).refreshed(), ..self }
    }

    /// The machine after a save was offered to the cartridge.
    pub open spec fn with_save(self, bytes: Seq<u8>) -> MmuModel {
        MmuModel {
            cart: CartModel {
                slot: self.cart.slot.with_cartridge(self.cart.slot.cartridge().load_save(bytes)),
                ..self.cart
            },
            ..self
        }
    }

    /// Whether an enabled interrupt is pending.
    pub open spec fn has_pending_interrupts(self) -> bool {
        (self.inte & self.intf) != 0
    }

    /// The pending enabled interrupt of highest priority.
    pub open spec fn next_interrupt(self) -> Interrupt
        recommends
            self.has_pending_interrupts(),
    {
        first_pending(self.inte & self.intf)
    }

    /// The machine with an interrupt's bit cleared in IF.
    pub open spec fn disable_interrupt(self, i: Interrupt) -> MmuModel {
        MmuModel { intf: self.intf & !interrupt_bit(i), ..self }
    }

    /// The machine with an interrupt's bit set in IF where `on` holds.
    pub open spec fn raise(self, i: Interrupt, on: bool) -> MmuModel {
        if on {
            MmuModel { intf: self.intf | interrupt_bit(i), ..self }
        } else {
            self
        }
    }

    /// The machine after the components other than the CPU have run for
    /// `cycles` T-cycles: each is advanced by that many, and each request
    /// for an interrupt sets its bit in IF.
    #[verifier::opaque]
    pub open spec fn step(self, cycles: u32) -> MmuModel {
        let stepped = self.ppu.step(cycles);
        (MmuModel {
            joypad: Joypad { interrupt_request: false, ..self.joypad },
            serial: self.serial.after_step(cycles),
            timer: self.timer.after_step(cycles),
            ppu: stepped.ppu,
            ..self
        }).raise(Interrupt::Joypad, self.joypad.interrupt_request).raise(
            Interrupt::Serial,
            self.serial.completes(cycles),
        ).raise(Interrupt::Timer, self.timer.overflows(cycles)).raise(
            Interrupt::VBlank,
            stepped.vblank,
        ).raise(Interrupt::LCDStat, stepped.lcdstat)
    }

    /// High RAM after a reset: 0xFF throughout, but for the registers kept
    /// in it that have another value at power-on.
    pub open spec fn hram_power_on() -> Seq<u8> {
        Seq::new(0x100, |i: int| 0xFFu8).update(0x72, 0x00).update(0x73, 0x00).update(
            0x75,
            0x8F,
        ).update(0x76, 0x00).update(0x77, 0x00)
    }

    /// The machine at power-on with what sits in the cartridge slot, a boot
    /// ROM or none, and the setting of the two switches for debugging.
    pub open spec fn power_on(
        cart: CartModel,
        bios: Option<Seq<u8>>,
        enable_background: bool,
        enable_obj: bool,
    ) -> MmuModel {
        MmuModel {
            cart,
            ppu: PpuModel::power_on(enable_background, enable_obj),
            joypad: Joypad::power_on(),
            serial: Serial::power_on(),
            timer: Timer::power_on(),
            apu: apu_power_on(),
            bios,
            enable_bios: true,
            wram: Seq::new(0x2000, |i: int| 0u8),
            hram: MmuModel::hram_power_on(),
            intf: 0xE1,
            inte: 0x00,
        }
    }

    /// The machine after a reset: back at power-on, with the boot ROM
    /// mapped again. The cartridge is reset too; it keeps its image, and its
    /// RAM where a battery backs it.
    #[verifier::opaque]
    pub open spec fn reset(self) -> MmuModel {
        MmuModel::power_on(
            CartModel { slot: self.cart.slot.reset(), ..self.cart },
            self.bios,
            self.ppu.enable_background,
            self.ppu.enable_obj,
        )
    }
}

/// The bus with every component behind it.
pub struct Mmu {
    pub cart: Cartridge,
    pub ppu: Ppu,
    pub joypad: Joypad,
    pub serial: Serial,
    pub timer: Timer,
    pub apu: Apu,
    pub bios: Option<Bios>,
    pub enable_bios: bool,
    wram: [u8; 0x2000],
    hram: [u8; 0x100],
    intf: u8,
    inte: u8,
}

impl View for Mmu {
    type V = MmuModel;

    closed spec fn view(&self) -> MmuModel {
        MmuModel {
            cart: self.cart@,
            ppu: self.ppu@,
            joypad: self.joypad,
            serial: self.serial,
            timer: self.timer,
            apu: self.apu@,
            bios: match self.bios {
                Some(b) => Some(b@),
                None => None,
            },
            enable_bios: self.enable_bios,
            wram: self.wram@,
            hram: self.hram@,
            intf: self.intf,
            inte: self.inte,
        }
    }
}

impl Interrupt {
    /// The number of the interrupt's bit in IF and IE.
    pub fn number(&self) -> (n: u8)
        ensures
            n < 5,
            1u8 << n == interrupt_bit(*self),
            0x0040 + 8 * n == handler_of(*self),
    {
        assert(1u8 << 0u8 == 1 && 1u8 << 1u8 == 2 && 1u8 << 2u8 == 4 && 1u8 << 3u8 == 8 && 1u8
            << 4u8 == 16) by (bit_vector);
        match self {
            Interrupt::VBlank => 0,
            Interrupt::LCDStat => 1,
            Interrupt::Timer => 2,
            Interrupt::Serial => 3,
            Interrupt::Joypad => 4,
        }
    }
}

impl Mmu {
    /// The cartridge and the pixel unit are in order.
    pub closed spec fn parts_wf(&self) -> bool {
        &&& self.cart.wf()
        &&& self.ppu.wf()
    }

    /// The state is in order, and so is what the components keep beside it.
    pub open spec fn wf(&self) -> bool {
        &&& self@.wf()
        &&& self.parts_wf()
    }

    /// The machine at power-on with the given cartridge and boot ROM.
    pub fn new(bios: Option<Bios>, cart: Cartridge) -> (m: Mmu)
        requires
            cart.wf(),
        ensures
            m.wf(),
            m@ == MmuModel::power_on(
                CartModel { slot: cart@.slot.reset(), ..cart@ },
                match bios {
                    Some(b) => Some(b@),
                    None => None,
                },
                true,
                true,
            ),
    {
        reveal(MmuModel::wf);
        reveal(MmuModel::reset);
        let mut mmu = Mmu {
            cart,
            ppu: Ppu::new(),
            joypad: Joypad::new(),
            serial: Serial::new(),
            timer: Timer::new(),
            apu: Apu::new(),
            bios,
            enable_bios: true,
            wram: [0; 0x2000],
            hram: [0xFF; 0x100],
            intf: 0xE1,
            inte: 0x00,
        };
        mmu.reset();
        mmu
    }

    /// Back to the power-on state.
    pub fn reset(&mut self)
        requires
            old(self).wf(),
        ensures
            final(self).wf(),
            final(self)@ == old(self)@.reset(),
    {
        reveal(MmuModel::wf);
        reveal(MmuModel::reset);
        self.cart.reset();
        self.joypad.reset();
        self.serial.reset();
        self.timer.reset();
        self.ppu.reset();
        self.apu = Apu::new();
        self.enable_bios = true;
        self.intf = 0xE1;
        self.wram = [0; 0x2000];
        self.hram = [0xFF; 0x100];
        self.hram[0x72] = 0x00;
        self.hram[0x73] = 0x00;
        self.hram[0x75] = 0x8F;
        self.hram[0x76] = 0x00;
        self.hram[0x77] = 0x00;
        self.inte = 0x00;
        proof {
            assert(self@.wram =~= Seq::new(0x2000, |i: int| 0u8));
            assert(self@.hram =~= MmuModel::hram_power_on());
        }
    }

    /// The frame as it stands: 144 lines of 160 colours, each from 0 to 3.
    pub fn frame(&self) -> (buf: [[u8; 160]; 144])
        requires
            self.wf(),
        ensures
            crate::ppu::frame_of(buf) == self@.ppu.buf,
            forall|r: int, c: int| 0 <= r < 144 && 0 <= c < 160 ==> #[trigger] buf@[r]@[c] <= 3,
    {
        reveal(MmuModel::wf);
        self.ppu.get_buf()
    }

    /// Releases a button.
    pub fn release(&mut self, button: Button)
        requires
            old(self).wf(),
        ensures
            final(self).wf(),
            final(self)@ == old(self)@.with_button(button, false),
    {
        reveal(MmuModel::wf);
        self.joypad.release(button);
    }

    /// Presses a button.
    pub fn press(&mut self, button: Button)
        requires
            old(self).wf(),
        ensures
            final(self).wf(),
            final(self)@ == old(self)@.with_button(button, true),
    {
        reveal(MmuModel::wf);
        self.joypad.press(button);
    }

    /// The header of the cartridge.
    pub fn cart_info(&self) -> (info: &CartridgeInfo)
        ensures
            info@ == self@.cart.info,
    {
        self.cart.header()
    }

    /// The size of the save: present exactly for a battery-backed cartridge.
    pub fn save_size(&self) -> (size: Option<usize>)
        ensures
            size == self@.cart.slot.cartridge().save_size(),
    {
        self.cart.save_size()
    }

    /// Takes a save as the RAM of the cartridge.
    pub fn load_save(&mut self, bytes: Vec<u8>) -> (r: Result<(), RamLoadError>)
        requires
            old(self).wf(),
        ensures
            final(self).wf(),
            r == old(self)@.cart.slot.cartridge().load_result(bytes@),
            final(self)@ == old(self)@.with_save(bytes@),
    {
        reveal(MmuModel::wf);
        self.cart.load_save(bytes)
    }

    /// A copy of the RAM of a battery-backed cartridge.
    pub fn save_save(&self) -> (r: Result<Vec<u8>, RamSaveError>)
        ensures
            self@.cart.slot.cartridge().save() matches Ok(ram) ==> r is Ok && r->Ok_0@ == ram,
            self@.cart.slot.cartridge().save() matches Err(e) ==> r == Err::<Vec<u8>, RamSaveError>(
                e,
            ),
    {
        self.cart.save_save()
    }

    /// Whether a boot ROM is present, mapped or not.
    pub fn has_bios(&self) -> (present: bool)
        ensures
            present == self@.bios is Some,
    {
        reveal(MmuModel::wf);
        self.bios.is_some()
    }

    /// Whether an enabled interrupt is pending.
    pub fn has_pending_interrupts(&self) -> (pending: bool)
        ensures
            pending == self@.has_pending_interrupts(),
    {
        reveal(MmuModel::wf);
        (self.inte & self.intf) != 0
    }

    /// The pending enabled interrupt of highest priority.
    pub fn next_interrupt(&self) -> (i: Interrupt)
        requires
            self@.has_pending_interrupts(),
            self.wf(),
        ensures
            i == self@.next_interrupt(),
            self@.intf & interrupt_bit(i) != 0,
            self@.inte & interrupt_bit(i) != 0,
    {
        reveal(MmuModel::wf);
        let pending: u8 = self.inte & self.intf;
        let inte: u8 = self.inte;
        let intf: u8 = self.intf;
        assert(forall|bit: u8| #![auto] (inte & intf) & bit != 0 ==> intf & bit != 0 && inte & bit != 0)
            by (bit_vector);
        if pending & 0b0_0001 != 0 {
            Interrupt::VBlank
        } else if pending & 0b0_0010 != 0 {
            Interrupt::LCDStat
        } else if pending & 0b0_0100 != 0 {
            Interrupt::Timer
        } else if pending & 0b0_1000 != 0 {
            Interrupt::Serial
        } else {
            assert(pending & 0b1_0000 != 0) by (bit_vector)
                requires
                    pending != 0,
                    pending == (inte & intf),
                    inte < 0x20,
                    pending & 0b0_0001 == 0,
                    pending & 0b0_0010 == 0,
                    pending & 0b0_0100 == 0,
                    pending & 0b0_1000 == 0,
            ;
            Interrupt::Joypad
        }
    }

    /// Clears the bit of an interrupt in IF.
    pub fn disable_interrupt(&mut self, i: Interrupt)
        ensures
            final(self)@ == old(self)@.disable_interrupt(i),
            old(self).wf() ==> final(self).wf(),
    {
        reveal(MmuModel::wf);
        let mask: u8 = 1u8 << i.number();
        self.intf = self.intf & !mask;
    }

    /// The address at which the handler of an interrupt starts.
    pub fn get_interrupt_handler(&self, i: Interrupt) -> (address: u16)
        ensures
            address == handler_of(i),
    {
        reveal(MmuModel::wf);
        0x0040 + (8 * i.number()) as u16
    }

    /// Runs the components other than the CPU for `cycles` T-cycles.
    pub fn step(&mut self, cycles: u32)
        requires
            old(self).wf(),
        ensures
            final(self).wf(),
            final(self)@ == old(self)@.step(cycles),
    {
        reveal(MmuModel::wf);
        reveal(MmuModel::step);
        if self.joypad.step() {
            self.intf = self.intf | 0b1_0000;
        }
        if self.serial.step(cycles) {
            self.intf = self.intf | 0b0_1000;
        }
        if self.timer.step(cycles) {
            self.intf = self.intf | 0b0_0100;
        }
        let (intf_vblank, intf_lcdstat): (bool, bool) = self.ppu.step(cycles);
        if intf_vblank {
            self.intf = self.intf | 0b0_0001;
        }
        if intf_lcdstat {
            self.intf = self.intf | 0b0_0010;
        }
    }

    /// Reads the byte at `address`.
    pub fn b(&mut self, address: u16) -> (value: u8)
        requires
            old(self).wf(),
        ensures
            final(self).wf(),
            value == old(self)@.read(address),
            final(self)@ == old(self)@.after_read(address),
    {
        reveal(MmuModel::wf);
        reveal(MmuModel::read);
        reveal(MmuModel::after_read);
        if address < 0x0100 && self.enable_bios && self.bios.is_some() {
            match &self.bios {
                Some(bios) => bios.b(address),
                None => 0xFF,
            }
        } else if address <= 0x7FFF {
            self.cart.rom_b(address)
        } else if address <= 0x9FFF {
            self.ppu.b(address)
        } else if address <= 0xBFFF {
            self.cart.ram_b(address)
        } else if address <= 0xDFFF {
            self.wram[(address as usize) - 0xC000]
        } else if address <= 0xFDFF {
            self.wram[(address as usize) - 0xE000]
        } else if address <= 0xFE9F {
            self.ppu.b(address)
        } else if address <= 0xFEFF {
            0
        } else if address == 0xFF00 {
            self.joypad.b(address)
        } else if address == 0xFF01 || address == 0xFF02 {
            self.serial.b(address)
        } else if 0xFF04 <= address && address <= 0xFF07 {
            self.timer.b(address)
        } else if address == INTF {
            self.intf | 0b1110_0000
        } else if 0xFF10 <= address && address <= 0xFF3F {
            self.apu.b(address)
        } else if address == DMA {
            0xFF
        } else if address == KEY0 || address == KEY1 {
            self.hram[(address as usize) - 0xFF00]
        } else if (0xFF40 <= address && address <= 0xFF4F) || (0xFF68 <= address && address
            <= 0xFF6B) {
            self.ppu.b(address)
        } else if address == INTE {
            self.inte | 0b1110_0000
        } else {
            self.hram[(address as usize) - 0xFF00]
        }
    }

    /// Reads 16 bits, low byte first in memory.
    pub fn w(&mut self, address: u16) -> (value: u16)
        requires
            old(self).wf(),
        ensures
            final(self).wf(),
            value == old(self)@.read_word(address),
            final(self)@ == old(self)@.after_read_word(address),
    {
        reveal(MmuModel::wf);
        let high: u8 = self.b(address.wrapping_add(1));
        let low: u8 = self.b(address);
        (high as u16) * 256 + (low as u16)
    }

    fn dma_transfer(&mut self, value: u8)
        requires
            old(self).wf(),
        ensures
            final(self).wf(),
            final(self)@ == old(self)@.dma_transfer(value),
    {
        reveal(MmuModel::wf);
        if value <= DMA_LAST_PAGE {
            let src: u16 = (value as u16) * 256;
            let mut i: u16 = 0;
            while i < 0xA0
                invariant
                    i <= 0xA0,
                    src <= 0xDF00,
                    self.wf(),
                    self@ == old(self)@.dma_copied(src, i as nat),
                decreases 0xA0 - i,
            {
                reveal(MmuModel::wf);
                let byte: u8 = self.b(src + i);
                self.ppu.wb(0xFE00 + i, byte);
                i = i + 1;
            }
        }
    }

    /// Writes `value` at `address`.
    pub fn wb(&mut self, address: u16, value: u8)
        requires
            old(self).wf(),
        ensures
            final(self).wf(),
            final(self)@ == old(self)@.write(address, value),
    {
        reveal(MmuModel::wf);
        reveal(MmuModel::write);
        if address <= 0x7FFF {
            self.cart.rom_wb(address, value);
        } else if address <= 0x9FFF {
            self.ppu.wb(address, value);
        } else if address <= 0xBFFF {
            self.cart.ram_wb(address, value);
        } else if address <= 0xDFFF {
            self.wram[(address as usize) - 0xC000] = value;
        } else if address <= 0xFDFF {
            self.wram[(address as usize) - 0xE000] = value;
        } else if address <= 0xFE9F {
            self.ppu.wb(address, value);
        } else if address <= 0xFEFF {
        } else if address == 0xFF00 {
            self.joypad.wb(address, value);
        } else if address == 0xFF01 || address == 0xFF02 {
            self.serial.wb(address, value);
        } else if 0xFF04 <= address && address <= 0xFF07 {
            self.timer.wb(address, value);
        } else if address == INTF {
            self.intf = value & 0b0001_1111;
        } else if 0xFF10 <= address && address <= 0xFF3F {
            self.apu.wb(address, value);
        } else if address == DMA {
            self.dma_transfer(value);
        } else if address == KEY0 || address == KEY1 {
            self.hram[(address as usize) - 0xFF00] = value;
        } else if (0xFF40 <= address && address <= 0xFF4F) || (0xFF68 <= address && address
            <= 0xFF6B) {
            self.ppu.wb(address, value);
        } else if address == INTE {
            assert(value & 0b0001_1111 < 0x20) by (bit_vector);
            self.inte = value & 0b0001_1111;
        } else {
            if address == BOOT_OFF {
                self.enable_bios = false;
            }
            self.hram[(address as usize) - 0xFF00] = value;
        }
    }

    /// Writes 16 bits, low byte first.
    pub fn ww(&mut self, address: u16, value: u16)
        requires
            old(self).wf(),
        ensures
            final(self).wf(),
            final(self)@ == old(self)@.write_word(address, value),
    {
        reveal(MmuModel::wf);
        self.wb(address, (value % 256) as u8);
        self.wb(address.wrapping_add(1), (value / 256) as u8);
    }
}

/// The addresses at which a read gives back what was written last: work
/// RAM and its echo, high RAM, video RAM, sprite memory, and the registers
/// SB, SC, TIMA, TMA, LCDC, SCY, SCX, LYC, BGP, OBP0, OBP1, WY and WX and
/// those of the sound unit.
pub open spec fn reads_back(address: u16) -> bool {
    ||| 0x8000 <= address <= 0x9FFF
    ||| 0xC000 <= address <= 0xFE9F
    ||| 0xFF80 <= address <= 0xFFFE
    ||| address == 0xFF01
    ||| address == 0xFF02
    ||| address == 0xFF05
    ||| address == 0xFF06
    ||| 0xFF10 <= address <= 0xFF26
    ||| 0xFF30 <= address <= 0xFF3F
    ||| address == 0xFF40
    ||| address == 0xFF42
    ||| address == 0xFF43
    ||| address == 0xFF45
    ||| 0xFF47 <= address <= 0xFF4B
}

/// A read after a write gives the value written, at every address that
/// reads back.
pub proof fn law_read_after_write(m: MmuModel, address: u16, value: u8)
    requires
        m.wf(),
        reads_back(address),
    ensures
        m.write(address, value).read(address) == value,
{
    reveal(MmuModel::wf);
    reveal(MmuModel::read);
    reveal(MmuModel::write);
}

/// A write to work RAM shows in the echo, and a write to the echo in work RAM.
pub proof fn law_echo_shows_work_ram(m: MmuModel, address: u16, value: u8)
    requires
        m.wf(),
        0xC000 <= address <= 0xDDFF,
    ensures
        m.write(address, value).read((address + 0x2000) as u16) == value,
        m.write((address + 0x2000) as u16, value).read(address) == value,
{
    reveal(MmuModel::wf);
    reveal(MmuModel::read);
    reveal(MmuModel::write);
}

/// The upper three bits of IF and IE read as ones, whatever was written.
pub proof fn law_interrupt_registers_read_upper_bits_set(m: MmuModel, address: u16)
    requires
        address == INTF || address == INTE,
    ensures
        m.read(address) & 0b1110_0000 == 0b1110_0000,
{
    reveal(MmuModel::read);
    let intf = m.intf;
    let inte = m.inte;
    assert((intf | 0b1110_0000u8) & 0b1110_0000 == 0b1110_0000) by (bit_vector);
    assert((inte | 0b1110_0000u8) & 0b1110_0000 == 0b1110_0000) by (bit_vector);
}

/// Clearing the bit of a pending interrupt takes exactly that bit off IF.
pub proof fn law_disable_takes_one_bit(m: MmuModel, i: Interrupt)
    requires
        m.intf & interrupt_bit(i) != 0,
    ensures
        m.disable_interrupt(i).intf == m.intf - interrupt_bit(i),
        m.disable_interrupt(i).intf & interrupt_bit(i) == 0,
{
    let intf = m.intf;
    let bit = interrupt_bit(i);
    assert(bit == 1 || bit == 2 || bit == 4 || bit == 8 || bit == 16);
    assert((bit == 1 || bit == 2 || bit == 4 || bit == 8 || bit == 16) && intf & bit != 0 ==> (
    intf & !bit) == intf - bit && (intf & !bit) & bit == 0) by (bit_vector);
}

/// The pending enabled interrupt that is served next is pending and enabled.
pub proof fn law_next_interrupt_is_pending(m: MmuModel)
    requires
        m.has_pending_interrupts(),
        m.inte < 0x20,
    ensures
        m.intf & interrupt_bit(m.next_interrupt()) != 0,
        m.inte & interrupt_bit(m.next_interrupt()) != 0,
{
    let intf = m.intf;
    let inte = m.inte;
    assert(inte < 0x20 && (inte & intf) != 0 ==> {
        ||| (inte & intf) & 1 != 0
        ||| (inte & intf) & 2 != 0
        ||| (inte & intf) & 4 != 0
        ||| (inte & intf) & 8 != 0
        ||| (inte & intf) & 16 != 0
    }) by (bit_vector);
    assert(forall|bit: u8| #![auto] (inte & intf) & bit != 0 ==> intf & bit != 0 && inte & bit != 0)
        by (bit_vector);
}

} // verus!
