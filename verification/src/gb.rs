//! The console as its host sees it: make it of a cartridge, step it by
//! instructions or by frames, press and release buttons, and read the frame.

use crate::bios::Bios;
use crate::cart::info::CartridgeInfo;
use crate::cart::mapper::RamLoadError;
use crate::cart::mapper::RamSaveError;
use crate::cart::CartModel;
use crate::cart::Cartridge;
use crate::cpu::info::LONGEST_INSTRUCTION;
use crate::cpu::model::CpuModel;
use crate::cpu::Cpu;
use crate::joypad::Button;
use crate::mmu::Mmu;
use crate::mmu::MmuModel;
use crate::ppu::model::ONE_FRAME_CYCLES;
use vstd::prelude::*;

verus! {

/// The console.
pub struct Gb {
    cpu: Cpu,
}

impl View for Gb {
    type V = CpuModel;

    closed spec fn view(&self) -> CpuModel {
        self.cpu@
    }
}

/// The console at power-on with what sits in the cartridge slot and a boot
/// ROM or none.
pub open spec fn power_on(cart: CartModel, bios: Option<Seq<u8>>) -> CpuModel {
    (CpuModel {
        r: crate::cpu::registers::Registers::power_on(),
        m: MmuModel::power_on(cart, bios, true, true),
        halt: false,
        stop: false,
        ime: false,
        pending_ei: false,
        pending_di: false,
        halt_bug: false,
        fault: None,
    }).reset()
}

impl Gb {
    /// The console is in order.
    pub closed spec fn wf(&self) -> bool {
        self.cpu.wf()
    }

    /// The console with the given cartridge and boot ROM, at power-on.
    pub fn new(cart: Cartridge, bios: Option<Bios>) -> (gb: Gb)
        requires
            cart.wf(),
        ensures
            gb.wf(),
            gb@ == power_on(
                CartModel { slot: cart@.slot.reset(), ..cart@ },
                match bios {
                    Some(b) => Some(b@),
                    None => None,
                },
            ),
    {
        let mmu = Mmu::new(bios, cart);
        let cpu = Cpu::new(mmu);
        let mut gb = Gb { cpu };
        gb.reset();
        gb
    }

    /// Back to power-on. The cartridge keeps its image, and its RAM where a
    /// battery backs it; the boot ROM, where there is one, runs again.
    pub fn reset(&mut self)
        requires
            old(self).wf(),
        ensures
            final(self).wf(),
            final(self)@ == old(self)@.reset(),
    {
        self.cpu.reset();
    }

    /// One step: an instruction, an interrupt dispatch, or a wait. The
    /// results are the program counter before the step, the byte at that
    /// address, and the T-cycles that the step took.
    pub fn step(&mut self) -> (r: (u16, u8, u32))
        requires
            old(self).wf(),
        ensures
            final(self).wf(),
            final(self)@ == old(self)@.step().cpu,
            r.0 == old(self)@.step().pc,
            r.1 == old(self)@.step().opcode,
            r.2 == old(self)@.step().cycles,
            4 <= r.2 <= 24,
    {
        self.cpu.step()
    }

    /// Runs to the end of the frame; `cycles` is what the frame before left
    /// over, the result what this one leaves over.
    pub fn step_frame(&mut self, cycles: u32) -> (carry: u32)
        requires
            old(self).wf(),
        ensures
            final(self).wf(),
            final(self)@ == old(self)@.run_frame(cycles).cpu,
            carry == old(self)@.run_frame(cycles).carry,
            carry + ONE_FRAME_CYCLES == cycles + old(self)@.run_frame(cycles).spent,
            cycles < ONE_FRAME_CYCLES + LONGEST_INSTRUCTION ==> carry < LONGEST_INSTRUCTION,
    {
        self.cpu.step_frame(cycles)
    }

    /// The frame as it stands: 144 lines of 160 colours, each from 0 to 3.
    pub fn get_buf(&self) -> (buf: [[u8; 160]; 144])
        requires
            self.wf(),
        ensures
            crate::ppu::frame_of(buf) == self@.m.ppu.buf,
            forall|r: int, c: int| 0 <= r < 144 && 0 <= c < 160 ==> #[trigger] buf@[r]@[c] <= 3,
    {
        self.cpu.get_buf()
    }

    /// Releases a button.
    pub fn button_release(&mut self, button: Button)
        requires
            old(self).wf(),
        ensures
            final(self).wf(),
            final(self)@ == old(self)@.with_button(button, false),
    {
        self.cpu.m.release(button);
    }

    /// Presses a button.
    pub fn button_press(&mut self, button: Button)
        requires
            old(self).wf(),
        ensures
            final(self).wf(),
            final(self)@ == old(self)@.with_button(button, true),
    {
        self.cpu.m.press(button);
    }

    /// The header of the cartridge.
    pub fn cart_info(&self) -> (info: &CartridgeInfo)
        ensures
            info@ == self@.m.cart.info,
    {
        self.cpu.m.cart_info()
    }

    /// The program counter and the byte at its address.
    pub fn next_step(&mut self) -> (r: (u16, u8))
        requires
            old(self).wf(),
        ensures
            final(self).wf(),
            r.0 == old(self)@.r.pc,
            r.1 == old(self)@.read8(old(self)@.r.pc).value,
            final(self)@ == old(self)@.read8(old(self)@.r.pc).cpu,
    {
        self.cpu.next_step()
    }

    /// The opcode on which the CPU has locked up, if it has.
    pub fn fault(&self) -> (opcode: Option<u8>)
        ensures
            opcode == self@.fault,
    {
        self.cpu.fault
    }

    /// The registers of the CPU.
    pub fn registers(&self) -> (r: crate::cpu::registers::Registers)
        ensures
            r == self@.r,
    {
        self.cpu.r
    }

    /// The size of the save: present exactly for a battery-backed cartridge.
    pub fn save_size(&self) -> (size: Option<usize>)
        ensures
            size == self@.m.cart.slot.cartridge().save_size(),
    {
        self.cpu.m.save_size()
    }

    /// Takes a save as the RAM of the cartridge.
    pub fn load_save(&mut self, bytes: Vec<u8>) -> (r: Result<(), RamLoadError>)
        requires
            old(self).wf(),
        ensures
            final(self).wf(),
            r == old(self)@.m.cart.slot.cartridge().load_result(bytes@),
            final(self)@ == old(self)@.with_save(bytes@),
    {
        self.cpu.m.load_save(bytes)
    }

    /// A copy of the RAM of a battery-backed cartridge.
    pub fn save_save(&self) -> (r: Result<Vec<u8>, RamSaveError>)
        ensures
            self@.m.cart.slot.cartridge().save() matches Ok(ram) ==> r is Ok && r->Ok_0@ == ram,
            self@.m.cart.slot.cartridge().save() matches Err(e) ==> r == Err::<
                Vec<u8>,
                RamSaveError,
            >(e),
    {
        self.cpu.m.save_save()
    }
}

} // verus!
