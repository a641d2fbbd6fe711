//! What holds of the CPU in every state.

use crate::cpu::info::base_cycles;
use crate::cpu::info::decode;
use crate::cpu::info::decode_prefixed;
use crate::cpu::info::prefixed_cycles;
use crate::cpu::info::taken_cycles;
use crate::cpu::info::Instr;
use crate::cpu::info::INTERRUPT_CYCLES;
use crate::cpu::info::LONGEST_INSTRUCTION;
use crate::cpu::model::CpuModel;
use crate::cpu::registers::high_byte;
use crate::cpu::registers::low_byte;
use crate::cpu::registers::wrap16;
use crate::joypad::Button;
use crate::mmu::handler_of;
use crate::mmu::interrupt_bit;
use crate::mmu::law_disable_takes_one_bit;
use crate::mmu::law_next_interrupt_is_pending;
use crate::mmu::MmuModel;
use crate::ppu::model::ONE_FRAME_CYCLES;
use vstd::prelude::*;

verus! {

/// Every instruction costs its base cost, and a jump, call or return that is
/// taken its taken cost on top; no instruction costs less than 4 T-cycles or
/// more than 24.
pub proof fn law_instruction_cost(c: CpuModel)
    ensures
        4 <= c.step_instr().cycles <= LONGEST_INSTRUCTION,
        decode(c.fetch8().value) != Instr::Prefix ==> c.step_instr().cycles == base_cycles(
            decode(c.fetch8().value),
        ) + (if c.fetch8().cpu.execute(decode(c.fetch8().value)).taken {
            taken_cycles(decode(c.fetch8().value))
        } else {
            0
        }),
        decode(c.fetch8().value) == Instr::Prefix ==> c.step_instr().cycles == prefixed_cycles(
            decode_prefixed(c.fetch8().cpu.fetch8().value),
        ),
        c.fetch8().cpu.execute(decode(c.fetch8().value)).taken ==> taken_cycles(
            decode(c.fetch8().value),
        ) > 0 || decode(c.fetch8().value) == Instr::Ret(crate::cpu::info::Cond::Always),
{
    reveal(CpuModel::step_instr);
    reveal(CpuModel::step_instr_cb);
    reveal(CpuModel::execute);
}

/// Every step takes between 4 and 24 T-cycles.
pub proof fn law_step_cost(c: CpuModel)
    ensures
        4 <= c.step().cycles <= LONGEST_INSTRUCTION,
{
    reveal(CpuModel::step);
    reveal(CpuModel::cpu_step);
    law_instruction_cost(c.toggle_interrupt().read8(c.r.pc).cpu.handle_interrupt());
}

/// A frame takes 70224 T-cycles and what its last instruction goes past
/// them, less what the frame before left over; and what it leaves over is
/// less than the longest instruction, where what was left to it was.
pub proof fn law_frame_accounting(c: CpuModel, cycles: u32)
    requires
        cycles < ONE_FRAME_CYCLES + LONGEST_INSTRUCTION,
    ensures
        c.run_frame(cycles).carry < LONGEST_INSTRUCTION,
        c.run_frame(cycles).spent + cycles == ONE_FRAME_CYCLES + c.run_frame(cycles).carry,
    decreases ONE_FRAME_CYCLES + LONGEST_INSTRUCTION - cycles,
{
    if cycles < ONE_FRAME_CYCLES {
        law_step_cost(c);
        law_frame_accounting(c.step().cpu, (cycles + c.step().cycles) as u32);
    }
}

/// The dispatch of an interrupt, with IME set and an enabled interrupt
/// pending: IME is cleared; the bit of the interrupt of highest priority,
/// and no other, is taken off IF before anything is pushed; the two bytes
/// of PC are pushed, the high byte first; SP is two lower; PC is the address
/// of the handler, one of 0x40, 0x48, 0x50, 0x58 and 0x60.
pub proof fn law_interrupt_service(c: CpuModel)
    requires
        c.m.inte < 0x20,
        c.ime,
        c.m.has_pending_interrupts(),
    ensures
        c.dispatches(),
        !c.handle_interrupt().ime,
        !c.handle_interrupt().halt,
        !c.handle_interrupt().stop,
        c.m.disable_interrupt(c.m.next_interrupt()).intf == c.m.intf - interrupt_bit(
            c.m.next_interrupt(),
        ),
        c.handle_interrupt().m == c.m.disable_interrupt(c.m.next_interrupt()).write(
            wrap16(c.r.sp - 1),
            high_byte(c.r.pc),
        ).write(wrap16(c.r.sp - 2), low_byte(c.r.pc)),
        c.handle_interrupt().r.sp == wrap16(c.r.sp - 2),
        c.handle_interrupt().r.pc == handler_of(c.m.next_interrupt()),
        c.handle_interrupt().r.pc == 0x40 || c.handle_interrupt().r.pc == 0x48
            || c.handle_interrupt().r.pc == 0x50 || c.handle_interrupt().r.pc == 0x58
            || c.handle_interrupt().r.pc == 0x60,
{
    reveal(CpuModel::handle_interrupt);
    law_next_interrupt_is_pending(c.m);
    law_disable_takes_one_bit(c.m, c.m.next_interrupt());
}

/// A step in which an interrupt is dispatched takes 20 T-cycles.
pub proof fn law_interrupt_cost(c: CpuModel)
    requires
        c.fault is None,
        c.toggle_interrupt().ime,
        c.m.after_read(c.r.pc).has_pending_interrupts(),
    ensures
        c.step().cycles == INTERRUPT_CYCLES,
{
    reveal(CpuModel::step);
    reveal(CpuModel::cpu_step);
}

/// The timer, the serial link, the joypad and the pixel unit are advanced by
/// exactly the T-cycles that the CPU used in the step.
pub proof fn law_components_run_for_the_cycles_of_the_step(c: CpuModel)
    requires
        c.fault is None,
    ensures
        c.step().cycles == c.cpu_step().cycles,
        c.step().cpu.m == c.cpu_step().cpu.m.step(c.step().cycles),
        c.step().cpu.r == c.cpu_step().cpu.r,
{
    reveal(CpuModel::step);
}

/// What the host does to the console between two looks at the frame.
pub enum Input {
    Press(Button),
    Release(Button),
    /// Run to the end of the frame.
    Frame,
}

/// The console and what the last frame left over.
pub struct Played {
    pub cpu: CpuModel,
    pub carry: u32,
}

/// The console after the inputs of `inputs`, one after the other, from the
/// given state with `carry` left over.
pub open spec fn replay(c: CpuModel, carry: u32, inputs: Seq<Input>) -> Played
    decreases inputs.len(),
{
    if inputs.len() == 0 {
        Played { cpu: c, carry }
    } else {
        let before = replay(c, carry, inputs.drop_last());
        match inputs.last() {
            Input::Press(button) => Played {
                cpu: before.cpu.with_button(button, true),
                carry: before.carry,
            },
            Input::Release(button) => Played {
                cpu: before.cpu.with_button(button, false),
                carry: before.carry,
            },
            Input::Frame => Played {
                cpu: before.cpu.run_frame(before.carry).cpu,
                carry: before.cpu.run_frame(before.carry).carry,
            },
        }
    }
}

/// After a reset nothing is left of what the console did before but what
/// sits in the cartridge slot, the boot ROM and the two switches for
/// debugging: two consoles that agree in these are in the same state after
/// a reset.
pub proof fn law_reset_forgets(a: CpuModel, b: CpuModel)
    requires
        a.m.cart.slot.reset() == b.m.cart.slot.reset(),
        a.m.cart.info == b.m.cart.info,
        a.m.bios == b.m.bios,
        a.m.ppu.enable_background == b.m.ppu.enable_background,
        a.m.ppu.enable_obj == b.m.ppu.enable_obj,
    ensures
        a.reset() == b.reset(),
{
    reveal(CpuModel::reset);
    reveal(MmuModel::reset);
}

/// Two consoles that agree after a reset go through the same states, and
/// show the same frame after every input, when they are given the same inputs.
pub proof fn law_replay_is_deterministic(a: CpuModel, b: CpuModel, inputs: Seq<Input>)
    requires
        a.m.cart.slot.reset() == b.m.cart.slot.reset(),
        a.m.cart.info == b.m.cart.info,
        a.m.bios == b.m.bios,
        a.m.ppu.enable_background == b.m.ppu.enable_background,
        a.m.ppu.enable_obj == b.m.ppu.enable_obj,
    ensures
        replay(a.reset(), 0, inputs) == replay(b.reset(), 0, inputs),
        replay(a.reset(), 0, inputs).cpu.m.ppu.buf == replay(b.reset(), 0, inputs).cpu.m.ppu.buf,
{
    law_reset_forgets(a, b);
}

} // verus!
