//! The CPU: it fetches and executes one instruction at a time, looks at the
//! interrupts between instructions, and lets the other components run for
//! the T-cycles that each step took.

use crate::cpu::info::decode;
use crate::cpu::info::decode_prefixed;
use crate::cpu::info::law_cycles_table;
use crate::cpu::info::law_prefixed_cycles_table;
use crate::cpu::info::AluOp;
use crate::cpu::info::Cond;
use crate::cpu::info::Indirect;
use crate::cpu::info::Instr;
use crate::cpu::info::Operand;
use crate::cpu::info::PrefixedInstr;
use crate::cpu::info::ShiftOp;
use crate::cpu::info::CYCLES;
use crate::cpu::info::CYCLES_CB;
use crate::cpu::info::CYCLES_CB_BIT_HL;
use crate::cpu::info::IDLE_CYCLES;
use crate::cpu::info::LONGEST_INSTRUCTION;
use crate::cpu::info::INTERRUPT_CYCLES;
use crate::cpu::model::CpuModel;
use crate::cpu::registers::signed_of;
use crate::cpu::registers::Reg16;
use crate::cpu::registers::Reg8;
use crate::cpu::registers::Registers;
use crate::mmu::Mmu;
use crate::ppu::model::ONE_FRAME_CYCLES;
use vstd::prelude::*;

pub mod info;
pub mod instr;
pub mod laws;
pub mod model;
pub mod registers;

verus! {

/// The CPU with the machine behind its bus.
pub struct Cpu {
    pub r: Registers,
    pub m: Mmu,
    pub halt: bool,
    pub stop: bool,
    pub ime: bool,
    pub pending_ei: bool,
    pub pending_di: bool,
    pub halt_bug: bool,
    /// The opcode that stands for nothing and on which the CPU has locked up.
    pub fault: Option<u8>,
}

impl View for Cpu {
    type V = CpuModel;

    open spec fn view(&self) -> CpuModel {
        CpuModel {
            r: self.r,
            m: self.m@,
            halt: self.halt,
            stop: self.stop,
            ime: self.ime,
            pending_ei: self.pending_ei,
            pending_di: self.pending_di,
            halt_bug: self.halt_bug,
            fault: self.fault,
        }
    }
}

/// The two's-complement reading of a byte.
pub fn signed(b: u8) -> (i: i8)
    ensures
        i == signed_of(b),
{
    if b < 128 {
        b as i8
    } else {
        ((b as i16) - 256) as i8
    }
}

/// The address that lies the signed byte `offset` from `pc`.
pub fn relative(pc: u16, offset: u8) -> (target: u16)
    ensures
        target == crate::cpu::registers::wrap16(pc + signed_of(offset)),
{
    if offset < 128 {
        pc.wrapping_add(offset as u16)
    } else {
        pc.wrapping_sub(256 - (offset as u16))
    }
}

fn operand_from(code: u8) -> (o: Operand)
    ensures
        o == crate::cpu::info::operand_of(code),
{
    if code == 0 {
        Operand::B
    } else if code == 1 {
        Operand::C
    } else if code == 2 {
        Operand::D
    } else if code == 3 {
        Operand::E
    } else if code == 4 {
        Operand::H
    } else if code == 5 {
        Operand::L
    } else if code == 6 {
        Operand::HlMem
    } else {
        Operand::A
    }
}

fn alu_op_from(code: u8) -> (op: AluOp)
    ensures
        op == crate::cpu::info::alu_op_of(code),
{
    if code == 0 {
        AluOp::Add
    } else if code == 1 {
        AluOp::Adc
    } else if code == 2 {
        AluOp::Sub
    } else if code == 3 {
        AluOp::Sbc
    } else if code == 4 {
        AluOp::And
    } else if code == 5 {
        AluOp::Xor
    } else if code == 6 {
        AluOp::Or
    } else {
        AluOp::Cp
    }
}

fn shift_op_from(code: u8) -> (op: ShiftOp)
    ensures
        op == crate::cpu::info::shift_op_of(code),
{
    if code == 0 {
        ShiftOp::Rlc
    } else if code == 1 {
        ShiftOp::Rrc
    } else if code == 2 {
        ShiftOp::Rl
    } else if code == 3 {
        ShiftOp::Rr
    } else if code == 4 {
        ShiftOp::Sla
    } else if code == 5 {
        ShiftOp::Sra
    } else if code == 6 {
        ShiftOp::Swap
    } else {
        ShiftOp::Srl
    }
}

fn pair_from(code: u8) -> (pair: Reg16)
    ensures
        pair == crate::cpu::info::pair_of(code),
{
    if code == 0 {
        Reg16::BC
    } else if code == 1 {
        Reg16::DE
    } else if code == 2 {
        Reg16::HL
    } else {
        Reg16::SP
    }
}

fn stack_pair_from(code: u8) -> (pair: Reg16)
    ensures
        pair == crate::cpu::info::stack_pair_of(code),
{
    if code == 0 {
        Reg16::BC
    } else if code == 1 {
        Reg16::DE
    } else if code == 2 {
        Reg16::HL
    } else {
        Reg16::AF
    }
}

fn indirect_from(code: u8) -> (ind: Indirect)
    ensures
        ind == crate::cpu::info::indirect_of(code),
{
    if code == 0 {
        Indirect::BC
    } else if code == 1 {
        Indirect::DE
    } else if code == 2 {
        Indirect::HlInc
    } else {
        Indirect::HlDec
    }
}

fn cond_from(code: u8) -> (c: Cond)
    ensures
        c == crate::cpu::info::cond_of(code),
{
    if code == 0 {
        Cond::NZ
    } else if code == 1 {
        Cond::Z
    } else if code == 2 {
        Cond::NC
    } else {
        Cond::C
    }
}

fn decode_low_op(op: u8) -> (instr: Instr)
    requires
        op < 0x40,
    ensures
        instr == crate::cpu::info::decode_low(op),
{
    let row: u8 = op / 16;
    let column: u8 = op % 16;
    if column == 0x0 {
        if row == 0 {
            Instr::Nop
        } else if row == 1 {
            Instr::Stop
        } else if row == 2 {
            Instr::Jr(Cond::NZ)
        } else {
            Instr::Jr(Cond::NC)
        }
    } else if column == 0x1 {
        Instr::LdR16Imm(pair_from(row))
    } else if column == 0x2 {
        Instr::StoreA(indirect_from(row))
    } else if column == 0x3 {
        Instr::Inc16(pair_from(row))
    } else if column == 0x4 || column == 0xC {
        Instr::Inc8(operand_from(op / 8))
    } else if column == 0x5 || column == 0xD {
        Instr::Dec8(operand_from(op / 8))
    } else if column == 0x6 || column == 0xE {
        Instr::LdImm8(operand_from(op / 8))
    } else if column == 0x7 {
        if row == 0 {
            Instr::Rlca
        } else if row == 1 {
            Instr::Rla
        } else if row == 2 {
            Instr::Daa
        } else {
            Instr::Scf
        }
    } else if column == 0x8 {
        if row == 0 {
            Instr::StoreSp
        } else if row == 1 {
            Instr::Jr(Cond::Always)
        } else if row == 2 {
            Instr::Jr(Cond::Z)
        } else {
            Instr::Jr(Cond::C)
        }
    } else if column == 0x9 {
        Instr::AddHl(pair_from(row))
    } else if column == 0xA {
        Instr::LoadA(indirect_from(row))
    } else if column == 0xB {
        Instr::Dec16(pair_from(row))
    } else {
        if row == 0 {
            Instr::Rrca
        } else if row == 1 {
            Instr::Rra
        } else if row == 2 {
            Instr::Cpl
        } else {
            Instr::Ccf
        }
    }
}

fn decode_high_op(op: u8) -> (instr: Instr)
    requires
        op >= 0xC0,
    ensures
        instr == crate::cpu::info::decode_high(op),
{
    let column: u8 = op % 8;
    let row: u8 = (op - 0xC0) / 8;
    if op == 0xD3 || op == 0xDB || op == 0xDD || op == 0xE3 || op == 0xE4 || op == 0xEB || op
        == 0xEC || op == 0xED || op == 0xF4 || op == 0xFC || op == 0xFD {
        Instr::Illegal
    } else if op == 0xC3 {
        Instr::Jp(Cond::Always)
    } else if op == 0xC9 {
        Instr::Ret(Cond::Always)
    } else if op == 0xCB {
        Instr::Prefix
    } else if op == 0xCD {
        Instr::Call(Cond::Always)
    } else if op == 0xD9 {
        Instr::Reti
    } else if op == 0xE0 {
        Instr::LdhStore
    } else if op == 0xE2 {
        Instr::StoreC
    } else if op == 0xE8 {
        Instr::AddSp
    } else if op == 0xE9 {
        Instr::JpHl
    } else if op == 0xEA {
        Instr::StoreAbs
    } else if op == 0xF0 {
        Instr::LdhLoad
    } else if op == 0xF2 {
        Instr::LoadC
    } else if op == 0xF3 {
        Instr::Di
    } else if op == 0xF8 {
        Instr::LdHlSp
    } else if op == 0xF9 {
        Instr::LdSpHl
    } else if op == 0xFA {
        Instr::LoadAbs
    } else if op == 0xFB {
        Instr::Ei
    } else if column == 0 {
        Instr::Ret(cond_from(row))
    } else if column == 1 {
        Instr::Pop(stack_pair_from(row / 2))
    } else if column == 2 {
        Instr::Jp(cond_from(row))
    } else if column == 4 {
        Instr::Call(cond_from(row))
    } else if column == 5 {
        Instr::Push(stack_pair_from(row / 2))
    } else if column == 6 {
        Instr::AluImm(alu_op_from(row))
    } else {
        Instr::Rst((op - 0xC7) as u16)
    }
}

/// The instruction that an opcode stands for.
pub fn decode_op(op: u8) -> (instr: Instr)
    ensures
        instr == decode(op),
{
    if op < 0x40 {
        decode_low_op(op)
    } else if op == 0x76 {
        Instr::Halt
    } else if op < 0x80 {
        Instr::Ld(operand_from((op - 0x40) / 8), operand_from(op % 8))
    } else if op < 0xC0 {
        Instr::Alu(alu_op_from((op - 0x80) / 8), operand_from(op % 8))
    } else {
        decode_high_op(op)
    }
}

/// The instruction that a byte after the prefix stands for.
pub fn decode_prefixed_op(op: u8) -> (instr: PrefixedInstr)
    ensures
        instr == decode_prefixed(op),
        instr matches PrefixedInstr::TestBit(bit, _) ==> bit < 8,
        instr matches PrefixedInstr::ResBit(bit, _) ==> bit < 8,
        instr matches PrefixedInstr::SetBit(bit, _) ==> bit < 8,
{
    if op < 0x40 {
        PrefixedInstr::Shift(shift_op_from(op / 8), operand_from(op % 8))
    } else if op < 0x80 {
        PrefixedInstr::TestBit((op - 0x40) / 8, operand_from(op % 8))
    } else if op < 0xC0 {
        PrefixedInstr::ResBit((op - 0x80) / 8, operand_from(op % 8))
    } else {
        PrefixedInstr::SetBit((op - 0xC0) / 8, operand_from(op % 8))
    }
}

impl Cpu {
    /// The machine behind the bus is in order.
    pub open spec fn wf(&self) -> bool {
        self.m.wf()
    }

    /// A CPU at power-on over the given machine.
    pub fn new(m: Mmu) -> (cpu: Cpu)
        requires
            m.wf(),
        ensures
            cpu.wf(),
            cpu@ == (CpuModel {
                r: Registers::power_on(),
                m: m@,
                halt: false,
                stop: false,
                ime: false,
                pending_ei: false,
                pending_di: false,
                halt_bug: false,
                fault: None,
            }),
    {
        Cpu {
            r: Registers::new(),
            m,
            halt: false,
            stop: false,
            ime: false,
            pending_ei: false,
            pending_di: false,
            halt_bug: false,
            fault: None,
        }
    }

    /// Back to the power-on state. With a boot ROM the program starts at
    /// its first byte, else at the entry point of the cartridge.
    pub fn reset(&mut self)
        requires
            old(self).wf(),
        ensures
            final(self).wf(),
            final(self)@ == old(self)@.reset(),
    {
        reveal(CpuModel::reset);
        let boot: bool = self.m.has_bios();
        self.m.reset();
        self.r.reset();
        if boot {
            self.r.pc = 0x0000;
        }
        self.halt = false;
        self.stop = false;
        self.ime = false;
        self.pending_ei = false;
        self.pending_di = false;
        self.halt_bug = false;
        self.fault = None;
    }

    /// Lets a pending DI and then a pending EI take effect.
    pub fn toggle_interrupt(&mut self)
        ensures
            final(self)@ == old(self)@.toggle_interrupt(),
            old(self).wf() ==> final(self).wf(),
    {
        if self.pending_di {
            self.ime = false;
            self.pending_di = false;
        }
        if self.pending_ei {
            self.ime = true;
            self.pending_ei = false;
        }
    }

    /// Looks at the interrupts; true when one was dispatched.
    pub fn handle_interrupt(&mut self) -> (dispatched: bool)
        requires
            old(self).wf(),
        ensures
            final(self).wf(),
            dispatched == old(self)@.dispatches(),
            final(self)@ == old(self)@.handle_interrupt(),
    {
        reveal(CpuModel::handle_interrupt);
        if (self.ime || self.halt || self.stop) && self.m.has_pending_interrupts() {
            self.halt = false;
            self.stop = false;
            if self.ime {
                self.ime = false;
                let interrupt = self.m.next_interrupt();
                self.m.disable_interrupt(interrupt);
                self.push(self.r.pc);
                self.r.pc = self.m.get_interrupt_handler(interrupt);
                return true;
            }
        }
        false
    }

    /// One step of the machine. The results are the program counter before
    /// the step, the byte at that address, and the T-cycles that the step took.
    pub fn step(&mut self) -> (r: (u16, u8, u32))
        requires
            old(self).wf(),
        ensures
            final(self).wf(),
            final(self)@ == old(self)@.step().cpu,
            r.0 == old(self)@.step().pc,
            r.1 == old(self)@.step().opcode,
            r.2 == old(self)@.step().cycles,
            4 <= r.2 <= 24,
    {
        reveal(CpuModel::step);
        let pc: u16 = self.r.pc;
        match self.fault {
            Some(opcode) => {
                self.m.step(IDLE_CYCLES);
                return (pc, opcode, IDLE_CYCLES);
            },
            None => {},
        }
        let (instr, cycles): (u8, u32) = self.cpu_step();
        self.m.step(cycles);
        (pc, instr, cycles)
    }

    /// The part of the CPU in one step: an interrupt dispatch, a wait, or
    /// one instruction. The results are the byte at PC and the T-cycles
    /// that the CPU used.
    fn cpu_step(&mut self) -> (r: (u8, u32))
        requires
            old(self).wf(),
        ensures
            final(self).wf(),
            r.0 == old(self)@.toggle_interrupt().m.read(old(self)@.r.pc),
            r.1 == old(self)@.cpu_step().cycles,
            final(self)@ == old(self)@.cpu_step().cpu,
            4 <= r.1 <= 24,
    {
        reveal(CpuModel::cpu_step);
        self.toggle_interrupt();
        let instr: u8 = self.m.b(self.r.pc);
        let cycles: u32 = if self.handle_interrupt() {
            INTERRUPT_CYCLES
        } else if self.halt {
            IDLE_CYCLES
        } else {
            self.step_instr()
        };
        (instr, cycles)
    }

    /// Steps until the T-cycles counted in this frame reach those of one
    /// frame; `cycles` is what the frame before left over. The result is what
    /// this frame leaves over: less than the longest instruction, where
    /// `cycles` was.
    pub fn step_frame(&mut self, cycles: u32) -> (carry: u32)
        requires
            old(self).wf(),
        ensures
            final(self).wf(),
            final(self)@ == old(self)@.run_frame(cycles).cpu,
            carry == old(self)@.run_frame(cycles).carry,
            carry + ONE_FRAME_CYCLES == cycles + old(self)@.run_frame(cycles).spent,
            cycles < ONE_FRAME_CYCLES + LONGEST_INSTRUCTION ==> carry < LONGEST_INSTRUCTION,
    {
        let mut cycles: u32 = cycles;
        let ghost start = cycles;
        let ghost mut spent: nat = 0;
        while cycles < ONE_FRAME_CYCLES
            invariant
                self.wf(),
                old(self)@.run_frame(start).cpu == self@.run_frame(cycles).cpu,
                old(self)@.run_frame(start).carry == self@.run_frame(cycles).carry,
                old(self)@.run_frame(start).spent == spent + self@.run_frame(cycles).spent,
                start + spent == cycles,
                start < ONE_FRAME_CYCLES + LONGEST_INSTRUCTION ==> cycles < ONE_FRAME_CYCLES
                    + LONGEST_INSTRUCTION,
            decreases ONE_FRAME_CYCLES + LONGEST_INSTRUCTION - cycles,
        {
            let stepped: (u16, u8, u32) = self.step();
            let used: u32 = stepped.2;
            proof {
                spent = spent + used as nat;
            }
            cycles = cycles + used;
        }
        cycles - ONE_FRAME_CYCLES
    }

    /// The frame as it stands.
    pub fn get_buf(&self) -> (buf: [[u8; 160]; 144])
        requires
            self.wf(),
        ensures
            crate::ppu::frame_of(buf) == self@.m.ppu.buf,
            forall|r: int, c: int| 0 <= r < 144 && 0 <= c < 160 ==> #[trigger] buf@[r]@[c] <= 3,
    {
        self.m.frame()
    }

    /// The program counter and the byte at its address.
    pub fn next_step(&mut self) -> (r: (u16, u8))
        requires
            old(self).wf(),
        ensures
            final(self).wf(),
            r.0 == old(self)@.r.pc,
            r.1 == old(self)@.read8(old(self)@.r.pc).value,
            final(self)@ == old(self)@.read8(old(self)@.r.pc).cpu,
    {
        let pc: u16 = self.r.pc;
        (pc, self.m.b(pc))
    }

    /// Reads an operand.
    pub fn alu_arg_get(&mut self, o: Operand) -> (value: u8)
        requires
            old(self).wf(),
        ensures
            final(self).wf(),
            value == old(self)@.operand(o).value,
            final(self)@ == old(self)@.operand(o).cpu,
    {
        match o {
            Operand::B => self.r.get_8(Reg8::B),
            Operand::C => self.r.get_8(Reg8::C),
            Operand::D => self.r.get_8(Reg8::D),
            Operand::E => self.r.get_8(Reg8::E),
            Operand::H => self.r.get_8(Reg8::H),
            Operand::L => self.r.get_8(Reg8::L),
            Operand::HlMem => {
                let hl: u16 = self.r.get_16(Reg16::HL);
                self.m.b(hl)
            },
            Operand::A => self.r.get_8(Reg8::A),
        }
    }

    /// Stores a value in an operand.
    pub fn alu_arg_set(&mut self, o: Operand, value: u8)
        requires
            old(self).wf(),
        ensures
            final(self).wf(),
            final(self)@ == old(self)@.with_operand(o, value),
    {
        match o {
            Operand::B => self.r.set_8(Reg8::B, value),
            Operand::C => self.r.set_8(Reg8::C, value),
            Operand::D => self.r.set_8(Reg8::D, value),
            Operand::E => self.r.set_8(Reg8::E, value),
            Operand::H => self.r.set_8(Reg8::H, value),
            Operand::L => self.r.set_8(Reg8::L, value),
            Operand::HlMem => {
                let hl: u16 = self.r.get_16(Reg16::HL);
                self.m.wb(hl, value);
            },
            Operand::A => self.r.set_8(Reg8::A, value),
        }
    }

    /// Fetches the byte at PC.
    pub fn step_pc_b(&mut self) -> (value: u8)
        requires
            old(self).wf(),
        ensures
            final(self).wf(),
            value == old(self)@.fetch8().value,
            final(self)@ == old(self)@.fetch8().cpu,
    {
        let next: u8 = self.m.b(self.r.pc);
        if self.halt_bug {
            self.halt_bug = false;
        } else {
            self.r.pc = self.r.pc.wrapping_add(1);
        }
        next
    }

    /// Fetches the 16-bit value at PC.
    pub fn step_pc_w(&mut self) -> (value: u16)
        requires
            old(self).wf(),
        ensures
            final(self).wf(),
            value == old(self)@.fetch16().value,
            final(self)@ == old(self)@.fetch16().cpu,
    {
        let next: u16 = self.m.w(self.r.pc);
        self.r.pc = self.r.pc.wrapping_add(2);
        next
    }

    /// Pops a 16-bit value off the stack.
    pub fn pop(&mut self) -> (value: u16)
        requires
            old(self).wf(),
        ensures
            final(self).wf(),
            value == old(self)@.pop().value,
            final(self)@ == old(self)@.pop().cpu,
    {
        let sp: u16 = self.r.get_sp_pop();
        self.m.w(sp)
    }

    /// Pushes a 16-bit value on the stack, the high byte first.
    pub fn push(&mut self, value: u16)
        requires
            old(self).wf(),
        ensures
            final(self).wf(),
            final(self)@ == old(self)@.push(value),
    {
        let sp: u16 = self.r.get_sp_push();
        self.m.wb(sp.wrapping_add(1), (value / 256) as u8);
        self.m.wb(sp, (value % 256) as u8);
    }

    pub(crate) fn holds(&self, c: Cond) -> (b: bool)
        ensures
            b == self@.holds(c),
    {
        match c {
            Cond::Always => true,
            Cond::NZ => !self.r.flags.z,
            Cond::Z => self.r.flags.z,
            Cond::NC => !self.r.flags.c,
            Cond::C => self.r.flags.c,
        }
    }

    pub(crate) fn alu(&mut self, op: AluOp, n: u8)
        ensures
            final(self)@ == old(self)@.alu(op, n),
            old(self).wf() ==> final(self).wf(),
    {
        match op {
            AluOp::Add => {
                let res: u8 = self.r.add(n);
                self.r.set_8(Reg8::A, res);
            },
            AluOp::Adc => {
                let res: u8 = self.r.adc(n);
                self.r.set_8(Reg8::A, res);
            },
            AluOp::Sub => {
                let res: u8 = self.r.sub(n);
                self.r.set_8(Reg8::A, res);
            },
            AluOp::Sbc => {
                let res: u8 = self.r.sbc(n);
                self.r.set_8(Reg8::A, res);
            },
            AluOp::And => {
                let res: u8 = self.r.and(n);
                self.r.set_8(Reg8::A, res);
            },
            AluOp::Xor => {
                let res: u8 = self.r.xor(n);
                self.r.set_8(Reg8::A, res);
            },
            AluOp::Or => {
                let res: u8 = self.r.or(n);
                self.r.set_8(Reg8::A, res);
            },
            AluOp::Cp => {
                self.r.cp(n);
            },
        }
    }

    pub(crate) fn shift(&mut self, op: ShiftOp, n: u8) -> (res: u8)
        ensures
            res == crate::cpu::model::shift_res(op, n, old(self)@.r.flags.c),
            final(self)@ == old(self)@.with_flags(
                crate::cpu::registers::shift_flags(res, crate::cpu::model::shift_carry(op, n)),
            ),
            old(self).wf() ==> final(self).wf(),
    {
        match op {
            ShiftOp::Rlc => self.r.rlc(n),
            ShiftOp::Rrc => self.r.rrc(n),
            ShiftOp::Rl => self.r.rl(n),
            ShiftOp::Rr => self.r.rr(n),
            ShiftOp::Sla => self.r.sla(n),
            ShiftOp::Sra => self.r.sra(n),
            ShiftOp::Swap => self.r.swap(n),
            ShiftOp::Srl => self.r.srl(n),
        }
    }

    pub(crate) fn rotate_a(&mut self, op: ShiftOp)
        ensures
            final(self)@ == old(self)@.rotate_a(op),
            old(self).wf() ==> final(self).wf(),
    {
        let a: u8 = self.r.a;
        let res: u8 = self.shift(op, a);
        self.r.flags.z = false;
        self.r.set_8(Reg8::A, res);
    }

    pub(crate) fn step8(&mut self, o: Operand, up: bool)
        requires
            old(self).wf(),
        ensures
            final(self).wf(),
            final(self)@ == old(self)@.step8(o, up),
    {
        let n: u8 = self.alu_arg_get(o);
        let res: u8 = if up {
            self.r.inc(n)
        } else {
            self.r.dec(n)
        };
        self.alu_arg_set(o, res);
    }

    pub(crate) fn indirect_address(&mut self, ind: Indirect) -> (address: u16)
        ensures
            address == old(self)@.indirect_address(ind),
            final(self)@ == old(self)@.after_indirect(ind),
            old(self).wf() ==> final(self).wf(),
    {
        match ind {
            Indirect::BC => self.r.get_16(Reg16::BC),
            Indirect::DE => self.r.get_16(Reg16::DE),
            Indirect::HlInc => self.r.get_hl(true),
            Indirect::HlDec => self.r.get_hl(false),
        }
    }

    pub(crate) fn add_sp(&mut self, target: Reg16)
        requires
            old(self).wf(),
        ensures
            final(self).wf(),
            final(self)@ == old(self)@.add_sp(target),
    {
        let sp: u16 = self.r.get_16(Reg16::SP);
        let imm: i8 = signed(self.step_pc_b());
        let res: u16 = self.r.add16_imm_i8(sp, imm);
        self.r.set_16(target, res);
    }

    /// JR cc, r8
    fn jump_relative(&mut self, c: Cond) -> (taken: bool)
        requires
            old(self).wf(),
        ensures
            final(self).wf(),
            final(self)@ == old(self)@.jump_relative(c).cpu,
            taken == old(self)@.jump_relative(c).taken,
    {
        let imm: u8 = self.step_pc_b();
        if self.holds(c) {
            self.r.pc = relative(self.r.pc, imm);
            true
        } else {
            false
        }
    }

    /// JP cc, a16
    fn jump(&mut self, c: Cond) -> (taken: bool)
        requires
            old(self).wf(),
        ensures
            final(self).wf(),
            final(self)@ == old(self)@.jump(c).cpu,
            taken == old(self)@.jump(c).taken,
    {
        let imm: u16 = self.step_pc_w();
        if self.holds(c) {
            self.r.pc = imm;
            true
        } else {
            false
        }
    }

    /// CALL cc, a16
    fn call(&mut self, c: Cond) -> (taken: bool)
        requires
            old(self).wf(),
        ensures
            final(self).wf(),
            final(self)@ == old(self)@.call(c).cpu,
            taken == old(self)@.call(c).taken,
    {
        let imm: u16 = self.step_pc_w();
        if self.holds(c) {
            self.push(self.r.pc);
            self.r.pc = imm;
            true
        } else {
            false
        }
    }

    /// RET cc
    fn ret(&mut self, c: Cond) -> (taken: bool)
        requires
            old(self).wf(),
        ensures
            final(self).wf(),
            final(self)@ == old(self)@.ret(c).cpu,
            taken == old(self)@.ret(c).taken,
    {
        if self.holds(c) {
            self.r.pc = self.pop();
            true
        } else {
            false
        }
    }

    /// Does a conditional jump, call or return, or any other instruction;
    /// true when the jump, call or return was taken.
    fn execute(&mut self, instr: Instr) -> (taken: bool)
        requires
            old(self).wf(),
        ensures
            final(self).wf(),
            final(self)@ == old(self)@.execute(instr).cpu,
            taken == old(self)@.execute(instr).taken,
    {
        reveal(CpuModel::execute);
        match instr {
            Instr::Jr(c) => self.jump_relative(c),
            Instr::Jp(c) => self.jump(c),
            Instr::Call(c) => self.call(c),
            Instr::Ret(c) => self.ret(c),
            _ => {
                self.execute_plain(instr);
                false
            },
        }
    }

    /// Does an instruction that is no conditional jump, call or return.
    fn execute_plain(&mut self, instr: Instr)
        requires
            old(self).wf(),
        ensures
            final(self).wf(),
            final(self)@ == old(self)@.execute_plain(instr),
    {
        reveal(CpuModel::execute_plain);
        match instr {
            Instr::Nop
            | Instr::Stop
            | Instr::Halt
            | Instr::Di
            | Instr::Ei
            | Instr::Reti
            | Instr::Pop(_)
            | Instr::Push(_)
            | Instr::JpHl
            | Instr::Rst(_) => self.execute_control(instr),
            Instr::LdR16Imm(_)
            | Instr::Inc16(_)
            | Instr::Dec16(_)
            | Instr::StoreSp
            | Instr::AddHl(_)
            | Instr::AddSp
            | Instr::LdHlSp
            | Instr::LdSpHl => self.execute_wide(instr),
            Instr::StoreA(_)
            | Instr::LoadA(_)
            | Instr::LdImm8(_)
            | Instr::Ld(_, _)
            | Instr::LdhStore
            | Instr::LdhLoad
            | Instr::StoreC
            | Instr::LoadC
            | Instr::StoreAbs
            | Instr::LoadAbs => self.execute_load(instr),
            Instr::Inc8(_)
            | Instr::Dec8(_)
            | Instr::Rlca
            | Instr::Rla
            | Instr::Rrca
            | Instr::Rra
            | Instr::Daa
            | Instr::Cpl
            | Instr::Scf
            | Instr::Ccf
            | Instr::Alu(_, _)
            | Instr::AluImm(_) => self.execute_arith(instr),
            _ => {},
        }
    }

    fn execute_control(&mut self, instr: Instr)
        requires
            old(self).wf(),
        ensures
            final(self).wf(),
            final(self)@ == old(self)@.execute_control(instr),
    {
        reveal(CpuModel::execute_control);
        match instr {
            Instr::Stop => self.stop_instr(),
            Instr::Halt => self.halt_instr(),
            Instr::Di => self.di(),
            Instr::Ei => self.ei(),
            Instr::Reti => self.reti(),
            Instr::Pop(pair) => self.pop_pair(pair),
            Instr::Push(pair) => self.push_pair(pair),
            Instr::JpHl => self.jp_hl(),
            Instr::Rst(target) => self.rst(target),
            _ => {},
        }
    }

    fn execute_wide(&mut self, instr: Instr)
        requires
            old(self).wf(),
        ensures
            final(self).wf(),
            final(self)@ == old(self)@.execute_wide(instr),
    {
        reveal(CpuModel::execute_wide);
        match instr {
            Instr::LdR16Imm(pair) => self.ld_pair_imm(pair),
            Instr::Inc16(pair) => self.inc_pair(pair),
            Instr::Dec16(pair) => self.dec_pair(pair),
            Instr::StoreSp => self.store_sp(),
            Instr::AddHl(pair) => self.add_hl(pair),
            Instr::LdSpHl => self.ld_sp_hl(),
            Instr::AddSp => self.add_sp(Reg16::SP),
            Instr::LdHlSp => self.add_sp(Reg16::HL),
            _ => {},
        }
    }

    fn execute_load(&mut self, instr: Instr)
        requires
            old(self).wf(),
        ensures
            final(self).wf(),
            final(self)@ == old(self)@.execute_load(instr),
    {
        reveal(CpuModel::execute_load);
        match instr {
            Instr::StoreA(ind) => self.store_a(ind),
            Instr::LoadA(ind) => self.load_a(ind),
            Instr::LdImm8(o) => self.ld_imm(o),
            Instr::Ld(to, from) => self.ld(to, from),
            Instr::LdhStore => self.ldh_store(),
            Instr::LdhLoad => self.ldh_load(),
            Instr::StoreC => self.store_c(),
            Instr::LoadC => self.load_c(),
            Instr::StoreAbs => self.store_abs(),
            Instr::LoadAbs => self.load_abs(),
            _ => {},
        }
    }

    fn execute_arith(&mut self, instr: Instr)
        requires
            old(self).wf(),
        ensures
            final(self).wf(),
            final(self)@ == old(self)@.execute_arith(instr),
    {
        reveal(CpuModel::execute_arith);
        match instr {
            Instr::Inc8(o) => self.step8(o, true),
            Instr::Dec8(o) => self.step8(o, false),
            Instr::Rlca => self.rotate_a(ShiftOp::Rlc),
            Instr::Rla => self.rotate_a(ShiftOp::Rl),
            Instr::Rrca => self.rotate_a(ShiftOp::Rrc),
            Instr::Rra => self.rotate_a(ShiftOp::Rr),
            Instr::Daa => self.daa(),
            Instr::Cpl => self.cpl(),
            Instr::Scf => self.scf(),
            Instr::Ccf => self.ccf(),
            Instr::Alu(op, o) => self.alu_operand(op, o),
            Instr::AluImm(op) => self.alu_imm(op),
            _ => {},
        }
    }

    /// Fetches and does one instruction; the result is its cost in T-cycles.
    pub fn step_instr(&mut self) -> (cycles: u32)
        requires
            old(self).wf(),
        ensures
            final(self).wf(),
            final(self)@ == old(self)@.step_instr().cpu,
            cycles == old(self)@.step_instr().cycles,
            4 <= cycles <= 24,
    {
        reveal(CpuModel::step_instr);
        let op: u8 = self.step_pc_b();
        let instr: Instr = decode_op(op);
        proof {
            law_cycles_table(op);
        }
        let cycles: u32 = CYCLES[op as usize];
        match instr {
            Instr::Illegal => {
                self.fault = Some(op);
                cycles
            },
            Instr::Prefix => self.step_instr_cb(),
            Instr::Jr(_) => {
                if self.execute(instr) {
                    cycles + 4
                } else {
                    cycles
                }
            },
            Instr::Jp(_) => {
                if self.execute(instr) {
                    cycles + 4
                } else {
                    cycles
                }
            },
            Instr::Call(_) => {
                if self.execute(instr) {
                    cycles + 12
                } else {
                    cycles
                }
            },
            Instr::Ret(c) => {
                let taken: bool = self.execute(instr);
                match c {
                    Cond::Always => cycles,
                    _ => if taken {
                        cycles + 12
                    } else {
                        cycles
                    },
                }
            },
            _ => {
                self.execute(instr);
                cycles
            },
        }
    }

    /// Fetches and does one instruction of the prefixed table; the result
    /// is its cost in T-cycles, the prefix included.
    pub fn step_instr_cb(&mut self) -> (cycles: u32)
        requires
            old(self).wf(),
        ensures
            final(self).wf(),
            final(self)@ == old(self)@.step_instr_cb().cpu,
            cycles == old(self)@.step_instr_cb().cycles,
            8 <= cycles <= 16,
    {
        reveal(CpuModel::step_instr_cb);
        reveal(CpuModel::execute_prefixed);
        let op: u8 = self.step_pc_b();
        proof {
            law_prefixed_cycles_table(op);
        }
        match decode_prefixed_op(op) {
            PrefixedInstr::Shift(shift, o) => {
                let n: u8 = self.alu_arg_get(o);
                let res: u8 = self.shift(shift, n);
                self.alu_arg_set(o, res);
            },
            PrefixedInstr::TestBit(bit, o) => {
                let n: u8 = self.alu_arg_get(o);
                self.r.bit(n, bit);
            },
            PrefixedInstr::ResBit(bit, o) => {
                let n: u8 = self.alu_arg_get(o);
                let res: u8 = self.r.res(n, bit);
                self.alu_arg_set(o, res);
            },
            PrefixedInstr::SetBit(bit, o) => {
                let n: u8 = self.alu_arg_get(o);
                let res: u8 = self.r.set(n, bit);
                self.alu_arg_set(o, res);
            },
        }
        if 0x40 <= op && op < 0x80 && op % 8 == 6 {
            CYCLES_CB_BIT_HL
        } else {
            CYCLES_CB[(op as usize) % 16]
        }
    }
}

} // verus!
