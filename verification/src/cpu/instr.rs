//! What each instruction does, one function to an instruction.

use crate::cpu::info::AluOp;
use crate::cpu::info::Indirect;
use crate::cpu::info::Operand;
use crate::cpu::model::CpuModel;
use crate::cpu::registers::add16_flags;
use crate::cpu::registers::add16_res;
use crate::cpu::registers::ccf_flags;
use crate::cpu::registers::cpl_flags;
use crate::cpu::registers::cpl_res;
use crate::cpu::registers::daa_flags;
use crate::cpu::registers::daa_res;
use crate::cpu::registers::scf_flags;
use crate::cpu::registers::wrap16;
use crate::cpu::registers::Reg16;
use crate::cpu::registers::Reg8;
use crate::cpu::Cpu;
use vstd::prelude::*;

verus! {

impl Cpu {
    /// STOP
    pub(crate) fn stop_instr(&mut self)
        requires
            old(self).wf(),
        ensures
            final(self).wf(),
            final(self)@ == (CpuModel { stop: true, ..old(self)@ }),
    {
        self.stop = true;
    }

    /// HALT
    pub(crate) fn halt_instr(&mut self)
        requires
            old(self).wf(),
        ensures
            final(self).wf(),
            final(self)@ == (old(self)@.halt_instr()),
    {
        if !self.ime && self.m.has_pending_interrupts() {
            self.halt_bug = true;
        } else {
            self.halt = true;
        }
    }

    /// DI
    pub(crate) fn di(&mut self)
        requires
            old(self).wf(),
        ensures
            final(self).wf(),
            final(self)@ == (CpuModel { pending_di: true, ..old(self)@ }),
    {
        self.pending_di = true;
    }

    /// EI
    pub(crate) fn ei(&mut self)
        requires
            old(self).wf(),
        ensures
            final(self).wf(),
            final(self)@ == (CpuModel { pending_ei: true, ..old(self)@ }),
    {
        self.pending_ei = true;
    }

    /// RETI
    pub(crate) fn reti(&mut self)
        requires
            old(self).wf(),
        ensures
            final(self).wf(),
            final(self)@ == (CpuModel { pending_ei: true, ..old(self)@.pop().cpu.with_pc(old(self)@.pop().value) }),
    {
        self.r.pc = self.pop();
        self.pending_ei = true;
    }

    /// POP rr
    pub(crate) fn pop_pair(&mut self, pair: Reg16)
        requires
            old(self).wf(),
        ensures
            final(self).wf(),
            final(self)@ == (old(self)@.pop().cpu.with_pair(pair, old(self)@.pop().value)),
    {
        let res: u16 = self.pop();
        self.r.set_16(pair, res);
    }

    /// PUSH rr
    pub(crate) fn push_pair(&mut self, pair: Reg16)
        requires
            old(self).wf(),
        ensures
            final(self).wf(),
            final(self)@ == (old(self)@.push(old(self)@.r.reg16(pair))),
    {
        self.push(self.r.get_16(pair));
    }

    /// JP (HL)
    pub(crate) fn jp_hl(&mut self)
        requires
            old(self).wf(),
        ensures
            final(self).wf(),
            final(self)@ == (old(self)@.with_pc(old(self)@.r.reg16(Reg16::HL))),
    {
        self.r.pc = self.r.get_16(Reg16::HL);
    }

    /// RST
    pub(crate) fn rst(&mut self, target: u16)
        requires
            old(self).wf(),
        ensures
            final(self).wf(),
            final(self)@ == (old(self)@.push(old(self)@.r.pc).with_pc(target)),
    {
        self.push(self.r.pc);
        self.r.pc = target;
    }

    /// LD rr, d16
    pub(crate) fn ld_pair_imm(&mut self, pair: Reg16)
        requires
            old(self).wf(),
        ensures
            final(self).wf(),
            final(self)@ == (old(self)@.fetch16().cpu.with_pair(pair, old(self)@.fetch16().value)),
    {
        let res: u16 = self.step_pc_w();
        self.r.set_16(pair, res);
    }

    /// INC rr
    pub(crate) fn inc_pair(&mut self, pair: Reg16)
        requires
            old(self).wf(),
        ensures
            final(self).wf(),
            final(self)@ == (old(self)@.with_pair(pair, wrap16(old(self)@.r.reg16(pair) + 1))),
    {
        let res: u16 = self.r.inc16(self.r.get_16(pair));
        self.r.set_16(pair, res);
    }

    /// DEC rr
    pub(crate) fn dec_pair(&mut self, pair: Reg16)
        requires
            old(self).wf(),
        ensures
            final(self).wf(),
            final(self)@ == (old(self)@.with_pair(pair, wrap16(old(self)@.r.reg16(pair) - 1))),
    {
        let res: u16 = self.r.dec16(self.r.get_16(pair));
        self.r.set_16(pair, res);
    }

    /// LD (a16), SP
    pub(crate) fn store_sp(&mut self)
        requires
            old(self).wf(),
        ensures
            final(self).wf(),
            final(self)@ == (CpuModel { m: old(self)@.fetch16().cpu.m.write_word(old(self)@.fetch16().value, old(self)@.r.sp), ..old(self)@.fetch16().cpu }),
    {
        let imm: u16 = self.step_pc_w();
        self.m.ww(imm, self.r.get_16(Reg16::SP));
    }

    /// ADD HL, rr
    pub(crate) fn add_hl(&mut self, pair: Reg16)
        requires
            old(self).wf(),
        ensures
            final(self).wf(),
            final(self)@ == (old(self)@.with_flags(add16_flags(old(self)@.r.flags, old(self)@.r.reg16(Reg16::HL), old(self)@.r.reg16(pair))).with_pair(Reg16::HL, add16_res(old(self)@.r.reg16(Reg16::HL), old(self)@.r.reg16(pair)))),
    {
        let res: u16 = self.r.add16(self.r.get_16(pair));
        self.r.set_16(Reg16::HL, res);
    }

    /// LD SP, HL
    pub(crate) fn ld_sp_hl(&mut self)
        requires
            old(self).wf(),
        ensures
            final(self).wf(),
            final(self)@ == (old(self)@.with_pair(Reg16::SP, old(self)@.r.reg16(Reg16::HL))),
    {
        self.r.set_16(Reg16::SP, self.r.get_16(Reg16::HL));
    }

    /// LD (rr), A
    pub(crate) fn store_a(&mut self, ind: Indirect)
        requires
            old(self).wf(),
        ensures
            final(self).wf(),
            final(self)@ == (old(self)@.after_indirect(ind).write8(old(self)@.indirect_address(ind), old(self)@.r.a)),
    {
        let address: u16 = self.indirect_address(ind);
        self.m.wb(address, self.r.a);
    }

    /// LD A, (rr)
    pub(crate) fn load_a(&mut self, ind: Indirect)
        requires
            old(self).wf(),
        ensures
            final(self).wf(),
            final(self)@ == (old(self)@.after_indirect(ind).read8(old(self)@.indirect_address(ind)).cpu.with_a(old(self)@.after_indirect(ind).read8(old(self)@.indirect_address(ind)).value)),
    {
        let address: u16 = self.indirect_address(ind);
        let value: u8 = self.m.b(address);
        self.r.set_8(Reg8::A, value);
    }

    /// LD r, d8
    pub(crate) fn ld_imm(&mut self, o: Operand)
        requires
            old(self).wf(),
        ensures
            final(self).wf(),
            final(self)@ == (old(self)@.fetch8().cpu.with_operand(o, old(self)@.fetch8().value)),
    {
        let imm: u8 = self.step_pc_b();
        self.alu_arg_set(o, imm);
    }

    /// LD r, r'
    pub(crate) fn ld(&mut self, to: Operand, from: Operand)
        requires
            old(self).wf(),
        ensures
            final(self).wf(),
            final(self)@ == (old(self)@.operand(from).cpu.with_operand(to, old(self)@.operand(from).value)),
    {
        let res: u8 = self.alu_arg_get(from);
        self.alu_arg_set(to, res);
    }

    /// LDH (a8), A
    pub(crate) fn ldh_store(&mut self)
        requires
            old(self).wf(),
        ensures
            final(self).wf(),
            final(self)@ == (old(self)@.fetch8().cpu.write8((0xFF00 + old(self)@.fetch8().value) as u16, old(self)@.r.a)),
    {
        let imm: u16 = self.step_pc_b() as u16;
        self.m.wb(0xFF00 + imm, self.r.a);
    }

    /// LDH A, (a8)
    pub(crate) fn ldh_load(&mut self)
        requires
            old(self).wf(),
        ensures
            final(self).wf(),
            final(self)@ == (old(self)@.fetch8().cpu.read8((0xFF00 + old(self)@.fetch8().value) as u16).cpu.with_a(old(self)@.fetch8().cpu.read8((0xFF00 + old(self)@.fetch8().value) as u16).value)),
    {
        let imm: u16 = self.step_pc_b() as u16;
        let value: u8 = self.m.b(0xFF00 + imm);
        self.r.set_8(Reg8::A, value);
    }

    /// LD (C), A
    pub(crate) fn store_c(&mut self)
        requires
            old(self).wf(),
        ensures
            final(self).wf(),
            final(self)@ == (old(self)@.write8((0xFF00 + old(self)@.r.c) as u16, old(self)@.r.a)),
    {
        self.m.wb(0xFF00 + (self.r.c as u16), self.r.a);
    }

    /// LD A, (C)
    pub(crate) fn load_c(&mut self)
        requires
            old(self).wf(),
        ensures
            final(self).wf(),
            final(self)@ == (old(self)@.read8((0xFF00 + old(self)@.r.c) as u16).cpu.with_a(old(self)@.read8((0xFF00 + old(self)@.r.c) as u16).value)),
    {
        let res: u8 = self.m.b(0xFF00 + (self.r.c as u16));
        self.r.set_8(Reg8::A, res);
    }

    /// LD (a16), A
    pub(crate) fn store_abs(&mut self)
        requires
            old(self).wf(),
        ensures
            final(self).wf(),
            final(self)@ == (old(self)@.fetch16().cpu.write8(old(self)@.fetch16().value, old(self)@.r.a)),
    {
        let imm: u16 = self.step_pc_w();
        self.m.wb(imm, self.r.a);
    }

    /// LD A, (a16)
    pub(crate) fn load_abs(&mut self)
        requires
            old(self).wf(),
        ensures
            final(self).wf(),
            final(self)@ == (old(self)@.fetch16().cpu.read8(old(self)@.fetch16().value).cpu.with_a(old(self)@.fetch16().cpu.read8(old(self)@.fetch16().value).value)),
    {
        let imm: u16 = self.step_pc_w();
        let res: u8 = self.m.b(imm);
        self.r.set_8(Reg8::A, res);
    }

    /// DAA
    pub(crate) fn daa(&mut self)
        requires
            old(self).wf(),
        ensures
            final(self).wf(),
            final(self)@ == (old(self)@.with_flags(daa_flags(old(self)@.r.a, old(self)@.r.flags)).with_a(daa_res(old(self)@.r.a, old(self)@.r.flags))),
    {
        let res: u8 = self.r.daa();
        self.r.set_8(Reg8::A, res);
    }

    /// CPL
    pub(crate) fn cpl(&mut self)
        requires
            old(self).wf(),
        ensures
            final(self).wf(),
            final(self)@ == (old(self)@.with_flags(cpl_flags(old(self)@.r.flags)).with_a(cpl_res(old(self)@.r.a))),
    {
        let res: u8 = self.r.cpl();
        self.r.set_8(Reg8::A, res);
    }

    /// SCF
    pub(crate) fn scf(&mut self)
        requires
            old(self).wf(),
        ensures
            final(self).wf(),
            final(self)@ == (old(self)@.with_flags(scf_flags(old(self)@.r.flags))),
    {
        self.r.scf();
    }

    /// CCF
    pub(crate) fn ccf(&mut self)
        requires
            old(self).wf(),
        ensures
            final(self).wf(),
            final(self)@ == (old(self)@.with_flags(ccf_flags(old(self)@.r.flags))),
    {
        self.r.ccf();
    }

    /// An operation of the accumulator with an operand
    pub(crate) fn alu_operand(&mut self, op: AluOp, o: Operand)
        requires
            old(self).wf(),
        ensures
            final(self).wf(),
            final(self)@ == (old(self)@.operand(o).cpu.alu(op, old(self)@.operand(o).value)),
    {
        let n: u8 = self.alu_arg_get(o);
        self.alu(op, n);
    }

    /// An operation of the accumulator with the byte after the opcode
    pub(crate) fn alu_imm(&mut self, op: AluOp)
        requires
            old(self).wf(),
        ensures
            final(self).wf(),
            final(self)@ == (old(self)@.fetch8().cpu.alu(op, old(self)@.fetch8().value)),
    {
        let imm: u8 = self.step_pc_b();
        self.alu(op, imm);
    }
}

} // verus!
