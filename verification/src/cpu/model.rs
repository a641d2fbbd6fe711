//! The CPU as plain values, and what each instruction does to it.

use crate::cpu::info::base_cycles;
use crate::cpu::info::decode;
use crate::cpu::info::decode_prefixed;
use crate::cpu::info::prefixed_cycles;
use crate::cpu::info::taken_cycles;
use crate::cpu::info::AluOp;
use crate::cpu::info::Cond;
use crate::cpu::info::Indirect;
use crate::cpu::info::Instr;
use crate::cpu::info::Operand;
use crate::cpu::info::PrefixedInstr;
use crate::cpu::info::ShiftOp;
use crate::cpu::info::IDLE_CYCLES;
use crate::cpu::info::LONGEST_INSTRUCTION;
use crate::cpu::info::INTERRUPT_CYCLES;
use crate::cpu::registers::adc_flags;
use crate::cpu::registers::adc_res;
use crate::cpu::registers::add16_flags;
use crate::cpu::registers::add16_imm_flags;
use crate::cpu::registers::add16_imm_res;
use crate::cpu::registers::add16_res;
use crate::cpu::registers::add_flags;
use crate::cpu::registers::add_res;
use crate::cpu::registers::and_flags;
use crate::cpu::registers::and_res;
use crate::cpu::registers::bit_flags;
use crate::cpu::registers::ccf_flags;
use crate::cpu::registers::cpl_flags;
use crate::cpu::registers::cpl_res;
use crate::cpu::registers::daa_flags;
use crate::cpu::registers::daa_res;
use crate::cpu::registers::dec_flags;
use crate::cpu::registers::dec_res;
use crate::cpu::registers::high_byte;
use crate::cpu::registers::inc_flags;
use crate::cpu::registers::inc_res;
use crate::cpu::registers::low_bit;
use crate::cpu::registers::low_byte;
use crate::cpu::registers::or_flags;
use crate::cpu::registers::or_res;
use crate::cpu::registers::res_res;
use crate::cpu::registers::rl_res;
use crate::cpu::registers::rlc_res;
use crate::cpu::registers::rr_res;
use crate::cpu::registers::rrc_res;
use crate::cpu::registers::sbc_flags;
use crate::cpu::registers::sbc_res;
use crate::cpu::registers::scf_flags;
use crate::cpu::registers::set_res;
use crate::cpu::registers::shift_flags;
use crate::cpu::registers::signed_of;
use crate::cpu::registers::sla_res;
use crate::cpu::registers::sra_res;
use crate::cpu::registers::srl_res;
use crate::cpu::registers::sub_flags;
use crate::cpu::registers::sub_res;
use crate::cpu::registers::swap_res;
use crate::cpu::registers::top_bit;
use crate::cpu::registers::wrap16;
use crate::cpu::registers::xor_flags;
use crate::cpu::registers::xor_res;
use crate::cpu::registers::Flags;
use crate::cpu::registers::Reg16;
use crate::cpu::registers::Reg8;
use crate::cpu::registers::Registers;
use crate::mmu::handler_of;
use crate::ppu::model::ONE_FRAME_CYCLES;
use crate::mmu::MmuModel;
use vstd::prelude::*;

verus! {

/// The CPU and the machine behind its bus, as plain values.
pub struct CpuModel {
    pub r: Registers,
    pub m: MmuModel,
    /// The CPU waits for an interrupt.
    pub halt: bool,
    pub stop: bool,
    /// The interrupt master enable.
    pub ime: bool,
    /// EI was executed: interrupts are enabled before the next instruction.
    pub pending_ei: bool,
    /// DI was executed: interrupts are disabled before the next instruction.
    pub pending_di: bool,
    /// The next fetch of an opcode leaves PC where it is.
    pub halt_bug: bool,
    /// The opcode that stands for nothing and on which the CPU has locked up.
    pub fault: Option<u8>,
}

/// A byte that was read, and the CPU after the read.
pub struct Got8 {
    pub value: u8,
    pub cpu: CpuModel,
}

/// A 16-bit value that was read, and the CPU after the read.
pub struct Got16 {
    pub value: u16,
    pub cpu: CpuModel,
}

/// The CPU after an instruction, and whether its jump, call or return was taken.
pub struct Executed {
    pub cpu: CpuModel,
    pub taken: bool,
}

/// The CPU after an instruction or an interrupt dispatch, and the T-cycles it cost.
pub struct Timed {
    pub cpu: CpuModel,
    pub cycles: u32,
}

/// One step of the machine: the state after it, the program counter before
/// it, the byte at that address, and the T-cycles it took.
pub struct Step {
    pub cpu: CpuModel,
    pub pc: u16,
    pub opcode: u8,
    pub cycles: u32,
}

/// A run up to the end of a frame: the state after it, the T-cycles that
/// the last instruction went past the end, and the T-cycles that the steps took.
pub struct FrameRun {
    pub cpu: CpuModel,
    pub carry: u32,
    pub spent: nat,
}

/// The result of an operation of the accumulator; CP leaves A as it is.
pub open spec fn alu_res(op: AluOp, a: u8, n: u8, cy: bool) -> u8 {
    match op {
        AluOp::Add => add_res(a, n),
        AluOp::Adc => adc_res(a, n, cy),
        AluOp::Sub => sub_res(a, n),
        AluOp::Sbc => sbc_res(a, n, cy),
        AluOp::And => and_res(a, n),
        AluOp::Xor => xor_res(a, n),
        AluOp::Or => or_res(a, n),
        AluOp::Cp => a,
    }
}

/// The flags after an operation of the accumulator; CP has those of SUB.
pub open spec fn alu_flags(op: AluOp, a: u8, n: u8, cy: bool) -> Flags {
    match op {
        AluOp::Add => add_flags(a, n),
        AluOp::Adc => adc_flags(a, n, cy),
        AluOp::Sub => sub_flags(a, n),
        AluOp::Sbc => sbc_flags(a, n, cy),
        AluOp::And => and_flags(a, n),
        AluOp::Xor => xor_flags(a, n),
        AluOp::Or => or_flags(a, n),
        AluOp::Cp => sub_flags(a, n),
    }
}

/// The result of a rotate or shift.
pub open spec fn shift_res(op: ShiftOp, n: u8, cy: bool) -> u8 {
    match op {
        ShiftOp::Rlc => rlc_res(n),
        ShiftOp::Rrc => rrc_res(n),
        ShiftOp::Rl => rl_res(n, cy),
        ShiftOp::Rr => rr_res(n, cy),
        ShiftOp::Sla => sla_res(n),
        ShiftOp::Sra => sra_res(n),
        ShiftOp::Swap => swap_res(n),
        ShiftOp::Srl => srl_res(n),
    }
}

/// The bit that a rotate or shift moves into the carry; SWAP clears the carry.
pub open spec fn shift_carry(op: ShiftOp, n: u8) -> bool {
    match op {
        ShiftOp::Rlc | ShiftOp::Rl | ShiftOp::Sla => top_bit(n),
        ShiftOp::Rrc | ShiftOp::Rr | ShiftOp::Sra | ShiftOp::Srl => low_bit(n),
        ShiftOp::Swap => false,
    }
}

/// The register that an operand names, for those that name one.
pub open spec fn register_of(o: Operand) -> Reg8 {
    match o {
        Operand::B => Reg8::B,
        Operand::C => Reg8::C,
        Operand::D => Reg8::D,
        Operand::E => Reg8::E,
        Operand::H => Reg8::H,
        Operand::L => Reg8::L,
        _ => Reg8::A,
    }
}

impl CpuModel {
    /// The machine behind the bus is in order.
    pub open spec fn wf(self) -> bool {
        self.m.wf()
    }

    /// The CPU after a reset: the machine behind the bus is reset, the
    /// registers take their power-on values, the latches are cleared. With
    /// a boot ROM the program counter starts at 0.
    #[verifier::opaque]
    pub open spec fn reset(self) -> CpuModel {
        CpuModel {
            r: Registers {
                pc: if self.m.bios is Some {
                    0x0000
                } else {
                    0x0100
                },
                ..Registers::power_on()
            },
            m: self.m.reset(),
            halt: false,
            stop: false,
            ime: false,
            pending_ei: false,
            pending_di: false,
            halt_bug: false,
            fault: None,
        }
    }

    /// The console after a button was pressed or released.
    pub open spec fn with_button(self, button: crate::joypad::Button, pressed: bool) -> CpuModel {
        CpuModel { m: self.m.with_button(button, pressed), ..self }
    }

    /// The console after a save was offered to the cartridge.
    pub open spec fn with_save(self, bytes: Seq<u8>) -> CpuModel {
        CpuModel { m: self.m.with_save(bytes), ..self }
    }

    /// The CPU with other registers.
    pub open spec fn with_r(self, r: Registers) -> CpuModel {
        CpuModel { r, ..self }
    }

    /// The CPU with another program counter.
    pub open spec fn with_pc(self, pc: u16) -> CpuModel {
        CpuModel { r: Registers { pc, ..self.r }, ..self }
    }

    /// The CPU with other flags.
    pub open spec fn with_flags(self, flags: Flags) -> CpuModel {
        CpuModel { r: self.r.with_flags(flags), ..self }
    }

    /// The CPU with another value of A.
    pub open spec fn with_a(self, value: u8) -> CpuModel {
        CpuModel { r: self.r.with_reg8(Reg8::A, value), ..self }
    }

    /// The CPU with another value of a register pair.
    pub open spec fn with_pair(self, pair: Reg16, value: u16) -> CpuModel {
        CpuModel { r: self.r.with_reg16(pair, value), ..self }
    }

    /// A read of one byte.
    pub open spec fn read8(self, address: u16) -> Got8 {
        Got8 {
            value: self.m.read(address),
            cpu: CpuModel { m: self.m.after_read(address), ..self },
        }
    }

    /// A write of one byte.
    pub open spec fn write8(self, address: u16, value: u8) -> CpuModel {
        CpuModel { m: self.m.write(address, value), ..self }
    }

    /// The byte at PC, and PC moved past it; after the HALT bug PC stays once.
    pub open spec fn fetch8(self) -> Got8 {
        Got8 {
            value: self.m.read(self.r.pc),
            cpu: CpuModel {
                m: self.m.after_read(self.r.pc),
                r: Registers {
                    pc: if self.halt_bug {
                        self.r.pc
                    } else {
                        wrap16(self.r.pc + 1)
                    },
                    ..self.r
                },
                halt_bug: false,
                ..self
            },
        }
    }

    /// The 16-bit value at PC, and PC moved past it.
    pub open spec fn fetch16(self) -> Got16 {
        Got16 {
            value: self.m.read_word(self.r.pc),
            cpu: CpuModel {
                m: self.m.after_read_word(self.r.pc),
                r: Registers { pc: wrap16(self.r.pc + 2), ..self.r },
                ..self
            },
        }
    }

    /// The value of an operand.
    pub open spec fn operand(self, o: Operand) -> Got8 {
        match o {
            Operand::HlMem => self.read8(self.r.reg16(Reg16::HL)),
            _ => Got8 { value: self.r.reg8(register_of(o)), cpu: self },
        }
    }

    /// The CPU after a value was stored in an operand.
    pub open spec fn with_operand(self, o: Operand, value: u8) -> CpuModel {
        match o {
            Operand::HlMem => self.write8(self.r.reg16(Reg16::HL), value),
            _ => self.with_r(self.r.with_reg8(register_of(o), value)),
        }
    }

    /// The CPU after a push: SP moves two down, the high byte is written
    /// first, above the low byte.
    pub open spec fn push(self, value: u16) -> CpuModel {
        CpuModel {
            r: Registers { sp: wrap16(self.r.sp - 2), ..self.r },
            m: self.m.write(wrap16(self.r.sp - 1), high_byte(value)).write(
                wrap16(self.r.sp - 2),
                low_byte(value),
            ),
            ..self
        }
    }

    /// A pop: the 16-bit value at SP, and SP moved two up.
    pub open spec fn pop(self) -> Got16 {
        Got16 {
            value: self.m.read_word(self.r.sp),
            cpu: CpuModel {
                m: self.m.after_read_word(self.r.sp),
                r: Registers { sp: wrap16(self.r.sp + 2), ..self.r },
                ..self
            },
        }
    }

    /// Whether a condition holds.
    pub open spec fn holds(self, c: Cond) -> bool {
        match c {
            Cond::Always => true,
            Cond::NZ => !self.r.flags.z,
            Cond::Z => self.r.flags.z,
            Cond::NC => !self.r.flags.c,
            Cond::C => self.r.flags.c,
        }
    }

    /// The CPU after an operation of the accumulator with `n`.
    pub open spec fn alu(self, op: AluOp, n: u8) -> CpuModel {
        self.with_flags(alu_flags(op, self.r.a, n, self.r.flags.c)).with_a(
            alu_res(op, self.r.a, n, self.r.flags.c),
        )
    }

    /// The address that a load or store of A uses.
    pub open spec fn indirect_address(self, ind: Indirect) -> u16 {
        match ind {
            Indirect::BC => self.r.reg16(Reg16::BC),
            Indirect::DE => self.r.reg16(Reg16::DE),
            _ => self.r.reg16(Reg16::HL),
        }
    }

    /// The CPU after the address register of a load or store of A was
    /// moved, where it is HL.
    pub open spec fn after_indirect(self, ind: Indirect) -> CpuModel {
        match ind {
            Indirect::HlInc => self.with_pair(Reg16::HL, wrap16(self.r.reg16(Reg16::HL) + 1)),
            Indirect::HlDec => self.with_pair(Reg16::HL, wrap16(self.r.reg16(Reg16::HL) - 1)),
            _ => self,
        }
    }

    /// INC or DEC of an operand.
    pub open spec fn step8(self, o: Operand, up: bool) -> CpuModel {
        let got = self.operand(o);
        if up {
            got.cpu.with_flags(inc_flags(got.cpu.r.flags, got.value)).with_operand(
                o,
                inc_res(got.value),
            )
        } else {
            got.cpu.with_flags(dec_flags(got.cpu.r.flags, got.value)).with_operand(
                o,
                dec_res(got.value),
            )
        }
    }

    /// A rotate of A: as the prefixed rotate, but Z is cleared.
    pub open spec fn rotate_a(self, op: ShiftOp) -> CpuModel {
        let res = shift_res(op, self.r.a, self.r.flags.c);
        self.with_flags(
            Flags { z: false, ..shift_flags(res, shift_carry(op, self.r.a)) },
        ).with_a(res)
    }

    /// A relative jump: the signed byte after the opcode is added to PC where the condition holds.
    pub open spec fn jump_relative(self, c: Cond) -> Executed {
        let got = self.fetch8();
        if got.cpu.holds(c) {
            Executed {
                cpu: got.cpu.with_pc(wrap16(got.cpu.r.pc + signed_of(got.value))),
                taken: true,
            }
        } else {
            Executed { cpu: got.cpu, taken: false }
        }
    }

    /// An absolute jump to the address after the opcode, where the condition holds.
    pub open spec fn jump(self, c: Cond) -> Executed {
        let got = self.fetch16();
        if got.cpu.holds(c) {
            Executed { cpu: got.cpu.with_pc(got.value), taken: true }
        } else {
            Executed { cpu: got.cpu, taken: false }
        }
    }

    /// A call of the address after the opcode, where the condition holds:
    /// the address of the next instruction is pushed.
    pub open spec fn call(self, c: Cond) -> Executed {
        let got = self.fetch16();
        if got.cpu.holds(c) {
            Executed { cpu: got.cpu.push(got.cpu.r.pc).with_pc(got.value), taken: true }
        } else {
            Executed { cpu: got.cpu, taken: false }
        }
    }

    /// A return, where the condition holds: PC is popped.
    pub open spec fn ret(self, c: Cond) -> Executed {
        if self.holds(c) {
            Executed { cpu: self.pop().cpu.with_pc(self.pop().value), taken: true }
        } else {
            Executed { cpu: self, taken: false }
        }
    }

    /// HALT: the CPU waits for an interrupt; with interrupts disabled and one
    /// pending it goes on instead, and the next fetch leaves PC where it is.
    pub open spec fn halt_instr(self) -> CpuModel {
        if !self.ime && self.m.has_pending_interrupts() {
            CpuModel { halt_bug: true, ..self }
        } else {
            CpuModel { halt: true, ..self }
        }
    }

    /// ADD SP, r8 or LD HL, SP+r8: SP plus the signed byte after the opcode goes to `target`.
    pub open spec fn add_sp(self, target: Reg16) -> CpuModel {
        let got = self.fetch8();
        got.cpu.with_flags(add16_imm_flags(self.r.sp, signed_of(got.value))).with_pair(
            target,
            add16_imm_res(self.r.sp, signed_of(got.value)),
        )
    }

    /// What an instruction does, the prefix and the opcodes that stand for nothing apart.
    #[verifier::opaque]
    pub open spec fn execute(self, instr: Instr) -> Executed {
        match instr {
            Instr::Jr(c) => self.jump_relative(c),
            Instr::Jp(c) => self.jump(c),
            Instr::Call(c) => self.call(c),
            Instr::Ret(c) => self.ret(c),
            _ => Executed { cpu: self.execute_plain(instr), taken: false },
        }
    }

    /// What an instruction does that is no conditional jump, call or return.
    #[verifier::opaque]
    pub open spec fn execute_plain(self, instr: Instr) -> CpuModel {
        match instr {
            Instr::Nop
            | Instr::Stop
            | Instr::Halt
            | Instr::Di
            | Instr::Ei
            | Instr::Reti
            | Instr::Pop(_)
            | Instr::Push(_)
            | Instr::JpHl
            | Instr::Rst(_) => self.execute_control(instr),
            Instr::LdR16Imm(_)
            | Instr::Inc16(_)
            | Instr::Dec16(_)
            | Instr::StoreSp
            | Instr::AddHl(_)
            | Instr::AddSp
            | Instr::LdHlSp
            | Instr::LdSpHl => self.execute_wide(instr),
            Instr::StoreA(_)
            | Instr::LoadA(_)
            | Instr::LdImm8(_)
            | Instr::Ld(_, _)
            | Instr::LdhStore
            | Instr::LdhLoad
            | Instr::StoreC
            | Instr::LoadC
            | Instr::StoreAbs
            | Instr::LoadAbs => self.execute_load(instr),
            Instr::Inc8(_)
            | Instr::Dec8(_)
            | Instr::Rlca
            | Instr::Rla
            | Instr::Rrca
            | Instr::Rra
            | Instr::Daa
            | Instr::Cpl
            | Instr::Scf
            | Instr::Ccf
            | Instr::Alu(_, _)
            | Instr::AluImm(_) => self.execute_arith(instr),
            _ => self,
        }
    }

    /// What the instructions do that act on the latches, the stack and PC.
    #[verifier::opaque]
    pub open spec fn execute_control(self, instr: Instr) -> CpuModel {
        match instr {
            Instr::Stop => CpuModel { stop: true, ..self },
            Instr::Halt => self.halt_instr(),
            Instr::Di => CpuModel { pending_di: true, ..self },
            Instr::Ei => CpuModel { pending_ei: true, ..self },
            Instr::Reti => CpuModel {
                pending_ei: true,
                ..self.pop().cpu.with_pc(self.pop().value)
            },
            Instr::Pop(pair) => self.pop().cpu.with_pair(pair, self.pop().value),
            Instr::Push(pair) => self.push(self.r.reg16(pair)),
            Instr::JpHl => self.with_pc(self.r.reg16(Reg16::HL)),
            Instr::Rst(target) => self.push(self.r.pc).with_pc(target),
            _ => self,
        }
    }

    /// What the 16-bit loads and the 16-bit arithmetic do.
    #[verifier::opaque]
    pub open spec fn execute_wide(self, instr: Instr) -> CpuModel {
        match instr {
            Instr::LdR16Imm(pair) => self.fetch16().cpu.with_pair(pair, self.fetch16().value),
            Instr::Inc16(pair) => self.with_pair(pair, wrap16(self.r.reg16(pair) + 1)),
            Instr::Dec16(pair) => self.with_pair(pair, wrap16(self.r.reg16(pair) - 1)),
            Instr::StoreSp => CpuModel {
                m: self.fetch16().cpu.m.write_word(self.fetch16().value, self.r.sp),
                ..self.fetch16().cpu
            },
            Instr::AddHl(pair) => self.with_flags(
                add16_flags(self.r.flags, self.r.reg16(Reg16::HL), self.r.reg16(pair)),
            ).with_pair(Reg16::HL, add16_res(self.r.reg16(Reg16::HL), self.r.reg16(pair))),
            Instr::AddSp => self.add_sp(Reg16::SP),
            Instr::LdHlSp => self.add_sp(Reg16::HL),
            Instr::LdSpHl => self.with_pair(Reg16::SP, self.r.reg16(Reg16::HL)),
            _ => self,
        }
    }

    /// What the 8-bit loads and stores do.
    #[verifier::opaque]
    pub open spec fn execute_load(self, instr: Instr) -> CpuModel {
        match instr {
            Instr::StoreA(ind) => self.after_indirect(ind).write8(
                self.indirect_address(ind),
                self.r.a,
            ),
            Instr::LoadA(ind) => self.after_indirect(ind).read8(
                self.indirect_address(ind),
            ).cpu.with_a(self.after_indirect(ind).read8(self.indirect_address(ind)).value),
            Instr::LdImm8(o) => self.fetch8().cpu.with_operand(o, self.fetch8().value),
            Instr::Ld(to, from) => self.operand(from).cpu.with_operand(
                to,
                self.operand(from).value,
            ),
            Instr::LdhStore => self.fetch8().cpu.write8(
                (0xFF00 + self.fetch8().value) as u16,
                self.r.a,
            ),
            Instr::LdhLoad => self.fetch8().cpu.read8(
                (0xFF00 + self.fetch8().value) as u16,
            ).cpu.with_a(
                self.fetch8().cpu.read8((0xFF00 + self.fetch8().value) as u16).value,
            ),
            Instr::StoreC => self.write8((0xFF00 + self.r.c) as u16, self.r.a),
            Instr::LoadC => self.read8((0xFF00 + self.r.c) as u16).cpu.with_a(
                self.read8((0xFF00 + self.r.c) as u16).value,
            ),
            Instr::StoreAbs => self.fetch16().cpu.write8(self.fetch16().value, self.r.a),
            Instr::LoadAbs => self.fetch16().cpu.read8(self.fetch16().value).cpu.with_a(
                self.fetch16().cpu.read8(self.fetch16().value).value,
            ),
            _ => self,
        }
    }

    /// What the 8-bit arithmetic and logic instructions do.
    #[verifier::opaque]
    pub open spec fn execute_arith(self, instr: Instr) -> CpuModel {
        match instr {
            Instr::Inc8(o) => self.step8(o, true),
            Instr::Dec8(o) => self.step8(o, false),
            Instr::Rlca => self.rotate_a(ShiftOp::Rlc),
            Instr::Rla => self.rotate_a(ShiftOp::Rl),
            Instr::Rrca => self.rotate_a(ShiftOp::Rrc),
            Instr::Rra => self.rotate_a(ShiftOp::Rr),
            Instr::Daa => self.with_flags(daa_flags(self.r.a, self.r.flags)).with_a(
                daa_res(self.r.a, self.r.flags),
            ),
            Instr::Cpl => self.with_flags(cpl_flags(self.r.flags)).with_a(cpl_res(self.r.a)),
            Instr::Scf => self.with_flags(scf_flags(self.r.flags)),
            Instr::Ccf => self.with_flags(ccf_flags(self.r.flags)),
            Instr::Alu(op, o) => self.operand(o).cpu.alu(op, self.operand(o).value),
            Instr::AluImm(op) => self.fetch8().cpu.alu(op, self.fetch8().value),
            _ => self,
        }
    }

    /// What an instruction of the prefixed table does.
    #[verifier::opaque]
    pub open spec fn execute_prefixed(self, instr: PrefixedInstr) -> CpuModel {
        match instr {
            PrefixedInstr::Shift(op, o) => {
                let got = self.operand(o);
                let res = shift_res(op, got.value, got.cpu.r.flags.c);
                got.cpu.with_flags(shift_flags(res, shift_carry(op, got.value))).with_operand(
                    o,
                    res,
                )
            },
            PrefixedInstr::TestBit(bit, o) => {
                let got = self.operand(o);
                got.cpu.with_flags(bit_flags(got.cpu.r.flags, got.value, bit))
            },
            PrefixedInstr::ResBit(bit, o) => {
                let got = self.operand(o);
                got.cpu.with_operand(o, res_res(got.value, bit))
            },
            PrefixedInstr::SetBit(bit, o) => {
                let got = self.operand(o);
                got.cpu.with_operand(o, set_res(got.value, bit))
            },
        }
    }

    /// The instruction behind the prefix: the byte at PC is fetched and done.
    #[verifier::opaque]
    pub open spec fn step_instr_cb(self) -> Timed {
        let got = self.fetch8();
        Timed {
            cpu: got.cpu.execute_prefixed(decode_prefixed(got.value)),
            cycles: prefixed_cycles(decode_prefixed(got.value)),
        }
    }

    /// One instruction: the byte at PC is fetched and what it stands for is
    /// done. On an opcode that stands for nothing the CPU locks up.
    #[verifier::opaque]
    pub open spec fn step_instr(self) -> Timed {
        let got = self.fetch8();
        let instr = decode(got.value);
        match instr {
            Instr::Illegal => Timed {
                cpu: CpuModel { fault: Some(got.value), ..got.cpu },
                cycles: base_cycles(instr),
            },
            Instr::Prefix => got.cpu.step_instr_cb(),
            _ => Timed {
                cpu: got.cpu.execute(instr).cpu,
                cycles: if got.cpu.execute(instr).taken {
                    (base_cycles(instr) + taken_cycles(instr)) as u32
                } else {
                    base_cycles(instr)
                },
            },
        }
    }

    /// The CPU after a pending DI and then a pending EI have taken effect.
    pub open spec fn toggle_interrupt(self) -> CpuModel {
        CpuModel {
            ime: if self.pending_ei {
                true
            } else if self.pending_di {
                false
            } else {
                self.ime
            },
            pending_di: false,
            pending_ei: false,
            ..self
        }
    }

    /// Whether a pending enabled interrupt is dispatched now.
    pub open spec fn dispatches(self) -> bool {
        self.ime && self.m.has_pending_interrupts()
    }

    /// The CPU after a look at the interrupts. A pending enabled interrupt
    /// ends HALT and STOP. With IME set, the one of highest priority is
    /// dispatched: IME and its bit in IF are cleared, PC is pushed, and PC
    /// becomes the address of its handler.
    #[verifier::opaque]
    pub open spec fn handle_interrupt(self) -> CpuModel {
        if (self.ime || self.halt || self.stop) && self.m.has_pending_interrupts() {
            if self.ime {
                (CpuModel {
                    halt: false,
                    stop: false,
                    ime: false,
                    m: self.m.disable_interrupt(self.m.next_interrupt()),
                    ..self
                }).push(self.r.pc).with_pc(handler_of(self.m.next_interrupt()))
            } else {
                CpuModel { halt: false, stop: false, ..self }
            }
        } else {
            self
        }
    }

    /// What the CPU does in one step, before the other components run: an
    /// interrupt dispatch, a wait, or one instruction.
    #[verifier::opaque]
    pub open spec fn cpu_step(self) -> Timed {
        let seen = self.toggle_interrupt().read8(self.r.pc).cpu;
        if seen.dispatches() {
            Timed { cpu: seen.handle_interrupt(), cycles: INTERRUPT_CYCLES }
        } else if seen.handle_interrupt().halt {
            Timed { cpu: seen.handle_interrupt(), cycles: IDLE_CYCLES }
        } else {
            seen.handle_interrupt().step_instr()
        }
    }

    /// One step of the machine: the CPU does its part, then the other
    /// components run for as many T-cycles as that took. A CPU that has
    /// locked up does nothing more, and time goes on.
    #[verifier::opaque]
    pub open spec fn step(self) -> Step {
        match self.fault {
            Some(opcode) => Step {
                cpu: CpuModel { m: self.m.step(IDLE_CYCLES), ..self },
                pc: self.r.pc,
                opcode,
                cycles: IDLE_CYCLES,
            },
            None => Step {
                cpu: CpuModel {
                    m: self.cpu_step().cpu.m.step(self.cpu_step().cycles),
                    ..self.cpu_step().cpu
                },
                pc: self.r.pc,
                opcode: self.toggle_interrupt().m.read(self.r.pc),
                cycles: self.cpu_step().cycles,
            },
        }
    }

    /// The machine steps until `cycles`, the T-cycles counted in this frame,
    /// reach those of one frame. What is left over is carried into the next frame.
    pub open spec fn run_frame(self, cycles: u32) -> FrameRun
        decreases ONE_FRAME_CYCLES + LONGEST_INSTRUCTION - cycles,
    {
        let used: u32 = self.step().cycles;
        if cycles >= ONE_FRAME_CYCLES {
            FrameRun { cpu: self, carry: (cycles - ONE_FRAME_CYCLES) as u32, spent: 0 }
        } else if 4 <= used && used <= 24 {
            let rest = self.step().cpu.run_frame((cycles + used) as u32);
            FrameRun { spent: rest.spent + used as nat, ..rest }
        } else {
            FrameRun { cpu: self, carry: 0, spent: 0 }
        }
    }
}

} // verus!
