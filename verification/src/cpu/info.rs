//! The instruction set: what each opcode stands for, and what it costs.

use crate::cpu::registers::Reg16;
use vstd::prelude::*;

verus! {

/// T-cycles of the CPU clock in one second.
pub const HZ: u32 = 4194304;

/// What the dispatch of an interrupt costs.
pub const INTERRUPT_CYCLES: u32 = 20;

/// What a step costs in which the CPU only waits.
pub const IDLE_CYCLES: u32 = 4;

/// The cost of the longest instruction, a call that is taken.
pub const LONGEST_INSTRUCTION: u32 = 24;

/// The cost of BIT on the byte at HL.
pub const CYCLES_CB_BIT_HL: u32 = 12;

/// The source or target of an 8-bit operation, in the order of its three-bit code.
#[derive(Clone, Copy, Debug, PartialEq, Eq, Structural)]
pub enum Operand {
    B,
    C,
    D,
    E,
    H,
    L,
    /// The byte in memory at the address in HL.
    HlMem,
    A,
}

/// The eight operations of the accumulator, in the order of their three-bit code.
#[derive(Clone, Copy, Debug, PartialEq, Eq, Structural)]
pub enum AluOp {
    Add,
    Adc,
    Sub,
    Sbc,
    And,
    Xor,
    Or,
    Cp,
}

/// The eight rotates and shifts behind the prefix, in the order of their three-bit code.
#[derive(Clone, Copy, Debug, PartialEq, Eq, Structural)]
pub enum ShiftOp {
    Rlc,
    Rrc,
    Rl,
    Rr,
    Sla,
    Sra,
    Swap,
    Srl,
}

/// The condition of a jump, call or return.
#[derive(Clone, Copy, Debug, PartialEq, Eq, Structural)]
pub enum Cond {
    Always,
    NZ,
    Z,
    NC,
    C,
}

/// The address register of a load or store of A.
#[derive(Clone, Copy, Debug, PartialEq, Eq, Structural)]
pub enum Indirect {
    BC,
    DE,
    /// HL, which is then moved one up.
    HlInc,
    /// HL, which is then moved one down.
    HlDec,
}

/// An instruction of the unprefixed table.
#[derive(Clone, Copy, Debug, PartialEq, Eq, Structural)]
pub enum Instr {
    Nop,
    Stop,
    Halt,
    Di,
    Ei,
    /// LD rr, d16
    LdR16Imm(Reg16),
    /// LD (rr), A
    StoreA(Indirect),
    /// LD A, (rr)
    LoadA(Indirect),
    Inc16(Reg16),
    Dec16(Reg16),
    Inc8(Operand),
    Dec8(Operand),
    /// LD r, d8
    LdImm8(Operand),
    Rlca,
    Rla,
    Rrca,
    Rra,
    Daa,
    Cpl,
    Scf,
    Ccf,
    /// LD (a16), SP
    StoreSp,
    /// JR cc, r8
    Jr(Cond),
    /// ADD HL, rr
    AddHl(Reg16),
    /// LD r, r'
    Ld(Operand, Operand),
    Alu(AluOp, Operand),
    /// An operation of the accumulator with the byte after the opcode.
    AluImm(AluOp),
    /// RET, or RET cc
    Ret(Cond),
    Reti,
    Pop(Reg16),
    Push(Reg16),
    /// JP cc, a16
    Jp(Cond),
    /// JP (HL)
    JpHl,
    /// CALL cc, a16
    Call(Cond),
    /// RST to the given address
    Rst(u16),
    /// LDH (a8), A
    LdhStore,
    /// LDH A, (a8)
    LdhLoad,
    /// LD (C), A
    StoreC,
    /// LD A, (C)
    LoadC,
    /// ADD SP, r8
    AddSp,
    /// LD HL, SP+r8
    LdHlSp,
    /// LD SP, HL
    LdSpHl,
    /// LD (a16), A
    StoreAbs,
    /// LD A, (a16)
    LoadAbs,
    /// The prefix 0xCB: the next byte is an instruction of the second table.
    Prefix,
    /// One of the eleven opcodes that stand for nothing.
    Illegal,
}

/// An instruction of the prefixed table.
#[derive(Clone, Copy, Debug, PartialEq, Eq, Structural)]
pub enum PrefixedInstr {
    Shift(ShiftOp, Operand),
    /// BIT n, r
    TestBit(u8, Operand),
    /// RES n, r
    ResBit(u8, Operand),
    /// SET n, r
    SetBit(u8, Operand),
}

/// The operand of a three-bit code.
pub open spec fn operand_of(code: u8) -> Operand {
    if code == 0 {
        Operand::B
    } else if code == 1 {
        Operand::C
    } else if code == 2 {
        Operand::D
    } else if code == 3 {
        Operand::E
    } else if code == 4 {
        Operand::H
    } else if code == 5 {
        Operand::L
    } else if code == 6 {
        Operand::HlMem
    } else {
        Operand::A
    }
}

/// The operation of the accumulator of a three-bit code.
pub open spec fn alu_op_of(code: u8) -> AluOp {
    if code == 0 {
        AluOp::Add
    } else if code == 1 {
        AluOp::Adc
    } else if code == 2 {
        AluOp::Sub
    } else if code == 3 {
        AluOp::Sbc
    } else if code == 4 {
        AluOp::And
    } else if code == 5 {
        AluOp::Xor
    } else if code == 6 {
        AluOp::Or
    } else {
        AluOp::Cp
    }
}

/// The rotate or shift of a three-bit code.
pub open spec fn shift_op_of(code: u8) -> ShiftOp {
    if code == 0 {
        ShiftOp::Rlc
    } else if code == 1 {
        ShiftOp::Rrc
    } else if code == 2 {
        ShiftOp::Rl
    } else if code == 3 {
        ShiftOp::Rr
    } else if code == 4 {
        ShiftOp::Sla
    } else if code == 5 {
        ShiftOp::Sra
    } else if code == 6 {
        ShiftOp::Swap
    } else {
        ShiftOp::Srl
    }
}

/// The register pair of the two-bit code in bits 4 and 5 of an opcode, with SP as the fourth.
pub open spec fn pair_of(code: u8) -> Reg16 {
    if code == 0 {
        Reg16::BC
    } else if code == 1 {
        Reg16::DE
    } else if code == 2 {
        Reg16::HL
    } else {
        Reg16::SP
    }
}

/// The register pair of the two-bit code of PUSH and POP, with AF as the fourth.
pub open spec fn stack_pair_of(code: u8) -> Reg16 {
    if code == 0 {
        Reg16::BC
    } else if code == 1 {
        Reg16::DE
    } else if code == 2 {
        Reg16::HL
    } else {
        Reg16::AF
    }
}

/// The address register of the two-bit code in a load or store of A.
pub open spec fn indirect_of(code: u8) -> Indirect {
    if code == 0 {
        Indirect::BC
    } else if code == 1 {
        Indirect::DE
    } else if code == 2 {
        Indirect::HlInc
    } else {
        Indirect::HlDec
    }
}

/// The condition of the two-bit code in bits 3 and 4 of a conditional opcode.
pub open spec fn cond_of(code: u8) -> Cond {
    if code == 0 {
        Cond::NZ
    } else if code == 1 {
        Cond::Z
    } else if code == 2 {
        Cond::NC
    } else {
        Cond::C
    }
}

/// The instruction of the first quarter of the table, 0x00 to 0x3F, by the
/// low nibble of the opcode and its row.
pub open spec fn decode_low(op: u8) -> Instr
    recommends
        op < 0x40,
{
    let row: u8 = op / 16;
    let column: u8 = op % 16;
    if column == 0x0 {
        if row == 0 {
            Instr::Nop
        } else if row == 1 {
            Instr::Stop
        } else if row == 2 {
            Instr::Jr(Cond::NZ)
        } else {
            Instr::Jr(Cond::NC)
        }
    } else if column == 0x1 {
        Instr::LdR16Imm(pair_of(row))
    } else if column == 0x2 {
        Instr::StoreA(indirect_of(row))
    } else if column == 0x3 {
        Instr::Inc16(pair_of(row))
    } else if column == 0x4 || column == 0xC {
        Instr::Inc8(operand_of(op / 8))
    } else if column == 0x5 || column == 0xD {
        Instr::Dec8(operand_of(op / 8))
    } else if column == 0x6 || column == 0xE {
        Instr::LdImm8(operand_of(op / 8))
    } else if column == 0x7 {
        if row == 0 {
            Instr::Rlca
        } else if row == 1 {
            Instr::Rla
        } else if row == 2 {
            Instr::Daa
        } else {
            Instr::Scf
        }
    } else if column == 0x8 {
        if row == 0 {
            Instr::StoreSp
        } else if row == 1 {
            Instr::Jr(Cond::Always)
        } else if row == 2 {
            Instr::Jr(Cond::Z)
        } else {
            Instr::Jr(Cond::C)
        }
    } else if column == 0x9 {
        Instr::AddHl(pair_of(row))
    } else if column == 0xA {
        Instr::LoadA(indirect_of(row))
    } else if column == 0xB {
        Instr::Dec16(pair_of(row))
    } else {
        if row == 0 {
            Instr::Rrca
        } else if row == 1 {
            Instr::Rra
        } else if row == 2 {
            Instr::Cpl
        } else {
            Instr::Ccf
        }
    }
}

/// The instruction of the last quarter of the table, 0xC0 to 0xFF.
pub open spec fn decode_high(op: u8) -> Instr
    recommends
        op >= 0xC0,
{
    let column: u8 = op % 8;
    let row: u8 = ((op - 0xC0) / 8) as u8;
    if op == 0xD3 || op == 0xDB || op == 0xDD || op == 0xE3 || op == 0xE4 || op == 0xEB || op
        == 0xEC || op == 0xED || op == 0xF4 || op == 0xFC || op == 0xFD {
        Instr::Illegal
    } else if op == 0xC3 {
        Instr::Jp(Cond::Always)
    } else if op == 0xC9 {
        Instr::Ret(Cond::Always)
    } else if op == 0xCB {
        Instr::Prefix
    } else if op == 0xCD {
        Instr::Call(Cond::Always)
    } else if op == 0xD9 {
        Instr::Reti
    } else if op == 0xE0 {
        Instr::LdhStore
    } else if op == 0xE2 {
        Instr::StoreC
    } else if op == 0xE8 {
        Instr::AddSp
    } else if op == 0xE9 {
        Instr::JpHl
    } else if op == 0xEA {
        Instr::StoreAbs
    } else if op == 0xF0 {
        Instr::LdhLoad
    } else if op == 0xF2 {
        Instr::LoadC
    } else if op == 0xF3 {
        Instr::Di
    } else if op == 0xF8 {
        Instr::LdHlSp
    } else if op == 0xF9 {
        Instr::LdSpHl
    } else if op == 0xFA {
        Instr::LoadAbs
    } else if op == 0xFB {
        Instr::Ei
    } else if column == 0 {
        Instr::Ret(cond_of(row))
    } else if column == 1 {
        Instr::Pop(stack_pair_of(row / 2))
    } else if column == 2 {
        Instr::Jp(cond_of(row))
    } else if column == 4 {
        Instr::Call(cond_of(row))
    } else if column == 5 {
        Instr::Push(stack_pair_of(row / 2))
    } else if column == 6 {
        Instr::AluImm(alu_op_of(row))
    } else {
        Instr::Rst((op - 0xC7) as u16)
    }
}

/// The instruction that an opcode stands for. 0x40 to 0x7F are the loads
/// between registers, with HALT in the place of a load from (HL) to (HL);
/// 0x80 to 0xBF are the eight operations of the accumulator on the eight operands.
pub open spec fn decode(op: u8) -> Instr {
    if op < 0x40 {
        decode_low(op)
    } else if op == 0x76 {
        Instr::Halt
    } else if op < 0x80 {
        Instr::Ld(operand_of(((op - 0x40) / 8) as u8), operand_of(op % 8))
    } else if op < 0xC0 {
        Instr::Alu(alu_op_of(((op - 0x80) / 8) as u8), operand_of(op % 8))
    } else {
        decode_high(op)
    }
}

/// The instruction that a byte after the prefix stands for.
pub open spec fn decode_prefixed(op: u8) -> PrefixedInstr {
    if op < 0x40 {
        PrefixedInstr::Shift(shift_op_of(op / 8), operand_of(op % 8))
    } else if op < 0x80 {
        PrefixedInstr::TestBit(((op - 0x40) / 8) as u8, operand_of(op % 8))
    } else if op < 0xC0 {
        PrefixedInstr::ResBit(((op - 0x80) / 8) as u8, operand_of(op % 8))
    } else {
        PrefixedInstr::SetBit(((op - 0xC0) / 8) as u8, operand_of(op % 8))
    }
}

/// Whether an operand is the byte in memory at the address in HL.
pub open spec fn in_memory(o: Operand) -> bool {
    o == Operand::HlMem
}

/// The T-cycles of an instruction whose jump, call or return is not taken;
/// for the prefix, for HALT and STOP and for an opcode that stands for
/// nothing, what the step costs.
pub open spec fn base_cycles(instr: Instr) -> u32 {
    match instr {
        Instr::Nop | Instr::Stop | Instr::Halt | Instr::Di | Instr::Ei => 4,
        Instr::LdR16Imm(_) => 12,
        Instr::StoreA(_) | Instr::LoadA(_) => 8,
        Instr::Inc16(_) | Instr::Dec16(_) => 8,
        Instr::Inc8(o) | Instr::Dec8(o) => if in_memory(o) {
            12
        } else {
            4
        },
        Instr::LdImm8(o) => if in_memory(o) {
            12
        } else {
            8
        },
        Instr::Rlca | Instr::Rla | Instr::Rrca | Instr::Rra => 4,
        Instr::Daa | Instr::Cpl | Instr::Scf | Instr::Ccf => 4,
        Instr::StoreSp => 20,
        Instr::Jr(_) => 8,
        Instr::AddHl(_) => 8,
        Instr::Ld(to, from) => if in_memory(to) || in_memory(from) {
            8
        } else {
            4
        },
        Instr::Alu(_, o) => if in_memory(o) {
            8
        } else {
            4
        },
        Instr::AluImm(_) => 8,
        Instr::Ret(c) => if c == Cond::Always {
            16
        } else {
            8
        },
        Instr::Reti => 16,
        Instr::Pop(_) => 12,
        Instr::Push(_) => 16,
        Instr::Jp(_) => 12,
        Instr::JpHl => 4,
        Instr::Call(_) => 12,
        Instr::Rst(_) => 16,
        Instr::LdhStore | Instr::LdhLoad => 12,
        Instr::StoreC | Instr::LoadC => 8,
        Instr::AddSp => 16,
        Instr::LdHlSp => 12,
        Instr::LdSpHl => 8,
        Instr::StoreAbs | Instr::LoadAbs => 16,
        Instr::Prefix => 4,
        Instr::Illegal => 4,
    }
}

/// The T-cycles that a jump, call or return costs more when it is taken.
pub open spec fn taken_cycles(instr: Instr) -> u32 {
    match instr {
        Instr::Jr(_) => 4,
        Instr::Jp(_) => 4,
        Instr::Call(_) => 12,
        Instr::Ret(c) => if c == Cond::Always {
            0
        } else {
            12
        },
        _ => 0,
    }
}

/// The T-cycles of an instruction of the prefixed table, the prefix included.
pub open spec fn prefixed_cycles(instr: PrefixedInstr) -> u32 {
    match instr {
        PrefixedInstr::TestBit(_, o) => if in_memory(o) {
            CYCLES_CB_BIT_HL
        } else {
            8
        },
        PrefixedInstr::Shift(_, o) | PrefixedInstr::ResBit(_, o) | PrefixedInstr::SetBit(_, o) => if in_memory(
            o,
        ) {
            16
        } else {
            8
        },
    }
}

/// The T-cycles of each opcode of the unprefixed table, a jump, call or
/// return not taken; a row of the table to a line.
pub const CYCLES: [u32; 256] = [
    4, 12, 8, 8, 4, 4, 8, 4, 20, 8, 8, 8, 4, 4, 8, 4,
    4, 12, 8, 8, 4, 4, 8, 4, 8, 8, 8, 8, 4, 4, 8, 4,
    8, 12, 8, 8, 4, 4, 8, 4, 8, 8, 8, 8, 4, 4, 8, 4,
    8, 12, 8, 8, 12, 12, 12, 4, 8, 8, 8, 8, 4, 4, 8, 4,
    4, 4, 4, 4, 4, 4, 8, 4, 4, 4, 4, 4, 4, 4, 8, 4,
    4, 4, 4, 4, 4, 4, 8, 4, 4, 4, 4, 4, 4, 4, 8, 4,
    4, 4, 4, 4, 4, 4, 8, 4, 4, 4, 4, 4, 4, 4, 8, 4,
    8, 8, 8, 8, 8, 8, 4, 8, 4, 4, 4, 4, 4, 4, 8, 4,
    4, 4, 4, 4, 4, 4, 8, 4, 4, 4, 4, 4, 4, 4, 8, 4,
    4, 4, 4, 4, 4, 4, 8, 4, 4, 4, 4, 4, 4, 4, 8, 4,
    4, 4, 4, 4, 4, 4, 8, 4, 4, 4, 4, 4, 4, 4, 8, 4,
    4, 4, 4, 4, 4, 4, 8, 4, 4, 4, 4, 4, 4, 4, 8, 4,
    8, 12, 12, 12, 12, 16, 8, 16, 8, 16, 12, 4, 12, 12, 8, 16,
    8, 12, 12, 4, 12, 16, 8, 16, 8, 16, 12, 4, 12, 4, 8, 16,
    12, 12, 8, 4, 4, 16, 8, 16, 16, 4, 16, 4, 4, 4, 8, 16,
    12, 12, 8, 4, 4, 16, 8, 16, 12, 8, 16, 4, 4, 4, 8, 16,
];

/// The T-cycles of each opcode of the prefixed table but BIT on the byte at
/// HL, by the low nibble of the opcode.
pub const CYCLES_CB: [u32; 16] = [8, 8, 8, 8, 8, 8, 16, 8, 8, 8, 8, 8, 8, 8, 16, 8];

/// The table of costs holds, for every opcode, the cost of the instruction
/// that the opcode stands for.
pub proof fn law_cycles_table(op: u8)
    ensures
        CYCLES@[op as int] == base_cycles(decode(op)),
        4 <= CYCLES@[op as int] <= 20,
{
    if op < 0x40 {
        assert(CYCLES@[op as int] == base_cycles(decode(op)));
    } else if op < 0x80 {
        assert(CYCLES@[op as int] == base_cycles(decode(op)));
    } else if op < 0xC0 {
        assert(CYCLES@[op as int] == base_cycles(decode(op)));
    } else {
        assert(CYCLES@[op as int] == base_cycles(decode(op)));
    }
}

/// The second table holds, for every opcode behind the prefix but BIT on the
/// byte at HL, the cost of the instruction that the opcode stands for.
pub proof fn law_prefixed_cycles_table(op: u8)
    ensures
        prefixed_cycles(decode_prefixed(op)) == (if 0x40 <= op < 0x80 && op % 8 == 6 {
            CYCLES_CB_BIT_HL
        } else {
            CYCLES_CB@[op as int % 16]
        }),
        8 <= prefixed_cycles(decode_prefixed(op)) <= 16,
{
}

} // verus!
