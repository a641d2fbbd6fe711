//! The register file and the arithmetic-logic unit.
//!
//! The four condition flags are kept as booleans, so the low nibble of the F
//! register is zero by construction; `flags_byte` gives F as the program sees it.

use vstd::prelude::*;

verus! {

/// The eight 8-bit registers.
#[derive(Clone, Copy, Debug, PartialEq, Eq, Structural)]
pub enum Reg8 {
    A,
    F,
    B,
    C,
    D,
    E,
    H,
    L,
}

/// The register pairs and the stack pointer.
#[derive(Clone, Copy, Debug, PartialEq, Eq, Structural)]
pub enum Reg16 {
    AF,
    BC,
    DE,
    HL,
    SP,
}

/// The condition flags, bits 4 to 7 of F.
#[derive(Clone, Copy, Debug, PartialEq, Eq, Structural)]
pub enum Flag {
    C,
    H,
    N,
    Z,
}

/// The four condition flags as truth values.
#[derive(Clone, Copy, Debug, PartialEq, Eq, Structural)]
pub struct Flags {
    pub z: bool,
    pub n: bool,
    pub h: bool,
    pub c: bool,
}

/// The register file. `pc` is the program counter.
#[derive(Clone, Copy, Debug, PartialEq, Eq, Structural)]
pub struct Registers {
    pub a: u8,
    pub flags: Flags,
    pub b: u8,
    pub c: u8,
    pub d: u8,
    pub e: u8,
    pub h: u8,
    pub l: u8,
    pub sp: u16,
    pub pc: u16,
}

/// 1 for a set carry, 0 for a clear one.
pub open spec fn carry_value(c: bool) -> u8 {
    if c {
        1
    } else {
        0
    }
}

/// The byte with bit 7 = Z, bit 6 = N, bit 5 = H, bit 4 = C and a zero low nibble.
pub open spec fn flags_byte(f: Flags) -> u8 {
    ((if f.z { 128int } else { 0 }) + (if f.n { 64int } else { 0 }) + (if f.h { 32int } else { 0 })
        + (if f.c { 16int } else { 0 })) as u8
}

/// The flags held in bits 4 to 7 of a byte; bits 0 to 3 are dropped.
pub open spec fn flags_of_byte(v: u8) -> Flags {
    Flags { z: v & 0x80 != 0, n: v & 0x40 != 0, h: v & 0x20 != 0, c: v & 0x10 != 0 }
}

/// The 16-bit value with the given high and low bytes.
pub open spec fn word(hi: u8, lo: u8) -> u16 {
    (hi * 256 + lo) as u16
}

/// The high byte of a 16-bit value.
pub open spec fn high_byte(w: u16) -> u8 {
    (w / 256) as u8
}

/// The low byte of a 16-bit value.
pub open spec fn low_byte(w: u16) -> u8 {
    (w % 256) as u8
}

/// The sum modulo 2^8.
pub open spec fn wrap8(v: int) -> u8 {
    (v % 256) as u8
}

/// The sum modulo 2^16.
pub open spec fn wrap16(v: int) -> u16 {
    (v % 65536) as u16
}

/// The two's-complement reading of a byte.
pub open spec fn signed_of(b: u8) -> i8 {
    if b < 128 {
        b as i8
    } else {
        (b - 256) as i8
    }
}

/// A signed byte extended to 16 bits, as an unsigned value.
pub open spec fn sign_extend(imm: i8) -> u16 {
    if imm >= 0 {
        imm as u16
    } else {
        (imm + 65536) as u16
    }
}

// ---------------------------------------------------------------------------
// What each ALU operation computes: result and flags.
// ---------------------------------------------------------------------------
/// The result of ADD.
pub open spec fn add_res(a: u8, n: u8) -> u8 {
    wrap8(a + n)
}

/// The flags of ADD.
pub open spec fn add_flags(a: u8, n: u8) -> Flags {
    Flags { z: add_res(a, n) == 0, n: false, h: (a & 0x0F) + (n & 0x0F) > 0x0F, c: a + n > 0xFF }
}

/// The result of ADC.
pub open spec fn adc_res(a: u8, n: u8, cy: bool) -> u8 {
    wrap8(a + n + carry_value(cy))
}

/// The flags of ADC.
pub open spec fn adc_flags(a: u8, n: u8, cy: bool) -> Flags {
    Flags {
        z: adc_res(a, n, cy) == 0,
        n: false,
        h: (a & 0x0F) + (n & 0x0F) + carry_value(cy) > 0x0F,
        c: a + n + carry_value(cy) > 0xFF,
    }
}

/// The result of SUB.
pub open spec fn sub_res(a: u8, n: u8) -> u8 {
    wrap8(a - n)
}

/// The flags of SUB.
pub open spec fn sub_flags(a: u8, n: u8) -> Flags {
    Flags { z: sub_res(a, n) == 0, n: true, h: (n & 0x0F) > (a & 0x0F), c: n > a }
}

/// The result of SBC.
pub open spec fn sbc_res(a: u8, n: u8, cy: bool) -> u8 {
    wrap8(a - n - carry_value(cy))
}

/// The flags of SBC.
pub open spec fn sbc_flags(a: u8, n: u8, cy: bool) -> Flags {
    Flags {
        z: sbc_res(a, n, cy) == 0,
        n: true,
        h: (n & 0x0F) + carry_value(cy) > (a & 0x0F),
        c: n + carry_value(cy) > a,
    }
}

/// The result of AND.
pub open spec fn and_res(a: u8, n: u8) -> u8 {
    a & n
}

/// The flags of AND.
pub open spec fn and_flags(a: u8, n: u8) -> Flags {
    Flags { z: and_res(a, n) == 0, n: false, h: true, c: false }
}

/// The result of OR.
pub open spec fn or_res(a: u8, n: u8) -> u8 {
    a | n
}

/// The flags of OR.
pub open spec fn or_flags(a: u8, n: u8) -> Flags {
    Flags { z: or_res(a, n) == 0, n: false, h: false, c: false }
}

/// The result of XOR.
pub open spec fn xor_res(a: u8, n: u8) -> u8 {
    a ^ n
}

/// The flags of XOR.
pub open spec fn xor_flags(a: u8, n: u8) -> Flags {
    Flags { z: xor_res(a, n) == 0, n: false, h: false, c: false }
}

/// The result of INC.
pub open spec fn inc_res(n: u8) -> u8 {
    wrap8(n + 1)
}

/// INC leaves the carry as it was.
pub open spec fn inc_flags(old: Flags, n: u8) -> Flags {
    Flags { z: inc_res(n) == 0, n: false, h: n & 0x0F == 0x0F, c: old.c }
}

/// The result of DEC.
pub open spec fn dec_res(n: u8) -> u8 {
    wrap8(n - 1)
}

/// DEC leaves the carry as it was.
pub open spec fn dec_flags(old: Flags, n: u8) -> Flags {
    Flags { z: dec_res(n) == 0, n: true, h: n & 0x0F == 0x00, c: old.c }
}

/// The decimal-adjust correction: 0x60 for the high digit, 0x06 for the low one.
pub open spec fn daa_correction(a: u8, f: Flags) -> u8 {
    let from_flags: u8 = (if f.c { 0x60u8 } else { 0u8 }) | (if f.h { 0x06u8 } else { 0u8 });
    if f.n {
        from_flags
    } else {
        from_flags | (if a > 0x99 { 0x60u8 } else { 0u8 }) | (if a & 0x0F > 0x09 {
            0x06u8
        } else {
            0u8
        })
    }
}

/// The result of DAA.
pub open spec fn daa_res(a: u8, f: Flags) -> u8 {
    if f.n {
        wrap8(a - daa_correction(a, f))
    } else {
        wrap8(a + daa_correction(a, f))
    }
}

/// DAA leaves N as it was.
pub open spec fn daa_flags(a: u8, f: Flags) -> Flags {
    Flags { z: daa_res(a, f) == 0, n: f.n, h: false, c: daa_correction(a, f) & 0x60 != 0 }
}

/// The result of CPL.
pub open spec fn cpl_res(a: u8) -> u8 {
    !a
}

/// The flags of CPL.
pub open spec fn cpl_flags(old: Flags) -> Flags {
    Flags { z: old.z, n: true, h: true, c: old.c }
}

/// The flags of CCF.
pub open spec fn ccf_flags(old: Flags) -> Flags {
    Flags { z: old.z, n: false, h: false, c: !old.c }
}

/// The flags of SCF.
pub open spec fn scf_flags(old: Flags) -> Flags {
    Flags { z: old.z, n: false, h: false, c: true }
}

/// Flags of a rotate or shift: Z from the result, C the bit that left.
pub open spec fn shift_flags(res: u8, carry_out: bool) -> Flags {
    Flags { z: res == 0, n: false, h: false, c: carry_out }
}

/// The result of RLC.
pub open spec fn rlc_res(n: u8) -> u8 {
    (n << 1) | (n >> 7)
}

/// The result of RL.
pub open spec fn rl_res(n: u8, cy: bool) -> u8 {
    (n << 1) | carry_value(cy)
}

/// The result of RRC.
pub open spec fn rrc_res(n: u8) -> u8 {
    (n >> 1) | (n << 7)
}

/// The result of RR.
pub open spec fn rr_res(n: u8, cy: bool) -> u8 {
    (n >> 1) | (if cy { 0x80u8 } else { 0u8 })
}

/// The result of SLA.
pub open spec fn sla_res(n: u8) -> u8 {
    n << 1
}

/// The result of SRA.
pub open spec fn sra_res(n: u8) -> u8 {
    (n >> 1) | (n & 0x80)
}

/// The result of SRL.
pub open spec fn srl_res(n: u8) -> u8 {
    n >> 1
}

/// The result of SWAP.
pub open spec fn swap_res(n: u8) -> u8 {
    (n << 4) | (n >> 4)
}

/// The bit that a left rotate or shift moves out.
pub open spec fn top_bit(n: u8) -> bool {
    n >> 7 == 1
}

/// The bit that a right rotate or shift moves out.
pub open spec fn low_bit(n: u8) -> bool {
    n & 0x01 == 1
}

/// BIT leaves the carry as it was.
pub open spec fn bit_flags(old: Flags, n: u8, bit: u8) -> Flags
    recommends
        bit < 8,
{
    Flags { z: n & (1u8 << bit) == 0, n: false, h: true, c: old.c }
}

/// The result of RES.
pub open spec fn res_res(n: u8, bit: u8) -> u8
    recommends
        bit < 8,
{
    n & !(1u8 << bit)
}

/// The result of SET.
pub open spec fn set_res(n: u8, bit: u8) -> u8
    recommends
        bit < 8,
{
    n | (1u8 << bit)
}

/// The result of ADD HL, rr.
pub open spec fn add16_res(hl: u16, n: u16) -> u16 {
    wrap16(hl + n)
}

/// ADD HL leaves Z as it was.
pub open spec fn add16_flags(old: Flags, hl: u16, n: u16) -> Flags {
    Flags { z: old.z, n: false, h: (hl & 0x07FF) + (n & 0x07FF) > 0x07FF, c: hl + n > 0xFFFF }
}

/// The result of ADD SP, r8.
pub open spec fn add16_imm_res(n: u16, imm: i8) -> u16 {
    wrap16(n + sign_extend(imm))
}

/// The flags of ADD SP, r8.
pub open spec fn add16_imm_flags(n: u16, imm: i8) -> Flags {
    Flags {
        z: false,
        n: false,
        h: (n & 0x0F) + (sign_extend(imm) & 0x0F) > 0x0F,
        c: (n & 0xFF) + (sign_extend(imm) & 0xFF) > 0xFF,
    }
}

impl Reg8 {
    /// The register with the given index in the order A, F, B, C, D, E, H, L.
    pub open spec fn of_index(val: u32) -> Reg8
        recommends
            val < 8,
    {
        if val == 0 {
            Reg8::A
        } else if val == 1 {
            Reg8::F
        } else if val == 2 {
            Reg8::B
        } else if val == 3 {
            Reg8::C
        } else if val == 4 {
            Reg8::D
        } else if val == 5 {
            Reg8::E
        } else if val == 6 {
            Reg8::H
        } else {
            Reg8::L
        }
    }

    /// The register with the given index in the order A, F, B, C, D, E, H, L.
    pub fn get(val: u32) -> (r: Reg8)
        requires
            val < 8,
        ensures
            r == Reg8::of_index(val),
    {
        match val {
            0 => Reg8::A,
            1 => Reg8::F,
            2 => Reg8::B,
            3 => Reg8::C,
            4 => Reg8::D,
            5 => Reg8::E,
            6 => Reg8::H,
            _ => Reg8::L,
        }
    }
}

impl Reg16 {
    /// The pair with the given index in the order AF, BC, DE, HL, SP.
    pub open spec fn of_index(val: u32) -> Reg16
        recommends
            val < 5,
    {
        if val == 0 {
            Reg16::AF
        } else if val == 1 {
            Reg16::BC
        } else if val == 2 {
            Reg16::DE
        } else if val == 3 {
            Reg16::HL
        } else {
            Reg16::SP
        }
    }

    /// The pair with the given index in the order AF, BC, DE, HL, SP.
    pub fn get(val: u32) -> (r: Reg16)
        requires
            val < 5,
        ensures
            r == Reg16::of_index(val),
    {
        match val {
            0 => Reg16::AF,
            1 => Reg16::BC,
            2 => Reg16::DE,
            3 => Reg16::HL,
            _ => Reg16::SP,
        }
    }
}

impl Flags {
    /// Whether a flag is set.
    pub open spec fn get(self, flag: Flag) -> bool {
        match flag {
            Flag::C => self.c,
            Flag::H => self.h,
            Flag::N => self.n,
            Flag::Z => self.z,
        }
    }

    /// The flags with one of them set or cleared.
    pub open spec fn with(self, flag: Flag, on: bool) -> Flags {
        match flag {
            Flag::C => Flags { c: on, ..self },
            Flag::H => Flags { h: on, ..self },
            Flag::N => Flags { n: on, ..self },
            Flag::Z => Flags { z: on, ..self },
        }
    }
}

/// F is the flags in the high nibble; whatever byte is written, its low nibble reads zero.
pub proof fn lemma_flags_byte_masks(v: u8)
    ensures
        flags_byte(flags_of_byte(v)) == v & 0xF0,
        flags_byte(flags_of_byte(v)) & 0x0F == 0,
{
    let z: u8 = if v & 0x80 != 0 { 128u8 } else { 0u8 };
    let n: u8 = if v & 0x40 != 0 { 64u8 } else { 0u8 };
    let h: u8 = if v & 0x20 != 0 { 32u8 } else { 0u8 };
    let c: u8 = if v & 0x10 != 0 { 16u8 } else { 0u8 };
    assert(z == v & 0x80 && n == v & 0x40 && h == v & 0x20 && c == v & 0x10) by (bit_vector)
        requires
            z == (if v & 0x80 != 0 { 128u8 } else { 0u8 }),
            n == (if v & 0x40 != 0 { 64u8 } else { 0u8 }),
            h == (if v & 0x20 != 0 { 32u8 } else { 0u8 }),
            c == (if v & 0x10 != 0 { 16u8 } else { 0u8 }),
    ;
    assert((v & 0x80) + (v & 0x40) + (v & 0x20) + (v & 0x10) == (v & 0xF0) as int
        && (v & 0xF0) & 0x0F == 0) by (bit_vector);
}

/// Whatever the registers hold, bits 0 to 3 of F read zero.
pub proof fn law_low_nibble_of_f_is_zero(r: Registers)
    ensures
        r.reg8(Reg8::F) & 0x0F == 0,
        r.reg16(Reg16::AF) % 16 == 0,
{
    lemma_flags_round_trip(r.flags);
}

/// Whether a byte holds two decimal digits, one in each nibble.
pub open spec fn is_packed_decimal(x: u8) -> bool {
    x / 16 <= 9 && x % 16 <= 9
}

/// The number from 0 to 99 that a packed decimal byte stands for.
pub open spec fn decimal_of(x: u8) -> int {
    10 * (x / 16) + x % 16
}

/// The packed decimal byte for a number from 0 to 99.
pub open spec fn packed_decimal(d: int) -> u8
    recommends
        0 <= d < 100,
{
    (16 * (d / 10) + d % 10) as u8
}

/// The low nibble of a byte is the byte modulo 16.
proof fn lemma_low_nibble(x: u8)
    ensures
        x & 0x0F == x % 16,
{
    assert(x & 0x0F == x % 16) by (bit_vector);
}

/// The correction of DAA is 0x60 where the high digit is adjusted, plus
/// 0x06 where the low digit is; the carry afterwards says whether the high
/// digit was.
proof fn lemma_daa_correction(a: u8, f: Flags)
    ensures
        daa_correction(a, f) == (if f.c || (!f.n && a > 0x99) {
            0x60int
        } else {
            0int
        }) + (if f.h || (!f.n && a & 0x0F > 0x09) {
            0x06int
        } else {
            0int
        }),
        (daa_correction(a, f) & 0x60 != 0) == (f.c || (!f.n && a > 0x99)),
{
    let c1: u8 = if f.c { 0x60u8 } else { 0u8 };
    let h1: u8 = if f.h { 0x06u8 } else { 0u8 };
    let c2: u8 = if a > 0x99 { 0x60u8 } else { 0u8 };
    let h2: u8 = if a & 0x0F > 0x09 { 0x06u8 } else { 0u8 };
    assert(((c1 | h1) == c1 + h1) && (((c1 | h1) | c2 | h2) == (if c1 == 0x60 || c2 == 0x60 {
        0x60u8
    } else {
        0u8
    }) + (if h1 == 0x06 || h2 == 0x06 {
        0x06u8
    } else {
        0u8
    })) && (((c1 | h1) & 0x60 != 0) == (c1 == 0x60)) && ((((c1 | h1) | c2 | h2) & 0x60 != 0) == (c1
        == 0x60 || c2 == 0x60))) by (bit_vector)
        requires
            c1 == 0 || c1 == 0x60,
            c2 == 0 || c2 == 0x60,
            h1 == 0 || h1 == 0x06,
            h2 == 0 || h2 == 0x06,
    ;
}

/// Whether two decimal digits with a carry in add up to ten or more.
pub open spec fn digit_carry(sum: int) -> int {
    if sum >= 10 {
        1
    } else {
        0
    }
}

/// Adding two numbers of two decimal digits, digit by digit: `low` is the
/// sum of the low digits and `high` that of the high ones.
proof fn lemma_decimal_sum(low: int, high: int)
    requires
        0 <= low <= 18,
        0 <= high <= 18,
    ensures
        ((10 * high + low) % 100) / 10 == high + digit_carry(low) - 10 * digit_carry(
            high + digit_carry(low),
        ),
        ((10 * high + low) % 100) % 10 == low - 10 * digit_carry(low),
        (10 * high + low >= 100) == (digit_carry(high + digit_carry(low)) == 1),
{
    let d: int = 10 * high + low;
    let hc: int = digit_carry(high + digit_carry(low));
    let high_digit: int = high + digit_carry(low) - 10 * hc;
    let low_digit: int = low - 10 * digit_carry(low);
    assert(d == 100 * hc + 10 * high_digit + low_digit);
    assert(0 <= 10 * high_digit + low_digit < 100);
    assert(d % 100 == 10 * high_digit + low_digit);
}

/// Adding the same two numbers as bytes, nibble by nibble, and correcting
/// each nibble that went past nine by six.
proof fn lemma_binary_sum(low: int, high: int)
    requires
        0 <= low <= 18,
        0 <= high <= 18,
    ensures
        ((16 * high + low) % 256) % 16 == low % 16,
        (low > 15 || low % 16 > 9) == (digit_carry(low) == 1),
        (16 * high + low > 255 || (16 * high + low) % 256 > 0x99) == (digit_carry(
            high + digit_carry(low),
        ) == 1),
        ((16 * high + low) % 256 + 0x60 * digit_carry(high + digit_carry(low)) + 0x06
            * digit_carry(low)) % 256 == 16 * (high + digit_carry(low) - 10 * digit_carry(
            high + digit_carry(low),
        )) + (low - 10 * digit_carry(low)),
{
    let total: int = 16 * high + low;
    let sum: int = total % 256;
    assert(sum == if total > 255 { total - 256 } else { total });
    let hc: int = digit_carry(high + digit_carry(low));
    let high_digit: int = high + digit_carry(low) - 10 * hc;
    let low_digit: int = low - 10 * digit_carry(low);
    assert(total + 0x60 * hc + 0x06 * digit_carry(low) == 256 * hc + 16 * high_digit + low_digit);
    assert(0 <= 16 * high_digit + low_digit < 256);
    if low >= 16 {
        assert(low % 16 == low - 16);
    } else {
        assert(low % 16 == low);
    }
}

/// DAA after ADD of two packed decimal bytes gives the packed decimal of
/// their sum modulo 100; the carry says whether the sum reached 100, H is
/// clear, N stays clear, and Z says whether the result is zero.
pub proof fn law_daa_after_add(x: u8, y: u8)
    requires
        is_packed_decimal(x),
        is_packed_decimal(y),
    ensures
        daa_res(add_res(x, y), add_flags(x, y)) == packed_decimal(
            (decimal_of(x) + decimal_of(y)) % 100,
        ),
        daa_flags(add_res(x, y), add_flags(x, y)) == (Flags {
            z: packed_decimal((decimal_of(x) + decimal_of(y)) % 100) == 0,
            n: false,
            h: false,
            c: decimal_of(x) + decimal_of(y) >= 100,
        }),
{
    let sum: u8 = add_res(x, y);
    let flags: Flags = add_flags(x, y);
    let low: int = x % 16 + y % 16;
    let high: int = x / 16 + y / 16;
    lemma_low_nibble(x);
    lemma_low_nibble(y);
    lemma_low_nibble(sum);
    lemma_daa_correction(sum, flags);
    lemma_decimal_sum(low, high);
    lemma_binary_sum(low, high);
    assert(x + y == 16 * high + low);
    assert(decimal_of(x) + decimal_of(y) == 10 * high + low);
    assert(sum as int == (16 * high + low) % 256);
    assert(flags.h == (low > 15));
    assert(flags.c == (16 * high + low > 255));
    assert(sum & 0x0F == low % 16);
    assert(daa_correction(sum, flags) == 0x60 * digit_carry(high + digit_carry(low)) + 0x06
        * digit_carry(low));
}

/// The flags byte of any flags has a zero low nibble, and holds exactly those flags.
pub proof fn lemma_flags_round_trip(f: Flags)
    ensures
        flags_byte(f) & 0x0F == 0,
        flags_of_byte(flags_byte(f)) == f,
{
    let v = flags_byte(f);
    assert(v == 0 || v == 16 || v == 32 || v == 48 || v == 64 || v == 80 || v == 96 || v == 112
        || v == 128 || v == 144 || v == 160 || v == 176 || v == 192 || v == 208 || v == 224 || v
        == 240);
    assert((v == 0 || v == 16 || v == 32 || v == 48 || v == 64 || v == 80 || v == 96 || v == 112
        || v == 128 || v == 144 || v == 160 || v == 176 || v == 192 || v == 208 || v == 224 || v
        == 240) ==> (v & 0x0F == 0 && ((v & 0x80 != 0) == (v >= 128)) && ((v & 0x40 != 0) == (v
        % 128 >= 64)) && ((v & 0x20 != 0) == (v % 64 >= 32)) && ((v & 0x10 != 0) == (v % 32
        >= 16)))) by (bit_vector);
}

impl Registers {
    /// The value of an 8-bit register; F reads as the flags byte.
    pub open spec fn reg8(self, r: Reg8) -> u8 {
        match r {
            Reg8::A => self.a,
            Reg8::F => flags_byte(self.flags),
            Reg8::B => self.b,
            Reg8::C => self.c,
            Reg8::D => self.d,
            Reg8::E => self.e,
            Reg8::H => self.h,
            Reg8::L => self.l,
        }
    }

    /// The registers after a write to an 8-bit register; a write to F keeps only bits 4 to 7.
    pub open spec fn with_reg8(self, r: Reg8, value: u8) -> Registers {
        match r {
            Reg8::A => Registers { a: value, ..self },
            Reg8::F => Registers { flags: flags_of_byte(value), ..self },
            Reg8::B => Registers { b: value, ..self },
            Reg8::C => Registers { c: value, ..self },
            Reg8::D => Registers { d: value, ..self },
            Reg8::E => Registers { e: value, ..self },
            Reg8::H => Registers { h: value, ..self },
            Reg8::L => Registers { l: value, ..self },
        }
    }

    /// The value of a register pair, high register first.
    pub open spec fn reg16(self, r: Reg16) -> u16 {
        match r {
            Reg16::AF => word(self.a, flags_byte(self.flags)),
            Reg16::BC => word(self.b, self.c),
            Reg16::DE => word(self.d, self.e),
            Reg16::HL => word(self.h, self.l),
            Reg16::SP => self.sp,
        }
    }

    /// The registers after a write to a register pair.
    pub open spec fn with_reg16(self, r: Reg16, value: u16) -> Registers {
        match r {
            Reg16::AF => Registers {
                a: high_byte(value),
                flags: flags_of_byte(low_byte(value)),
                ..self
            },
            Reg16::BC => Registers { b: high_byte(value), c: low_byte(value), ..self },
            Reg16::DE => Registers { d: high_byte(value), e: low_byte(value), ..self },
            Reg16::HL => Registers { h: high_byte(value), l: low_byte(value), ..self },
            Reg16::SP => Registers { sp: value, ..self },
        }
    }

    /// The registers with other flags.
    pub open spec fn with_flags(self, flags: Flags) -> Registers {
        Registers { flags, ..self }
    }

    /// The register values after power-on without a boot ROM.
    pub open spec fn power_on() -> Registers {
        Registers {
            a: 0x01,
            flags: Flags { z: true, n: false, h: true, c: true },
            b: 0x00,
            c: 0x13,
            d: 0x00,
            e: 0xD8,
            h: 0x01,
            l: 0x4D,
            sp: 0xFFFE,
            pc: 0x0100,
        }
    }

    /// The registers at power-on without a boot ROM.
    pub fn new() -> (r: Registers)
        ensures
            r == Registers::power_on(),
    {
        Registers {
            a: 0x01,
            flags: Flags { z: true, n: false, h: true, c: true },
            b: 0x00,
            c: 0x13,
            d: 0x00,
            e: 0xD8,
            h: 0x01,
            l: 0x4D,
            sp: 0xFFFE,
            pc: 0x0100,
        }
    }

    /// Back to the power-on state.
    pub fn reset(&mut self)
        ensures
            *final(self) == Registers::power_on(),
    {
        *self = Registers::new();
    }

    /// Reads an 8-bit register; F reads as the flags byte.
    pub fn get_8(&self, r: Reg8) -> (v: u8)
        ensures
            v == self.reg8(r),
            r == Reg8::F ==> v & 0x0F == 0,
    {
        match r {
            Reg8::A => self.a,
            Reg8::F => {
                proof {
                    lemma_flags_round_trip(self.flags);
                }
                let z: u8 = if self.flags.z { 128 } else { 0 };
                let n: u8 = if self.flags.n { 64 } else { 0 };
                let h: u8 = if self.flags.h { 32 } else { 0 };
                let c: u8 = if self.flags.c { 16 } else { 0 };
                z + n + h + c
            },
            Reg8::B => self.b,
            Reg8::C => self.c,
            Reg8::D => self.d,
            Reg8::E => self.e,
            Reg8::H => self.h,
            Reg8::L => self.l,
        }
    }

    /// Reads a register pair.
    pub fn get_16(&self, r: Reg16) -> (v: u16)
        ensures
            v == self.reg16(r),
    {
        let (hi, lo): (u8, u8) = match r {
            Reg16::AF => (self.a, self.get_8(Reg8::F)),
            Reg16::BC => (self.b, self.c),
            Reg16::DE => (self.d, self.e),
            Reg16::HL => (self.h, self.l),
            Reg16::SP => {
                return self.sp;
            },
        };
        (hi as u16) * 256 + (lo as u16)
    }

    /// Reads HL, then moves it one up (`inc`) or one down, wrapping at the ends.
    pub fn get_hl(&mut self, inc: bool) -> (hl: u16)
        ensures
            hl == old(self).reg16(Reg16::HL),
            *final(self) == old(self).with_reg16(
                Reg16::HL,
                if inc {
                    wrap16(hl + 1)
                } else {
                    wrap16(hl - 1)
                },
            ),
    {
        let hl: u16 = self.get_16(Reg16::HL);
        if inc {
            self.set_16(Reg16::HL, hl.wrapping_add(1));
        } else {
            self.set_16(Reg16::HL, hl.wrapping_sub(1));
        }
        hl
    }

    /// Reads SP for a pop, then moves it two up.
    pub fn get_sp_pop(&mut self) -> (sp: u16)
        ensures
            sp == old(self).sp,
            *final(self) == (Registers { sp: wrap16(sp + 2), ..*old(self) }),
    {
        let sp: u16 = self.sp;
        self.sp = sp.wrapping_add(2);
        sp
    }

    /// Moves SP two down for a push and returns the new value.
    pub fn get_sp_push(&mut self) -> (sp: u16)
        ensures
            sp == wrap16(old(self).sp - 2),
            *final(self) == (Registers { sp, ..*old(self) }),
    {
        let sp: u16 = self.sp.wrapping_sub(2);
        self.sp = sp;
        sp
    }

    /// Writes an 8-bit register; a write to F keeps only bits 4 to 7.
    pub fn set_8(&mut self, r: Reg8, value: u8)
        ensures
            *final(self) == old(self).with_reg8(r, value),
            r == Reg8::F ==> final(self).reg8(Reg8::F) == value & 0xF0,
            r != Reg8::F ==> final(self).reg8(r) == value,
    {
        match r {
            Reg8::A => self.a = value,
            Reg8::F => {
                proof {
                    lemma_flags_byte_masks(value);
                }
                self.flags = Flags {
                    z: value & 0x80 != 0,
                    n: value & 0x40 != 0,
                    h: value & 0x20 != 0,
                    c: value & 0x10 != 0,
                };
            },
            Reg8::B => self.b = value,
            Reg8::C => self.c = value,
            Reg8::D => self.d = value,
            Reg8::E => self.e = value,
            Reg8::H => self.h = value,
            Reg8::L => self.l = value,
        }
    }

    /// Writes a register pair; a write to AF keeps only bits 4 to 7 of F.
    pub fn set_16(&mut self, r: Reg16, value: u16)
        ensures
            *final(self) == old(self).with_reg16(r, value),
    {
        let hi: u8 = (value / 256) as u8;
        let lo: u8 = (value % 256) as u8;
        match r {
            Reg16::AF => {
                self.a = hi;
                self.set_8(Reg8::F, lo);
            },
            Reg16::BC => {
                self.b = hi;
                self.c = lo;
            },
            Reg16::DE => {
                self.d = hi;
                self.e = lo;
            },
            Reg16::HL => {
                self.h = hi;
                self.l = lo;
            },
            Reg16::SP => self.sp = value,
        }
    }

    /// Whether a flag is set.
    pub fn get_flag(&self, flag: Flag) -> (on: bool)
        ensures
            on == self.flags.get(flag),
    {
        match flag {
            Flag::C => self.flags.c,
            Flag::H => self.flags.h,
            Flag::N => self.flags.n,
            Flag::Z => self.flags.z,
        }
    }

    /// Sets or clears a flag.
    pub fn set_flag(&mut self, flag: Flag, is_1: bool)
        ensures
            *final(self) == old(self).with_flags(old(self).flags.with(flag, is_1)),
    {
        match flag {
            Flag::C => self.flags.c = is_1,
            Flag::H => self.flags.h = is_1,
            Flag::N => self.flags.n = is_1,
            Flag::Z => self.flags.z = is_1,
        }
    }

    /// A + n + carry.
    pub fn adc(&mut self, n: u8) -> (res: u8)
        ensures
            res == adc_res(old(self).a, n, old(self).flags.c),
            *final(self) == old(self).with_flags(adc_flags(old(self).a, n, old(self).flags.c)),
    {
        let a: u8 = self.a;
        let carry: u8 = if self.flags.c { 1 } else { 0 };
        let res: u8 = a.wrapping_add(n).wrapping_add(carry);
        self.flags = Flags {
            z: res == 0,
            n: false,
            h: ((a & 0x0F) as u16) + ((n & 0x0F) as u16) + (carry as u16) > 0x0F,
            c: (a as u16) + (n as u16) + (carry as u16) > 0xFF,
        };
        res
    }

    /// A + n.
    pub fn add(&mut self, n: u8) -> (res: u8)
        ensures
            res == add_res(old(self).a, n),
            *final(self) == old(self).with_flags(add_flags(old(self).a, n)),
    {
        let a: u8 = self.a;
        let res: u8 = a.wrapping_add(n);
        self.flags = Flags {
            z: res == 0,
            n: false,
            h: ((a & 0x0F) as u16) + ((n & 0x0F) as u16) > 0x0F,
            c: (a as u16) + (n as u16) > 0xFF,
        };
        res
    }

    /// A & n.
    pub fn and(&mut self, n: u8) -> (res: u8)
        ensures
            res == and_res(old(self).a, n),
            *final(self) == old(self).with_flags(and_flags(old(self).a, n)),
    {
        let res: u8 = self.a & n;
        self.flags = Flags { z: res == 0, n: false, h: true, c: false };
        res
    }

    /// Tests bit `bit` of n.
    pub fn bit(&mut self, n: u8, bit: u8)
        requires
            bit < 8,
        ensures
            *final(self) == old(self).with_flags(bit_flags(old(self).flags, n, bit)),
    {
        let res: bool = n & (1u8 << bit) == 0;
        self.flags = Flags { z: res, n: false, h: true, c: self.flags.c };
    }

    /// Complements the carry.
    pub fn ccf(&mut self)
        ensures
            *final(self) == old(self).with_flags(ccf_flags(old(self).flags)),
    {
        self.flags = Flags { z: self.flags.z, n: false, h: false, c: !self.flags.c };
    }

    /// Compares A with n: the flags of A - n, the result dropped.
    pub fn cp(&mut self, n: u8)
        ensures
            *final(self) == old(self).with_flags(sub_flags(old(self).a, n)),
    {
        let a: u8 = self.a;
        let res: u8 = a.wrapping_sub(n);
        self.flags = Flags { z: res == 0, n: true, h: (n & 0x0F) > (a & 0x0F), c: n > a };
    }

    /// The complement of A.
    pub fn cpl(&mut self) -> (res: u8)
        ensures
            res == cpl_res(old(self).a),
            *final(self) == old(self).with_flags(cpl_flags(old(self).flags)),
    {
        let res: u8 = !self.a;
        self.flags = Flags { z: self.flags.z, n: true, h: true, c: self.flags.c };
        res
    }

    /// Decimal adjustment of A after an addition or subtraction of packed decimals.
    pub fn daa(&mut self) -> (res: u8)
        ensures
            res == daa_res(old(self).a, old(self).flags),
            *final(self) == old(self).with_flags(daa_flags(old(self).a, old(self).flags)),
    {
        let a: u8 = self.a;
        let mut correction: u8 = (if self.flags.c { 0x60u8 } else { 0u8 }) | (if self.flags.h {
            0x06u8
        } else {
            0u8
        });
        let res: u8;
        if !self.flags.n {
            correction = correction | (if a > 0x99 { 0x60u8 } else { 0u8 }) | (if a & 0x0F > 0x09 {
                0x06u8
            } else {
                0u8
            });
            res = a.wrapping_add(correction);
        } else {
            res = a.wrapping_sub(correction);
        }
        self.flags = Flags { z: res == 0, n: self.flags.n, h: false, c: correction & 0x60 != 0 };
        res
    }

    /// A | n.
    pub fn or(&mut self, n: u8) -> (res: u8)
        ensures
            res == or_res(old(self).a, n),
            *final(self) == old(self).with_flags(or_flags(old(self).a, n)),
    {
        let res: u8 = self.a | n;
        self.flags = Flags { z: res == 0, n: false, h: false, c: false };
        res
    }

    /// n with bit `bit` cleared; no flag changes.
    pub fn res(&mut self, n: u8, bit: u8) -> (res: u8)
        requires
            bit < 8,
        ensures
            res == res_res(n, bit),
            *final(self) == *old(self),
    {
        n & !(1u8 << bit)
    }

    /// Rotates n left through the carry.
    pub fn rl(&mut self, n: u8) -> (res: u8)
        ensures
            res == rl_res(n, old(self).flags.c),
            *final(self) == old(self).with_flags(shift_flags(res, top_bit(n))),
    {
        let carry: bool = n >> 7 == 1;
        let res: u8 = (n << 1) | (if self.flags.c { 1u8 } else { 0u8 });
        self.flags = Flags { z: res == 0, n: false, h: false, c: carry };
        res
    }

    /// Rotates n left; bit 7 goes to the carry and to bit 0.
    pub fn rlc(&mut self, n: u8) -> (res: u8)
        ensures
            res == rlc_res(n),
            *final(self) == old(self).with_flags(shift_flags(res, top_bit(n))),
    {
        let carry: bool = n >> 7 == 1;
        let res: u8 = (n << 1) | (n >> 7);
        self.flags = Flags { z: res == 0, n: false, h: false, c: carry };
        res
    }

    /// Rotates n right through the carry.
    pub fn rr(&mut self, n: u8) -> (res: u8)
        ensures
            res == rr_res(n, old(self).flags.c),
            *final(self) == old(self).with_flags(shift_flags(res, low_bit(n))),
    {
        let carry: bool = n & 0x01 == 1;
        let res: u8 = (n >> 1) | (if self.flags.c { 0x80u8 } else { 0u8 });
        self.flags = Flags { z: res == 0, n: false, h: false, c: carry };
        res
    }

    /// Rotates n right; bit 0 goes to the carry and to bit 7.
    pub fn rrc(&mut self, n: u8) -> (res: u8)
        ensures
            res == rrc_res(n),
            *final(self) == old(self).with_flags(shift_flags(res, low_bit(n))),
    {
        let carry: bool = n & 0x01 == 1;
        let res: u8 = (n >> 1) | (n << 7);
        self.flags = Flags { z: res == 0, n: false, h: false, c: carry };
        res
    }

    /// A - n - carry.
    pub fn sbc(&mut self, n: u8) -> (res: u8)
        ensures
            res == sbc_res(old(self).a, n, old(self).flags.c),
            *final(self) == old(self).with_flags(sbc_flags(old(self).a, n, old(self).flags.c)),
    {
        let a: u8 = self.a;
        let carry: u8 = if self.flags.c { 1 } else { 0 };
        let res: u8 = a.wrapping_sub(n).wrapping_sub(carry);
        self.flags = Flags {
            z: res == 0,
            n: true,
            h: ((n & 0x0F) as u16) + (carry as u16) > ((a & 0x0F) as u16),
            c: (n as u16) + (carry as u16) > (a as u16),
        };
        res
    }

    /// Sets the carry.
    pub fn scf(&mut self)
        ensures
            *final(self) == old(self).with_flags(scf_flags(old(self).flags)),
    {
        self.flags = Flags { z: self.flags.z, n: false, h: false, c: true };
    }

    /// `reg` with bit `bit` set; no flag changes.
    pub fn set(&mut self, reg: u8, bit: u8) -> (res: u8)
        requires
            bit < 8,
        ensures
            res == set_res(reg, bit),
            *final(self) == *old(self),
    {
        reg | (1u8 << bit)
    }

    /// Shifts n left; bit 0 becomes zero.
    pub fn sla(&mut self, n: u8) -> (res: u8)
        ensures
            res == sla_res(n),
            *final(self) == old(self).with_flags(shift_flags(res, top_bit(n))),
    {
        let carry: bool = n >> 7 == 1;
        let res: u8 = n << 1;
        self.flags = Flags { z: res == 0, n: false, h: false, c: carry };
        res
    }

    /// Shifts n right; bit 7 stays.
    pub fn sra(&mut self, n: u8) -> (res: u8)
        ensures
            res == sra_res(n),
            *final(self) == old(self).with_flags(shift_flags(res, low_bit(n))),
    {
        let carry: bool = n & 0x01 == 1;
        let res: u8 = (n >> 1) | (n & 0x80);
        self.flags = Flags { z: res == 0, n: false, h: false, c: carry };
        res
    }

    /// Shifts n right; bit 7 becomes zero.
    pub fn srl(&mut self, n: u8) -> (res: u8)
        ensures
            res == srl_res(n),
            *final(self) == old(self).with_flags(shift_flags(res, low_bit(n))),
    {
        let carry: bool = n & 0x01 == 1;
        let res: u8 = n >> 1;
        self.flags = Flags { z: res == 0, n: false, h: false, c: carry };
        res
    }

    /// A - n.
    pub fn sub(&mut self, n: u8) -> (res: u8)
        ensures
            res == sub_res(old(self).a, n),
            *final(self) == old(self).with_flags(sub_flags(old(self).a, n)),
    {
        let a: u8 = self.a;
        let res: u8 = a.wrapping_sub(n);
        self.flags = Flags { z: res == 0, n: true, h: (n & 0x0F) > (a & 0x0F), c: n > a };
        res
    }

    /// Exchanges the two nibbles of n.
    pub fn swap(&mut self, n: u8) -> (res: u8)
        ensures
            res == swap_res(n),
            *final(self) == old(self).with_flags(shift_flags(res, false)),
    {
        let res: u8 = (n << 4) | (n >> 4);
        self.flags = Flags { z: res == 0, n: false, h: false, c: false };
        res
    }

    /// A ^ n.
    pub fn xor(&mut self, n: u8) -> (res: u8)
        ensures
            res == xor_res(old(self).a, n),
            *final(self) == old(self).with_flags(xor_flags(old(self).a, n)),
    {
        let res: u8 = self.a ^ n;
        self.flags = Flags { z: res == 0, n: false, h: false, c: false };
        res
    }

    /// n + 1.
    pub fn inc(&mut self, n: u8) -> (res: u8)
        ensures
            res == inc_res(n),
            *final(self) == old(self).with_flags(inc_flags(old(self).flags, n)),
    {
        let res: u8 = n.wrapping_add(1);
        self.flags = Flags { z: res == 0, n: false, h: n & 0x0F == 0x0F, c: self.flags.c };
        res
    }

    /// n - 1.
    pub fn dec(&mut self, n: u8) -> (res: u8)
        ensures
            res == dec_res(n),
            *final(self) == old(self).with_flags(dec_flags(old(self).flags, n)),
    {
        let res: u8 = n.wrapping_sub(1);
        self.flags = Flags { z: res == 0, n: true, h: n & 0x0F == 0x00, c: self.flags.c };
        res
    }

    /// HL + n.
    pub fn add16(&mut self, n: u16) -> (res: u16)
        ensures
            res == add16_res(old(self).reg16(Reg16::HL), n),
            *final(self) == old(self).with_flags(
                add16_flags(old(self).flags, old(self).reg16(Reg16::HL), n),
            ),
    {
        let hl: u16 = self.get_16(Reg16::HL);
        let res: u16 = hl.wrapping_add(n);
        self.flags = Flags {
            z: self.flags.z,
            n: false,
            h: ((hl & 0x07FF) as u32) + ((n & 0x07FF) as u32) > 0x07FF,
            c: (hl as u32) + (n as u32) > 0xFFFF,
        };
        res
    }

    /// n plus a signed byte.
    pub fn add16_imm_i8(&mut self, n: u16, imm: i8) -> (res: u16)
        ensures
            res == add16_imm_res(n, imm),
            *final(self) == old(self).with_flags(add16_imm_flags(n, imm)),
    {
        let i: u16 = if imm >= 0 {
            imm as u16
        } else {
            (65536i32 + (imm as i32)) as u16
        };
        self.flags = Flags {
            z: false,
            n: false,
            h: ((n & 0x0F) as u32) + ((i & 0x0F) as u32) > 0x0F,
            c: ((n & 0xFF) as u32) + ((i & 0xFF) as u32) > 0xFF,
        };
        n.wrapping_add(i)
    }

    /// n + 1, modulo 2^16.
    pub fn inc16(&self, n: u16) -> (res: u16)
        ensures
            res == wrap16(n + 1),
    {
        n.wrapping_add(1)
    }

    /// n - 1, modulo 2^16.
    pub fn dec16(&self, n: u16) -> (res: u16)
        ensures
            res == wrap16(n - 1),
    {
        n.wrapping_sub(1)
    }
}

impl Default for Registers {
    fn default() -> (r: Registers)
        ensures
            r == Registers::power_on(),
    {
        Registers::new()
    }
}

} // verus!
