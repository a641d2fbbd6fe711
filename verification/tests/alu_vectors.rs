use gb_core::cpu::registers::Reg8;
use gb_core::cpu::registers::Registers;

/// Runs one operation on A = x with the flags byte given, and returns the
/// result with the flags byte afterwards.
fn run(x: u8, flags: u8, op: &dyn Fn(&mut Registers) -> u8) -> (u8, u8) {
    let mut regs = Registers::new();
    regs.set_8(Reg8::A, x);
    regs.set_8(Reg8::F, flags);
    let val = op(&mut regs);
    (val, regs.get_8(Reg8::F))
}

#[test]
fn test_adc() {
    assert_eq!(run(0x0F, 0x10, &|r| r.adc(0x01)), (0x11, 0x20));
    assert_eq!(run(0xFF, 0x10, &|r| r.adc(0x00)), (0x00, 0xB0));
    assert_eq!(run(0x80, 0x00, &|r| r.adc(0x80)), (0x00, 0x90));
    assert_eq!(run(0x3A, 0x10, &|r| r.adc(0xC6)), (0x01, 0x30));
}

#[test]
fn test_add() {
    assert_eq!(run(0x0F, 0x00, &|r| r.add(0x01)), (0x10, 0x20));
    assert_eq!(run(0xFF, 0xF0, &|r| r.add(0x01)), (0x00, 0xB0));
    assert_eq!(run(0x3A, 0x00, &|r| r.add(0xC6)), (0x00, 0xB0));
    assert_eq!(run(0x12, 0x10, &|r| r.add(0x34)), (0x46, 0x00));
}

#[test]
fn test_and() {
    assert_eq!(run(0x5A, 0x00, &|r| r.and(0x3F)), (0x1A, 0x20));
    assert_eq!(run(0xF0, 0xF0, &|r| r.and(0x0F)), (0x00, 0xA0));
}

#[test]
fn test_cp() {
    assert_eq!(run(0x3C, 0x00, &|r| { r.cp(0x2F); r.get_8(Reg8::A) }), (0x3C, 0x60));
    assert_eq!(run(0x3C, 0x00, &|r| { r.cp(0x3C); r.get_8(Reg8::A) }), (0x3C, 0xC0));
    assert_eq!(run(0x3C, 0x00, &|r| { r.cp(0x40); r.get_8(Reg8::A) }), (0x3C, 0x50));
}

#[test]
fn test_or() {
    assert_eq!(run(0x5A, 0xF0, &|r| r.or(0x0F)), (0x5F, 0x00));
    assert_eq!(run(0x00, 0x10, &|r| r.or(0x00)), (0x00, 0x80));
}

#[test]
fn test_sbc() {
    assert_eq!(run(0x3B, 0x10, &|r| r.sbc(0x2A)), (0x10, 0x40));
    assert_eq!(run(0x3B, 0x10, &|r| r.sbc(0x3A)), (0x00, 0xC0));
    assert_eq!(run(0x3B, 0x10, &|r| r.sbc(0x4F)), (0xEB, 0x70));
}

#[test]
fn test_sub() {
    assert_eq!(run(0x3E, 0x00, &|r| r.sub(0x3E)), (0x00, 0xC0));
    assert_eq!(run(0x3E, 0x00, &|r| r.sub(0x0F)), (0x2F, 0x60));
    assert_eq!(run(0x3E, 0x00, &|r| r.sub(0x40)), (0xFE, 0x50));
}

#[test]
fn test_xor() {
    assert_eq!(run(0xFF, 0xF0, &|r| r.xor(0xFF)), (0x00, 0x80));
    assert_eq!(run(0xFF, 0x00, &|r| r.xor(0x0F)), (0xF0, 0x00));
}

#[test]
fn test_rl() {
    assert_eq!(run(0x77, 0x00, &|r| r.rl(0x80)), (0x00, 0x90));
    assert_eq!(run(0x77, 0x10, &|r| r.rl(0x95)), (0x2B, 0x10));
    assert_eq!(run(0x77, 0x10, &|r| r.rl(0x00)), (0x01, 0x00));
}

#[test]
fn test_rlc() {
    assert_eq!(run(0x77, 0x00, &|r| r.rlc(0x85)), (0x0B, 0x10));
    assert_eq!(run(0x77, 0xF0, &|r| r.rlc(0x00)), (0x00, 0x80));
    assert_eq!(run(0x77, 0x00, &|r| r.rlc(0x80)), (0x01, 0x10));
}

#[test]
fn test_rr() {
    assert_eq!(run(0x77, 0x00, &|r| r.rr(0x01)), (0x00, 0x90));
    assert_eq!(run(0x77, 0x10, &|r| r.rr(0x8A)), (0xC5, 0x00));
    assert_eq!(run(0x77, 0x00, &|r| r.rr(0x81)), (0x40, 0x10));
}

#[test]
fn test_rrc() {
    assert_eq!(run(0x77, 0x00, &|r| r.rrc(0x01)), (0x80, 0x10));
    assert_eq!(run(0x77, 0x10, &|r| r.rrc(0x00)), (0x00, 0x80));
    assert_eq!(run(0x77, 0x00, &|r| r.rrc(0x3B)), (0x9D, 0x10));
}

#[test]
fn test_sla() {
    assert_eq!(run(0x77, 0x00, &|r| r.sla(0x80)), (0x00, 0x90));
    assert_eq!(run(0x77, 0x00, &|r| r.sla(0xFF)), (0xFE, 0x10));
    assert_eq!(run(0x77, 0x10, &|r| r.sla(0x01)), (0x02, 0x00));
}

#[test]
fn test_sra() {
    assert_eq!(run(0x77, 0x00, &|r| r.sra(0x8A)), (0xC5, 0x00));
    assert_eq!(run(0x77, 0x00, &|r| r.sra(0x01)), (0x00, 0x90));
    assert_eq!(run(0x77, 0x00, &|r| r.sra(0x81)), (0xC0, 0x10));
}

#[test]
fn test_srl() {
    assert_eq!(run(0x77, 0x00, &|r| r.srl(0x01)), (0x00, 0x90));
    assert_eq!(run(0x77, 0x00, &|r| r.srl(0xFF)), (0x7F, 0x10));
    assert_eq!(run(0x77, 0x10, &|r| r.srl(0x80)), (0x40, 0x00));
}

#[test]
fn test_swap() {
    assert_eq!(run(0x77, 0xF0, &|r| r.swap(0x00)), (0x00, 0x80));
    assert_eq!(run(0x77, 0x10, &|r| r.swap(0xF1)), (0x1F, 0x00));
}

#[test]
fn test_bit() {
    assert_eq!(run(0x00, 0x10, &|r| { r.bit(0x80, 7); 0 }), (0, 0x30));
    assert_eq!(run(0x00, 0x00, &|r| { r.bit(0xEF, 4); 0 }), (0, 0xA0));
    assert_eq!(run(0x00, 0xF0, &|r| { r.bit(0x01, 0); 0 }), (0, 0x30));
}

#[test]
fn test_ccf() {
    assert_eq!(run(0x00, 0xF0, &|r| { r.ccf(); 0 }), (0, 0x80));
    assert_eq!(run(0x00, 0x00, &|r| { r.ccf(); 0 }), (0, 0x10));
}

#[test]
fn test_scf() {
    assert_eq!(run(0x00, 0xE0, &|r| { r.scf(); 0 }), (0, 0x90));
    assert_eq!(run(0x00, 0x00, &|r| { r.scf(); 0 }), (0, 0x10));
}

#[test]
fn test_cpl() {
    assert_eq!(run(0x35, 0x00, &|r| r.cpl()), (0xCA, 0x60));
    assert_eq!(run(0x00, 0x90, &|r| r.cpl()), (0xFF, 0xF0));
}

#[test]
fn test_daa() {
    // 0x45 + 0x38 = 0x7D, which reads 83 in decimal.
    assert_eq!(run(0x7D, 0x00, &|r| r.daa()), (0x83, 0x00));
    // 0x83 - 0x38 = 0x4B with a half borrow, which reads 45.
    assert_eq!(run(0x4B, 0x60, &|r| r.daa()), (0x45, 0x40));
    // 0x99 + 0x01 = 0x9A, which reads 00 with a carry.
    assert_eq!(run(0x9A, 0x00, &|r| r.daa()), (0x00, 0x90));
    assert_eq!(run(0x00, 0x00, &|r| r.daa()), (0x00, 0x80));
}

#[test]
fn test_res() {
    assert_eq!(run(0x00, 0xF0, &|r| r.res(0xFF, 0)), (0xFE, 0xF0));
    assert_eq!(run(0x00, 0x00, &|r| r.res(0x80, 7)), (0x00, 0x00));
}

#[test]
fn test_set() {
    assert_eq!(run(0x00, 0xF0, &|r| r.set(0x00, 7)), (0x80, 0xF0));
    assert_eq!(run(0x00, 0x00, &|r| r.set(0x0F, 4)), (0x1F, 0x00));
}
