use gb_core::cpu::registers::Reg8;
use gb_core::cpu::registers::Registers;

fn pack(z: bool, n: bool, h: bool, c: bool) -> u8 {
    ((z as u8) << 7) | ((n as u8) << 6) | ((h as u8) << 5) | ((c as u8) << 4)
}

fn fresh(a: u8, flags: u8) -> Registers {
    let mut regs = Registers::new();
    regs.set_8(Reg8::A, a);
    regs.set_8(Reg8::F, flags);
    regs
}

fn all_flags() -> Vec<u8> {
    let mut v = Vec::new();
    for f in 0..16u8 {
        v.push(f << 4);
    }
    v
}

#[test]
fn alu_adc() {
    let mut count: u32 = 0;
    for flags in all_flags() {
        let c: u8 = (flags >> 4) & 1;
        for a in 0..=255u8 {
            for y in 0..=255u8 {
                let mut regs = fresh(a, flags);
                let val = regs.adc(y);
                let expected: u8 = a.wrapping_add(y).wrapping_add(c);
                let expected_flags = pack(expected == 0, false, ((a & 0xF) + (y & 0xF) + c) > 0xF, (a as u16 + y as u16 + c as u16) > 0xFF);
                assert_eq!(val, expected, "a={:#04x} y={:#04x} f={:#04x}", a, y, flags);
                assert_eq!(regs.get_8(Reg8::F), expected_flags, "a={:#04x} y={:#04x} f={:#04x}", a, y, flags);
                assert_eq!(regs.get_8(Reg8::A), a);
                let _ = c;
                count += 1;
            }
        }
    }
    assert_eq!(count, 16 * 256 * 256);
}

#[test]
fn alu_add() {
    let mut count: u32 = 0;
    for flags in all_flags() {
        let c: u8 = (flags >> 4) & 1;
        for a in 0..=255u8 {
            for y in 0..=255u8 {
                let mut regs = fresh(a, flags);
                let val = regs.add(y);
                let expected: u8 = a.wrapping_add(y);
                let expected_flags = pack(expected == 0, false, ((a & 0xF) + (y & 0xF)) > 0xF, (a as u16 + y as u16) > 0xFF);
                assert_eq!(val, expected, "a={:#04x} y={:#04x} f={:#04x}", a, y, flags);
                assert_eq!(regs.get_8(Reg8::F), expected_flags, "a={:#04x} y={:#04x} f={:#04x}", a, y, flags);
                assert_eq!(regs.get_8(Reg8::A), a);
                let _ = c;
                count += 1;
            }
        }
    }
    assert_eq!(count, 16 * 256 * 256);
}

#[test]
fn alu_sbc() {
    let mut count: u32 = 0;
    for flags in all_flags() {
        let c: u8 = (flags >> 4) & 1;
        for a in 0..=255u8 {
            for y in 0..=255u8 {
                let mut regs = fresh(a, flags);
                let val = regs.sbc(y);
                let expected: u8 = a.wrapping_sub(y).wrapping_sub(c);
                let expected_flags = pack(expected == 0, true, ((y & 0xF) + c) > (a & 0xF), (y as u16 + c as u16) > a as u16);
                assert_eq!(val, expected, "a={:#04x} y={:#04x} f={:#04x}", a, y, flags);
                assert_eq!(regs.get_8(Reg8::F), expected_flags, "a={:#04x} y={:#04x} f={:#04x}", a, y, flags);
                assert_eq!(regs.get_8(Reg8::A), a);
                let _ = c;
                count += 1;
            }
        }
    }
    assert_eq!(count, 16 * 256 * 256);
}

#[test]
fn alu_sub() {
    let mut count: u32 = 0;
    for flags in all_flags() {
        let c: u8 = (flags >> 4) & 1;
        for a in 0..=255u8 {
            for y in 0..=255u8 {
                let mut regs = fresh(a, flags);
                let val = regs.sub(y);
                let expected: u8 = a.wrapping_sub(y);
                let expected_flags = pack(expected == 0, true, (y & 0xF) > (a & 0xF), y > a);
                assert_eq!(val, expected, "a={:#04x} y={:#04x} f={:#04x}", a, y, flags);
                assert_eq!(regs.get_8(Reg8::F), expected_flags, "a={:#04x} y={:#04x} f={:#04x}", a, y, flags);
                assert_eq!(regs.get_8(Reg8::A), a);
                let _ = c;
                count += 1;
            }
        }
    }
    assert_eq!(count, 16 * 256 * 256);
}

#[test]
fn alu_and() {
    let mut count: u32 = 0;
    for flags in all_flags() {
        let c: u8 = (flags >> 4) & 1;
        for a in 0..=255u8 {
            for y in 0..=255u8 {
                let mut regs = fresh(a, flags);
                let val = regs.and(y);
                let expected: u8 = a & y;
                let expected_flags = pack(expected == 0, false, true, false);
                assert_eq!(val, expected, "a={:#04x} y={:#04x} f={:#04x}", a, y, flags);
                assert_eq!(regs.get_8(Reg8::F), expected_flags, "a={:#04x} y={:#04x} f={:#04x}", a, y, flags);
                assert_eq!(regs.get_8(Reg8::A), a);
                let _ = c;
                count += 1;
            }
        }
    }
    assert_eq!(count, 16 * 256 * 256);
}

#[test]
fn alu_or() {
    let mut count: u32 = 0;
    for flags in all_flags() {
        let c: u8 = (flags >> 4) & 1;
        for a in 0..=255u8 {
            for y in 0..=255u8 {
                let mut regs = fresh(a, flags);
                let val = regs.or(y);
                let expected: u8 = a | y;
                let expected_flags = pack(expected == 0, false, false, false);
                assert_eq!(val, expected, "a={:#04x} y={:#04x} f={:#04x}", a, y, flags);
                assert_eq!(regs.get_8(Reg8::F), expected_flags, "a={:#04x} y={:#04x} f={:#04x}", a, y, flags);
                assert_eq!(regs.get_8(Reg8::A), a);
                let _ = c;
                count += 1;
            }
        }
    }
    assert_eq!(count, 16 * 256 * 256);
}

#[test]
fn alu_xor() {
    let mut count: u32 = 0;
    for flags in all_flags() {
        let c: u8 = (flags >> 4) & 1;
        for a in 0..=255u8 {
            for y in 0..=255u8 {
                let mut regs = fresh(a, flags);
                let val = regs.xor(y);
                let expected: u8 = a ^ y;
                let expected_flags = pack(expected == 0, false, false, false);
                assert_eq!(val, expected, "a={:#04x} y={:#04x} f={:#04x}", a, y, flags);
                assert_eq!(regs.get_8(Reg8::F), expected_flags, "a={:#04x} y={:#04x} f={:#04x}", a, y, flags);
                assert_eq!(regs.get_8(Reg8::A), a);
                let _ = c;
                count += 1;
            }
        }
    }
    assert_eq!(count, 16 * 256 * 256);
}

#[test]
fn alu_cp() {
    for flags in all_flags() {
        for a in 0..=255u8 {
            for y in 0..=255u8 {
                let mut regs = fresh(a, flags);
                regs.cp(y);
                let expected_flags = pack(a == y, true, (y & 0xF) > (a & 0xF), y > a);
                assert_eq!(regs.get_8(Reg8::F), expected_flags);
                assert_eq!(regs.get_8(Reg8::A), a);
            }
        }
    }
}

#[test]
fn alu_bit() {
    for flags in all_flags() {
        for n in 0..=255u8 {
            for bit in 0..8u8 {
                let mut regs = fresh(0x5A, flags);
                regs.bit(n, bit);
                let zero = (n >> bit) & 1 == 0;
                assert_eq!(regs.get_8(Reg8::F), pack(zero, false, true, flags & 0x10 != 0));
            }
        }
    }
}

#[test]
fn alu_ccf() {
    for flags in all_flags() {
        let mut regs = fresh(0x12, flags);
        regs.ccf();
        assert_eq!(regs.get_8(Reg8::F), pack(flags & 0x80 != 0, false, false, flags & 0x10 == 0));
    }
}

#[test]
fn alu_scf() {
    for flags in all_flags() {
        let mut regs = fresh(0x12, flags);
        regs.scf();
        assert_eq!(regs.get_8(Reg8::F), pack(flags & 0x80 != 0, false, false, true));
    }
}

#[test]
fn alu_cpl() {
    for flags in all_flags() {
        for a in 0..=255u8 {
            let mut regs = fresh(a, flags);
            let val = regs.cpl();
            assert_eq!(val, 0xFF - a);
            assert_eq!(regs.get_8(Reg8::F), pack(flags & 0x80 != 0, true, true, flags & 0x10 != 0));
        }
    }
}

/// Decimal adjustment by its meaning: after an addition or subtraction of
/// two packed decimals, the adjusted result is the packed decimal of the sum
/// or difference modulo 100.
#[test]
fn alu_daa() {
    for x in 0..100u8 {
        for y in 0..100u8 {
            let bx = (x / 10) * 16 + x % 10;
            let by = (y / 10) * 16 + y % 10;
            let mut regs = fresh(bx, 0);
            let sum = regs.add(by);
            regs.set_8(Reg8::A, sum);
            let adjusted = regs.daa();
            let want = (x + y) % 100;
            assert_eq!(adjusted, (want / 10) * 16 + want % 10, "{} + {}", x, y);
            assert_eq!(regs.get_8(Reg8::F) & 0x10 != 0, x + y >= 100);
            assert_eq!(regs.get_8(Reg8::F) & 0x80 != 0, adjusted == 0);
            assert_eq!(regs.get_8(Reg8::F) & 0x20, 0);

            let mut regs = fresh(bx, 0);
            let diff = regs.sub(by);
            regs.set_8(Reg8::A, diff);
            let adjusted = regs.daa();
            let want = (100 + x - y) % 100;
            assert_eq!(adjusted, (want / 10) * 16 + want % 10, "{} - {}", x, y);
            assert_eq!(regs.get_8(Reg8::F) & 0x10 != 0, y > x);
            assert_eq!(regs.get_8(Reg8::F) & 0x40, 0x40);
        }
    }
}

#[test]
fn alu_res() {
    for n in 0..=255u8 {
        for bit in 0..8u8 {
            let mut regs = fresh(0, 0xF0);
            let val = regs.res(n, bit);
            assert_eq!(val, n & (0xFF ^ (1 << bit)));
            assert_eq!(regs.get_8(Reg8::F), 0xF0);
        }
    }
}

#[test]
fn alu_set() {
    for n in 0..=255u8 {
        for bit in 0..8u8 {
            let mut regs = fresh(0, 0x00);
            let val = regs.set(n, bit);
            assert_eq!(val, n | (1 << bit));
            assert_eq!(regs.get_8(Reg8::F), 0x00);
        }
    }
}

#[test]
fn alu_rl() {
    for flags in all_flags() {
        let cin: u8 = (flags >> 4) & 1;
        for n in 0..=255u8 {
            let mut regs = fresh(0x33, flags);
            let val = regs.rl(n);
            let expected: u8 = ((n as u16) << 1 | cin as u16) as u8;
            let _ = cin;
            assert_eq!(val, expected, "n={:#04x} f={:#04x}", n, flags);
            assert_eq!(regs.get_8(Reg8::F), pack(expected == 0, false, false, n & 0x80 != 0));
        }
    }
}

#[test]
fn alu_rlc() {
    for flags in all_flags() {
        let cin: u8 = (flags >> 4) & 1;
        for n in 0..=255u8 {
            let mut regs = fresh(0x33, flags);
            let val = regs.rlc(n);
            let expected: u8 = n.rotate_left(1);
            let _ = cin;
            assert_eq!(val, expected, "n={:#04x} f={:#04x}", n, flags);
            assert_eq!(regs.get_8(Reg8::F), pack(expected == 0, false, false, n & 0x80 != 0));
        }
    }
}

#[test]
fn alu_rr() {
    for flags in all_flags() {
        let cin: u8 = (flags >> 4) & 1;
        for n in 0..=255u8 {
            let mut regs = fresh(0x33, flags);
            let val = regs.rr(n);
            let expected: u8 = (n >> 1) | (cin << 7);
            let _ = cin;
            assert_eq!(val, expected, "n={:#04x} f={:#04x}", n, flags);
            assert_eq!(regs.get_8(Reg8::F), pack(expected == 0, false, false, n & 1 != 0));
        }
    }
}

#[test]
fn alu_rrc() {
    for flags in all_flags() {
        let cin: u8 = (flags >> 4) & 1;
        for n in 0..=255u8 {
            let mut regs = fresh(0x33, flags);
            let val = regs.rrc(n);
            let expected: u8 = n.rotate_right(1);
            let _ = cin;
            assert_eq!(val, expected, "n={:#04x} f={:#04x}", n, flags);
            assert_eq!(regs.get_8(Reg8::F), pack(expected == 0, false, false, n & 1 != 0));
        }
    }
}

#[test]
fn alu_sla() {
    for flags in all_flags() {
        let cin: u8 = (flags >> 4) & 1;
        for n in 0..=255u8 {
            let mut regs = fresh(0x33, flags);
            let val = regs.sla(n);
            let expected: u8 = ((n as u16) << 1) as u8;
            let _ = cin;
            assert_eq!(val, expected, "n={:#04x} f={:#04x}", n, flags);
            assert_eq!(regs.get_8(Reg8::F), pack(expected == 0, false, false, n & 0x80 != 0));
        }
    }
}

#[test]
fn alu_sra() {
    for flags in all_flags() {
        let cin: u8 = (flags >> 4) & 1;
        for n in 0..=255u8 {
            let mut regs = fresh(0x33, flags);
            let val = regs.sra(n);
            let expected: u8 = ((n as i8) >> 1) as u8;
            let _ = cin;
            assert_eq!(val, expected, "n={:#04x} f={:#04x}", n, flags);
            assert_eq!(regs.get_8(Reg8::F), pack(expected == 0, false, false, n & 1 != 0));
        }
    }
}

#[test]
fn alu_srl() {
    for flags in all_flags() {
        let cin: u8 = (flags >> 4) & 1;
        for n in 0..=255u8 {
            let mut regs = fresh(0x33, flags);
            let val = regs.srl(n);
            let expected: u8 = n >> 1;
            let _ = cin;
            assert_eq!(val, expected, "n={:#04x} f={:#04x}", n, flags);
            assert_eq!(regs.get_8(Reg8::F), pack(expected == 0, false, false, n & 1 != 0));
        }
    }
}

#[test]
fn alu_swap() {
    for flags in all_flags() {
        let cin: u8 = (flags >> 4) & 1;
        for n in 0..=255u8 {
            let mut regs = fresh(0x33, flags);
            let val = regs.swap(n);
            let expected: u8 = n.rotate_left(4);
            let _ = cin;
            assert_eq!(val, expected, "n={:#04x} f={:#04x}", n, flags);
            assert_eq!(regs.get_8(Reg8::F), pack(expected == 0, false, false, false));
        }
    }
}
