use gb_core::bios::Bios;
use gb_core::cart::Cartridge;
use gb_core::cpu::info::CYCLES;
use gb_core::cpu::registers::Reg16;
use gb_core::cpu::registers::Reg8;
use gb_core::cpu::Cpu;
use gb_core::gb::Gb;
use gb_core::joypad::Button;
use gb_core::joypad::Joypad;
use gb_core::mmu::Interrupt;
use gb_core::mmu::Mmu;
use gb_core::serial::Serial;
use gb_core::timer::Timer;

/// A 32 KiB image without bank switching that holds `program` at 0x0100
/// and zeros elsewhere.
fn rom(program: &[u8]) -> Vec<u8> {
    let mut image = vec![0u8; 0x8000];
    image[0x014D] = 231;
    image[0x0150..0x0150 + program.len()].copy_from_slice(program);
    // The entry point jumps to the program.
    image[0x0100] = 0xC3;
    image[0x0101] = 0x50;
    image[0x0102] = 0x01;
    image
}

fn machine(program: &[u8]) -> Cpu {
    let cart = Cartridge::new(rom(program)).ok().unwrap();
    let mut cpu = Cpu::new(Mmu::new(None, cart));
    cpu.r.pc = 0x0150;
    // The display is switched off, so that only the program raises interrupts.
    cpu.m.wb(0xFF40, 0x00);
    cpu.m.wb(0xFF0F, 0x00);
    cpu
}

/// Runs `steps` steps and returns the T-cycles of each.
fn run(cpu: &mut Cpu, steps: usize) -> Vec<u32> {
    let mut cycles = Vec::new();
    for _ in 0..steps {
        cycles.push(cpu.step().2);
    }
    cycles
}

#[test]
fn power_on_registers() {
    let cart = Cartridge::new(rom(&[])).ok().unwrap();
    let cpu = Cpu::new(Mmu::new(None, cart));
    assert_eq!(cpu.r.get_16(Reg16::AF), 0x01B0);
    assert_eq!(cpu.r.get_16(Reg16::BC), 0x0013);
    assert_eq!(cpu.r.get_16(Reg16::DE), 0x00D8);
    assert_eq!(cpu.r.get_16(Reg16::HL), 0x014D);
    assert_eq!(cpu.r.get_16(Reg16::SP), 0xFFFE);
    assert_eq!(cpu.r.pc, 0x0100);
}

#[test]
fn writes_to_f_keep_the_high_nibble_only() {
    let mut cpu = machine(&[]);
    cpu.r.set_8(Reg8::F, 0xFF);
    assert_eq!(cpu.r.get_8(Reg8::F), 0xF0);
    cpu.r.set_16(Reg16::AF, 0x120F);
    assert_eq!(cpu.r.get_16(Reg16::AF), 0x1200);
    // POP AF
    cpu.r.set_16(Reg16::SP, 0xC000);
    cpu.m.ww(0xC000, 0x34AB);
    let mut cpu2 = cpu;
    cpu2.m.wb(0xC100, 0xF1);
    cpu2.r.pc = 0xC100;
    cpu2.step();
    assert_eq!(cpu2.r.get_16(Reg16::AF), 0x34A0);
    assert_eq!(cpu2.r.get_16(Reg16::SP), 0xC002);
}

#[test]
fn halt_bug() {
    // HALT; INC B
    let mut cpu = machine(&[0x76, 0x04, 0x00]);
    cpu.ime = false;
    cpu.m.wb(0xFFFF, 0x01);
    cpu.m.wb(0xFF0F, 0x01);
    let b = cpu.r.get_8(Reg8::B);
    cpu.step();
    assert_eq!(cpu.r.pc, 0x0151);
    assert!(!cpu.halt);
    cpu.step();
    assert_eq!(cpu.r.pc, 0x0151);
    assert_eq!(cpu.r.get_8(Reg8::B), b.wrapping_add(1));
    cpu.step();
    assert_eq!(cpu.r.pc, 0x0152);
    assert_eq!(cpu.r.get_8(Reg8::B), b.wrapping_add(2));
}

#[test]
fn halt_waits_for_an_interrupt() {
    let mut cpu = machine(&[0x76, 0x04]);
    cpu.m.wb(0xFFFF, 0x04);
    assert_eq!(run(&mut cpu, 4), vec![4, 4, 4, 4]);
    assert!(cpu.halt);
    assert_eq!(cpu.r.pc, 0x0151);
    // A pending interrupt ends the wait without a dispatch, as IME is clear.
    cpu.m.wb(0xFF0F, 0x04);
    let b = cpu.r.get_8(Reg8::B);
    assert_eq!(cpu.step().2, 4);
    assert!(!cpu.halt);
    assert_eq!(cpu.r.get_8(Reg8::B), b.wrapping_add(1));
    assert_eq!(cpu.m.b(0xFF0F) & 0x1F, 0x04);
}

#[test]
fn interrupt_service() {
    let mut cpu = machine(&[]);
    cpu.r.set_16(Reg16::SP, 0xFFFE);
    cpu.r.pc = 0x1234;
    cpu.ime = true;
    cpu.m.wb(0xFFFF, 0x05);
    cpu.m.wb(0xFF0F, 0x05);
    let (pc, _, cycles) = cpu.step();
    assert_eq!(pc, 0x1234);
    assert_eq!(cycles, 20);
    assert_eq!(cpu.m.b(0xFF0F), 0xE4);
    assert!(!cpu.ime);
    assert_eq!(cpu.m.b(0xFFFC), 0x34);
    assert_eq!(cpu.m.b(0xFFFD), 0x12);
    assert_eq!(cpu.r.get_16(Reg16::SP), 0xFFFC);
    assert_eq!(cpu.r.pc, 0x0040);
}

#[test]
fn interrupts_by_priority_and_their_handlers() {
    let handlers = [
        (0x01u8, 0x0040u16),
        (0x02, 0x0048),
        (0x04, 0x0050),
        (0x08, 0x0058),
        (0x10, 0x0060),
    ];
    for (i, (bit, handler)) in handlers.iter().enumerate() {
        let mut cpu = machine(&[]);
        cpu.ime = true;
        cpu.m.wb(0xFFFF, 0x1F);
        // This interrupt and all of lower priority are pending.
        let pending: u8 = 0x1F & !(bit - 1);
        cpu.m.wb(0xFF0F, pending);
        assert_eq!(cpu.step().2, 20);
        assert_eq!(cpu.r.pc, *handler, "interrupt {}", i);
        assert_eq!(cpu.m.b(0xFF0F) & 0x1F, pending & !bit);
    }
    let m = Mmu::new(None, Cartridge::new(rom(&[])).ok().unwrap());
    assert_eq!(m.get_interrupt_handler(Interrupt::Timer), 0x0050);
    assert_eq!(Interrupt::Joypad.number(), 4);
}

#[test]
fn a_disabled_interrupt_is_not_dispatched() {
    let mut cpu = machine(&[0x00]);
    cpu.ime = true;
    cpu.m.wb(0xFFFF, 0x02);
    cpu.m.wb(0xFF0F, 0x01);
    assert_eq!(cpu.step().2, 4);
    assert_eq!(cpu.r.pc, 0x0151);
    assert!(cpu.ime);
}

#[test]
fn ei_and_di_take_effect_before_the_next_instruction() {
    // EI; NOP; DI; NOP
    let mut cpu = machine(&[0xFB, 0x00, 0xF3, 0x00]);
    cpu.step();
    assert!(!cpu.ime);
    assert!(cpu.pending_ei);
    cpu.step();
    assert!(cpu.ime);
    cpu.step();
    assert!(cpu.ime);
    cpu.step();
    assert!(!cpu.ime);
}

#[test]
fn reti_returns_and_enables_interrupts() {
    let mut cpu = machine(&[0xD9]);
    cpu.r.set_16(Reg16::SP, 0xC000);
    cpu.m.ww(0xC000, 0x0200);
    assert_eq!(cpu.step().2, 16);
    assert_eq!(cpu.r.pc, 0x0200);
    assert_eq!(cpu.r.get_16(Reg16::SP), 0xC002);
    assert!(cpu.pending_ei);
}

#[test]
fn timer_overflow() {
    let mut m = Mmu::new(None, Cartridge::new(rom(&[])).ok().unwrap());
    m.wb(0xFF40, 0x00);
    m.wb(0xFF0F, 0x00);
    m.wb(0xFF07, 0x05);
    m.wb(0xFF05, 0xFF);
    m.wb(0xFF06, 0x42);
    m.step(15);
    assert_eq!(m.b(0xFF05), 0xFF);
    assert_eq!(m.b(0xFF0F) & 0x04, 0);
    m.step(1);
    assert_eq!(m.b(0xFF05), 0x42);
    assert_eq!(m.b(0xFF0F) & 0x04, 0x04);
}

#[test]
fn timer_rates_divider_and_reload() {
    for (select, period) in [(0u8, 1024u32), (1, 16), (2, 64), (3, 256)] {
        let mut t = Timer::new();
        t.wb(0xFF07, 0x04 | select);
        t.wb(0xFF05, 0x10);
        assert!(!t.step(period - 1));
        assert_eq!(t.b(0xFF05), 0x10);
        assert!(!t.step(1));
        assert_eq!(t.b(0xFF05), 0x11);
        assert!(!t.step(3 * period));
        assert_eq!(t.b(0xFF05), 0x14);
    }
    let mut t = Timer::new();
    // A stopped counter stays.
    t.wb(0xFF07, 0x01);
    t.wb(0xFF05, 0x10);
    assert!(!t.step(4096));
    assert_eq!(t.b(0xFF05), 0x10);
    // The divider counts one in 256 T-cycles and wraps.
    t.wb(0xFF04, 0x55);
    assert_eq!(t.b(0xFF04), 0x00);
    t.step(255);
    assert_eq!(t.b(0xFF04), 0x00);
    t.step(1);
    assert_eq!(t.b(0xFF04), 0x01);
    t.step(256 * 255);
    assert_eq!(t.b(0xFF04), 0x00);
    // Two overflows in one stretch reload from TMA each time.
    let mut t = Timer::new();
    t.wb(0xFF06, 0xFE);
    t.wb(0xFF07, 0x05);
    t.wb(0xFF05, 0xFF);
    assert!(t.step(16 * 3));
    assert_eq!(t.b(0xFF05), 0xFE);
    assert!(!t.step(16));
    assert_eq!(t.b(0xFF05), 0xFF);
    // A write to TAC leaves TIMA alone; a write to DIV clears the count towards the next tick.
    let mut t = Timer::new();
    t.wb(0xFF05, 0x20);
    t.wb(0xFF06, 0x99);
    t.wb(0xFF07, 0x05);
    assert_eq!(t.b(0xFF05), 0x20);
    assert_eq!(t.b(0xFF07), 0x00);
    t.step(15);
    t.wb(0xFF04, 0x00);
    t.step(15);
    assert_eq!(t.b(0xFF05), 0x20);
    t.step(1);
    assert_eq!(t.b(0xFF05), 0x21);
    t.reset();
    assert_eq!(t.b(0xFF04), 0x18);
    assert_eq!(t.b(0xFF07), 0xF8);
}

#[test]
fn serial_transfer_completes_after_4096_cycles() {
    let mut s = Serial::new();
    assert_eq!(s.b(0xFF01), 0xFF);
    assert_eq!(s.b(0xFF02), 0x7E);
    s.wb(0xFF01, 0x41);
    assert!(!s.step(10000));
    assert_eq!(s.b(0xFF01), 0x41);
    s.wb(0xFF02, 0x81);
    assert!(!s.step(4095));
    assert_eq!(s.b(0xFF02), 0x81);
    assert!(s.step(1));
    assert_eq!(s.b(0xFF01), 0xFF);
    assert_eq!(s.b(0xFF02), 0x01);
    assert!(!s.step(5000));
    // A transfer that is stopped starts over.
    s.wb(0xFF02, 0x80);
    s.step(4000);
    s.wb(0xFF02, 0x00);
    s.wb(0xFF02, 0x80);
    assert!(!s.step(4000));
    assert!(s.step(96));
}

#[test]
fn joypad_groups_and_interrupt() {
    let mut j = Joypad::new();
    j.reset();
    assert_eq!(j.b(0xFF00), 0xFF);
    assert!(!j.step());
    // Select the directions.
    j.wb(0xFF00, 0x20);
    assert_eq!(j.b(0xFF00) & 0x0F, 0x0F);
    j.press(Button::Left);
    assert_eq!(j.b(0xFF00) & 0x0F, 0b1101);
    assert!(j.step());
    assert!(!j.step());
    // An action button does not show among the directions.
    j.press(Button::A);
    assert_eq!(j.b(0xFF00) & 0x0F, 0b1101);
    assert!(!j.step());
    j.wb(0xFF00, 0x10);
    assert_eq!(j.b(0xFF00) & 0x0F, 0b1110);
    assert!(j.step());
    j.press(Button::Start);
    assert_eq!(j.b(0xFF00) & 0x0F, 0b0110);
    j.release(Button::A);
    assert_eq!(j.b(0xFF00) & 0x0F, 0b0111);
    // Both groups together.
    j.wb(0xFF00, 0x30);
    assert_eq!(j.b(0xFF00) & 0x0F, 0b1111);
    j.wb(0xFF00, 0x00);
    assert_eq!(j.b(0xFF00), 0x0F);
    j.press(Button::Down);
    j.press(Button::Up);
    j.press(Button::Right);
    j.press(Button::B);
    j.press(Button::Select);
    j.wb(0xFF00, 0x20);
    assert_eq!(j.b(0xFF00) & 0x0F, 0b0000);
    j.release(Button::Down);
    j.release(Button::Up);
    j.release(Button::Right);
    j.release(Button::Left);
    assert_eq!(j.b(0xFF00) & 0x0F, 0b1111);
    j.wb(0xFF00, 0x10);
    assert_eq!(j.b(0xFF00) & 0x0F, 0b0001);
    j.release(Button::B);
    j.release(Button::Select);
    j.release(Button::Start);
    assert_eq!(j.b(0xFF00) & 0x0F, 0b1111);
}

#[test]
fn joypad_interrupt_reaches_the_interrupt_flag() {
    let mut gb = Gb::new(Cartridge::new(rom(&[0x18, 0xFE])).ok().unwrap(), None);
    gb.button_press(Button::A);
    gb.step();
    let mut cpu = machine(&[]);
    cpu.m.wb(0xFF00, 0x10);
    cpu.m.step(4);
    cpu.m.wb(0xFF0F, 0x00);
    cpu.m.press(Button::A);
    cpu.m.step(4);
    assert_eq!(cpu.m.b(0xFF0F) & 0x10, 0x10);
    assert_eq!(cpu.m.b(0xFF00) & 0x0F, 0b1110);
}

#[test]
fn read_after_write() {
    let mut m = Mmu::new(None, Cartridge::new(rom(&[])).ok().unwrap());
    let addresses: [u16; 22] = [
        0xC000, 0xCFFF, 0xD000, 0xDFFF, 0xFF80, 0xFFFE, 0x8000, 0x9FFF, 0xFE00, 0xFE9F, 0xFF01,
        0xFF05, 0xFF06, 0xFF42, 0xFF43, 0xFF45, 0xFF47, 0xFF48, 0xFF49, 0xFF4A, 0xFF4B, 0xFF10,
    ];
    for (i, address) in addresses.iter().enumerate() {
        let value = (0x5A + i) as u8;
        m.wb(*address, value);
        assert_eq!(m.b(*address), value, "at {:#06x}", address);
    }
    // The echo shows work RAM.
    m.wb(0xC123, 0x77);
    assert_eq!(m.b(0xE123), 0x77);
    m.wb(0xFDFF, 0x78);
    assert_eq!(m.b(0xDDFF), 0x78);
    // Nothing is mapped at 0xFEA0.
    m.wb(0xFEA0, 0x12);
    assert_eq!(m.b(0xFEA0), 0x00);
    assert_eq!(m.b(0xFEFF), 0x00);
    // IF and IE keep five bits, and the other three read as ones.
    m.wb(0xFF0F, 0xFF);
    assert_eq!(m.b(0xFF0F), 0xFF);
    m.wb(0xFF0F, 0x00);
    assert_eq!(m.b(0xFF0F), 0xE0);
    m.wb(0xFFFF, 0x0A);
    assert_eq!(m.b(0xFFFF), 0xEA);
    // Words are stored low byte first.
    m.ww(0xC200, 0xBEEF);
    assert_eq!(m.b(0xC200), 0xEF);
    assert_eq!(m.b(0xC201), 0xBE);
    assert_eq!(m.w(0xC200), 0xBEEF);
    // Registers that do not read back what was written.
    m.wb(0xFF44, 0x12);
    assert_eq!(m.b(0xFF44), 0x91);
    assert_eq!(m.b(0xFF46), 0xFF);
    assert_eq!(m.b(0xFF4E), 0xFF);
    assert_eq!(m.b(0xFF4F), 0xFE);
    assert_eq!(m.b(0xFF27), 0xFF);
    m.wb(0xFF27, 0x00);
    assert_eq!(m.b(0xFF27), 0xFF);
}

#[test]
fn registers_after_reset() {
    let mut m = Mmu::new(None, Cartridge::new(rom(&[])).ok().unwrap());
    assert_eq!(m.b(0xFF0F), 0xE1);
    assert_eq!(m.b(0xFFFF), 0xE0);
    assert_eq!(m.b(0xFF40), 0x91);
    assert_eq!(m.b(0xFF41), 0x81);
    assert_eq!(m.b(0xFF47), 0xFC);
    assert_eq!(m.b(0xFF00), 0xFF);
    assert_eq!(m.b(0xFF02), 0x7E);
    assert_eq!(m.b(0xFF10), 0x80);
    assert_eq!(m.b(0xFF26), 0xF1);
    assert_eq!(m.b(0xFF75), 0x8F);
    assert_eq!(m.b(0xFF72), 0x00);
    assert_eq!(m.b(0xFF74), 0xFF);
    m.wb(0xC000, 0x12);
    m.wb(0xFF80, 0x34);
    m.wb(0xFFFF, 0x1F);
    m.reset();
    assert_eq!(m.b(0xC000), 0x00);
    assert_eq!(m.b(0xFF80), 0xFF);
    assert_eq!(m.b(0xFFFF), 0xE0);
}

#[test]
fn oam_dma_copies_160_bytes() {
    let mut m = Mmu::new(None, Cartridge::new(rom(&[])).ok().unwrap());
    for i in 0..0xA0u16 {
        m.wb(0xC100 + i, (i as u8) ^ 0x5A);
    }
    m.wb(0xC1A0, 0x99);
    m.wb(0xFF46, 0xC1);
    for i in 0..0xA0u16 {
        assert_eq!(m.b(0xFE00 + i), (i as u8) ^ 0x5A);
    }
    // A page past the last source page is refused.
    m.wb(0xFE00, 0x11);
    m.wb(0xFF46, 0xE0);
    assert_eq!(m.b(0xFE00), 0x11);
    // The last source page.
    m.wb(0xDF00, 0x22);
    m.wb(0xFF46, 0xDF);
    assert_eq!(m.b(0xFE00), 0x22);
}

#[test]
fn boot_rom_is_mapped_until_switched_off() {
    let bios = Bios::new(vec![0x3E, 0x01, 0xE0, 0x50]).ok().unwrap();
    let cart = Cartridge::new(rom(&[])).ok().unwrap();
    let mut gb = Gb::new(cart, Some(bios));
    assert_eq!(gb.next_step(), (0x0000, 0x3E));
    // LD A, 1
    assert_eq!(gb.step(), (0x0000, 0x3E, 8));
    // LDH (0x50), A switches the boot ROM off.
    assert_eq!(gb.step(), (0x0002, 0xE0, 12));
    assert_eq!(gb.next_step(), (0x0004, 0x00));
    gb.reset();
    assert_eq!(gb.next_step(), (0x0000, 0x3E));

    let bios = Bios::new(vec![0x3E, 0x01]).ok().unwrap();
    let mut m = Mmu::new(Some(bios), Cartridge::new(rom(&[])).ok().unwrap());
    assert_eq!(m.b(0x0001), 0x01);
    // Past the end of the boot ROM, within its window.
    assert_eq!(m.b(0x0002), 0xFF);
    assert_eq!(m.b(0x00FF), 0xFF);
    assert_eq!(m.b(0x0100), 0xC3);
    m.wb(0xFF50, 0x00);
    assert_eq!(m.b(0x0001), 0x00);
}

#[test]
fn cycle_costs_of_jumps_calls_and_returns() {
    // JR NZ taken and not taken.
    let mut cpu = machine(&[0x20, 0x02, 0x00, 0x00, 0x20, 0x02]);
    cpu.r.set_8(Reg8::F, 0x00);
    assert_eq!(cpu.step().2, 12);
    assert_eq!(cpu.r.pc, 0x0154);
    cpu.r.set_8(Reg8::F, 0x80);
    assert_eq!(cpu.step().2, 8);
    assert_eq!(cpu.r.pc, 0x0156);
    // JR backwards.
    let mut cpu = machine(&[0x00, 0x18, 0xFD]);
    assert_eq!(run(&mut cpu, 2), vec![4, 12]);
    assert_eq!(cpu.r.pc, 0x0150);
    // JP, JP C not taken and taken.
    let mut cpu = machine(&[0xDA, 0x00, 0x02, 0xDA, 0x00, 0x02]);
    cpu.r.set_8(Reg8::F, 0x00);
    assert_eq!(cpu.step().2, 12);
    assert_eq!(cpu.r.pc, 0x0153);
    cpu.r.set_8(Reg8::F, 0x10);
    assert_eq!(cpu.step().2, 16);
    assert_eq!(cpu.r.pc, 0x0200);
    let mut cpu = machine(&[0xC3, 0x34, 0x12]);
    assert_eq!(cpu.step().2, 16);
    assert_eq!(cpu.r.pc, 0x1234);
    // CALL and RET.
    let mut cpu = machine(&[0xCD, 0x00, 0x02]);
    cpu.r.set_16(Reg16::SP, 0xD000);
    assert_eq!(cpu.step().2, 24);
    assert_eq!(cpu.r.pc, 0x0200);
    assert_eq!(cpu.r.get_16(Reg16::SP), 0xCFFE);
    assert_eq!(cpu.m.w(0xCFFE), 0x0153);
    cpu.m.wb(0xC000, 0xC9);
    cpu.r.pc = 0xC000;
    assert_eq!(cpu.step().2, 16);
    assert_eq!(cpu.r.pc, 0x0153);
    assert_eq!(cpu.r.get_16(Reg16::SP), 0xD000);
    // CALL Z not taken, RET NC taken and RET C not taken.
    let mut cpu = machine(&[0xCC, 0x00, 0x02, 0xD8, 0xD0]);
    cpu.r.set_8(Reg8::F, 0x00);
    cpu.r.set_16(Reg16::SP, 0xC000);
    cpu.m.ww(0xC000, 0x0300);
    assert_eq!(run(&mut cpu, 3), vec![12, 8, 20]);
    assert_eq!(cpu.r.pc, 0x0300);
    // RST 0x28.
    let mut cpu = machine(&[0xEF]);
    cpu.r.set_16(Reg16::SP, 0xD000);
    assert_eq!(cpu.step().2, 16);
    assert_eq!(cpu.r.pc, 0x0028);
    assert_eq!(cpu.m.w(0xCFFE), 0x0151);
    // JP (HL).
    let mut cpu = machine(&[0xE9]);
    cpu.r.set_16(Reg16::HL, 0x4321);
    assert_eq!(cpu.step().2, 4);
    assert_eq!(cpu.r.pc, 0x4321);
}

#[test]
fn cycle_costs_of_the_table() {
    assert_eq!(CYCLES[0x00], 4);
    assert_eq!(CYCLES[0x01], 12);
    assert_eq!(CYCLES[0x08], 20);
    assert_eq!(CYCLES[0x34], 12);
    assert_eq!(CYCLES[0x36], 12);
    assert_eq!(CYCLES[0x46], 8);
    assert_eq!(CYCLES[0x70], 8);
    assert_eq!(CYCLES[0x86], 8);
    assert_eq!(CYCLES[0xC5], 16);
    assert_eq!(CYCLES[0xE8], 16);
    assert_eq!(CYCLES[0xF8], 12);
    assert_eq!(CYCLES[0xF9], 8);
    assert_eq!(CYCLES[0xFA], 16);
    // Every opcode that stands for something costs what the table says
    // when no jump is taken.
    for op in 0..=255u8 {
        if [0xD3, 0xDB, 0xDD, 0xE3, 0xE4, 0xEB, 0xEC, 0xED, 0xF4, 0xFC, 0xFD, 0xCB, 0x18, 0xC3, 0xCD]
            .contains(&op)
        {
            continue;
        }
        let mut cpu = machine(&[op, 0x00, 0xC0]);
        cpu.r.set_16(Reg16::SP, 0xD000);
        cpu.r.set_16(Reg16::HL, 0xC800);
        // The flags are such that no conditional jump, call or return is taken.
        let taken_if_set = [0x28, 0x38, 0xC8, 0xD8, 0xCA, 0xDA, 0xCC, 0xDC].contains(&op);
        cpu.r.set_8(Reg8::F, if taken_if_set { 0x00 } else { 0x90 });
        assert_eq!(cpu.step().2, CYCLES[op as usize], "opcode {:#04x}", op);
    }
}

#[test]
fn cycle_costs_behind_the_prefix() {
    for op in 0..=255u8 {
        let mut cpu = machine(&[0xCB, op]);
        cpu.r.set_16(Reg16::HL, 0xC800);
        let expected = if op & 7 == 6 {
            if (0x40..0x80).contains(&op) {
                12
            } else {
                16
            }
        } else {
            8
        };
        assert_eq!(cpu.step().2, expected, "opcode CB {:#04x}", op);
        assert_eq!(cpu.r.pc, 0x0152);
    }
}

#[test]
fn an_opcode_that_stands_for_nothing_locks_the_cpu() {
    for op in [0xD3u8, 0xDB, 0xDD, 0xE3, 0xE4, 0xEB, 0xEC, 0xED, 0xF4, 0xFC, 0xFD] {
        let mut cpu = machine(&[op, 0x04]);
        let b = cpu.r.get_8(Reg8::B);
        assert_eq!(cpu.fault, None);
        cpu.step();
        assert_eq!(cpu.fault, Some(op));
        let pc = cpu.r.pc;
        assert_eq!(cpu.step(), (pc, op, 4));
        assert_eq!(cpu.step(), (pc, op, 4));
        assert_eq!(cpu.r.get_8(Reg8::B), b);
        cpu.reset();
        assert_eq!(cpu.fault, None);
    }
}

#[test]
fn loads_and_stores() {
    // LD BC, 0xC010; LD A, 0x5A; LD (BC), A; LD HL, 0xC020; LD (HL+), A; LD (HL-), A; LD A, (HL+)
    let mut cpu = machine(&[
        0x01, 0x10, 0xC0, 0x3E, 0x5A, 0x02, 0x21, 0x20, 0xC0, 0x22, 0x32, 0x2A,
    ]);
    assert_eq!(run(&mut cpu, 7), vec![12, 8, 8, 12, 8, 8, 8]);
    assert_eq!(cpu.m.b(0xC010), 0x5A);
    assert_eq!(cpu.m.b(0xC020), 0x5A);
    assert_eq!(cpu.m.b(0xC021), 0x5A);
    assert_eq!(cpu.r.get_16(Reg16::HL), 0xC021);
    // LD (HL), 0x77; LD B, (HL); LD (HL), B; INC (HL); DEC (HL); LD SP, HL
    let mut cpu = machine(&[0x36, 0x77, 0x46, 0x70, 0x34, 0x35, 0xF9]);
    cpu.r.set_16(Reg16::HL, 0xC030);
    assert_eq!(run(&mut cpu, 6), vec![12, 8, 8, 12, 12, 8]);
    assert_eq!(cpu.r.get_8(Reg8::B), 0x77);
    assert_eq!(cpu.m.b(0xC030), 0x77);
    assert_eq!(cpu.r.get_16(Reg16::SP), 0xC030);
    // LDH (0x80), A; LDH A, (0x80); LD (C), A; LD A, (C); LD (0xC040), A; LD A, (0xC040); LD (0xC050), SP
    let mut cpu = machine(&[
        0xE0, 0x80, 0xF0, 0x80, 0xE2, 0xF2, 0xEA, 0x40, 0xC0, 0xFA, 0x40, 0xC0, 0x08, 0x50, 0xC0,
    ]);
    cpu.r.set_8(Reg8::A, 0x3C);
    cpu.r.set_8(Reg8::C, 0x81);
    cpu.r.set_16(Reg16::SP, 0xABCD);
    assert_eq!(run(&mut cpu, 7), vec![12, 12, 8, 8, 16, 16, 20]);
    assert_eq!(cpu.m.b(0xFF80), 0x3C);
    assert_eq!(cpu.m.b(0xFF81), 0x3C);
    assert_eq!(cpu.m.b(0xC040), 0x3C);
    assert_eq!(cpu.m.w(0xC050), 0xABCD);
}

#[test]
fn push_writes_the_high_byte_above_the_low_byte() {
    // PUSH BC; POP DE
    let mut cpu = machine(&[0xC5, 0xD1]);
    cpu.r.set_16(Reg16::SP, 0xD000);
    cpu.r.set_16(Reg16::BC, 0x1234);
    assert_eq!(cpu.step().2, 16);
    assert_eq!(cpu.r.get_16(Reg16::SP), 0xCFFE);
    assert_eq!(cpu.m.b(0xCFFF), 0x12);
    assert_eq!(cpu.m.b(0xCFFE), 0x34);
    assert_eq!(cpu.step().2, 12);
    assert_eq!(cpu.r.get_16(Reg16::DE), 0x1234);
    assert_eq!(cpu.r.get_16(Reg16::SP), 0xD000);
}

#[test]
fn sixteen_bit_arithmetic() {
    // ADD HL, BC
    let mut cpu = machine(&[0x09, 0x09]);
    cpu.r.set_16(Reg16::HL, 0x07FF);
    cpu.r.set_16(Reg16::BC, 0x0001);
    cpu.r.set_8(Reg8::F, 0xC0);
    cpu.step();
    assert_eq!(cpu.r.get_16(Reg16::HL), 0x0800);
    // Z stays, N is cleared, H is set on the carry out of bit 10.
    assert_eq!(cpu.r.get_8(Reg8::F), 0xA0);
    cpu.r.set_16(Reg16::HL, 0xFFFF);
    cpu.step();
    assert_eq!(cpu.r.get_16(Reg16::HL), 0x0000);
    assert_eq!(cpu.r.get_8(Reg8::F), 0xB0);
    // ADD SP, -1; LD HL, SP+1; INC BC; DEC DE
    let mut cpu = machine(&[0xE8, 0xFF, 0xF8, 0x01, 0x03, 0x1B]);
    cpu.r.set_16(Reg16::SP, 0x0100);
    cpu.r.set_16(Reg16::BC, 0xFFFF);
    cpu.r.set_16(Reg16::DE, 0x0000);
    cpu.r.set_8(Reg8::F, 0xF0);
    assert_eq!(cpu.step().2, 16);
    assert_eq!(cpu.r.get_16(Reg16::SP), 0x00FF);
    // 0x00 + 0xFF carries neither out of bit 3 nor out of bit 7.
    assert_eq!(cpu.r.get_8(Reg8::F), 0x00);
    assert_eq!(cpu.step().2, 12);
    assert_eq!(cpu.r.get_16(Reg16::HL), 0x0100);
    assert_eq!(cpu.r.get_8(Reg8::F), 0x30);
    cpu.step();
    cpu.step();
    assert_eq!(cpu.r.get_16(Reg16::BC), 0x0000);
    assert_eq!(cpu.r.get_16(Reg16::DE), 0xFFFF);
    assert_eq!(cpu.r.get_8(Reg8::F), 0x30);
}

#[test]
fn rotates_of_a_clear_z() {
    // RLCA; RLA; RRCA; RRA with A = 0
    for op in [0x07u8, 0x17, 0x0F, 0x1F] {
        let mut cpu = machine(&[op]);
        cpu.r.set_8(Reg8::A, 0x00);
        cpu.r.set_8(Reg8::F, 0x80);
        cpu.step();
        assert_eq!(cpu.r.get_8(Reg8::A), 0x00);
        assert_eq!(cpu.r.get_8(Reg8::F), 0x00);
    }
    // RLC A behind the prefix sets Z.
    let mut cpu = machine(&[0xCB, 0x07]);
    cpu.r.set_8(Reg8::A, 0x00);
    cpu.step();
    assert_eq!(cpu.r.get_8(Reg8::F), 0x80);
}

#[test]
fn inc_and_dec_leave_the_carry() {
    // INC B; DEC B
    let mut cpu = machine(&[0x04, 0x05, 0x05]);
    cpu.r.set_8(Reg8::B, 0x0F);
    cpu.r.set_8(Reg8::F, 0x10);
    cpu.step();
    assert_eq!(cpu.r.get_8(Reg8::B), 0x10);
    assert_eq!(cpu.r.get_8(Reg8::F), 0x30);
    cpu.step();
    assert_eq!(cpu.r.get_8(Reg8::B), 0x0F);
    assert_eq!(cpu.r.get_8(Reg8::F), 0x70);
    cpu.r.set_8(Reg8::B, 0x01);
    cpu.r.set_8(Reg8::F, 0x00);
    cpu.step();
    assert_eq!(cpu.r.get_8(Reg8::F), 0xC0);
}

#[test]
fn operations_behind_the_prefix_on_memory() {
    // SET 7, (HL); BIT 7, (HL); RES 7, (HL); BIT 7, (HL); SWAP (HL); SRL (HL)
    let mut cpu = machine(&[
        0xCB, 0xFE, 0xCB, 0x7E, 0xCB, 0xBE, 0xCB, 0x7E, 0xCB, 0x36, 0xCB, 0x3E,
    ]);
    cpu.r.set_16(Reg16::HL, 0xC000);
    cpu.m.wb(0xC000, 0x21);
    cpu.r.set_8(Reg8::F, 0x00);
    cpu.step();
    assert_eq!(cpu.m.b(0xC000), 0xA1);
    cpu.step();
    assert_eq!(cpu.r.get_8(Reg8::F), 0x20);
    cpu.step();
    assert_eq!(cpu.m.b(0xC000), 0x21);
    cpu.step();
    assert_eq!(cpu.r.get_8(Reg8::F), 0xA0);
    cpu.step();
    assert_eq!(cpu.m.b(0xC000), 0x12);
    cpu.step();
    assert_eq!(cpu.m.b(0xC000), 0x09);
    assert_eq!(cpu.r.get_8(Reg8::F), 0x00);
}

#[test]
fn stop_is_one_byte_and_ends_on_an_interrupt() {
    let mut cpu = machine(&[0x10, 0x04]);
    assert_eq!(cpu.step().2, 4);
    assert!(cpu.stop);
    assert_eq!(cpu.r.pc, 0x0151);
    cpu.m.wb(0xFFFF, 0x01);
    cpu.m.wb(0xFF0F, 0x01);
    cpu.step();
    assert!(!cpu.stop);
}

#[test]
fn step_frame_carries_the_overshoot() {
    // An endless loop of a call that is taken: 24 T-cycles each.
    let mut gb = Gb::new(Cartridge::new(rom(&[0xCD, 0x50, 0x01])).ok().unwrap(), None);
    // The jump at the entry point.
    assert_eq!(gb.step().2, 16);
    let mut carry: u32 = 0;
    let mut total: u64 = 0;
    for _ in 0..5 {
        let before = carry;
        carry = gb.step_frame(carry);
        assert!(carry < 24);
        // 70224 T-cycles and the overshoot, less what was carried in.
        let spent = 70224 + carry - before;
        assert_eq!(spent % 24, 0);
        total += spent as u64;
    }
    assert_eq!(total, 5 * 70224 + carry as u64);
    assert_eq!(gb.fault(), None);
    // A frame that has all its cycles already takes no step.
    let pc = gb.next_step().0;
    assert_eq!(gb.step_frame(70224 + 7), 7);
    assert_eq!(gb.next_step().0, pc);
}

#[test]
fn step_frame_with_a_locked_cpu_ends() {
    let mut gb = Gb::new(Cartridge::new(rom(&[0xD3])).ok().unwrap(), None);
    let carry = gb.step_frame(0);
    assert!(carry < 24);
    assert_eq!(gb.fault(), Some(0xD3));
}

#[test]
fn replay_after_reset_is_deterministic() {
    // A program that copies a counter into the palette and scrolls.
    let program = [
        0x3C, 0xE0, 0x47, 0xE0, 0x43, 0xEA, 0x00, 0x98, 0xEA, 0x10, 0x80, 0x18, 0xF3,
    ];
    let mut gb = Gb::new(Cartridge::new(rom(&program)).ok().unwrap(), None);
    let mut first = Vec::new();
    let mut carry = 0;
    for frame in 0..4 {
        if frame == 2 {
            gb.button_press(Button::Start);
        }
        carry = gb.step_frame(carry);
        first.push((gb.get_buf(), carry));
    }
    gb.reset();
    let mut carry = 0;
    for frame in 0..4 {
        if frame == 2 {
            gb.button_press(Button::Start);
        }
        carry = gb.step_frame(carry);
        assert!(first[frame].0 == gb.get_buf());
        assert_eq!(first[frame].1, carry);
    }
}

#[test]
fn a_program_with_a_loop_and_a_call() {
    // Stores the first ten Fibonacci numbers at 0xC000.
    let mut cpu = machine(&[
        0x31, 0x00, 0xD0, // LD SP, 0xD000
        0x21, 0x00, 0xC0, // LD HL, 0xC000
        0x06, 0x0A, // LD B, 10
        0x16, 0x00, // LD D, 0
        0x1E, 0x01, // LD E, 1
        0x7A, // loop: LD A, D
        0x22, // LD (HL+), A
        0xCD, 0x68, 0x01, // CALL next
        0x05, // DEC B
        0x20, 0xF8, // JR NZ, loop
        0x76, // HALT
        0x00, 0x00, 0x00, //
        0x7A, // next: LD A, D
        0x83, // ADD A, E
        0x53, // LD D, E
        0x5F, // LD E, A
        0xC9, // RET
    ]);
    let mut cycles: u32 = 0;
    let mut steps = 0;
    while !cpu.halt {
        cycles += cpu.step().2;
        steps += 1;
        assert!(steps < 1000);
    }
    let expected = [0u8, 1, 1, 2, 3, 5, 8, 13, 21, 34];
    for (i, value) in expected.iter().enumerate() {
        assert_eq!(cpu.m.b(0xC000 + i as u16), *value);
    }
    assert_eq!(cpu.r.get_16(Reg16::HL), 0xC00A);
    assert_eq!(cpu.r.get_16(Reg16::SP), 0xD000);
    assert_eq!(cpu.r.get_8(Reg8::B), 0);
    assert_eq!(cpu.r.pc, 0x0165);
    // Five loads, ten rounds of the loop, and the halt.
    let round = 4 + 8 + 24 + (4 + 4 + 4 + 4 + 16) + 4;
    assert_eq!(cycles, 12 + 12 + 8 + 8 + 8 + 10 * round + 9 * 12 + 8 + 4);
    assert_eq!(steps, 5 + 10 * 10 + 1);
}
