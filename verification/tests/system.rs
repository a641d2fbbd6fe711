use gb_core::cart::info::CartridgeInfo;
use gb_core::cart::mapper::new;
use gb_core::cart::Cartridge;
use gb_core::cpu::decode_op;
use gb_core::cpu::decode_prefixed_op;
use gb_core::cpu::info::AluOp;
use gb_core::cpu::info::Cond;
use gb_core::cpu::info::Instr;
use gb_core::cpu::info::Operand;
use gb_core::cpu::info::PrefixedInstr;
use gb_core::cpu::info::ShiftOp;
use gb_core::cpu::registers::Reg16;
use gb_core::cpu::relative;
use gb_core::cpu::signed;
use gb_core::gb::Gb;
use gb_core::joypad::Button;
use gb_core::system::shade;
use gb_core::system::System;
use gb_core::system::SystemEvent;
use gb_core::system::SystemInput;

fn looping_rom() -> Vec<u8> {
    let mut image = vec![0u8; 0x8000];
    image[0x014D] = 231;
    // INC B; JR -3
    image[0x0100] = 0x04;
    image[0x0101] = 0x18;
    image[0x0102] = 0xFD;
    image
}

fn console() -> Gb {
    Gb::new(Cartridge::new(looping_rom()).ok().unwrap(), None)
}

#[test]
fn the_console_starts_paused() {
    let mut system = System::new(console());
    assert!(system.paused);
    assert_eq!(system.cycles, 0);
    assert_eq!(system.tick(), None);
    assert_eq!(system.gb.next_step().0, 0x0100);
    assert_eq!(system.input(SystemInput::TogglePause), None);
    assert!(!system.paused);
    assert_eq!(system.tick(), Some(SystemEvent::Frame));
    assert!(system.cycles < 24);
    assert_eq!(system.input(SystemInput::TogglePause), None);
    let b = system.gb.registers().b;
    assert_eq!(system.tick(), None);
    assert_eq!(system.gb.registers().b, b);
}

#[test]
fn inputs_reach_the_console() {
    let mut system = System::new(console());
    system.input(SystemInput::TogglePause);
    system.tick();
    assert_ne!(system.gb.registers().b, 0);
    assert_eq!(system.input(SystemInput::Reset), None);
    assert_eq!(system.gb.registers().b, 0);
    assert_eq!(system.gb.registers().pc, 0x0100);
    assert!(!system.paused);
    assert_eq!(system.input(SystemInput::JoypadOn(Button::A)), None);
    assert_eq!(system.input(SystemInput::JoypadOff(Button::A)), None);
    assert_eq!(system.input(SystemInput::Exit), Some(SystemEvent::ExitNow));
    assert!(!system.paused);
}

#[test]
fn shades_of_the_four_colours() {
    assert_eq!(shade(0), [255, 239, 206, 255]);
    assert_eq!(shade(1), [222, 148, 74, 255]);
    assert_eq!(shade(2), [173, 41, 33, 255]);
    assert_eq!(shade(3), [49, 24, 82, 255]);
}

#[test]
fn signed_bytes_and_relative_addresses() {
    assert_eq!(signed(0x00), 0);
    assert_eq!(signed(0x7F), 127);
    assert_eq!(signed(0x80), -128);
    assert_eq!(signed(0xFF), -1);
    assert_eq!(relative(0x0150, 0x02), 0x0152);
    assert_eq!(relative(0x0150, 0xFE), 0x014E);
    assert_eq!(relative(0x0000, 0xFF), 0xFFFF);
    assert_eq!(relative(0xFFFF, 0x01), 0x0000);
    assert_eq!(relative(0x0010, 0x80), 0xFF90);
}

#[test]
fn opcodes_and_what_they_stand_for() {
    assert_eq!(decode_op(0x00), Instr::Nop);
    assert_eq!(decode_op(0x10), Instr::Stop);
    assert_eq!(decode_op(0x76), Instr::Halt);
    assert_eq!(decode_op(0x01), Instr::LdR16Imm(Reg16::BC));
    assert_eq!(decode_op(0x31), Instr::LdR16Imm(Reg16::SP));
    assert_eq!(decode_op(0x34), Instr::Inc8(Operand::HlMem));
    assert_eq!(decode_op(0x3D), Instr::Dec8(Operand::A));
    assert_eq!(decode_op(0x40), Instr::Ld(Operand::B, Operand::B));
    assert_eq!(decode_op(0x7E), Instr::Ld(Operand::A, Operand::HlMem));
    assert_eq!(decode_op(0x77), Instr::Ld(Operand::HlMem, Operand::A));
    assert_eq!(decode_op(0x80), Instr::Alu(AluOp::Add, Operand::B));
    assert_eq!(decode_op(0xBF), Instr::Alu(AluOp::Cp, Operand::A));
    assert_eq!(decode_op(0xAE), Instr::Alu(AluOp::Xor, Operand::HlMem));
    assert_eq!(decode_op(0xFE), Instr::AluImm(AluOp::Cp));
    assert_eq!(decode_op(0xC0), Instr::Ret(Cond::NZ));
    assert_eq!(decode_op(0xC9), Instr::Ret(Cond::Always));
    assert_eq!(decode_op(0xDA), Instr::Jp(Cond::C));
    assert_eq!(decode_op(0xCC), Instr::Call(Cond::Z));
    assert_eq!(decode_op(0xF1), Instr::Pop(Reg16::AF));
    assert_eq!(decode_op(0xE5), Instr::Push(Reg16::HL));
    assert_eq!(decode_op(0xFF), Instr::Rst(0x38));
    assert_eq!(decode_op(0xC7), Instr::Rst(0x00));
    assert_eq!(decode_op(0xCB), Instr::Prefix);
    for op in [0xD3u8, 0xDB, 0xDD, 0xE3, 0xE4, 0xEB, 0xEC, 0xED, 0xF4, 0xFC, 0xFD] {
        assert_eq!(decode_op(op), Instr::Illegal);
    }
    let mut illegal = 0;
    for op in 0..=255u8 {
        if decode_op(op) == Instr::Illegal {
            illegal += 1;
        }
    }
    assert_eq!(illegal, 11);
    assert_eq!(decode_prefixed_op(0x00), PrefixedInstr::Shift(ShiftOp::Rlc, Operand::B));
    assert_eq!(decode_prefixed_op(0x3F), PrefixedInstr::Shift(ShiftOp::Srl, Operand::A));
    assert_eq!(decode_prefixed_op(0x36), PrefixedInstr::Shift(ShiftOp::Swap, Operand::HlMem));
    assert_eq!(decode_prefixed_op(0x7E), PrefixedInstr::TestBit(7, Operand::HlMem));
    assert_eq!(decode_prefixed_op(0x80), PrefixedInstr::ResBit(0, Operand::B));
    assert_eq!(decode_prefixed_op(0xFF), PrefixedInstr::SetBit(7, Operand::A));
}

#[test]
fn the_circuit_computes_the_header_checksum() {
    let mut image = looping_rom();
    image[0x0134] = b'A';
    image[0x0147] = 0x01;
    image[0x0148] = 0x01;
    let info = CartridgeInfo::new_from_cartridge(&image).unwrap();
    let mapper = new(image.clone(), &info);
    // 256 - 25 - 'A' - 1 - 1
    assert_eq!(mapper.calculate_header_checksum(), (231u32 - 65 - 2) as u8);
    assert_eq!(mapper.rom_b(0x0134), b'A');
    assert_eq!(mapper.save_size(), None);
}

#[test]
fn saves_through_the_console() {
    let mut image = looping_rom();
    image[0x0147] = 0x03;
    image[0x0149] = 0x02;
    let mut gb = Gb::new(Cartridge::new(image).ok().unwrap(), None);
    assert_eq!(gb.save_size(), Some(8192));
    assert_eq!(gb.cart_info().ram_size, 8192);
    let mut save = vec![0u8; 8192];
    save[100] = 0x42;
    assert_eq!(gb.load_save(save.clone()), Ok(()));
    gb.reset();
    assert_eq!(gb.save_save().ok().unwrap(), save);
}
