use gb_core::bios::Bios;
use gb_core::bios::BiosError;
use gb_core::cart::info::CartType;
use gb_core::cart::info::CartridgeInfo;
use gb_core::cart::info::CartridgeInfoError;
use gb_core::cart::info::CgbFlag;
use gb_core::cart::info::Region;
use gb_core::cart::info::SgbFlag;
use gb_core::cart::info::get_ram_size;
use gb_core::cart::info::get_rom_size;
use gb_core::cart::mapper::MapperType;
use gb_core::cart::mapper::RamLoadError;
use gb_core::cart::mapper::RamSaveError;
use gb_core::cart::Cartridge;
use gb_core::cart::CartridgeError;

/// An image of `banks` banks of 16 KiB. Every byte holds the number of its
/// bank, but for the header, which names the cartridge type and the sizes
/// and carries its checksum.
fn image(cart_type: u8, rom_code: u8, ram_code: u8, banks: usize) -> Vec<u8> {
    let mut rom = vec![0u8; banks * 0x4000];
    for (i, byte) in rom.iter_mut().enumerate() {
        *byte = (i / 0x4000) as u8;
    }
    for byte in rom.iter_mut().take(0x0150).skip(0x0100) {
        *byte = 0;
    }
    let title = b"TESTCART";
    rom[0x0134..0x0134 + title.len()].copy_from_slice(title);
    rom[0x0147] = cart_type;
    rom[0x0148] = rom_code;
    rom[0x0149] = ram_code;
    rom[0x014D] = checksum(&rom);
    rom
}

fn checksum(rom: &[u8]) -> u8 {
    let mut sum: u32 = 0;
    for byte in &rom[0x0134..=0x014C] {
        sum += *byte as u32;
    }
    ((0x10000 - sum - 25) % 256) as u8
}

fn cart(cart_type: u8, rom_code: u8, ram_code: u8, banks: usize) -> Cartridge {
    match Cartridge::new(image(cart_type, rom_code, ram_code, banks)) {
        Ok(c) => c,
        Err(_) => panic!("the image was refused"),
    }
}

#[test]
fn header_fields_are_read() {
    let mut rom = image(0x13, 0x02, 0x03, 8);
    rom[0x0143] = 0x80;
    rom[0x0146] = 0x03;
    rom[0x014A] = 0x01;
    rom[0x014B] = 0x33;
    rom[0x0144] = b'0';
    rom[0x0145] = b'1';
    rom[0x014C] = 0x07;
    rom[0x014D] = 0x5A;
    let info = CartridgeInfo::new_from_cartridge(&rom).unwrap();
    assert_eq!(info.title, "TESTCART");
    assert_eq!(info.cart_type, CartType::Mbc3RamBat);
    assert_eq!(info.mapper, MapperType::Mbc3);
    assert_eq!(info.rom_size, 131072);
    assert_eq!(info.ram_size, 32768);
    assert!(info.battery);
    assert!(info.ram);
    assert!(!info.rumble);
    assert!(!info.sensor);
    assert!(!info.time);
    assert_eq!(info.cgb_flag, CgbFlag::Supported);
    assert_eq!(info.sgb_flag, SgbFlag::Supported);
    assert_eq!(info.region, Region::NonJapanese);
    assert_eq!(info.version, 0x07);
    assert_eq!(info.header_checksum, 0x5A);
    assert_eq!(info.old_licensee_code, 0x33);
    assert_eq!(info.new_licensee_code, Some((b'0', b'1')));
}

#[test]
fn title_ends_at_the_first_zero_or_fills_its_field() {
    let mut rom = image(0x00, 0x00, 0x00, 2);
    rom[0x0134..0x0143].copy_from_slice(b"FIFTEEN-LETTERS");
    let info = CartridgeInfo::new_from_cartridge(&rom).unwrap();
    assert_eq!(info.title, "FIFTEEN-LETTERS");
    rom[0x0136] = 0;
    let info = CartridgeInfo::new_from_cartridge(&rom).unwrap();
    assert_eq!(info.title, "FI");
    rom[0x0134] = 0;
    let info = CartridgeInfo::new_from_cartridge(&rom).unwrap();
    assert_eq!(info.title, "");
}

#[test]
fn old_licensee_code_stands_alone_unless_it_defers() {
    let mut rom = image(0x00, 0x00, 0x00, 2);
    rom[0x014B] = 0x01;
    rom[0x0144] = b'9';
    let info = CartridgeInfo::new_from_cartridge(&rom).unwrap();
    assert_eq!(info.old_licensee_code, 0x01);
    assert_eq!(info.new_licensee_code, None);
}

#[test]
fn each_header_fault_is_reported() {
    let good = image(0x00, 0x00, 0x00, 2);
    assert!(CartridgeInfo::new_from_cartridge(&good).is_ok());

    let short = good[..0x014D].to_vec();
    assert_eq!(
        CartridgeInfo::new_from_cartridge(&short).err(),
        Some(CartridgeInfoError::InvalidCartridgeSize)
    );
    let just_long_enough = good[..0x014E].to_vec();
    assert!(CartridgeInfo::new_from_cartridge(&just_long_enough).is_ok());

    let mut bad = good.clone();
    bad[0x0135] = 0x80;
    assert_eq!(
        CartridgeInfo::new_from_cartridge(&bad).err(),
        Some(CartridgeInfoError::TitleStringFail)
    );
    // A byte past the end of the title is padding and is not looked at.
    let mut padded = good.clone();
    padded[0x0134 + 8] = 0;
    padded[0x0134 + 9] = 0xFF;
    assert!(CartridgeInfo::new_from_cartridge(&padded).is_ok());

    let mut bad = good.clone();
    bad[0x0146] = 0x01;
    assert_eq!(
        CartridgeInfo::new_from_cartridge(&bad).err(),
        Some(CartridgeInfoError::SGBFlagFail)
    );
    let mut bad = good.clone();
    bad[0x0148] = 0x09;
    assert_eq!(
        CartridgeInfo::new_from_cartridge(&bad).err(),
        Some(CartridgeInfoError::InvalidRom)
    );
    let mut bad = good.clone();
    bad[0x0149] = 0x01;
    assert_eq!(
        CartridgeInfo::new_from_cartridge(&bad).err(),
        Some(CartridgeInfoError::InvalidRam)
    );
    let mut bad = good.clone();
    bad[0x014A] = 0x03;
    assert_eq!(
        CartridgeInfo::new_from_cartridge(&bad).err(),
        Some(CartridgeInfoError::RegionFail)
    );
    // The first fault in the order of the checks is the one reported.
    let mut bad = good.clone();
    bad[0x0146] = 0x01;
    bad[0x0148] = 0x09;
    bad[0x014A] = 0x03;
    assert_eq!(
        CartridgeInfo::new_from_cartridge(&bad).err(),
        Some(CartridgeInfoError::SGBFlagFail)
    );
}

#[test]
fn fault_messages() {
    assert_eq!(
        CartridgeInfoError::InvalidCartridgeSize.message(),
        "Cartridge is too short, probably invalid!"
    );
    assert_eq!(CartridgeInfoError::InvalidRom.message(), "Invalid Rom amount!");
    assert_eq!(CartridgeInfoError::InvalidRam.message(), "Invalid Ram amount!");
    assert_eq!(CartridgeInfoError::TitleStringFail.message(), "Title string invalid!");
    assert_eq!(CartridgeInfoError::SGBFlagFail.message(), "SGB flag invalid!");
    assert_eq!(CartridgeInfoError::RegionFail.message(), "Region code invalid!");
    assert_eq!(
        CartridgeError::CartridgeInfo(CartridgeInfoError::InvalidRom).message(),
        "Invalid Rom amount!"
    );
    assert_eq!(BiosError::BiosSize.message(), "Bios is too large!");
}

#[test]
fn rom_and_ram_sizes() {
    assert_eq!(get_rom_size(0), Some(32 * 1024));
    assert_eq!(get_rom_size(1), Some(64 * 1024));
    assert_eq!(get_rom_size(5), Some(1024 * 1024));
    assert_eq!(get_rom_size(8), Some(8 * 1024 * 1024));
    assert_eq!(get_rom_size(9), None);
    assert_eq!(get_rom_size(0x52), None);
    assert_eq!(get_ram_size(0), Some(0));
    assert_eq!(get_ram_size(1), None);
    assert_eq!(get_ram_size(2), Some(8 * 1024));
    assert_eq!(get_ram_size(3), Some(32 * 1024));
    assert_eq!(get_ram_size(4), Some(128 * 1024));
    assert_eq!(get_ram_size(5), Some(64 * 1024));
    assert_eq!(get_ram_size(6), None);
}

#[test]
fn cartridge_types_and_their_circuits() {
    assert_eq!(CartType::from_byte(0x00), CartType::Rom);
    assert_eq!(CartType::from_byte(0x03), CartType::Mbc1RamBat);
    assert_eq!(CartType::from_byte(0x04), CartType::Unknown);
    assert_eq!(CartType::from_byte(0x1E), CartType::Mbc5RamBatRum);
    assert_eq!(CartType::from_byte(0xFF), CartType::Huc1RamBat);
    assert_eq!(CartType::Rom.mapper(), MapperType::Rom);
    assert_eq!(CartType::Mbc1Ram.mapper(), MapperType::Mbc1);
    assert_eq!(CartType::Mbc2Bat.mapper(), MapperType::Mbc2);
    assert_eq!(CartType::Mbc3BatTim.mapper(), MapperType::Mbc3);
    assert_eq!(CartType::Mbc5Rum.mapper(), MapperType::Mbc5);
    assert_eq!(CartType::Camera.mapper(), MapperType::Unknown);
    assert_eq!(CartType::RomRam.mapper(), MapperType::Unknown);
    assert!(CartType::Mbc3BatTim.time());
    assert!(CartType::Mbc3BatTim.battery());
    assert!(!CartType::Mbc3BatTim.ram());
    assert!(CartType::Mbc7RamBatRumSen.sensor());
    assert!(CartType::Mbc5RamRum.rumble());
    assert!(!CartType::Mbc5RamRum.battery());
}

#[test]
fn header_checksum_of_a_32k_cartridge() {
    let rom = image(0x00, 0x00, 0x00, 2);
    let mut sum: u32 = 0;
    for byte in &rom[0x0134..=0x014C] {
        sum += *byte as u32;
    }
    // The stored checksum is (-S - 25) mod 256.
    assert_eq!(rom[0x014D] as u32, (0x10000 - sum - 25) % 256);
    let c = Cartridge::new(rom.clone()).ok().unwrap();
    assert!(c.header_checksum());

    let mut wrong = rom;
    wrong[0x014D] = wrong[0x014D].wrapping_add(1);
    let c = Cartridge::new(wrong).ok().unwrap();
    assert!(!c.header_checksum());
}

#[test]
fn header_checksum_exact_value() {
    // With a header of zeros the checksum is 256 - 25 = 231.
    let mut rom = vec![0u8; 0x8000];
    rom[0x014D] = 231;
    let c = Cartridge::new(rom).ok().unwrap();
    assert!(c.header_checksum());
}

#[test]
fn unknown_cartridge_type_reads_ff_everywhere() {
    let mut c = cart(0x04, 0x00, 0x00, 2);
    assert_eq!(c.info.cart_type, CartType::Unknown);
    assert_eq!(c.rom_b(0x0000), 0xFF);
    assert_eq!(c.rom_b(0x7FFF), 0xFF);
    assert_eq!(c.ram_b(0xA000), 0xFF);
    c.ram_wb(0xA000, 0x12);
    assert_eq!(c.ram_b(0xA000), 0xFF);
    assert_eq!(c.save_size(), None);
    let mut c = cart(0xFC, 0x00, 0x00, 2);
    assert_eq!(c.rom_b(0x0100), 0xFF);
}

#[test]
fn rom_only_cartridge() {
    let mut c = cart(0x00, 0x00, 0x00, 2);
    assert_eq!(c.rom_b(0x0000), 0);
    assert_eq!(c.rom_b(0x4000), 1);
    assert_eq!(c.rom_b(0x7FFF), 1);
    c.rom_wb(0x2000, 0x05);
    assert_eq!(c.rom_b(0x4000), 1);
    assert_eq!(c.ram_b(0xA000), 0x00);
    c.ram_wb(0xA000, 0x55);
    assert_eq!(c.ram_b(0xA000), 0x00);
    assert_eq!(c.load_save(vec![]), Err(RamLoadError::Incompatible));
    assert_eq!(c.save_save().err(), Some(RamSaveError::Incompatible));
}

#[test]
fn read_past_the_image_gives_ff() {
    let mut rom = image(0x00, 0x00, 0x00, 2);
    rom.truncate(0x0200);
    let mut c = Cartridge::new(rom).ok().unwrap();
    assert_eq!(c.rom_b(0x01FF), 0);
    assert_eq!(c.rom_b(0x0200), 0xFF);
    assert_eq!(c.rom_b(0x7FFF), 0xFF);
}

#[test]
fn mbc1_bank_0_substitution() {
    let mut c = cart(0x01, 0x02, 0x00, 8);
    c.rom_wb(0x2000, 0x00);
    assert_eq!(c.rom_b(0x4000), 1);
    assert_eq!(c.rom_b(0x0000), 0);
    c.rom_wb(0x2000, 0x20);
    assert_eq!(c.rom_b(0x4000), 1);
}

#[test]
fn mbc1_switches_banks_modulo_the_banks_present() {
    let mut c = cart(0x01, 0x02, 0x00, 8);
    for bank in 1..8u8 {
        c.rom_wb(0x2000, bank);
        assert_eq!(c.rom_b(0x4000), bank);
        assert_eq!(c.rom_b(0x7FFF), bank);
    }
    // 128 KiB leave three bits of the register in use.
    c.rom_wb(0x2000, 0x0B);
    assert_eq!(c.rom_b(0x4000), 3);
    c.rom_wb(0x2000, 0x08);
    assert_eq!(c.rom_b(0x4000), 0);
    // The high part selects bank 0x20, which is bank 0 of eight.
    c.rom_wb(0x2000, 0x02);
    c.rom_wb(0x4000, 0x01);
    assert_eq!(c.rom_b(0x4000), (0x22 % 8) as u8);
}

#[test]
fn mbc1_advanced_mode_high_bank() {
    let mut c = cart(0x01, 0x05, 0x00, 64);
    c.rom_wb(0x6000, 0x01);
    c.rom_wb(0x2000, 0x00);
    c.rom_wb(0x4000, 0x01);
    assert_eq!(c.rom_b(0x4000), 0x21);
    assert_eq!(c.rom_b(0x0000), 0x20);
    assert_eq!(c.rom_b(0x3FFF), 0x20);
    // Back in the simple mode the fixed window shows bank 0 again.
    c.rom_wb(0x6000, 0x00);
    assert_eq!(c.rom_b(0x0000), 0x00);
    assert_eq!(c.rom_b(0x4000), 0x21);
}

#[test]
fn mbc1_ram_is_banked_in_advanced_mode_only() {
    let mut c = cart(0x03, 0x02, 0x03, 8);
    assert_eq!(c.ram_b(0xA000), 0xFF);
    c.ram_wb(0xA000, 0x11);
    c.rom_wb(0x0000, 0x0A);
    assert_eq!(c.ram_b(0xA000), 0x00);
    c.ram_wb(0xA000, 0x11);
    assert_eq!(c.ram_b(0xA000), 0x11);
    c.rom_wb(0x4000, 0x02);
    assert_eq!(c.ram_b(0xA000), 0x11);
    c.rom_wb(0x6000, 0x01);
    assert_eq!(c.ram_b(0xA000), 0x00);
    c.ram_wb(0xBFFF, 0x22);
    assert_eq!(c.ram_b(0xBFFF), 0x22);
    c.rom_wb(0x4000, 0x00);
    assert_eq!(c.ram_b(0xA000), 0x11);
    assert_eq!(c.ram_b(0xBFFF), 0x00);
    c.rom_wb(0x0000, 0x1B);
    assert_eq!(c.ram_b(0xA000), 0xFF);
    let save = c.save_save().ok().unwrap();
    assert_eq!(save.len(), 32768);
    assert_eq!(save[0], 0x11);
    assert_eq!(save[2 * 0x2000 + 0x1FFF], 0x22);
}

#[test]
fn mbc1_with_too_much_rom_is_refused() {
    let rom = image(0x01, 0x07, 0x00, 2);
    assert_eq!(
        Cartridge::new(rom).err(),
        Some(CartridgeError::CartridgeInfo(CartridgeInfoError::InvalidRom))
    );
    assert!(Cartridge::new(image(0x19, 0x07, 0x00, 2)).is_ok());
}

#[test]
fn mbc1_ram_without_a_size_is_32k() {
    let c = cart(0x03, 0x00, 0x00, 2);
    assert_eq!(c.save_size(), Some(32768));
    let c = cart(0x01, 0x00, 0x03, 2);
    assert_eq!(c.save_size(), None);
}

#[test]
fn mbc2_registers_and_half_byte_ram() {
    let mut c = cart(0x06, 0x03, 0x00, 16);
    assert_eq!(c.rom_b(0x4000), 1);
    // Bit 8 of the address set: bank select.
    c.rom_wb(0x2100, 0x05);
    assert_eq!(c.rom_b(0x4000), 5);
    c.rom_wb(0x0100, 0x00);
    assert_eq!(c.rom_b(0x4000), 1);
    c.rom_wb(0x0100, 0x1F);
    assert_eq!(c.rom_b(0x4000), 15);
    // Bit 8 clear: RAM enable, and the bank stays.
    c.rom_wb(0x0000, 0x0A);
    assert_eq!(c.rom_b(0x4000), 15);
    // Writes above 0x3FFF reach no register.
    c.rom_wb(0x4100, 0x03);
    assert_eq!(c.rom_b(0x4000), 15);
    c.ram_wb(0xA000, 0xAB);
    assert_eq!(c.ram_b(0xA000), 0xFB);
    // The 512 cells repeat through the window.
    assert_eq!(c.ram_b(0xA200), 0xFB);
    assert_eq!(c.ram_b(0xBE00), 0xFB);
    assert_eq!(c.ram_b(0xA001), 0xF0);
    c.rom_wb(0x0000, 0x00);
    assert_eq!(c.ram_b(0xA000), 0xFF);
    assert_eq!(c.save_size(), Some(512));
    assert_eq!(c.save_save().ok().unwrap()[0], 0x0B);
}

#[test]
fn mbc3_rom_banks_ram_banks_and_clock() {
    let mut c = cart(0x10, 0x04, 0x03, 32);
    assert_eq!(c.rom_b(0x4000), 1);
    c.rom_wb(0x2000, 0x00);
    assert_eq!(c.rom_b(0x4000), 1);
    c.rom_wb(0x2000, 0x1F);
    assert_eq!(c.rom_b(0x4000), 0x1F);
    c.rom_wb(0x2000, 0x9F);
    assert_eq!(c.rom_b(0x4000), 0x1F);
    c.rom_wb(0x2000, 0x25);
    assert_eq!(c.rom_b(0x4000), 0x05);
    assert_eq!(c.rom_b(0x0000), 0);

    // Nothing selected: 0xFF even when enabled.
    c.rom_wb(0x0000, 0x0A);
    assert_eq!(c.ram_b(0xA000), 0xFF);
    c.rom_wb(0x4000, 0x01);
    c.ram_wb(0xA123, 0x77);
    assert_eq!(c.ram_b(0xA123), 0x77);
    c.rom_wb(0x4000, 0x00);
    assert_eq!(c.ram_b(0xA123), 0x00);
    // A clock register reads zero and takes no write.
    c.rom_wb(0x4000, 0x08);
    assert_eq!(c.ram_b(0xA123), 0x00);
    c.ram_wb(0xA123, 0x55);
    c.rom_wb(0x4000, 0x0C);
    assert_eq!(c.ram_b(0xA000), 0x00);
    c.rom_wb(0x4000, 0x0D);
    assert_eq!(c.ram_b(0xA000), 0xFF);
    c.rom_wb(0x4000, 0x04);
    assert_eq!(c.ram_b(0xA000), 0xFF);
    c.rom_wb(0x4000, 0x01);
    assert_eq!(c.ram_b(0xA123), 0x77);
    // The enable looks at the low nibble.
    c.rom_wb(0x0000, 0xFA);
    assert_eq!(c.ram_b(0xA123), 0x77);
    c.rom_wb(0x0000, 0x0B);
    assert_eq!(c.ram_b(0xA123), 0xFF);
    // The latch sequence changes nothing that can be read.
    c.rom_wb(0x6000, 0x00);
    c.rom_wb(0x6000, 0x01);
    assert_eq!(c.rom_b(0x4000), 0x05);
}

#[test]
fn mbc3_without_battery_has_no_clock_registers() {
    let mut c = cart(0x12, 0x01, 0x02, 4);
    c.rom_wb(0x0000, 0x0A);
    c.rom_wb(0x4000, 0x08);
    assert_eq!(c.ram_b(0xA000), 0xFF);
    assert_eq!(c.save_size(), None);
}

#[test]
fn mbc5_nine_bit_rom_bank_and_ram_banks() {
    let mut rom = image(0x1B, 0x08, 0x04, 512);
    for i in 0..512usize {
        rom[i * 0x4000 + 0x1000] = (i >> 8) as u8;
    }
    rom[0x014D] = checksum(&rom);
    let mut c = Cartridge::new(rom).ok().unwrap();
    assert_eq!(c.rom_b(0x4000), 1);
    // Bank 0 can be selected.
    c.rom_wb(0x2000, 0x00);
    assert_eq!(c.rom_b(0x4000), 0);
    c.rom_wb(0x2000, 0x34);
    assert_eq!(c.rom_b(0x4000), 0x34);
    assert_eq!(c.rom_b(0x5000), 0);
    c.rom_wb(0x3000, 0x01);
    assert_eq!(c.rom_b(0x4000), 0x34);
    assert_eq!(c.rom_b(0x5000), 1);
    c.rom_wb(0x3000, 0xFE);
    assert_eq!(c.rom_b(0x5000), 0);

    c.rom_wb(0x0000, 0x0A);
    c.rom_wb(0x4000, 0x0F);
    c.ram_wb(0xA000, 0x99);
    c.rom_wb(0x4000, 0x00);
    assert_eq!(c.ram_b(0xA000), 0x00);
    // A value above 15 is not taken.
    c.rom_wb(0x4000, 0x1F);
    assert_eq!(c.ram_b(0xA000), 0x00);
    c.rom_wb(0x4000, 0x0F);
    assert_eq!(c.ram_b(0xA000), 0x99);
    assert_eq!(c.save_size(), Some(131072));
    assert_eq!(c.save_save().ok().unwrap()[15 * 0x2000], 0x99);
}

#[test]
fn save_round_trip() {
    for cart_type in [0x03u8, 0x06, 0x13, 0x1B] {
        let mut c = cart(cart_type, 0x01, 0x02, 4);
        let size = c.save_size().unwrap();
        let mut save = vec![0u8; size];
        for (i, byte) in save.iter_mut().enumerate() {
            *byte = (i * 7 + 3) as u8;
        }
        assert_eq!(c.load_save(save.clone()), Ok(()));
        assert_eq!(c.save_save().ok().unwrap(), save);
        assert_eq!(c.save_size(), Some(size));
    }
}

#[test]
fn saves_of_the_wrong_size_or_kind_are_refused() {
    let mut c = cart(0x03, 0x01, 0x02, 4);
    assert_eq!(c.load_save(vec![0; 8191]), Err(RamLoadError::TooSmall));
    assert_eq!(c.load_save(vec![0; 8193]), Err(RamLoadError::TooLarge));
    assert_eq!(c.load_save(vec![1; 8192]), Ok(()));
    // A refused save leaves the RAM as it was.
    assert_eq!(c.load_save(vec![2; 8000]), Err(RamLoadError::TooSmall));
    assert_eq!(c.save_save().ok().unwrap(), vec![1; 8192]);

    let mut c = cart(0x02, 0x01, 0x02, 4);
    assert_eq!(c.save_size(), None);
    assert_eq!(c.load_save(vec![0; 8192]), Err(RamLoadError::Incompatible));
    assert_eq!(c.save_save().err(), Some(RamSaveError::Incompatible));
}

#[test]
fn reset_keeps_battery_ram_and_clears_other_ram() {
    let mut c = cart(0x03, 0x01, 0x02, 4);
    c.rom_wb(0x0000, 0x0A);
    c.rom_wb(0x2000, 0x03);
    c.ram_wb(0xA010, 0x42);
    c.reset();
    assert_eq!(c.rom_b(0x4000), 1);
    assert_eq!(c.ram_b(0xA010), 0xFF);
    c.rom_wb(0x0000, 0x0A);
    assert_eq!(c.ram_b(0xA010), 0x42);

    let mut c = cart(0x02, 0x01, 0x02, 4);
    c.rom_wb(0x0000, 0x0A);
    c.ram_wb(0xA010, 0x42);
    c.reset();
    c.rom_wb(0x0000, 0x0A);
    assert_eq!(c.ram_b(0xA010), 0x00);
}

#[test]
fn boot_rom_size_and_reads() {
    assert_eq!(Bios::new(vec![0; 257]).err(), Some(BiosError::BiosSize));
    let bios = Bios::new(vec![0x31, 0xFE, 0xFF]).ok().unwrap();
    assert_eq!(bios.b(0x0000), 0x31);
    assert_eq!(bios.b(0x0002), 0xFF);
    assert_eq!(bios.b(0x0003), 0xFF);
    assert_eq!(bios.b(0x00FF), 0xFF);
    assert!(Bios::new(vec![7; 256]).is_ok());
    assert_eq!(Bios::new(vec![7; 256]).ok().unwrap().b(0x00FF), 7);
}

/// The image of a cheat device: its own bytes read 0xEE.
fn genie_image() -> Vec<u8> {
    let mut rom = vec![0xEEu8; 0x4000];
    for byte in rom.iter_mut().take(0x0150).skip(0x0134) {
        *byte = 0;
    }
    rom[0x0148] = 0x00;
    rom
}

#[test]
fn cheat_device_takes_over_at_the_entry_point_and_patches_reads() {
    let game = image(0x00, 0x00, 0x00, 2);
    let mut c = Cartridge::new_genie(game, genie_image()).ok().unwrap();
    // At power-on reads pass through to the cartridge.
    assert_eq!(c.rom_b(0x4000), 1);
    assert_eq!(c.rom_b(0x0000), 0);
    // A read of the entry point hands control to the device.
    assert_eq!(c.rom_b(0x0100), 0xEE);
    assert_eq!(c.rom_b(0x0200), 0xEE);
    // The image was filled up to the 32 KiB of its header.
    assert_eq!(c.rom_b(0x5000), 0x00);
    assert_eq!(c.ram_b(0xA000), 0xFF);
    assert_eq!(c.rom_b(0x4000), 0x00);
    assert_eq!(c.rom_b(0x4001), 0x00);

    // Slot 0: replace the byte at 0x4123 with 0x99, no compare.
    c.rom_wb(0x4003, 0x99);
    c.rom_wb(0x4004, 0x23);
    c.rom_wb(0x4005, 0x41);
    c.rom_wb(0x4006, 0xBA);
    c.rom_wb(0x4007, 0x00);
    // Slot 1: replace the byte at 0x0005 with 0x77 if it is 0x00.
    c.rom_wb(0x4008, 0x77);
    c.rom_wb(0x4009, 0x05);
    c.rom_wb(0x400A, 0x00);
    c.rom_wb(0x400B, 0x00);
    // Slot 2: replace the byte at 0x4200 with 0x55 if it is 0x33.
    c.rom_wb(0x400D, 0x55);
    c.rom_wb(0x400E, 0x00);
    c.rom_wb(0x400F, 0x42);
    c.rom_wb(0x4010, 0x33);
    assert_eq!(c.rom_b(0x4003), 0x99);
    assert_eq!(c.rom_b(0x4010), 0x33);
    c.rom_wb(0x4001, 0b111);
    assert_eq!(c.rom_b(0x4001), 0b111);
    // Pass through again, locked.
    c.rom_wb(0x4000, 0b101);
    assert_eq!(c.rom_b(0x4123), 0x99);
    assert_eq!(c.rom_b(0x4124), 1);
    assert_eq!(c.rom_b(0x0005), 0x77);
    assert_eq!(c.rom_b(0x4200), 1);
    assert_eq!(c.ram_b(0xA000), 0x00);
    // Locked, the device does not take over at the entry point.
    assert_eq!(c.rom_b(0x0100), 0);
    assert_eq!(c.rom_b(0x4123), 0x99);
    // The header checksum is that of the cartridge.
    assert!(c.header_checksum());
}

#[test]
fn cheat_device_slot_must_be_enabled() {
    let game = image(0x00, 0x00, 0x00, 2);
    let mut c = Cartridge::new_genie(game, genie_image()).ok().unwrap();
    c.rom_b(0x0100);
    c.rom_wb(0x4003, 0x99);
    c.rom_wb(0x4004, 0x23);
    c.rom_wb(0x4005, 0x41);
    c.rom_wb(0x4006, 0xBA);
    c.rom_wb(0x4001, 0b110);
    c.rom_wb(0x4000, 0b001);
    assert_eq!(c.rom_b(0x4123), 1);
}

#[test]
fn cheat_device_with_a_refused_image() {
    let game = image(0x00, 0x00, 0x00, 2);
    assert_eq!(
        Cartridge::new_genie(game.clone(), vec![0; 16]).err(),
        Some(CartridgeError::CartridgeInfo(CartridgeInfoError::InvalidCartridgeSize))
    );
    let mut bad_game = game.clone();
    bad_game[0x0149] = 0x07;
    let mut bad_genie = genie_image();
    bad_genie[0x0148] = 0x10;
    // The cartridge's image is looked at first.
    assert_eq!(
        Cartridge::new_genie(bad_game, bad_genie).err(),
        Some(CartridgeError::CartridgeInfo(CartridgeInfoError::InvalidRam))
    );
}
