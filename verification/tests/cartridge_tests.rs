use gb_core::cartridge::basic::BasicCartridge;
use gb_core::cartridge::create_cartridge;
use gb_core::cartridge::get_ram_banks;
use gb_core::cartridge::get_rom_banks;
use gb_core::cartridge::mbc1::MBC1Cartridge;
use gb_core::cartridge::mbc3::MBC3Cartridge;
use gb_core::cartridge::CartridgeController;
use gb_core::cartridge::CartridgeError;
use gb_core::cartridge::CartridgeType;

/// A blank image with the given controller-type, ROM-size and RAM-size
/// header codes.
fn image(type_code: u8, rom_code: u8, ram_code: u8, len: usize) -> Vec<u8> {
    let mut rom = vec![0u8; len];
    rom[0x147] = type_code;
    rom[0x148] = rom_code;
    rom[0x149] = ram_code;
    rom
}

#[test]
fn test_header_too_short() {
    assert_eq!(create_cartridge(vec![0u8; 0x100]).err(), Some(CartridgeError::TooShort));
}

#[test]
fn test_header_unknown_type() {
    let rom = image(0xEE, 0, 0, 0x8000);
    assert_eq!(create_cartridge(rom).err(), Some(CartridgeError::UnknownCartridgeType));
}

#[test]
fn test_header_unknown_rom_size() {
    let rom = image(0x00, 0x42, 0, 0x8000);
    assert_eq!(create_cartridge(rom).err(), Some(CartridgeError::UnknownRomSize));
}

#[test]
fn test_header_unknown_ram_size() {
    let rom = image(0x00, 0, 1, 0x8000);
    assert_eq!(create_cartridge(rom).err(), Some(CartridgeError::UnknownRamSize));
}

#[test]
fn test_header_rom_size_mismatch() {
    let rom = image(0x00, 1, 0, 0x8000);
    assert_eq!(create_cartridge(rom).err(), Some(CartridgeError::RomSizeMismatch));
}

#[test]
fn test_header_unsupported_type() {
    let rom = image(0x05, 0, 0, 0x8000);
    assert_eq!(create_cartridge(rom).err(), Some(CartridgeError::UnsupportedCartridgeType));
}

#[test]
fn test_create_basic_cartridge() {
    let mut rom = image(0x00, 0, 0, 0x8000);
    rom[0x42] = 0xAB;
    let cart = create_cartridge(rom).unwrap();
    match &cart {
        CartridgeController::Basic(_) => {},
        other => panic!("wrong controller kind: {:?}", other),
    }
    assert_eq!(cart.read_byte(0x42), 0xAB);
}

#[test]
fn test_create_mbc1_cartridge() {
    let rom = image(0x01, 1, 2, 0x10000);
    match create_cartridge(rom).unwrap() {
        CartridgeController::MBC1(m) => {
            assert_eq!(m.rom_banks, 4);
            assert_eq!(m.ram_banks, 1);
        },
        other => panic!("wrong controller kind: {:?}", other),
    }
}

#[test]
fn test_create_mbc3_cartridge() {
    let rom = image(0x13, 0, 3, 0x8000);
    match create_cartridge(rom).unwrap() {
        CartridgeController::MBC3(m) => {
            assert_eq!(m.rom_banks, 2);
            assert!(m.has_battery);
            assert!(m.ram.is_some());
        },
        other => panic!("wrong controller kind: {:?}", other),
    }
}

#[test]
fn test_cartridge_type_tables() {
    assert_eq!(CartridgeType::from_code(0x00), Some(CartridgeType::ROMOnly));
    assert_eq!(CartridgeType::from_code(0x13), Some(CartridgeType::MBC3RamBat));
    assert_eq!(CartridgeType::from_code(0x04), None);
    assert!(CartridgeType::MBC3RamBat.has_battery());
    assert!(CartridgeType::MBC3RamBat.has_ram());
    assert!(!CartridgeType::MBC1.has_ram());
    assert_eq!(get_rom_banks(0), Some(2));
    assert_eq!(get_rom_banks(8), Some(512));
    assert_eq!(get_rom_banks(9), None);
    assert_eq!(get_ram_banks(3), Some(4));
    assert_eq!(get_ram_banks(1), None);
}

#[test]
fn test_basic_cartridge_ignores_writes() {
    let mut cart = BasicCartridge::new();
    cart.write_byte(0x1000, 0x77);
    assert_eq!(cart.read_byte(0x1000), 0x00);
    assert_eq!(cart.read_byte(0xA000), 0xFF);
}

#[test]
fn test_mbc1_bank_zero_selects_one() {
    // four 16 KiB banks, the first byte of each marked with its number
    let mut rom = vec![0u8; 4 * 0x4000];
    for bank in 0..4 {
        rom[bank * 0x4000] = bank as u8 + 0x10;
    }
    let mut cart = MBC1Cartridge::new(rom, 0, 4);
    // a ROM-bank-select write of 0 must select bank 1, never bank 0
    cart.write_byte(0x2000, 0);
    assert_eq!(cart.read_byte(0x4000), 0x11);
    cart.write_byte(0x2000, 2);
    assert_eq!(cart.read_byte(0x4000), 0x12);
    // bank 0 stays reachable through the fixed window
    assert_eq!(cart.read_byte(0x0000), 0x10);
}

#[test]
fn test_mbc1_ram_enable_gate() {
    let rom = vec![0u8; 2 * 0x4000];
    let mut cart = MBC1Cartridge::new(rom, 1, 2);
    // disabled: reads are 0xFF and writes are dropped
    assert_eq!(cart.read_byte(0xA000), 0xFF);
    cart.write_byte(0xA000, 0x55);
    cart.write_byte(0x0000, 0x0A);
    assert_eq!(cart.read_byte(0xA000), 0x00);
    cart.write_byte(0xA000, 0x55);
    assert_eq!(cart.read_byte(0xA000), 0x55);
    // any other low nibble disables RAM again
    cart.write_byte(0x0000, 0x03);
    assert_eq!(cart.read_byte(0xA000), 0xFF);
}

#[test]
fn test_mbc3_rtc_wraparound() {
    let mut cart = MBC3Cartridge::new(vec![0u8; 2 * 0x4000], None, false);
    cart.write_byte(0x0000, 0x0A); // enable RAM and timer access
    // seconds: writing 65 yields 5 (65 mod 60)
    cart.write_byte(0x4000, 0x08);
    cart.write_byte(0xA000, 65);
    assert_eq!(cart.read_byte(0xA000), 5);
    // hours: writing 25 yields 1 (25 mod 24)
    cart.write_byte(0x4000, 0x0A);
    cart.write_byte(0xA000, 25);
    assert_eq!(cart.read_byte(0xA000), 1);
    // minutes wrap modulo 60 as well
    cart.write_byte(0x4000, 0x09);
    cart.write_byte(0xA000, 120);
    assert_eq!(cart.read_byte(0xA000), 0);
}

#[test]
fn test_mbc3_rtc_enable_gate() {
    let mut cart = MBC3Cartridge::new(vec![0u8; 2 * 0x4000], None, false);
    cart.write_byte(0x4000, 0x08);
    // without the enable write the RTC write is dropped and reads are 0xFF
    cart.write_byte(0xA000, 30);
    assert_eq!(cart.read_byte(0xA000), 0xFF);
    cart.write_byte(0x0000, 0x0A);
    assert_eq!(cart.read_byte(0xA000), 0);
}

#[test]
fn test_mbc3_rom_bank_wraps_modulo_bank_count() {
    let mut rom = vec![0u8; 2 * 0x4000];
    rom[0x0000] = 0xB0;
    rom[0x4000] = 0xB1;
    let mut cart = MBC3Cartridge::new(rom, None, false);
    // bank 3 wraps modulo 2 to bank 1
    cart.write_byte(0x2000, 3);
    assert_eq!(cart.read_byte(0x4000), 0xB1);
    // bank 2 wraps modulo 2 to bank 0
    cart.write_byte(0x2000, 2);
    assert_eq!(cart.read_byte(0x4000), 0xB0);
}

#[test]
fn test_mbc3_latch_flip_flop() {
    let mut cart = MBC3Cartridge::new(vec![0u8; 2 * 0x4000], None, false);
    assert!(!cart.registers.clock_latched);
    cart.write_byte(0x6000, 0);
    cart.write_byte(0x6000, 1);
    assert!(cart.registers.clock_latched);
    cart.write_byte(0x6000, 1);
    assert!(cart.registers.clock_latched);
    cart.write_byte(0x6000, 0);
    cart.write_byte(0x6000, 1);
    assert!(!cart.registers.clock_latched);
}
