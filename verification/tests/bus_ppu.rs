use gb_core::hardware_registers::HardwareRegisters;
use gb_core::memory::MemoryBus;
use gb_core::memory::MemoryRegion;
use gb_core::ppu::sprite::Sprite;
use gb_core::ppu::ColorIdx;
use gb_core::ppu::DrawColor;
use gb_core::ppu::PPUMode;
use gb_core::ppu::PPU;

#[test]
fn test_memory_region_table() {
    assert_eq!(MemoryRegion::from_addr(0x0050, true), MemoryRegion::BootROM);
    assert_eq!(MemoryRegion::from_addr(0x0050, false), MemoryRegion::GameROMBank0);
    assert_eq!(MemoryRegion::from_addr(0x4000, false), MemoryRegion::GameROMBankN);
    assert_eq!(MemoryRegion::from_addr(0x8000, false), MemoryRegion::TileRAM);
    assert_eq!(MemoryRegion::from_addr(0x9800, false), MemoryRegion::BackgroundMap);
    assert_eq!(MemoryRegion::from_addr(0xA000, false), MemoryRegion::CartridgeRAM);
    assert_eq!(MemoryRegion::from_addr(0xC000, false), MemoryRegion::WorkingRAM);
    assert_eq!(MemoryRegion::from_addr(0xE000, false), MemoryRegion::EchoRAM);
    assert_eq!(MemoryRegion::from_addr(0xFE00, false), MemoryRegion::OAM);
    assert_eq!(MemoryRegion::from_addr(0xFEA0, false), MemoryRegion::Unused);
    assert_eq!(MemoryRegion::from_addr(0xFF00, false), MemoryRegion::IO);
    assert_eq!(MemoryRegion::from_addr(0xFF80, false), MemoryRegion::HighRAM);
    assert_eq!(
        MemoryRegion::from_addr(0xFFFF, false),
        MemoryRegion::InterruptEnabledRegister
    );
}

#[test]
fn test_boot_rom_aliasing() {
    let mut bus = MemoryBus::new_and_empty();
    let mut boot = vec![0u8; 0x100];
    boot[0x50] = 0xAA;
    bus.load_boot_rom(&boot);
    let mut rom = vec![0u8; 0x8000];
    rom[0x50] = 0xBB;
    bus.load_cartridge(rom).unwrap();
    // while the boot-lock register's bit 0 is clear, the boot ROM answers
    assert_eq!(bus.read_byte(0x0050), 0xAA);
    bus.set_done_booting();
    // once set, the same address reads cartridge ROM bank 0
    assert_eq!(bus.read_byte(0x0050), 0xBB);
    bus.reset();
    assert_eq!(bus.read_byte(0x0050), 0xAA);
}

#[test]
fn test_boot_rom_writes_ignored() {
    let mut bus = MemoryBus::new_and_empty();
    bus.write_byte(0x0050, 0x12);
    assert_eq!(bus.read_byte(0x0050), 0x00);
}

#[test]
fn test_working_and_high_ram() {
    let mut bus = MemoryBus::new_and_empty();
    bus.write_byte(0xC123, 0x5A);
    assert_eq!(bus.read_byte(0xC123), 0x5A);
    bus.write_byte(0xFF85, 0xA5);
    assert_eq!(bus.read_byte(0xFF85), 0xA5);
    assert_eq!(bus.read_word(0xC122), 0x5A00);
}

#[test]
fn test_hardware_register_dispatch() {
    let mut bus = MemoryBus::new_and_empty();
    bus.write_byte(0xFF40, 0x91);
    assert_eq!(bus.read_byte(0xFF40), 0x91);
    bus.write_byte(0xFF42, 0x13);
    assert_eq!(bus.read_byte(0xFF42), 0x13);
    assert_eq!(bus.registers.SCY, 0x13);
    bus.write_byte(0xFF43, 0x37);
    assert_eq!(bus.registers.SCX, 0x37);
    // LY is read-only: the write is dropped
    bus.write_byte(0xFF44, 0x20);
    assert_eq!(bus.read_byte(0xFF44), 0x00);
    // the interrupt-enable register models five sources (low five bits)
    bus.write_byte(0xFFFF, 0xFF);
    assert_eq!(bus.read_byte(0xFFFF), 0x1F);
    // unrecognized I/O addresses fall back to the flat array
    bus.write_byte(0xFF47, 0xE4);
    assert_eq!(bus.read_byte(0xFF47), 0xE4);
}

#[test]
fn test_stat_write_keeps_status_bits() {
    let mut bus = MemoryBus::new_and_empty();
    bus.write_byte(0xFF41, 0xFF);
    // only the four interrupt-select bits are writable
    assert_eq!(bus.read_byte(0xFF41), 0x78);
}

#[test]
fn test_oam_through_bus() {
    let mut bus = MemoryBus::new_and_empty();
    bus.write_byte(0xFE00, 0x10); // entry 0, Y
    bus.write_byte(0xFE01, 0x20); // entry 0, X
    bus.write_byte(0xFE02, 0x33); // entry 0, tile index
    bus.write_byte(0xFE03, 0xF7); // entry 0, flags: low nibble reads as zero
    assert_eq!(bus.read_byte(0xFE00), 0x10);
    assert_eq!(bus.read_byte(0xFE01), 0x20);
    assert_eq!(bus.read_byte(0xFE02), 0x33);
    assert_eq!(bus.read_byte(0xFE03), 0xF0);
    assert!(bus.ppu.oam_entries[0].priority);
    assert!(bus.ppu.oam_entries[0].y_flip);
    assert!(bus.ppu.oam_entries[0].x_flip);
    assert_eq!(bus.ppu.oam_entries[0].palette, 1);
}

#[test]
fn test_vram_and_tile_map_through_bus() {
    let mut bus = MemoryBus::new_and_empty();
    bus.write_byte(0x8000, 0xFF);
    assert_eq!(bus.read_byte(0x8000), 0xFF);
    bus.write_byte(0x9800, 0x07);
    assert_eq!(bus.read_byte(0x9800), 0x07);
    bus.write_byte(0x9C00, 0x09);
    assert_eq!(bus.read_byte(0x9C00), 0x09);
    assert_eq!(bus.ppu.tile_map_lower[0], 0x07);
    assert_eq!(bus.ppu.tile_map_upper[0], 0x09);
}

#[test]
fn test_wrapping_inc_byte() {
    let mut bus = MemoryBus::new_and_empty();
    bus.write_byte(0xC000, 152);
    assert_eq!(bus.wrapping_inc_byte(0xC000, 153), 153);
    assert_eq!(bus.wrapping_inc_byte(0xC000, 153), 0);
}

#[test]
fn test_sprite_pixel_decoding() {
    // row 0: low plane 0b0011_0101, high plane 0b0000_1111
    let mut raw = vec![0u8; 16];
    raw[0] = 0b0011_0101;
    raw[1] = 0b0000_1111;
    let sprite = Sprite::new(raw);
    assert_eq!(sprite.pixel_at(0, 0), ColorIdx::Zero);
    assert_eq!(sprite.pixel_at(2, 0), ColorIdx::One);
    assert_eq!(sprite.pixel_at(4, 0), ColorIdx::Two);
    assert_eq!(sprite.pixel_at(5, 0), ColorIdx::Three);
    assert_eq!(sprite.pixel_at(7, 0), ColorIdx::Three);
}

#[test]
fn test_ppu_mode_sequencing() {
    let mut ppu = PPU::new();
    let mut regs = HardwareRegisters::from_zeros();
    // scanline 0 is visible: OAM scan for dots up to 80, then drawing
    // pixels up to 289, then horizontal blank until the 456-dot wrap
    for _ in 0..80 {
        ppu.step(&mut regs);
        assert_eq!(ppu.mode, PPUMode::Mode2OAMScan, "dot {}", ppu.lx);
    }
    for _ in 80..289 {
        ppu.step(&mut regs);
        assert_eq!(ppu.mode, PPUMode::Mode3DrawingPixels, "dot {}", ppu.lx);
    }
    for _ in 289..456 {
        ppu.step(&mut regs);
        assert_eq!(ppu.mode, PPUMode::Mode0HorizontalBlank, "dot {}", ppu.lx);
    }
    assert_eq!(ppu.lx, 456);
    assert_eq!(regs.LY, 0);
    // the next dot wraps to the following scanline
    let crossed = ppu.step(&mut regs);
    assert!(crossed);
    assert_eq!(ppu.lx, 0);
    assert_eq!(regs.LY, 1);
    assert_eq!(ppu.mode, PPUMode::Mode2OAMScan);
    assert_eq!(regs.STAT.ppu_mode, 2);
}

#[test]
fn test_ppu_vertical_blank() {
    let mut ppu = PPU::new();
    let mut regs = HardwareRegisters::from_zeros();
    regs.LY = 144;
    ppu.step(&mut regs);
    assert_eq!(ppu.mode, PPUMode::Mode1VerticalBlank);
    // LY wraps back to scanline 0 after scanline 153
    regs.LY = 153;
    ppu.lx = 456;
    ppu.step(&mut regs);
    assert_eq!(regs.LY, 0);
}

#[test]
fn test_render_line_shades() {
    let mut ppu = PPU::new();
    // tile 1: every pixel colour index 3 (both planes all ones)
    for i in 0..16 {
        ppu.write_vram(0x8010 + i, 0xFF);
    }
    // the first tile map cell of the lower map names tile 1
    ppu.write_tile_map(0x9800, 1);
    ppu.render_line(0, 0, 0, false);
    let buffer = ppu.get_screen_buffer();
    // the first eight pixels come from tile 1 and resolve to black
    assert_eq!(buffer[0], DrawColor::BLACK);
    assert_eq!(buffer[7], DrawColor::BLACK);
    // the ninth pixel comes from tile 0, colour index 0, the lightest shade
    assert_eq!(buffer[8], DrawColor::WHITE);
}
