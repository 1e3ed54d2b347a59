//! The memory bus: the address-range dispatcher that routes every read and
//! write to its owner — boot ROM while the boot-lock register is clear, the
//! cartridge controller, the PPU's video memory, the typed hardware
//! registers, or the flat byte array for the remaining regions.

use vstd::prelude::*;

use crate::buffer::bytes_with_prefix;
use crate::buffer::zeroed_bytes;
use crate::cartridge::basic::BasicCartridge;
use crate::cartridge::create_cartridge;
use crate::cartridge::spec_header_error;
use crate::cartridge::spec_matches_header;
use crate::cartridge::CartridgeController;
use crate::cartridge::CartridgeError;
use crate::hardware_registers::HardwareRegisters;
use crate::hardware_registers::RegisterAddresses;
use crate::hardware_registers::IE;
use crate::hardware_registers::LCDC;
use crate::hardware_registers::STAT;
use crate::ppu::PPUMode;
use crate::ppu::PPU;
use crate::registers::word_from_bytes;

verus! {

/// The boot-lock register: once its low bit is set, the boot ROM is hidden
/// for the rest of the session.
pub const BOOT_ROM_LOCK_REGISTER: u16 = 0xFF50;

/// The regions of the 16-bit address space. Every address maps to exactly
/// one region; the boot-ROM region exists only while the boot lock is
/// clear, after which the same addresses alias into cartridge ROM bank 0.
#[derive(Clone, Copy, Debug, PartialEq, Eq, Structural)]
pub enum MemoryRegion {
    BootROM,
    GameROMBank0,
    GameROMBankN,
    TileRAM,
    BackgroundMap,
    CartridgeRAM,
    WorkingRAM,
    EchoRAM,
    OAM,
    Unused,
    IO,
    HighRAM,
    InterruptEnabledRegister,
}

pub open spec fn spec_region(addr: u16, is_booting: bool) -> MemoryRegion {
    if addr <= 0x00FF && is_booting {
        MemoryRegion::BootROM
    } else if addr <= 0x3FFF {
        MemoryRegion::GameROMBank0
    } else if addr <= 0x7FFF {
        MemoryRegion::GameROMBankN
    } else if addr <= 0x97FF {
        MemoryRegion::TileRAM
    } else if addr <= 0x9FFF {
        MemoryRegion::BackgroundMap
    } else if addr <= 0xBFFF {
        MemoryRegion::CartridgeRAM
    } else if addr <= 0xDFFF {
        MemoryRegion::WorkingRAM
    } else if addr <= 0xFDFF {
        MemoryRegion::EchoRAM
    } else if addr <= 0xFE9F {
        MemoryRegion::OAM
    } else if addr <= 0xFEFF {
        MemoryRegion::Unused
    } else if addr <= 0xFF7F {
        MemoryRegion::IO
    } else if addr <= 0xFFFE {
        MemoryRegion::HighRAM
    } else {
        MemoryRegion::InterruptEnabledRegister
    }
}

impl MemoryRegion {
    pub fn from_addr(addr: u16, is_booting: bool) -> (r: MemoryRegion)
        ensures
            r == spec_region(addr, is_booting),
    {
        if addr <= 0x00FF && is_booting {
            MemoryRegion::BootROM
        } else if addr <= 0x3FFF {
            MemoryRegion::GameROMBank0
        } else if addr <= 0x7FFF {
            MemoryRegion::GameROMBankN
        } else if addr <= 0x97FF {
            MemoryRegion::TileRAM
        } else if addr <= 0x9FFF {
            MemoryRegion::BackgroundMap
        } else if addr <= 0xBFFF {
            MemoryRegion::CartridgeRAM
        } else if addr <= 0xDFFF {
            MemoryRegion::WorkingRAM
        } else if addr <= 0xFDFF {
            MemoryRegion::EchoRAM
        } else if addr <= 0xFE9F {
            MemoryRegion::OAM
        } else if addr <= 0xFEFF {
            MemoryRegion::Unused
        } else if addr <= 0xFF7F {
            MemoryRegion::IO
        } else if addr <= 0xFFFE {
            MemoryRegion::HighRAM
        } else {
            MemoryRegion::InterruptEnabledRegister
        }
    }
}

/// Addresses whose reads and writes go straight to the flat byte array:
/// working RAM, echo RAM, the unused strip, and high RAM. A write here is
/// read back verbatim; everything else on the bus is untouched by it.
pub open spec fn flat_writable(address: u16) -> bool {
    (0xC000 <= address && address < 0xFE00)
    || (0xFEA0 <= address && address < 0xFF00)
    || (0xFF80 <= address && address < 0xFFFF)
}

/// The hardware-register bank after a write dispatched to a typed register.
/// LY is a read-only status register, so a write to it is dropped.
pub open spec fn spec_write_register(regs: HardwareRegisters, r: RegisterAddresses, val: u8) -> HardwareRegisters {
    match r {
        RegisterAddresses::LCDC => HardwareRegisters { LCDC: LCDC::spec_from_byte(val), ..regs },
        RegisterAddresses::STAT => HardwareRegisters {
            STAT: STAT {
                lyc_int_select: (val & 0x40) > 0,
                mode_2_int_select: (val & 0x20) > 0,
                mode_1_int_select: (val & 0x10) > 0,
                mode_0_int_select: (val & 0x08) > 0,
                ..regs.STAT
            },
            ..regs
        },
        RegisterAddresses::SCY => HardwareRegisters { SCY: val, ..regs },
        RegisterAddresses::SCX => HardwareRegisters { SCX: val, ..regs },
        RegisterAddresses::LY => regs,
        RegisterAddresses::WY => HardwareRegisters { WY: val, ..regs },
        RegisterAddresses::WX => HardwareRegisters { WX: val, ..regs },
        RegisterAddresses::IE => HardwareRegisters { IE: IE::spec_from_byte(val), ..regs },
    }
}

#[derive(Debug)]
pub struct MemoryBus {
    /// The 256-byte boot ROM, readable only while the boot lock is clear.
    pub boot_rom: Vec<u8>,
    /// The flat byte array backing regions without a dedicated owner.
    pub memory: Vec<u8>,
    /// The typed hardware registers.
    pub registers: HardwareRegisters,
    /// The cartridge controller owning the ROM and external-RAM windows.
    pub cartridge: CartridgeController,
    /// The PPU, owner of the video memory.
    pub ppu: PPU,
}

/// How one bus write relates the state before and after: the region of the
/// address decides the owner, writes into the boot-ROM region are ignored,
/// and everything outside the written component is unchanged.
pub open spec fn bus_write_rel(pre: MemoryBus, post: MemoryBus, address: u16, val: u8) -> bool {
    &&& post.boot_rom@ == pre.boot_rom@
    &&& if address <= 0xFF && pre.spec_booting() {
        &&& post.memory@ == pre.memory@
        &&& post.registers == pre.registers
        &&& CartridgeController::state_eq(pre.cartridge, post.cartridge)
        &&& PPU::state_eq(pre.ppu, post.ppu)
    } else if address < 0x8000 || (0xA000 <= address && address < 0xC000) {
        &&& CartridgeController::write_rel(pre.cartridge, post.cartridge, address, val)
        &&& post.memory@ == pre.memory@
        &&& post.registers == pre.registers
        &&& PPU::state_eq(pre.ppu, post.ppu)
    } else if address < 0x9800 {
        &&& PPU::vram_write_rel(pre.ppu, post.ppu, address, val)
        &&& post.memory@ == pre.memory@
        &&& post.registers == pre.registers
        &&& CartridgeController::state_eq(pre.cartridge, post.cartridge)
    } else if address < 0xA000 {
        &&& PPU::tile_map_write_rel(pre.ppu, post.ppu, address, val)
        &&& post.memory@ == pre.memory@
        &&& post.registers == pre.registers
        &&& CartridgeController::state_eq(pre.cartridge, post.cartridge)
    } else if address < 0xFE00 {
        &&& post.memory@ == pre.memory@.update(address as int, val)
        &&& post.registers == pre.registers
        &&& CartridgeController::state_eq(pre.cartridge, post.cartridge)
        &&& PPU::state_eq(pre.ppu, post.ppu)
    } else if address < 0xFEA0 {
        &&& PPU::oam_write_rel(pre.ppu, post.ppu, address, val)
        &&& post.memory@ == pre.memory@
        &&& post.registers == pre.registers
        &&& CartridgeController::state_eq(pre.cartridge, post.cartridge)
    } else if address < 0xFF00 {
        &&& post.memory@ == pre.memory@.update(address as int, val)
        &&& post.registers == pre.registers
        &&& CartridgeController::state_eq(pre.cartridge, post.cartridge)
        &&& PPU::state_eq(pre.ppu, post.ppu)
    } else if address < 0xFF80 {
        &&& match RegisterAddresses::spec_from_address(address) {
            Some(r) => {
                &&& post.registers == spec_write_register(pre.registers, r, val)
                &&& post.memory@ == pre.memory@
            },
            None => {
                &&& post.memory@ == pre.memory@.update(address as int, val)
                &&& post.registers == pre.registers
            },
        }
        &&& CartridgeController::state_eq(pre.cartridge, post.cartridge)
        &&& PPU::state_eq(pre.ppu, post.ppu)
    } else if address < 0xFFFF {
        &&& post.memory@ == pre.memory@.update(address as int, val)
        &&& post.registers == pre.registers
        &&& CartridgeController::state_eq(pre.cartridge, post.cartridge)
        &&& PPU::state_eq(pre.ppu, post.ppu)
    } else {
        &&& post.registers == (HardwareRegisters { IE: IE::spec_from_byte(val), ..pre.registers })
        &&& post.memory@ == pre.memory@
        &&& CartridgeController::state_eq(pre.cartridge, post.cartridge)
        &&& PPU::state_eq(pre.ppu, post.ppu)
    }
}

/// How one PPU dot relates two bus states: everything but the PPU and the
/// scanline/STAT registers is untouched; the dot counter advances or wraps
/// into the next scanline; the mode is recomputed and reported into STAT;
/// and a boundary crossed into a visible scanline renders that row.
pub open spec fn ppu_step_rel(pre: MemoryBus, post: MemoryBus, crossed: bool) -> bool {
    &&& post.boot_rom@ == pre.boot_rom@
    &&& post.memory@ == pre.memory@
    &&& CartridgeController::state_eq(pre.cartridge, post.cartridge)
    &&& crossed == (pre.ppu.lx >= crate::ppu::DOTS_PER_LINE)
    &&& (crossed ==> post.ppu.lx == 0 && post.registers.LY == (
        if pre.registers.LY >= 153 { 0u8 } else { (pre.registers.LY + 1) as u8 }
    ))
    &&& (!crossed ==> post.ppu.lx == pre.ppu.lx + 1 && post.registers.LY == pre.registers.LY)
    &&& post.ppu.mode == crate::ppu::spec_mode_for(post.registers.LY, post.ppu.lx as int)
    &&& post.registers == (HardwareRegisters {
        LY: post.registers.LY,
        STAT: STAT {
            ppu_mode: crate::ppu::spec_mode_code(post.ppu.mode),
            ..pre.registers.STAT
        },
        ..pre.registers
    })
    &&& PPU::video_memory_unchanged(pre.ppu, post.ppu)
    &&& (crossed && post.registers.LY < 144 ==> PPU::row_rendered(
        pre.ppu,
        post.ppu,
        post.registers.LY,
        pre.registers.SCX,
        pre.registers.SCY,
        pre.registers.LCDC.bg_tile_map_display_selct,
    ))
    &&& (!(crossed && post.registers.LY < 144) ==> post.ppu.screen_buffer@ == pre.ppu.screen_buffer@)
}

impl MemoryBus {
    pub open spec fn wf(self) -> bool {
        &&& self.boot_rom@.len() == 0x100
        &&& self.memory@.len() == 0x10000
        &&& self.registers.wf()
        &&& self.cartridge.wf()
        &&& self.ppu.wf()
    }

    /// Whether the boot ROM is still visible: the boot-lock register's low
    /// bit is clear.
    pub open spec fn spec_booting(self) -> bool {
        self.memory@[BOOT_ROM_LOCK_REGISTER as int] & 1 == 0
    }

    pub open spec fn spec_read_register(self, r: RegisterAddresses) -> u8 {
        match r {
            RegisterAddresses::LCDC => self.registers.LCDC.spec_to_byte(),
            RegisterAddresses::STAT => self.registers.STAT.spec_to_byte(),
            RegisterAddresses::SCY => self.registers.SCY,
            RegisterAddresses::SCX => self.registers.SCX,
            RegisterAddresses::LY => self.registers.LY,
            RegisterAddresses::WY => self.registers.WY,
            RegisterAddresses::WX => self.registers.WX,
            RegisterAddresses::IE => self.registers.IE.spec_to_byte(),
        }
    }

    /// The byte a read returns, as a function of the address and the state.
    pub open spec fn spec_read(self, address: u16) -> u8 {
        if address <= 0xFF && self.spec_booting() {
            self.boot_rom@[address as int]
        } else if address < 0x8000 {
            self.cartridge.spec_read(address)
        } else if address < 0x9800 {
            self.ppu.spec_read_vram(address)
        } else if address < 0xA000 {
            self.ppu.spec_read_tile_map(address)
        } else if address < 0xC000 {
            self.cartridge.spec_read(address)
        } else if address < 0xFE00 {
            self.memory@[address as int]
        } else if address < 0xFEA0 {
            self.ppu.spec_read_oam(address)
        } else if address < 0xFF00 {
            self.memory@[address as int]
        } else if address < 0xFF80 {
            match RegisterAddresses::spec_from_address(address) {
                Some(r) => self.spec_read_register(r),
                None => self.memory@[address as int],
            }
        } else if address < 0xFFFF {
            self.memory@[address as int]
        } else {
            self.registers.IE.spec_to_byte()
        }
    }

    pub fn new_and_empty() -> (r: MemoryBus)
        ensures
            r.wf(),
            r.spec_booting(),
            forall|i: int| 0 <= i < 0x100 ==> r.boot_rom@[i] == 0u8,
            forall|i: int| 0 <= i < 0x10000 ==> r.memory@[i] == 0u8,
            r.registers == HardwareRegisters::spec_zeroed(),
            r.cartridge matches CartridgeController::Basic(b)
                && forall|i: int| 0 <= i < 0x8000 ==> b.data@[i] == 0u8,
            r.ppu.lx == 0,
    {
        proof {
            assert(0u8 & 1 == 0) by (bit_vector);
        }
        MemoryBus {
            boot_rom: zeroed_bytes(0x100),
            memory: zeroed_bytes(0x10000),
            registers: HardwareRegisters::from_zeros(),
            cartridge: CartridgeController::Basic(BasicCartridge::new()),
            ppu: PPU::new(),
        }
    }

    /// Install a boot ROM image, zero-padded or truncated to 256 bytes.
    pub fn load_boot_rom(&mut self, data: &Vec<u8>)
        requires
            old(self).wf(),
        ensures
            final(self).wf(),
            forall|i: int| 0 <= i < 0x100 ==> final(self).boot_rom@[i] == (if i < data@.len() {
                data@[i]
            } else {
                0u8
            }),
            final(self).memory@ == old(self).memory@,
            final(self).registers == old(self).registers,
            CartridgeController::state_eq(old(self).cartridge, final(self).cartridge),
            PPU::state_eq(old(self).ppu, final(self).ppu),
    {
        self.boot_rom = bytes_with_prefix(data, 0x100);
    }

    /// Install the cartridge controller a raw image's header calls for, or
    /// reject the image and leave the bus unchanged.
    pub fn load_cartridge(&mut self, data: Vec<u8>) -> (r: Result<(), CartridgeError>)
        requires
            old(self).wf(),
        ensures
            final(self).wf(),
            r is Ok <==> spec_header_error(data@) is None,
            r matches Err(e) ==> Some(e) == spec_header_error(data@)
                && *final(self) == *old(self),
            r is Ok ==> final(self).cartridge.wf()
                && spec_matches_header(final(self).cartridge, data@),
            final(self).boot_rom@ == old(self).boot_rom@,
            final(self).memory@ == old(self).memory@,
            final(self).registers == old(self).registers,
            PPU::state_eq(old(self).ppu, final(self).ppu),
    {
        match create_cartridge(data) {
            Ok(cart) => {
                self.cartridge = cart;
                Ok(())
            },
            Err(e) => Err(e),
        }
    }

    pub fn read_byte(&self, address: u16) -> (r: u8)
        requires
            self.wf(),
        ensures
            r == self.spec_read(address),
    {
        if address <= 0xFF && self.memory[BOOT_ROM_LOCK_REGISTER as usize] & 1 == 0 {
            self.boot_rom[address as usize]
        } else if address < 0x8000 {
            self.cartridge.read_byte(address)
        } else if address < 0x9800 {
            self.ppu.read_vram(address)
        } else if address < 0xA000 {
            self.ppu.read_tile_map(address)
        } else if address < 0xC000 {
            self.cartridge.read_byte(address)
        } else if address < 0xFE00 {
            self.memory[address as usize]
        } else if address < 0xFEA0 {
            self.ppu.read_oam(address)
        } else if address < 0xFF00 {
            self.memory[address as usize]
        } else if address < 0xFF80 {
            match RegisterAddresses::from_address(address) {
                Some(RegisterAddresses::LCDC) => self.registers.LCDC.to_byte(),
                Some(RegisterAddresses::STAT) => self.registers.STAT.to_byte(),
                Some(RegisterAddresses::SCY) => self.registers.SCY,
                Some(RegisterAddresses::SCX) => self.registers.SCX,
                Some(RegisterAddresses::LY) => self.registers.LY,
                Some(RegisterAddresses::WY) => self.registers.WY,
                Some(RegisterAddresses::WX) => self.registers.WX,
                Some(RegisterAddresses::IE) => self.registers.IE.to_byte(),
                None => self.memory[address as usize],
            }
        } else if address < 0xFFFF {
            self.memory[address as usize]
        } else {
            self.registers.IE.to_byte()
        }
    }

    /// The little-endian 16-bit value composed of the bytes at the address
    /// and its successor.
    pub fn read_word(&self, address: u16) -> (r: u16)
        requires
            self.wf(),
        ensures
            r == word_from_bytes(self.spec_read(address.wrapping_add(1)), self.spec_read(address)),
    {
        let lsb = self.read_byte(address);
        let msb = self.read_byte(address.wrapping_add(1));
        (msb as u16) * 256 + (lsb as u16)
    }

    pub fn write_byte(&mut self, address: u16, value: u8)
        requires
            old(self).wf(),
        ensures
            final(self).wf(),
            bus_write_rel(*old(self), *final(self), address, value),
    {
        if address <= 0xFF && self.memory[BOOT_ROM_LOCK_REGISTER as usize] & 1 == 0 {
            // writes into the visible boot-ROM region are ignored
        } else if address < 0x8000 {
            self.cartridge.write_byte(address, value);
        } else if address < 0x9800 {
            self.ppu.write_vram(address, value);
        } else if address < 0xA000 {
            self.ppu.write_tile_map(address, value);
        } else if address < 0xC000 {
            self.cartridge.write_byte(address, value);
        } else if address < 0xFE00 {
            self.memory[address as usize] = value;
        } else if address < 0xFEA0 {
            self.ppu.write_oam(address, value);
        } else if address < 0xFF00 {
            self.memory[address as usize] = value;
        } else if address < 0xFF80 {
            match RegisterAddresses::from_address(address) {
                Some(RegisterAddresses::LCDC) => {
                    self.registers.LCDC = LCDC::from_byte(value);
                },
                Some(RegisterAddresses::STAT) => {
                    self.registers.STAT.write_byte(value);
                },
                Some(RegisterAddresses::SCY) => {
                    self.registers.SCY = value;
                },
                Some(RegisterAddresses::SCX) => {
                    self.registers.SCX = value;
                },
                Some(RegisterAddresses::LY) => {
                    // LY is a read-only status register; the write is dropped
                },
                Some(RegisterAddresses::WY) => {
                    self.registers.WY = value;
                },
                Some(RegisterAddresses::WX) => {
                    self.registers.WX = value;
                },
                Some(RegisterAddresses::IE) => {
                    self.registers.IE = IE::from_byte(value);
                },
                None => {
                    self.memory[address as usize] = value;
                },
            }
        } else if address < 0xFFFF {
            self.memory[address as usize] = value;
        } else {
            self.registers.IE = IE::from_byte(value);
        }
    }

    /// Increment the byte at an address with wraparound at a configurable
    /// maximum, through the ordinary read and write dispatch. Returns the
    /// incremented value.
    pub fn wrapping_inc_byte(&mut self, address: u16, max: u8) -> (r: u8)
        requires
            old(self).wf(),
        ensures
            final(self).wf(),
            r == (if old(self).spec_read(address) >= max {
                0u8
            } else {
                (old(self).spec_read(address) + 1) as u8
            }),
            bus_write_rel(*old(self), *final(self), address, r),
    {
        let v = self.read_byte(address);
        let nv: u8 = if v >= max {
            0
        } else {
            v + 1
        };
        self.write_byte(address, nv);
        nv
    }

    /// The PPU reports its mode here for register gating.
    pub fn update_ppu_lock(&mut self, mode: PPUMode)
        requires
            old(self).wf(),
        ensures
            final(self).wf(),
            *final(self) == (MemoryBus {
                registers: HardwareRegisters {
                    STAT: STAT {
                        ppu_mode: crate::ppu::spec_mode_code(mode),
                        ..old(self).registers.STAT
                    },
                    ..old(self).registers
                },
                ..*old(self)
            }),
    {
        let code: u8 = match mode {
            PPUMode::Mode0HorizontalBlank => 0,
            PPUMode::Mode1VerticalBlank => 1,
            PPUMode::Mode2OAMScan => 2,
            PPUMode::Mode3DrawingPixels => 3,
        };
        self.registers.STAT.set_mode(code);
    }

    /// Advance the PPU by one dot against this bus.
    pub fn step_ppu(&mut self) -> (crossed: bool)
        requires
            old(self).wf(),
        ensures
            final(self).wf(),
            ppu_step_rel(*old(self), *final(self), crossed),
    {
        self.ppu.step(&mut self.registers)
    }

    /// Set the boot-lock register: the boot ROM is hidden from here on and
    /// its address range reads through to cartridge ROM bank 0.
    pub fn set_done_booting(&mut self)
        requires
            old(self).wf(),
        ensures
            final(self).wf(),
            !final(self).spec_booting(),
            final(self).memory@ == old(self).memory@.update(BOOT_ROM_LOCK_REGISTER as int, 1u8),
            final(self).boot_rom@ == old(self).boot_rom@,
            final(self).registers == old(self).registers,
            CartridgeController::state_eq(old(self).cartridge, final(self).cartridge),
            PPU::state_eq(old(self).ppu, final(self).ppu),
    {
        self.memory[BOOT_ROM_LOCK_REGISTER as usize] = 1;
        proof {
            assert(1u8 & 1 != 0) by (bit_vector);
        }
    }

    /// Clear the boot-lock register, making the boot ROM visible again.
    pub fn reset(&mut self)
        requires
            old(self).wf(),
        ensures
            final(self).wf(),
            final(self).spec_booting(),
            final(self).memory@ == old(self).memory@.update(BOOT_ROM_LOCK_REGISTER as int, 0u8),
            final(self).boot_rom@ == old(self).boot_rom@,
            final(self).registers == old(self).registers,
            CartridgeController::state_eq(old(self).cartridge, final(self).cartridge),
            PPU::state_eq(old(self).ppu, final(self).ppu),
    {
        self.memory[BOOT_ROM_LOCK_REGISTER as usize] = 0;
        proof {
            assert(0u8 & 1 == 0) by (bit_vector);
        }
    }
}

/// Law: while the boot-lock register's low bit is clear, a read in the
/// boot-ROM region returns the boot-ROM byte; once the lock is set, the
/// same address reads through to cartridge ROM bank 0.
pub proof fn lemma_boot_rom_aliasing(pre: MemoryBus, post: MemoryBus, address: u16)
    requires
        pre.wf(),
        address <= 0xFF,
        pre.spec_booting(),
        post.memory@ == pre.memory@.update(BOOT_ROM_LOCK_REGISTER as int, 1u8),
        post.boot_rom@ == pre.boot_rom@,
        CartridgeController::state_eq(pre.cartridge, post.cartridge),
    ensures
        pre.spec_read(address) == pre.boot_rom@[address as int],
        !post.spec_booting(),
        post.spec_read(address) == post.cartridge.spec_read(address),
        match post.cartridge {
            CartridgeController::Basic(c) => post.spec_read(address) == c.data@[address as int],
            CartridgeController::MBC1(c) => post.spec_read(address) == c.rom@[address as int],
            CartridgeController::MBC3(c) => post.spec_read(address) == c.rom@[address as int],
        },
{
    assert(1u8 & 1 != 0) by (bit_vector);
}

} // verus!
