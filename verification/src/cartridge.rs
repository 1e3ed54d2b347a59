//! Cartridge bank controllers: a closed set of controller kinds (plain 32 KiB
//! ROM, MBC1, MBC3 with real-time-clock registers) that translate CPU
//! addresses into offsets within the raw ROM/RAM byte arrays, plus header
//! parsing that selects the controller at load time.

use vstd::prelude::*;

pub mod basic;
pub mod mbc1;
pub mod mbc3;

use crate::cartridge::basic::BasicCartridge;
use crate::cartridge::mbc1::{mbc1_write_rel, MBC1Cartridge};
use crate::cartridge::mbc3::{mbc3_write_rel, MBC3Cartridge};

verus! {

pub const RAM_BANK_SIZE: usize = 0x2000;

pub const ROM_BANK_SIZE: usize = 0x4000;

/// Bounds of the masked bank-control registers, shared by the controllers.
pub proof fn lemma_mask_bounds()
    by (bit_vector)
    ensures
        forall|v: u8| #[trigger] (v & 0x01) < 2,
        forall|v: u8| #[trigger] (v & 0x03) < 4,
        forall|v: u8| #[trigger] (v & 0x0F) < 16,
        forall|v: u8| #[trigger] (v & 0x1F) < 32,
        forall|v: u8| #[trigger] (v & 0x7F) < 128,
{
}

/// The controller type named by header byte 0x147.
#[derive(Clone, Copy, Debug, PartialEq, Eq, Structural)]
pub enum CartridgeType {
    ROMOnly,
    MBC1,
    MBC1Ram,
    MBC1RamBat,
    MBC2,
    MBC2Bat,
    RomRam,
    RomRamBat,
    MBC3TimerBat,
    MBC3RamTimerBat,
    MBC3,
    MBC3Ram,
    MBC3RamBat,
    MBC4,
    MBC4Ram,
    MBC4RamBat,
    MBC5,
    MBC5Ram,
    MBC5RamBat,
}

pub open spec fn spec_cartridge_type(value: u8) -> Option<CartridgeType> {
    match value {
        0x00u8 => Some(CartridgeType::ROMOnly),
        0x01u8 => Some(CartridgeType::MBC1),
        0x02u8 => Some(CartridgeType::MBC1Ram),
        0x03u8 => Some(CartridgeType::MBC1RamBat),
        0x05u8 => Some(CartridgeType::MBC2),
        0x06u8 => Some(CartridgeType::MBC2Bat),
        0x08u8 => Some(CartridgeType::RomRam),
        0x09u8 => Some(CartridgeType::RomRamBat),
        0x0Fu8 => Some(CartridgeType::MBC3TimerBat),
        0x10u8 => Some(CartridgeType::MBC3RamTimerBat),
        0x11u8 => Some(CartridgeType::MBC3),
        0x12u8 => Some(CartridgeType::MBC3Ram),
        0x13u8 => Some(CartridgeType::MBC3RamBat),
        0x15u8 => Some(CartridgeType::MBC4),
        0x16u8 => Some(CartridgeType::MBC4Ram),
        0x17u8 => Some(CartridgeType::MBC4RamBat),
        0x19u8 => Some(CartridgeType::MBC5),
        0x1Au8 => Some(CartridgeType::MBC5Ram),
        0x1Bu8 => Some(CartridgeType::MBC5RamBat),
        _ => None,
    }
}

pub open spec fn spec_has_battery(t: CartridgeType) -> bool {
    match t {
        CartridgeType::MBC1RamBat => true,
        CartridgeType::RomRam => true,
        CartridgeType::RomRamBat => true,
        CartridgeType::MBC2Bat => true,
        CartridgeType::MBC3TimerBat => true,
        CartridgeType::MBC3RamTimerBat => true,
        CartridgeType::MBC3RamBat => true,
        CartridgeType::MBC4RamBat => true,
        CartridgeType::MBC5RamBat => true,
        _ => false,
    }
}

pub open spec fn spec_has_ram(t: CartridgeType) -> bool {
    match t {
        CartridgeType::MBC1Ram => true,
        CartridgeType::MBC1RamBat => true,
        CartridgeType::RomRam => true,
        CartridgeType::RomRamBat => true,
        CartridgeType::MBC3RamTimerBat => true,
        CartridgeType::MBC3Ram => true,
        CartridgeType::MBC3RamBat => true,
        CartridgeType::MBC4Ram => true,
        CartridgeType::MBC4RamBat => true,
        CartridgeType::MBC5Ram => true,
        CartridgeType::MBC5RamBat => true,
        _ => false,
    }
}

impl CartridgeType {
    pub fn from_code(value: u8) -> (r: Option<CartridgeType>)
        ensures
            r == spec_cartridge_type(value),
    {
        match value {
            0x00 => Some(CartridgeType::ROMOnly),
            0x01 => Some(CartridgeType::MBC1),
            0x02 => Some(CartridgeType::MBC1Ram),
            0x03 => Some(CartridgeType::MBC1RamBat),
            0x05 => Some(CartridgeType::MBC2),
            0x06 => Some(CartridgeType::MBC2Bat),
            0x08 => Some(CartridgeType::RomRam),
            0x09 => Some(CartridgeType::RomRamBat),
            0x0F => Some(CartridgeType::MBC3TimerBat),
            0x10 => Some(CartridgeType::MBC3RamTimerBat),
            0x11 => Some(CartridgeType::MBC3),
            0x12 => Some(CartridgeType::MBC3Ram),
            0x13 => Some(CartridgeType::MBC3RamBat),
            0x15 => Some(CartridgeType::MBC4),
            0x16 => Some(CartridgeType::MBC4Ram),
            0x17 => Some(CartridgeType::MBC4RamBat),
            0x19 => Some(CartridgeType::MBC5),
            0x1A => Some(CartridgeType::MBC5Ram),
            0x1B => Some(CartridgeType::MBC5RamBat),
            _ => None,
        }
    }

    pub fn has_battery(&self) -> (r: bool)
        ensures
            r == spec_has_battery(*self),
    {
        match self {
            CartridgeType::MBC1RamBat
            | CartridgeType::RomRam
            | CartridgeType::RomRamBat
            | CartridgeType::MBC2Bat
            | CartridgeType::MBC3TimerBat
            | CartridgeType::MBC3RamTimerBat
            | CartridgeType::MBC3RamBat
            | CartridgeType::MBC4RamBat
            | CartridgeType::MBC5RamBat => true,
            _ => false,
        }
    }

    pub fn has_ram(&self) -> (r: bool)
        ensures
            r == spec_has_ram(*self),
    {
        match self {
            CartridgeType::MBC1Ram
            | CartridgeType::MBC1RamBat
            | CartridgeType::RomRam
            | CartridgeType::RomRamBat
            | CartridgeType::MBC3RamTimerBat
            | CartridgeType::MBC3Ram
            | CartridgeType::MBC3RamBat
            | CartridgeType::MBC4Ram
            | CartridgeType::MBC4RamBat
            | CartridgeType::MBC5Ram
            | CartridgeType::MBC5RamBat => true,
            _ => false,
        }
    }
}

/// The header bytes the loader consumes.
#[derive(Clone, Copy, Debug, PartialEq, Eq, Structural)]
pub enum CartridgeHeaderConstants {
    RAMSize,
    ROMSize,
    CartridgeType,
}

impl CartridgeHeaderConstants {
    pub open spec fn spec_address(self) -> usize {
        match self {
            CartridgeHeaderConstants::RAMSize => 0x149,
            CartridgeHeaderConstants::ROMSize => 0x148,
            CartridgeHeaderConstants::CartridgeType => 0x147,
        }
    }

    pub fn get_address(&self) -> (r: usize)
        ensures
            r == self.spec_address(),
    {
        match self {
            CartridgeHeaderConstants::RAMSize => 0x149,
            CartridgeHeaderConstants::ROMSize => 0x148,
            CartridgeHeaderConstants::CartridgeType => 0x147,
        }
    }
}

/// The fixed lookup from the RAM-size code of header byte 0x149 to a bank
/// count (one bank is 8 KiB).
pub open spec fn spec_ram_banks(ram_constant: u8) -> Option<usize> {
    match ram_constant {
        0u8 => Some(0usize),
        2u8 => Some(1usize),
        3u8 => Some(4usize),
        4u8 => Some(16usize),
        5u8 => Some(8usize),
        _ => None,
    }
}

pub fn get_ram_banks(ram_constant: u8) -> (r: Option<usize>)
    ensures
        r == spec_ram_banks(ram_constant),
{
    match ram_constant {
        0 => Some(0),
        2 => Some(1),
        3 => Some(4),
        4 => Some(16),
        5 => Some(8),
        _ => None,
    }
}

/// The ROM-size code of header byte 0x148 names a bank count of
/// two-to-the-power of one more than the code (one bank is 16 KiB).
pub open spec fn spec_rom_banks(rom_constant: u8) -> Option<usize> {
    match rom_constant {
        0u8 => Some(2usize),
        1u8 => Some(4usize),
        2u8 => Some(8usize),
        3u8 => Some(16usize),
        4u8 => Some(32usize),
        5u8 => Some(64usize),
        6u8 => Some(128usize),
        7u8 => Some(256usize),
        8u8 => Some(512usize),
        _ => None,
    }
}

pub fn get_rom_banks(rom_constant: u8) -> (r: Option<usize>)
    ensures
        r == spec_rom_banks(rom_constant),
{
    match rom_constant {
        0 => Some(2),
        1 => Some(4),
        2 => Some(8),
        3 => Some(16),
        4 => Some(32),
        5 => Some(64),
        6 => Some(128),
        7 => Some(256),
        8 => Some(512),
        _ => None,
    }
}

/// Why a cartridge image was rejected at load time.
#[derive(Clone, Copy, Debug, PartialEq, Eq, Structural)]
pub enum CartridgeError {
    /// The image is too short to hold the header.
    TooShort,
    /// Header byte 0x147 is not in the controller-type table.
    UnknownCartridgeType,
    /// Header byte 0x148 is not a known ROM-size code.
    UnknownRomSize,
    /// Header byte 0x149 is not a known RAM-size code.
    UnknownRamSize,
    /// The image length does not match the ROM-size code.
    RomSizeMismatch,
    /// The controller type is known but not one of the emulated kinds.
    UnsupportedCartridgeType,
}

/// The interface every bank controller offers the memory bus.
pub trait Cartridge {
    /// The internal consistency the controller maintains.
    spec fn valid(&self) -> bool;

    /// Read one byte at a cartridge-owned address.
    fn read_byte(&self, address: u16) -> u8
        requires
            self.valid(),
            address < 0x8000 || (0xA000 <= address && address < 0xC000),
    ;

    /// Write one byte at a cartridge-owned address: control registers below
    /// 0x8000, data in the external-RAM window.
    fn write_byte(&mut self, address: u16, val: u8)
        requires
            old(self).valid(),
            address < 0x8000 || (0xA000 <= address && address < 0xC000),
        ensures
            final(self).valid(),
    ;

    /// Per-master-cycle hook for controllers with onboard clocks; advancing
    /// the MBC3 clock in real time is out of scope, so every controller
    /// leaves its state unchanged here.
    fn tick(&mut self)
        requires
            old(self).valid(),
        ensures
            final(self).valid(),
    ;
}

/// The closed set of controller kinds, dispatched without dynamic calls.
#[derive(Debug)]
pub enum CartridgeController {
    Basic(BasicCartridge),
    MBC1(MBC1Cartridge),
    MBC3(MBC3Cartridge),
}

impl CartridgeController {
    pub open spec fn wf(self) -> bool {
        match self {
            CartridgeController::Basic(c) => c.wf(),
            CartridgeController::MBC1(c) => c.wf(),
            CartridgeController::MBC3(c) => c.wf(),
        }
    }

    pub open spec fn spec_read(self, address: u16) -> u8 {
        match self {
            CartridgeController::Basic(c) => c.spec_read(address),
            CartridgeController::MBC1(c) => c.spec_read(address),
            CartridgeController::MBC3(c) => c.spec_read(address),
        }
    }

    /// Whether two controller states are equal, compared by their views.
    pub open spec fn state_eq(a: CartridgeController, b: CartridgeController) -> bool {
        match (a, b) {
            (CartridgeController::Basic(x), CartridgeController::Basic(y)) => y.data@ == x.data@,
            (CartridgeController::MBC1(x), CartridgeController::MBC1(y)) => {
                &&& y.rom@ == x.rom@
                &&& y.ram@ == x.ram@
                &&& y.registers == x.registers
                &&& y.rom_banks == x.rom_banks
                &&& y.ram_banks == x.ram_banks
            },
            (CartridgeController::MBC3(x), CartridgeController::MBC3(y)) => {
                &&& y.rom@ == x.rom@
                &&& mbc3::mbc3_ram_unchanged(x, y)
                &&& y.registers == x.registers
                &&& y.rom_banks == x.rom_banks
                &&& y.has_battery == x.has_battery
            },
            _ => false,
        }
    }

    /// How one write relates the controller state before and after.
    pub open spec fn write_rel(pre: CartridgeController, post: CartridgeController, address: u16, val: u8) -> bool {
        match (pre, post) {
            (CartridgeController::Basic(a), CartridgeController::Basic(b)) => b.data@ == a.data@,
            (CartridgeController::MBC1(a), CartridgeController::MBC1(b)) => mbc1_write_rel(a, b, address, val),
            (CartridgeController::MBC3(a), CartridgeController::MBC3(b)) => mbc3_write_rel(a, b, address, val),
            _ => false,
        }
    }

    pub fn read_byte(&self, address: u16) -> (r: u8)
        requires
            self.wf(),
            address < 0x8000 || (0xA000 <= address && address < 0xC000),
        ensures
            r == self.spec_read(address),
    {
        match self {
            CartridgeController::Basic(c) => c.read_byte(address),
            CartridgeController::MBC1(c) => c.read_byte(address),
            CartridgeController::MBC3(c) => c.read_byte(address),
        }
    }

    pub fn write_byte(&mut self, address: u16, val: u8)
        requires
            old(self).wf(),
            address < 0x8000 || (0xA000 <= address && address < 0xC000),
        ensures
            final(self).wf(),
            CartridgeController::write_rel(*old(self), *final(self), address, val),
    {
        match self {
            CartridgeController::Basic(c) => c.write_byte(address, val),
            CartridgeController::MBC1(c) => c.write_byte(address, val),
            CartridgeController::MBC3(c) => c.write_byte(address, val),
        }
    }

    /// The per-master-cycle hook, a no-op for every controller kind.
    pub fn tick(&mut self)
        ensures
            *final(self) == *old(self),
    {
    }
}

/// The first reason, if any, for which header parsing rejects an image.
pub open spec fn spec_header_error(rom: Seq<u8>) -> Option<CartridgeError> {
    if rom.len() < 0x150 {
        Some(CartridgeError::TooShort)
    } else if spec_cartridge_type(rom[0x147]) is None {
        Some(CartridgeError::UnknownCartridgeType)
    } else if spec_rom_banks(rom[0x148]) is None {
        Some(CartridgeError::UnknownRomSize)
    } else if spec_ram_banks(rom[0x149]) is None {
        Some(CartridgeError::UnknownRamSize)
    } else if rom.len() != spec_rom_banks(rom[0x148]).unwrap() * 0x4000 {
        Some(CartridgeError::RomSizeMismatch)
    } else if !spec_supported_type(rom[0x147]) {
        Some(CartridgeError::UnsupportedCartridgeType)
    } else if rom[0x147] == 0 && spec_rom_banks(rom[0x148]).unwrap() != 2 {
        Some(CartridgeError::RomSizeMismatch)
    } else {
        None
    }
}

/// The controller-type codes the emulated set covers.
pub open spec fn spec_supported_type(code: u8) -> bool {
    code == 0x00 || code == 0x01 || code == 0x02 || code == 0x03
    || code == 0x10 || code == 0x11 || code == 0x12 || code == 0x13
}

/// What a successfully created controller holds, in terms of the header.
pub open spec fn spec_matches_header(c: CartridgeController, rom: Seq<u8>) -> bool {
    let t = spec_cartridge_type(rom[0x147]).unwrap();
    let rom_banks = spec_rom_banks(rom[0x148]).unwrap();
    let ram_banks = spec_ram_banks(rom[0x149]).unwrap();
    match c {
        CartridgeController::Basic(b) => {
            &&& rom[0x147] == 0
            &&& b.data@ == rom
        },
        CartridgeController::MBC1(m) => {
            &&& (rom[0x147] == 1 || rom[0x147] == 2 || rom[0x147] == 3)
            &&& m.rom@ == rom
            &&& m.rom_banks == rom_banks
            &&& m.ram_banks == ram_banks
            &&& m.ram@.len() == ram_banks * RAM_BANK_SIZE
            &&& m.registers == mbc1::MBC1Registers {
                ram_enable: false,
                rom_bank_number: 0u8,
                secondary_bank: 0u8,
                banking_mode_select: 0u8,
            }
        },
        CartridgeController::MBC3(m) => {
            &&& (rom[0x147] == 0x10 || rom[0x147] == 0x11 || rom[0x147] == 0x12 || rom[0x147] == 0x13)
            &&& m.rom@ == rom
            &&& m.rom_banks == rom_banks
            &&& m.has_battery == spec_has_battery(t)
            &&& (m.ram is Some <==> (spec_has_ram(t) && ram_banks > 0))
            &&& (m.ram is Some ==> m.ram.unwrap()@.len() == ram_banks * RAM_BANK_SIZE)
        },
    }
}

/// Select and build the bank controller a raw cartridge image calls for,
/// going by its header: byte 0x147 names the controller type, byte 0x148 the
/// ROM size and byte 0x149 the RAM size. An image whose header cannot be
/// honoured is rejected with the reason.
pub fn create_cartridge(rom: Vec<u8>) -> (r: Result<CartridgeController, CartridgeError>)
    ensures
        r is Ok <==> spec_header_error(rom@) is None,
        r matches Err(e) ==> Some(e) == spec_header_error(rom@),
        r matches Ok(c) ==> c.wf() && spec_matches_header(c, rom@),
{
    if rom.len() < 0x150 {
        return Err(CartridgeError::TooShort);
    }
    let type_code = rom[0x147];
    let rom_code = rom[0x148];
    let ram_code = rom[0x149];
    let cart_type = match CartridgeType::from_code(type_code) {
        Some(t) => t,
        None => { return Err(CartridgeError::UnknownCartridgeType); },
    };
    let rom_banks = match get_rom_banks(rom_code) {
        Some(n) => n,
        None => { return Err(CartridgeError::UnknownRomSize); },
    };
    let ram_banks = match get_ram_banks(ram_code) {
        Some(n) => n,
        None => { return Err(CartridgeError::UnknownRamSize); },
    };
    if rom.len() != rom_banks * ROM_BANK_SIZE {
        return Err(CartridgeError::RomSizeMismatch);
    }
    match cart_type {
        CartridgeType::ROMOnly => {
            if rom_banks != 2 {
                return Err(CartridgeError::RomSizeMismatch);
            }
            Ok(CartridgeController::Basic(BasicCartridge::with_rom(rom)))
        },
        CartridgeType::MBC1 | CartridgeType::MBC1Ram | CartridgeType::MBC1RamBat => {
            Ok(CartridgeController::MBC1(MBC1Cartridge::new(rom, ram_banks, rom_banks)))
        },
        CartridgeType::MBC3RamTimerBat | CartridgeType::MBC3 | CartridgeType::MBC3Ram
        | CartridgeType::MBC3RamBat => {
            let has_ram = cart_type.has_ram();
            let battery = cart_type.has_battery();
            Ok(CartridgeController::MBC3(MBC3Cartridge::new(
                rom,
                if has_ram && ram_banks > 0 { Some(ram_banks) } else { None },
                battery,
            )))
        },
        _ => Err(CartridgeError::UnsupportedCartridgeType),
    }
}

} // verus!
