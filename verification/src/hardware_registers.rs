//! Typed views over the memory-mapped I/O bytes the core models: LCD control,
//! scroll registers, the scanline counter, STAT and the interrupt-enable
//! register, each encoded and decoded through its packed bit layout.

use vstd::prelude::*;

verus! {

/// The display-related memory-mapped registers and their addresses.
#[derive(Clone, Copy, Debug, PartialEq, Eq, Structural)]
pub enum DisplayRegisters {
    SCROLLX,
    SCROLLY,
    WX,
    WY,
    LCDC,
    STAT,
    LY,
    LYC,
    BGP,
    OBP0,
    OBP1,
    DMA,
}

impl DisplayRegisters {
    pub open spec fn spec_address(self) -> usize {
        match self {
            DisplayRegisters::LCDC => 0xFF40,
            DisplayRegisters::STAT => 0xFF41,
            DisplayRegisters::SCROLLY => 0xFF42,
            DisplayRegisters::SCROLLX => 0xFF43,
            DisplayRegisters::LY => 0xFF44,
            DisplayRegisters::LYC => 0xFF45,
            DisplayRegisters::DMA => 0xFF46,
            DisplayRegisters::BGP => 0xFF47,
            DisplayRegisters::OBP0 => 0xFF48,
            DisplayRegisters::OBP1 => 0xFF49,
            DisplayRegisters::WY => 0xFF4A,
            DisplayRegisters::WX => 0xFF4B,
        }
    }

    pub fn get_address(&self) -> (r: usize)
        ensures
            r == self.spec_address(),
    {
        match self {
            DisplayRegisters::LCDC => 0xFF40,
            DisplayRegisters::STAT => 0xFF41,
            DisplayRegisters::SCROLLY => 0xFF42,
            DisplayRegisters::SCROLLX => 0xFF43,
            DisplayRegisters::LY => 0xFF44,
            DisplayRegisters::LYC => 0xFF45,
            DisplayRegisters::DMA => 0xFF46,
            DisplayRegisters::BGP => 0xFF47,
            DisplayRegisters::OBP0 => 0xFF48,
            DisplayRegisters::OBP1 => 0xFF49,
            DisplayRegisters::WY => 0xFF4A,
            DisplayRegisters::WX => 0xFF4B,
        }
    }
}

/// The LCD control register, one boolean per control bit.
#[derive(Clone, Copy, Debug, PartialEq, Eq, Structural)]
pub struct LCDC {
    pub lcd_display_enable: bool,             // bit 7 (0=Off, 1=On)
    pub window_tile_map_display_select: bool, // bit 6 (0=9800-9BFF, 1=9C00-9FFF)
    pub window_display_enable: bool,          // bit 5 (0=Off, 1=On)
    pub bg_window_tile_data_select: bool,     // bit 4 (0=8800-97FF, 1=8000-8FFF)
    pub bg_tile_map_display_selct: bool,      // bit 3 (0=9800-9BFF, 1=9C00-9FFF)
    pub obj_size: bool,                       // bit 2 (0=8x8, 1=8x16)
    pub obj_display_enable: bool,             // bit 1 (0=Off, 1=On)
    pub bg_display: bool,                     // bit 0 (0=Off, 1=On)
}

impl LCDC {
    pub open spec fn spec_to_byte(self) -> u8 {
        (if self.lcd_display_enable { 0x80u8 } else { 0u8 })
        | (if self.window_tile_map_display_select { 0x40u8 } else { 0u8 })
        | (if self.window_display_enable { 0x20u8 } else { 0u8 })
        | (if self.bg_window_tile_data_select { 0x10u8 } else { 0u8 })
        | (if self.bg_tile_map_display_selct { 0x08u8 } else { 0u8 })
        | (if self.obj_size { 0x04u8 } else { 0u8 })
        | (if self.obj_display_enable { 0x02u8 } else { 0u8 })
        | (if self.bg_display { 0x01u8 } else { 0u8 })
    }

    pub open spec fn spec_from_byte(byte: u8) -> LCDC {
        LCDC {
            lcd_display_enable: (byte & 0x80) > 0,
            window_tile_map_display_select: (byte & 0x40) > 0,
            window_display_enable: (byte & 0x20) > 0,
            bg_window_tile_data_select: (byte & 0x10) > 0,
            bg_tile_map_display_selct: (byte & 0x08) > 0,
            obj_size: (byte & 0x04) > 0,
            obj_display_enable: (byte & 0x02) > 0,
            bg_display: (byte & 0x01) > 0,
        }
    }

    pub fn to_byte(&self) -> (r: u8)
        ensures
            r == self.spec_to_byte(),
    {
        (if self.lcd_display_enable { 0x80u8 } else { 0u8 })
        | (if self.window_tile_map_display_select { 0x40u8 } else { 0u8 })
        | (if self.window_display_enable { 0x20u8 } else { 0u8 })
        | (if self.bg_window_tile_data_select { 0x10u8 } else { 0u8 })
        | (if self.bg_tile_map_display_selct { 0x08u8 } else { 0u8 })
        | (if self.obj_size { 0x04u8 } else { 0u8 })
        | (if self.obj_display_enable { 0x02u8 } else { 0u8 })
        | (if self.bg_display { 0x01u8 } else { 0u8 })
    }

    pub fn from_byte(byte: u8) -> (r: LCDC)
        ensures
            r == LCDC::spec_from_byte(byte),
    {
        LCDC {
            lcd_display_enable: (byte & 0x80) > 0,
            window_tile_map_display_select: (byte & 0x40) > 0,
            window_display_enable: (byte & 0x20) > 0,
            bg_window_tile_data_select: (byte & 0x10) > 0,
            bg_tile_map_display_selct: (byte & 0x08) > 0,
            obj_size: (byte & 0x04) > 0,
            obj_display_enable: (byte & 0x02) > 0,
            bg_display: (byte & 0x01) > 0,
        }
    }
}

/// The interrupt-enable register, one boolean per interrupt source.
#[derive(Clone, Copy, Debug, PartialEq, Eq, Structural)]
pub struct IE {
    pub vblank: bool,   // bit 0
    pub lcd_stat: bool, // bit 1
    pub timer: bool,    // bit 2
    pub serial: bool,   // bit 3
    pub joypad: bool,   // bit 4
}

impl IE {
    pub open spec fn spec_to_byte(self) -> u8 {
        (if self.vblank { 0x01u8 } else { 0u8 })
        | (if self.lcd_stat { 0x02u8 } else { 0u8 })
        | (if self.timer { 0x04u8 } else { 0u8 })
        | (if self.serial { 0x08u8 } else { 0u8 })
        | (if self.joypad { 0x10u8 } else { 0u8 })
    }

    pub open spec fn spec_from_byte(byte: u8) -> IE {
        IE {
            vblank: (byte & 0x01) > 0,
            lcd_stat: (byte & 0x02) > 0,
            timer: (byte & 0x04) > 0,
            serial: (byte & 0x08) > 0,
            joypad: (byte & 0x10) > 0,
        }
    }

    pub fn to_byte(&self) -> (r: u8)
        ensures
            r == self.spec_to_byte(),
    {
        (if self.vblank { 0x01u8 } else { 0u8 })
        | (if self.lcd_stat { 0x02u8 } else { 0u8 })
        | (if self.timer { 0x04u8 } else { 0u8 })
        | (if self.serial { 0x08u8 } else { 0u8 })
        | (if self.joypad { 0x10u8 } else { 0u8 })
    }

    pub fn from_byte(byte: u8) -> (r: IE)
        ensures
            r == IE::spec_from_byte(byte),
    {
        IE {
            vblank: (byte & 0x01) > 0,
            lcd_stat: (byte & 0x02) > 0,
            timer: (byte & 0x04) > 0,
            serial: (byte & 0x08) > 0,
            joypad: (byte & 0x10) > 0,
        }
    }
}

/// The STAT register: four interrupt-select bits chosen by software, plus two
/// status fields (LYC comparison and the current PPU mode) owned by the PPU.
#[derive(Clone, Copy, Debug, PartialEq, Eq, Structural)]
pub struct STAT {
    pub lyc_int_select: bool,    // bit 6
    pub mode_2_int_select: bool, // bit 5
    pub mode_1_int_select: bool, // bit 4
    pub mode_0_int_select: bool, // bit 3
    pub lyc_eq_ly: bool,         // bit 2, read-only status
    pub ppu_mode: u8,            // bits 0-1, read-only status
}

impl STAT {
    pub open spec fn wf(self) -> bool {
        self.ppu_mode < 4
    }

    pub open spec fn spec_to_byte(self) -> u8 {
        ((if self.lyc_int_select { 0x40u8 } else { 0u8 })
        | (if self.mode_2_int_select { 0x20u8 } else { 0u8 })
        | (if self.mode_1_int_select { 0x10u8 } else { 0u8 })
        | (if self.mode_0_int_select { 0x08u8 } else { 0u8 })
        | (if self.lyc_eq_ly { 0x04u8 } else { 0u8 })
        | (self.ppu_mode & 0x03)) as u8
    }

    pub fn zero_init() -> (r: STAT)
        ensures
            r == (STAT {
                lyc_int_select: false,
                mode_2_int_select: false,
                mode_1_int_select: false,
                mode_0_int_select: false,
                lyc_eq_ly: false,
                ppu_mode: 0u8,
            }),
            r.wf(),
    {
        STAT {
            lyc_int_select: false,
            mode_2_int_select: false,
            mode_1_int_select: false,
            mode_0_int_select: false,
            lyc_eq_ly: false,
            ppu_mode: 0,
        }
    }

    pub fn to_byte(&self) -> (r: u8)
        ensures
            r == self.spec_to_byte(),
    {
        (if self.lyc_int_select { 0x40u8 } else { 0u8 })
        | (if self.mode_2_int_select { 0x20u8 } else { 0u8 })
        | (if self.mode_1_int_select { 0x10u8 } else { 0u8 })
        | (if self.mode_0_int_select { 0x08u8 } else { 0u8 })
        | (if self.lyc_eq_ly { 0x04u8 } else { 0u8 })
        | (self.ppu_mode & 0x03)
    }

    /// A software write to STAT sets the four interrupt-select bits; the two
    /// status fields are read-only and keep their values.
    pub fn write_byte(&mut self, val: u8)
        ensures
            *final(self) == (STAT {
                lyc_int_select: (val & 0x40) > 0,
                mode_2_int_select: (val & 0x20) > 0,
                mode_1_int_select: (val & 0x10) > 0,
                mode_0_int_select: (val & 0x08) > 0,
                ..*old(self)
            }),
    {
        self.lyc_int_select = (val & 0x40) > 0;
        self.mode_2_int_select = (val & 0x20) > 0;
        self.mode_1_int_select = (val & 0x10) > 0;
        self.mode_0_int_select = (val & 0x08) > 0;
    }

    /// The PPU reports its current mode here for register gating.
    pub fn set_mode(&mut self, mode: u8)
        requires
            mode < 4,
        ensures
            *final(self) == (STAT { ppu_mode: mode, ..*old(self) }),
            final(self).wf(),
    {
        self.ppu_mode = mode;
    }
}

/// The collection of hardware registers owned by the memory bus.
#[allow(non_snake_case)]
#[derive(Clone, Copy, Debug, PartialEq, Eq, Structural)]
pub struct HardwareRegisters {
    pub IE: IE,
    pub LCDC: LCDC,
    pub SCY: u8,
    pub SCX: u8,
    pub LY: u8,
    pub WX: u8,
    pub WY: u8,
    pub STAT: STAT,
}

impl HardwareRegisters {
    /// The power-on state: every register zero.
    pub open spec fn spec_zeroed() -> HardwareRegisters {
        HardwareRegisters {
            IE: IE::spec_from_byte(0),
            LCDC: LCDC::spec_from_byte(0),
            SCY: 0u8,
            SCX: 0u8,
            LY: 0u8,
            WX: 0u8,
            WY: 0u8,
            STAT: STAT {
                lyc_int_select: false,
                mode_2_int_select: false,
                mode_1_int_select: false,
                mode_0_int_select: false,
                lyc_eq_ly: false,
                ppu_mode: 0u8,
            },
        }
    }

    pub open spec fn wf(self) -> bool {
        &&& self.STAT.wf()
        &&& self.LY < 154
    }

    pub fn from_zeros() -> (r: HardwareRegisters)
        ensures
            r == HardwareRegisters::spec_zeroed(),
            r.wf(),
    {
        HardwareRegisters {
            IE: IE::from_byte(0),
            LCDC: LCDC::from_byte(0),
            STAT: STAT::zero_init(),
            SCY: 0,
            SCX: 0,
            LY: 0,
            WX: 0,
            WY: 0,
        }
    }

    /// Advance LY by one scanline, wrapping from the last scanline (153,
    /// the end of the vertical-blank period) back to 0. Returns the new LY.
    pub fn inc_ly_wrapping(&mut self, max: u8) -> (r: u8)
        requires
            old(self).wf(),
            max <= 153,
        ensures
            r == (if old(self).LY >= max { 0u8 } else { (old(self).LY + 1) as u8 }),
            *final(self) == (HardwareRegisters { LY: r, ..*old(self) }),
            final(self).wf(),
    {
        if self.LY >= max {
            self.LY = 0;
        } else {
            self.LY = self.LY + 1;
        }
        self.LY
    }
}

/// The register addresses the memory bus dispatches to typed accessors.
#[derive(Clone, Copy, Debug, PartialEq, Eq, Structural)]
pub enum RegisterAddresses {
    LCDC,
    WX,
    WY,
    LY,
    IE,
    SCY,
    SCX,
    STAT,
}

impl RegisterAddresses {
    pub open spec fn spec_address(self) -> u16 {
        match self {
            RegisterAddresses::LCDC => 0xFF40,
            RegisterAddresses::STAT => 0xFF41,
            RegisterAddresses::SCY => 0xFF42,
            RegisterAddresses::SCX => 0xFF43,
            RegisterAddresses::LY => 0xFF44,
            RegisterAddresses::WY => 0xFF4A,
            RegisterAddresses::WX => 0xFF4B,
            RegisterAddresses::IE => 0xFFFF,
        }
    }

    pub fn address(&self) -> (r: u16)
        ensures
            r == self.spec_address(),
    {
        match self {
            RegisterAddresses::LCDC => 0xFF40,
            RegisterAddresses::STAT => 0xFF41,
            RegisterAddresses::SCY => 0xFF42,
            RegisterAddresses::SCX => 0xFF43,
            RegisterAddresses::LY => 0xFF44,
            RegisterAddresses::WY => 0xFF4A,
            RegisterAddresses::WX => 0xFF4B,
            RegisterAddresses::IE => 0xFFFF,
        }
    }

    pub open spec fn spec_from_address(address: u16) -> Option<RegisterAddresses> {
        match address {
            0xFF40u16 => Some(RegisterAddresses::LCDC),
            0xFF41u16 => Some(RegisterAddresses::STAT),
            0xFF42u16 => Some(RegisterAddresses::SCY),
            0xFF43u16 => Some(RegisterAddresses::SCX),
            0xFF44u16 => Some(RegisterAddresses::LY),
            0xFF4Au16 => Some(RegisterAddresses::WY),
            0xFF4Bu16 => Some(RegisterAddresses::WX),
            0xFFFFu16 => Some(RegisterAddresses::IE),
            _ => None,
        }
    }

    pub fn from_address(address: u16) -> (r: Option<RegisterAddresses>)
        ensures
            r == RegisterAddresses::spec_from_address(address),
    {
        match address {
            0xFF40 => Some(RegisterAddresses::LCDC),
            0xFF41 => Some(RegisterAddresses::STAT),
            0xFF42 => Some(RegisterAddresses::SCY),
            0xFF43 => Some(RegisterAddresses::SCX),
            0xFF44 => Some(RegisterAddresses::LY),
            0xFF4A => Some(RegisterAddresses::WY),
            0xFF4B => Some(RegisterAddresses::WX),
            0xFFFF => Some(RegisterAddresses::IE),
            _ => None,
        }
    }
}

} // verus!
