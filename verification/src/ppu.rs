//! The pixel-processing unit: a dot-clock-driven mode state machine that
//! advances the scanline counter, owns the video memory (tile pixel data,
//! the two background tile maps, the sprite attribute table), renders one
//! background line at a time into the screen buffer, and reports its mode
//! for register gating.

use vstd::prelude::*;

pub mod oam;
pub mod sprite;

use crate::buffer::zeroed_bytes;
use crate::hardware_registers::HardwareRegisters;
use crate::hardware_registers::STAT;
use crate::ppu::oam::OAMEntry;
use crate::ppu::sprite::Sprite;

verus! {

pub const SCREEN_WIDTH_PIXELS: usize = 166;

pub const SCREEN_HEIGHT_PIXELS: usize = 144;

/// Dots per scanline; when the dot counter reaches this the line wraps.
pub const DOTS_PER_LINE: usize = 456;

/// The four shades a rendered pixel resolves to.
#[derive(Clone, Copy, Debug, PartialEq, Eq, Structural)]
pub enum DrawColor {
    BLACK,
    DARKGREY,
    LIGHTGREY,
    WHITE,
}

/// A raw 2-bit colour index from tile pixel data.
#[derive(Clone, Copy, Debug, PartialEq, Eq, Structural)]
pub enum ColorIdx {
    Zero,
    One,
    Two,
    Three,
}

impl ColorIdx {
    pub open spec fn spec_from_code(value: u8) -> ColorIdx {
        if value == 0 {
            ColorIdx::Zero
        } else if value == 1 {
            ColorIdx::One
        } else if value == 2 {
            ColorIdx::Two
        } else {
            ColorIdx::Three
        }
    }

    pub fn from_code(value: u8) -> (r: ColorIdx)
        requires
            value < 4,
        ensures
            r == ColorIdx::spec_from_code(value),
    {
        match value {
            0 => ColorIdx::Zero,
            1 => ColorIdx::One,
            2 => ColorIdx::Two,
            _ => ColorIdx::Three,
        }
    }
}

/// The shade a raw colour index maps to: index 0 is the lightest, 3 the
/// darkest.
pub open spec fn spec_shade(c: ColorIdx) -> DrawColor {
    match c {
        ColorIdx::Zero => DrawColor::WHITE,
        ColorIdx::One => DrawColor::LIGHTGREY,
        ColorIdx::Two => DrawColor::DARKGREY,
        ColorIdx::Three => DrawColor::BLACK,
    }
}

/// The four PPU modes.
#[derive(Clone, Copy, Debug, PartialEq, Eq, Structural)]
pub enum PPUMode {
    Mode0HorizontalBlank,
    Mode1VerticalBlank,
    Mode2OAMScan,
    Mode3DrawingPixels,
}

/// The mode as a function of the scanline and the intra-line dot counter:
/// scanline 144 and beyond is vertical blank; otherwise dots up to 80 are
/// the OAM scan, dots up to 289 draw pixels, and the rest of the line is
/// horizontal blank.
pub open spec fn spec_mode_for(ly: u8, lx: int) -> PPUMode {
    if ly >= 144 {
        PPUMode::Mode1VerticalBlank
    } else if lx <= 80 {
        PPUMode::Mode2OAMScan
    } else if lx <= 289 {
        PPUMode::Mode3DrawingPixels
    } else {
        PPUMode::Mode0HorizontalBlank
    }
}

/// The two-bit code a mode is reported as in the STAT register.
pub open spec fn spec_mode_code(m: PPUMode) -> u8 {
    match m {
        PPUMode::Mode0HorizontalBlank => 0u8,
        PPUMode::Mode1VerticalBlank => 1u8,
        PPUMode::Mode2OAMScan => 2u8,
        PPUMode::Mode3DrawingPixels => 3u8,
    }
}

/// Law: on a visible scanline the dot counter passes through OAM scan
/// (dots 0 to 80), then pixel drawing (81 to 289), then horizontal blank
/// (290 to 455); every scanline from 144 on is vertical blank whatever the
/// dot counter says.
pub proof fn lemma_ppu_mode_sequence(ly: u8, lx: int)
    ensures
        ly < 144 && 0 <= lx <= 80 ==> spec_mode_for(ly, lx) == PPUMode::Mode2OAMScan,
        ly < 144 && 80 < lx <= 289 ==> spec_mode_for(ly, lx) == PPUMode::Mode3DrawingPixels,
        ly < 144 && 289 < lx ==> spec_mode_for(ly, lx) == PPUMode::Mode0HorizontalBlank,
        ly >= 144 ==> spec_mode_for(ly, lx) == PPUMode::Mode1VerticalBlank,
{
}

/// The tile index of a background map: `(address - base) / 16` picks the
/// tile, the remainder the byte within it.
pub open spec fn vram_tile(address: u16) -> int {
    (address - 0x8000) / 16
}

pub open spec fn vram_off(address: u16) -> int {
    (address - 0x8000) % 16
}

pub open spec fn oam_entry_idx(address: u16) -> int {
    (address - 0xFE00) / 4
}

pub open spec fn oam_entry_off(address: u16) -> int {
    (address - 0xFE00) % 4
}

#[derive(Debug)]
pub struct PPU {
    /// Intra-line dot counter, 0 to 456.
    pub lx: usize,
    pub mode: PPUMode,
    /// The 384 tiles of pixel data at 0x8000-0x97FF.
    pub sprites: Vec<Sprite>,
    /// The 40 sprite attribute entries at 0xFE00-0xFE9F.
    pub oam_entries: Vec<OAMEntry>,
    /// The finished pixels, row-major, one row per visible scanline.
    pub screen_buffer: Vec<DrawColor>,
    /// Background tile map at 0x9800-0x9BFF.
    pub tile_map_lower: Vec<u8>,
    /// Background tile map at 0x9C00-0x9FFF.
    pub tile_map_upper: Vec<u8>,
}

impl PPU {
    pub open spec fn wf(self) -> bool {
        &&& self.lx <= DOTS_PER_LINE
        &&& self.sprites@.len() == 384
        &&& forall|i: int| 0 <= i < 384 ==> (#[trigger] self.sprites@[i]).wf()
        &&& self.oam_entries@.len() == 40
        &&& forall|i: int| 0 <= i < 40 ==> (#[trigger] self.oam_entries@[i]).wf()
        &&& self.screen_buffer@.len() == SCREEN_HEIGHT_PIXELS * SCREEN_WIDTH_PIXELS
        &&& self.tile_map_lower@.len() == 1024
        &&& self.tile_map_upper@.len() == 1024
    }

    /// Everything but the dot counter, the mode and the screen buffer is
    /// unchanged between two states.
    pub open spec fn video_memory_unchanged(pre: PPU, post: PPU) -> bool {
        &&& post.sprites@ == pre.sprites@
        &&& post.oam_entries@ == pre.oam_entries@
        &&& post.tile_map_lower@ == pre.tile_map_lower@
        &&& post.tile_map_upper@ == pre.tile_map_upper@
    }

    pub open spec fn spec_read_vram(self, address: u16) -> u8 {
        self.sprites@[vram_tile(address)].raw@[vram_off(address)]
    }

    pub open spec fn spec_read_tile_map(self, address: u16) -> u8 {
        if address <= 0x9BFF {
            self.tile_map_lower@[address - 0x9800]
        } else {
            self.tile_map_upper@[address - 0x9C00]
        }
    }

    pub open spec fn spec_read_oam(self, address: u16) -> u8 {
        self.oam_entries@[oam_entry_idx(address)].spec_to_byte(oam_entry_off(address))
    }

    /// Whether two PPU states are equal, compared by their views.
    pub open spec fn state_eq(a: PPU, b: PPU) -> bool {
        &&& b.lx == a.lx
        &&& b.mode == a.mode
        &&& PPU::video_memory_unchanged(a, b)
        &&& b.screen_buffer@ == a.screen_buffer@
    }

    /// How one write into tile pixel data relates two PPU states.
    pub open spec fn vram_write_rel(pre: PPU, post: PPU, address: u16, val: u8) -> bool {
        &&& post.sprites@.len() == pre.sprites@.len()
        &&& post.sprites@[vram_tile(address)].raw@ == pre.sprites@[vram_tile(address)].raw@.update(
            vram_off(address),
            val,
        )
        &&& forall|i: int| 0 <= i < pre.sprites@.len() && i != vram_tile(address)
            ==> post.sprites@[i] == pre.sprites@[i]
        &&& post.oam_entries@ == pre.oam_entries@
        &&& post.tile_map_lower@ == pre.tile_map_lower@
        &&& post.tile_map_upper@ == pre.tile_map_upper@
        &&& post.screen_buffer@ == pre.screen_buffer@
        &&& post.lx == pre.lx
        &&& post.mode == pre.mode
    }

    /// How one write into a background tile map relates two PPU states.
    pub open spec fn tile_map_write_rel(pre: PPU, post: PPU, address: u16, val: u8) -> bool {
        &&& if address <= 0x9BFF {
            &&& post.tile_map_lower@ == pre.tile_map_lower@.update(address - 0x9800, val)
            &&& post.tile_map_upper@ == pre.tile_map_upper@
        } else {
            &&& post.tile_map_upper@ == pre.tile_map_upper@.update(address - 0x9C00, val)
            &&& post.tile_map_lower@ == pre.tile_map_lower@
        }
        &&& post.sprites@ == pre.sprites@
        &&& post.oam_entries@ == pre.oam_entries@
        &&& post.screen_buffer@ == pre.screen_buffer@
        &&& post.lx == pre.lx
        &&& post.mode == pre.mode
    }

    /// How one write into the sprite attribute table relates two PPU states.
    pub open spec fn oam_write_rel(pre: PPU, post: PPU, address: u16, val: u8) -> bool {
        &&& post.oam_entries@ == pre.oam_entries@.update(
            oam_entry_idx(address),
            pre.oam_entries@[oam_entry_idx(address)].spec_write(oam_entry_off(address), val),
        )
        &&& post.sprites@ == pre.sprites@
        &&& post.tile_map_lower@ == pre.tile_map_lower@
        &&& post.tile_map_upper@ == pre.tile_map_upper@
        &&& post.screen_buffer@ == pre.screen_buffer@
        &&& post.lx == pre.lx
        &&& post.mode == pre.mode
    }

    /// The first `n` pixels of screen row `ly` in `post` hold the rendered
    /// background pixels of `pre`; the rest of the buffer is unchanged.
    pub open spec fn row_rendered_upto(pre: PPU, post: PPU, ly: u8, scx: u8, scy: u8, upper_map: bool, n: int) -> bool {
        &&& post.screen_buffer@.len() == pre.screen_buffer@.len()
        &&& forall|i: int| 0 <= i < post.screen_buffer@.len()
            ==> #[trigger] post.screen_buffer@[i] == (if ly * 166 <= i < ly * 166 + n {
                spec_shade(pre.spec_bg_pixel(ly, (i - ly * 166) as u8, scx, scy, upper_map))
            } else {
                pre.screen_buffer@[i]
            })
    }

    /// Screen row `ly` in `post` holds the rendered background pixels of
    /// `pre`; the rest of the buffer is unchanged.
    pub open spec fn row_rendered(pre: PPU, post: PPU, ly: u8, scx: u8, scy: u8, upper_map: bool) -> bool {
        PPU::row_rendered_upto(pre, post, ly, scx, scy, upper_map, 166)
    }

    /// The background pixel covering screen position (x, y): the scroll
    /// registers shift the position modulo the 256-pixel background, the
    /// active tile map names the covering tile, and the tile's packed pixel
    /// data yields a 2-bit colour index.
    pub open spec fn spec_bg_pixel(self, y: u8, x: u8, scx: u8, scy: u8, upper_map: bool) -> ColorIdx {
        let bg_x = x.wrapping_add(scx);
        let bg_y = y.wrapping_add(scy);
        let map = if upper_map {
            self.tile_map_upper@
        } else {
            self.tile_map_lower@
        };
        let tile_idx = map[(bg_y / 8) * 32 + (bg_x / 8)];
        self.sprites@[tile_idx as int].spec_pixel(bg_x % 8, bg_y % 8)
    }

    pub fn new() -> (r: PPU)
        ensures
            r.wf(),
            r.lx == 0,
            r.mode == PPUMode::Mode2OAMScan,
            forall|i: int, j: int| 0 <= i < 384 && 0 <= j < 16
                ==> #[trigger] r.sprites@[i].raw@[j] == 0u8,
            forall|i: int| 0 <= i < 40 ==> #[trigger] r.oam_entries@[i] == (OAMEntry {
                y: 0u8,
                x: 0u8,
                tile_idx: 0u8,
                priority: false,
                y_flip: false,
                x_flip: false,
                palette: 0u8,
            }),
            forall|i: int| 0 <= i < 144 * 166 ==> r.screen_buffer@[i] == DrawColor::BLACK,
            forall|i: int| 0 <= i < 1024 ==> r.tile_map_lower@[i] == 0u8 && r.tile_map_upper@[i] == 0u8,
    {
        let mut sprites: Vec<Sprite> = Vec::new();
        let mut k: usize = 0;
        while k < 384
            invariant
                k <= 384,
                sprites@.len() == k,
                forall|i: int| 0 <= i < k ==> (#[trigger] sprites@[i]).wf(),
                forall|i: int, j: int| 0 <= i < k && 0 <= j < 16
                    ==> #[trigger] sprites@[i].raw@[j] == 0u8,
            decreases 384 - k,
        {
            sprites.push(Sprite::from_zeros());
            k = k + 1;
        }
        let mut oam_entries: Vec<OAMEntry> = Vec::new();
        let mut k: usize = 0;
        while k < 40
            invariant
                k <= 40,
                oam_entries@.len() == k,
                forall|i: int| 0 <= i < k ==> (#[trigger] oam_entries@[i]).wf(),
                forall|i: int| 0 <= i < k ==> #[trigger] oam_entries@[i] == (OAMEntry {
                    y: 0u8,
                    x: 0u8,
                    tile_idx: 0u8,
                    priority: false,
                    y_flip: false,
                    x_flip: false,
                    palette: 0u8,
                }),
            decreases 40 - k,
        {
            oam_entries.push(OAMEntry::from_zeros());
            k = k + 1;
        }
        let mut screen_buffer: Vec<DrawColor> = Vec::new();
        let mut k: usize = 0;
        while k < SCREEN_HEIGHT_PIXELS * SCREEN_WIDTH_PIXELS
            invariant
                k <= SCREEN_HEIGHT_PIXELS * SCREEN_WIDTH_PIXELS,
                screen_buffer@.len() == k,
                forall|i: int| 0 <= i < k ==> screen_buffer@[i] == DrawColor::BLACK,
            decreases SCREEN_HEIGHT_PIXELS * SCREEN_WIDTH_PIXELS - k,
        {
            screen_buffer.push(DrawColor::BLACK);
            k = k + 1;
        }
        PPU {
            lx: 0,
            mode: PPUMode::Mode2OAMScan,
            sprites,
            oam_entries,
            screen_buffer,
            tile_map_lower: zeroed_bytes(1024),
            tile_map_upper: zeroed_bytes(1024),
        }
    }

    pub fn read_tile_map(&self, address: u16) -> (r: u8)
        requires
            self.wf(),
            0x9800 <= address <= 0x9FFF,
        ensures
            r == self.spec_read_tile_map(address),
    {
        if address <= 0x9BFF {
            self.tile_map_lower[(address - 0x9800) as usize]
        } else {
            self.tile_map_upper[(address - 0x9C00) as usize]
        }
    }

    pub fn write_tile_map(&mut self, address: u16, value: u8)
        requires
            old(self).wf(),
            0x9800 <= address <= 0x9FFF,
        ensures
            final(self).wf(),
            PPU::tile_map_write_rel(*old(self), *final(self), address, value),
    {
        if address <= 0x9BFF {
            self.tile_map_lower[(address - 0x9800) as usize] = value;
        } else {
            self.tile_map_upper[(address - 0x9C00) as usize] = value;
        }
    }

    pub fn read_oam(&self, address: u16) -> (r: u8)
        requires
            self.wf(),
            0xFE00 <= address <= 0xFE9F,
        ensures
            r == self.spec_read_oam(address),
    {
        let offset_address: usize = (address - 0xFE00) as usize;
        let entry = self.oam_entries[offset_address / 4];
        entry.to_byte(offset_address % 4)
    }

    pub fn write_oam(&mut self, address: u16, val: u8)
        requires
            old(self).wf(),
            0xFE00 <= address <= 0xFE9F,
        ensures
            final(self).wf(),
            PPU::oam_write_rel(*old(self), *final(self), address, val),
    {
        let offset_address: usize = (address - 0xFE00) as usize;
        let mut entry = self.oam_entries[offset_address / 4];
        entry.write_byte(offset_address % 4, val);
        self.oam_entries[offset_address / 4] = entry;
    }

    pub fn read_vram(&self, address: u16) -> (r: u8)
        requires
            self.wf(),
            0x8000 <= address <= 0x97FF,
        ensures
            r == self.spec_read_vram(address),
    {
        let offset_address: usize = (address - 0x8000) as usize;
        let tile = offset_address / 16;
        self.sprites[tile].read_byte(offset_address % 16)
    }

    pub fn write_vram(&mut self, address: u16, val: u8)
        requires
            old(self).wf(),
            0x8000 <= address <= 0x97FF,
        ensures
            final(self).wf(),
            PPU::vram_write_rel(*old(self), *final(self), address, val),
    {
        let offset_address: usize = (address - 0x8000) as usize;
        let tile = offset_address / 16;
        let entry = &mut self.sprites[tile];
        entry.write_byte(offset_address % 16, val);
    }

    /// Recompute the mode from the scanline and the current dot counter.
    pub fn update_mode(&mut self, ly: u8)
        ensures
            final(self).mode == spec_mode_for(ly, old(self).lx as int),
            *final(self) == (PPU { mode: final(self).mode, ..*old(self) }),
    {
        if ly >= 144 {
            self.mode = PPUMode::Mode1VerticalBlank;
        } else if self.lx <= 80 {
            self.mode = PPUMode::Mode2OAMScan;
        } else if self.lx <= 289 {
            self.mode = PPUMode::Mode3DrawingPixels;
        } else {
            self.mode = PPUMode::Mode0HorizontalBlank;
        }
    }

    /// Advance the dot counter by one; at the end of a line reset it and
    /// step the scanline register (wrapping after scanline 153), then
    /// recompute the mode and report it into STAT. Returns whether a line
    /// boundary was crossed.
    pub fn update_scan_registers(&mut self, regs: &mut HardwareRegisters) -> (crossed: bool)
        requires
            old(self).wf(),
            old(regs).wf(),
        ensures
            final(self).wf(),
            final(regs).wf(),
            crossed == (old(self).lx >= DOTS_PER_LINE),
            crossed ==> final(self).lx == 0 && final(regs).LY == (if old(regs).LY >= 153 {
                0u8
            } else {
                (old(regs).LY + 1) as u8
            }),
            !crossed ==> final(self).lx == old(self).lx + 1 && final(regs).LY == old(regs).LY,
            final(self).mode == spec_mode_for(final(regs).LY, final(self).lx as int),
            *final(regs) == (HardwareRegisters {
                LY: final(regs).LY,
                STAT: STAT { ppu_mode: spec_mode_code(final(self).mode), ..old(regs).STAT },
                ..*old(regs)
            }),
            PPU::video_memory_unchanged(*old(self), *final(self)),
            final(self).screen_buffer@ == old(self).screen_buffer@,
    {
        let crossed: bool;
        let ly: u8;
        if self.lx >= DOTS_PER_LINE {
            self.lx = 0;
            ly = regs.inc_ly_wrapping(153);
            crossed = true;
        } else {
            self.lx = self.lx + 1;
            ly = regs.LY;
            crossed = false;
        }
        self.update_mode(ly);
        let code: u8 = match self.mode {
            PPUMode::Mode0HorizontalBlank => 0,
            PPUMode::Mode1VerticalBlank => 1,
            PPUMode::Mode2OAMScan => 2,
            PPUMode::Mode3DrawingPixels => 3,
        };
        regs.STAT.set_mode(code);
        crossed
    }

    /// The shade of the background pixel at screen position (x, y).
    pub fn get_pixel(&self, y: u8, x: u8, scx: u8, scy: u8, upper_map: bool) -> (r: DrawColor)
        requires
            self.wf(),
        ensures
            r == spec_shade(self.spec_bg_pixel(y, x, scx, scy, upper_map)),
    {
        let pixel = self.get_bg_pixel(y, x, scx, scy, upper_map);
        match pixel {
            ColorIdx::Zero => DrawColor::WHITE,
            ColorIdx::One => DrawColor::LIGHTGREY,
            ColorIdx::Two => DrawColor::DARKGREY,
            ColorIdx::Three => DrawColor::BLACK,
        }
    }

    /// The raw colour index of the background pixel at screen position
    /// (x, y).
    pub fn get_bg_pixel(&self, y: u8, x: u8, scx: u8, scy: u8, upper_map: bool) -> (r: ColorIdx)
        requires
            self.wf(),
        ensures
            r == self.spec_bg_pixel(y, x, scx, scy, upper_map),
    {
        let bg_x = x.wrapping_add(scx);
        let bg_y = y.wrapping_add(scy);
        let map_idx: usize = ((bg_y / 8) as usize) * 32 + ((bg_x / 8) as usize);
        let tile_idx: u8 = if upper_map {
            self.tile_map_upper[map_idx]
        } else {
            self.tile_map_lower[map_idx]
        };
        let tile = &self.sprites[tile_idx as usize];
        tile.pixel_at(bg_x % 8, bg_y % 8)
    }

    /// Render one visible scanline of background pixels into the screen
    /// buffer.
    pub fn render_line(&mut self, ly: u8, scx: u8, scy: u8, upper_map: bool)
        requires
            old(self).wf(),
            ly < 144,
        ensures
            final(self).wf(),
            PPU::video_memory_unchanged(*old(self), *final(self)),
            final(self).lx == old(self).lx,
            final(self).mode == old(self).mode,
            final(self).screen_buffer@.len() == 144 * 166,
            PPU::row_rendered(*old(self), *final(self), ly, scx, scy, upper_map),
    {
        let base: usize = (ly as usize) * SCREEN_WIDTH_PIXELS;
        let mut x: usize = 0;
        while x < SCREEN_WIDTH_PIXELS
            invariant
                x <= 166,
                base == ly * 166,
                ly < 144,
                self.wf(),
                PPU::video_memory_unchanged(*old(self), *self),
                self.lx == old(self).lx,
                self.mode == old(self).mode,
                self.screen_buffer@.len() == 144 * 166,
                PPU::row_rendered_upto(*old(self), *self, ly, scx, scy, upper_map, x as int),
            decreases 166 - x,
        {
            let c = self.get_pixel(ly, x as u8, scx, scy, upper_map);
            self.screen_buffer[base + x] = c;
            x = x + 1;
        }
    }

    /// Advance by one dot: step the counters, and when a line boundary is
    /// crossed into a visible scanline, render that line.
    pub fn step(&mut self, regs: &mut HardwareRegisters) -> (crossed: bool)
        requires
            old(self).wf(),
            old(regs).wf(),
        ensures
            final(self).wf(),
            final(regs).wf(),
            crossed == (old(self).lx >= DOTS_PER_LINE),
            crossed ==> final(self).lx == 0 && final(regs).LY == (if old(regs).LY >= 153 {
                0u8
            } else {
                (old(regs).LY + 1) as u8
            }),
            !crossed ==> final(self).lx == old(self).lx + 1 && final(regs).LY == old(regs).LY,
            final(self).mode == spec_mode_for(final(regs).LY, final(self).lx as int),
            *final(regs) == (HardwareRegisters {
                LY: final(regs).LY,
                STAT: STAT { ppu_mode: spec_mode_code(final(self).mode), ..old(regs).STAT },
                ..*old(regs)
            }),
            PPU::video_memory_unchanged(*old(self), *final(self)),
            crossed && final(regs).LY < 144 ==> PPU::row_rendered(
                *old(self),
                *final(self),
                final(regs).LY,
                old(regs).SCX,
                old(regs).SCY,
                old(regs).LCDC.bg_tile_map_display_selct,
            ),
            !(crossed && final(regs).LY < 144) ==> final(self).screen_buffer@ == old(self).screen_buffer@,
    {
        let crossed = self.update_scan_registers(regs);
        if crossed && regs.LY < 144 {
            let ly = regs.LY;
            let scx = regs.SCX;
            let scy = regs.SCY;
            let upper = regs.LCDC.bg_tile_map_display_selct;
            self.render_line(ly, scx, scy, upper);
        }
        crossed
    }

    pub fn get_screen_buffer(&self) -> (r: &Vec<DrawColor>)
        ensures
            r@ == self.screen_buffer@,
    {
        &self.screen_buffer
    }
}

} // verus!
