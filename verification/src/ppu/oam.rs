//! One entry of the sprite attribute table: position, tile index, and the
//! flag byte in the hardware encoding — bit 7 priority, bit 6 Y-flip, bit 5
//! X-flip, bit 4 palette selector; the low nibble reads back as zero.

use vstd::prelude::*;

verus! {

#[derive(Clone, Copy, Debug, PartialEq, Eq, Structural)]
pub struct OAMEntry {
    pub y: u8,
    pub x: u8,
    pub tile_idx: u8,
    pub priority: bool,
    pub y_flip: bool,
    pub x_flip: bool,
    /// One-bit palette selector.
    pub palette: u8,
}

impl OAMEntry {
    pub open spec fn wf(self) -> bool {
        self.palette < 2
    }

    /// The packed flag byte.
    pub open spec fn spec_flags_byte(self) -> u8 {
        ((if self.priority { 0x80u8 } else { 0u8 })
        | (if self.y_flip { 0x40u8 } else { 0u8 })
        | (if self.x_flip { 0x20u8 } else { 0u8 })
        | ((self.palette & 1) as u8) << 4) as u8
    }

    /// The byte at one of the entry's four offsets.
    pub open spec fn spec_to_byte(self, offset: int) -> u8 {
        if offset == 0 {
            self.y
        } else if offset == 1 {
            self.x
        } else if offset == 2 {
            self.tile_idx
        } else {
            self.spec_flags_byte()
        }
    }

    /// The entry after one byte write at the given offset.
    pub open spec fn spec_write(self, offset: int, val: u8) -> OAMEntry {
        if offset == 0 {
            OAMEntry { y: val, ..self }
        } else if offset == 1 {
            OAMEntry { x: val, ..self }
        } else if offset == 2 {
            OAMEntry { tile_idx: val, ..self }
        } else {
            OAMEntry {
                priority: (val & 0x80) > 0,
                y_flip: (val & 0x40) > 0,
                x_flip: (val & 0x20) > 0,
                palette: (val >> 4) & 1,
                ..self
            }
        }
    }

    pub fn from_zeros() -> (r: OAMEntry)
        ensures
            r == (OAMEntry {
                y: 0u8,
                x: 0u8,
                tile_idx: 0u8,
                priority: false,
                y_flip: false,
                x_flip: false,
                palette: 0u8,
            }),
            r.wf(),
    {
        OAMEntry { y: 0, x: 0, tile_idx: 0, priority: false, y_flip: false, x_flip: false, palette: 0 }
    }

    pub fn to_byte(&self, offset: usize) -> (r: u8)
        requires
            offset < 4,
        ensures
            r == self.spec_to_byte(offset as int),
    {
        match offset {
            0 => self.y,
            1 => self.x,
            2 => self.tile_idx,
            _ => {
                (if self.priority { 0x80u8 } else { 0u8 })
                | (if self.y_flip { 0x40u8 } else { 0u8 })
                | (if self.x_flip { 0x20u8 } else { 0u8 })
                | ((self.palette & 1) << 4)
            },
        }
    }

    pub fn write_byte(&mut self, offset: usize, val: u8)
        requires
            offset < 4,
        ensures
            *final(self) == old(self).spec_write(offset as int, val),
            old(self).wf() ==> final(self).wf(),
            offset == 3 ==> final(self).wf(),
    {
        proof {
            lemma_palette_bounds();
        }
        match offset {
            0 => self.y = val,
            1 => self.x = val,
            2 => self.tile_idx = val,
            _ => {
                self.priority = (val & 0x80) > 0;
                self.y_flip = (val & 0x40) > 0;
                self.x_flip = (val & 0x20) > 0;
                self.palette = (val >> 4) & 1;
            },
        }
    }
}

/// The palette selector extracted from a flag byte is a single bit.
proof fn lemma_palette_bounds()
    by (bit_vector)
    ensures
        forall|v: u8| #[trigger] ((v >> 4) & 1) < 2,
{
}

} // verus!
