//! One 8x8 tile of pixel data: 16 raw bytes, two per row, where bit `7-x` of
//! the row's two bytes combine to a 2-bit colour index for column `x`. The
//! decoded colour grid is kept alongside the raw bytes as an invariant.

use vstd::prelude::*;

use crate::buffer::zeroed_bytes;
use crate::ppu::ColorIdx;

verus! {

/// The 2-bit colour code of column `x` in a row encoded by bytes `b1` (low
/// bit plane) and `b2` (high bit plane).
pub open spec fn spec_pixel_code(b1: u8, b2: u8, x: u8) -> u8 {
    (((b2 >> ((7 - x) as u8)) & 1) << 1) | ((b1 >> ((7 - x) as u8)) & 1)
}

#[derive(Debug)]
pub struct Sprite {
    /// The 16 raw bytes, two per row, top to bottom.
    pub raw: Vec<u8>,
    /// The decoded colour of each pixel, row-major.
    pub colour: Vec<ColorIdx>,
}

impl Sprite {
    /// The decoded colour of the pixel at column `x`, row `y`.
    pub open spec fn spec_pixel(self, x: u8, y: u8) -> ColorIdx {
        ColorIdx::spec_from_code(spec_pixel_code(self.raw@[2 * y], self.raw@[2 * y + 1], x))
    }

    pub open spec fn wf(self) -> bool {
        &&& self.raw@.len() == 16
        &&& self.colour@.len() == 64
        &&& forall|y: u8, x: u8| y < 8 && x < 8
            ==> self.colour@[y * 8 + x] == #[trigger] self.spec_pixel(x, y)
    }

    /// Recompute the colour grid from the raw bytes.
    fn update_colour(&mut self)
        requires
            old(self).raw@.len() == 16,
            old(self).colour@.len() == 64,
        ensures
            final(self).raw@ == old(self).raw@,
            final(self).wf(),
    {
        let mut k: usize = 0;
        while k < 64
            invariant
                k <= 64,
                self.raw@ == old(self).raw@,
                self.raw@.len() == 16,
                self.colour@.len() == 64,
                forall|m: int| 0 <= m < k
                    ==> #[trigger] self.colour@[m] == self.spec_pixel((m % 8) as u8, (m / 8) as u8),
            decreases 64 - k,
        {
            let y: usize = k / 8;
            let x: usize = k % 8;
            let b1 = self.raw[2 * y];
            let b2 = self.raw[2 * y + 1];
            let shift: u8 = 7 - (x as u8);
            let code: u8 = (((b2 >> shift) & 1) << 1) | ((b1 >> shift) & 1);
            proof {
                assert(code < 4) by (bit_vector)
                    requires
                        code == (((b2 >> shift) & 1) << 1) | ((b1 >> shift) & 1),
                ;
            }
            self.colour[k] = ColorIdx::from_code(code);
            k = k + 1;
        }
        proof {
            assert forall|y: u8, x: u8| y < 8 && x < 8
                implies self.colour@[y * 8 + x] == #[trigger] self.spec_pixel(x, y) by {
                let m: int = y * 8 + x;
                assert(m % 8 == x && m / 8 == y) by (nonlinear_arith)
                    requires
                        y < 8,
                        x < 8,
                        m == y * 8 + x,
                ;
            }
        }
    }

    pub fn new(raw: Vec<u8>) -> (r: Sprite)
        requires
            raw@.len() == 16,
        ensures
            r.wf(),
            r.raw@ == raw@,
    {
        let mut colour: Vec<ColorIdx> = Vec::new();
        let mut k: usize = 0;
        while k < 64
            invariant
                k <= 64,
                colour@.len() == k,
            decreases 64 - k,
        {
            colour.push(ColorIdx::Zero);
            k = k + 1;
        }
        let mut spr = Sprite { raw, colour };
        spr.update_colour();
        spr
    }

    pub fn from_zeros() -> (r: Sprite)
        ensures
            r.wf(),
            forall|i: int| 0 <= i < 16 ==> r.raw@[i] == 0u8,
    {
        Sprite::new(zeroed_bytes(16))
    }

    pub fn read_byte(&self, offset: usize) -> (r: u8)
        requires
            self.wf(),
            offset < 16,
        ensures
            r == self.raw@[offset as int],
    {
        self.raw[offset]
    }

    pub fn write_byte(&mut self, offset: usize, val: u8)
        requires
            old(self).wf(),
            offset < 16,
        ensures
            final(self).wf(),
            final(self).raw@ == old(self).raw@.update(offset as int, val),
    {
        self.raw[offset] = val;
        self.update_colour();
    }

    /// The decoded colour at column `x`, row `y`.
    pub fn pixel_at(&self, x: u8, y: u8) -> (r: ColorIdx)
        requires
            self.wf(),
            x < 8,
            y < 8,
        ensures
            r == self.spec_pixel(x, y),
    {
        let idx: usize = (y as usize) * 8 + (x as usize);
        self.colour[idx]
    }
}

} // verus!
