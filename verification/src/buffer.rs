//! Owned pixel buffers with four 8-bit channels per pixel.

use vstd::prelude::*;

verus! {

/// A grid position's row-major linear index stays inside the grid.
pub proof fn lemma_grid_index(w: int, h: int, x: int, y: int)
    by (nonlinear_arith)
    requires
        0 <= x < w,
        0 <= y < h,
    ensures
        0 <= y * w + x < w * h,
{
}

/// An owned RGBA image: four 8-bit channels per pixel, row-major,
/// origin top-left.
pub struct Rgba8Image {
    pub width: u32,
    pub height: u32,
    pub data: Vec<u8>,
}

impl Rgba8Image {
    /// The data holds exactly four bytes per pixel.
    pub open spec fn wf(&self) -> bool {
        self.data.len() == 4 * (self.width as int) * (self.height as int)
    }

    /// Channel `c` of the pixel at column `x`, row `y`.
    pub open spec fn spec_channel(&self, x: int, y: int, c: int) -> u8 {
        self.data[4 * (y * (self.width as int) + x) + c]
    }

    /// The four channels of the pixel at column `x`, row `y`.
    pub open spec fn spec_pixel(&self, x: int, y: int) -> (u8, u8, u8, u8) {
        (
            self.spec_channel(x, y, 0),
            self.spec_channel(x, y, 1),
            self.spec_channel(x, y, 2),
            self.spec_channel(x, y, 3),
        )
    }

    /// Wraps a raw byte vector as an image when its length matches the
    /// dimensions, four bytes per pixel.
    pub fn from_raw(width: u32, height: u32, data: Vec<u8>) -> (r: Option<Rgba8Image>)
        ensures
            match r {
                Some(img) => {
                    &&& img.wf()
                    &&& img.width == width
                    &&& img.height == height
                    &&& img.data@ == data@
                    &&& data@.len() == 4 * (width as int) * (height as int)
                },
                None => data@.len() != 4 * (width as int) * (height as int),
            },
    {
        proof {
            assert(4 * (width as int) * (height as int) <= u128::MAX) by (nonlinear_arith);
        }
        let expected: u128 = 4 * (width as u128) * (height as u128);
        if (data.len() as u128) == expected {
            Some(Rgba8Image { width, height, data })
        } else {
            None
        }
    }

    /// Reads the pixel at column `x`, row `y`.
    pub fn get_pixel(&self, x: u32, y: u32) -> (p: (u8, u8, u8, u8))
        requires
            self.wf(),
            x < self.width,
            y < self.height,
        ensures
            p == self.spec_pixel(x as int, y as int),
    {
        let n: usize = self.data.len();
        proof {
            lemma_grid_index(self.width as int, self.height as int, x as int, y as int);
            assert(4 * ((y as int) * (self.width as int) + (x as int)) + 3
                < 4 * (self.width as int) * (self.height as int)) by (nonlinear_arith)
                requires
                    0 <= (y as int) * (self.width as int) + (x as int)
                        < (self.width as int) * (self.height as int),
            ;
        }
        let base: usize = 4 * ((y as usize) * (self.width as usize) + (x as usize));
        (self.data[base], self.data[base + 1], self.data[base + 2], self.data[base + 3])
    }
}

} // verus!
