//! Decoded images: rows of RGBA pixels, top row first.

use vstd::prelude::*;

verus! {

/// The number of bytes that `width` by `height` pixels take.
pub open spec fn byte_len(width: nat, height: nat) -> nat {
    width * height * 4
}

/// The place, among the bytes of an image `width` pixels wide, of the first
/// byte of the pixel in column `x` of row `y`.
pub open spec fn pixel_offset(width: nat, x: nat, y: nat) -> nat {
    (y * width + x) * 4
}

/// The bytes of a pixel lie within the image, and after those of every pixel before it.
pub proof fn lemma_pixel_in_bounds(width: nat, height: nat, x: nat, y: nat)
    requires
        x < width,
        y < height,
    ensures
        pixel_offset(width, x, y) + 4 <= byte_len(width, height),
        y * width + x < width * height,
{
    assert(y * width + x < width * height) by (nonlinear_arith)
        requires
            x < width,
            y < height,
    ;
    assert(width * height * 4 == (width * height) * 4);
}

/// An RGBA image with eight bits to the channel.
#[derive(Debug)]
pub struct Raster {
    pub width: u32,
    pub height: u32,
    /// The pixels, row after row from the top, four bytes each.
    pub pixels: Vec<u8>,
}

impl Raster {
    /// Whether the image holds exactly the bytes of its pixels.
    pub open spec fn wf(&self) -> bool {
        self.pixels@.len() == byte_len(self.width as nat, self.height as nat)
    }

    /// The four bytes of the pixel in column `x` of row `y`.
    pub open spec fn pixel_spec(&self, x: nat, y: nat) -> Seq<u8> {
        self.pixels@.subrange(
            pixel_offset(self.width as nat, x, y) as int,
            pixel_offset(self.width as nat, x, y) as int + 4,
        )
    }

    /// An image of the given size over `pixels`, if `pixels` holds at least the
    /// bytes of that many pixels; bytes beyond them are dropped.
    pub fn from_rgba(width: u32, height: u32, pixels: Vec<u8>) -> (r: Option<Raster>)
        ensures
            match r {
                Some(image) => {
                    &&& byte_len(width as nat, height as nat) <= pixels@.len()
                    &&& image.wf()
                    &&& image.width == width
                    &&& image.height == height
                    &&& image.pixels@ == pixels@.subrange(
                        0,
                        byte_len(width as nat, height as nat) as int,
                    )
                },
                None => byte_len(width as nat, height as nat) > pixels@.len(),
            },
    {
        assert(width * height <= 0xffff_ffff * 0xffff_ffff) by (nonlinear_arith)
            requires
                width <= 0xffff_ffff,
                height <= 0xffff_ffff,
        ;
        let wanted: u128 = (width as u128) * (height as u128) * 4;
        if wanted > pixels.len() as u128 {
            return None;
        }
        let mut pixels = pixels;
        pixels.truncate(wanted as usize);
        Some(Raster { width, height, pixels })
    }

    /// The pixel in column `x` of row `y`.
    pub fn pixel(&self, x: u32, y: u32) -> (r: [u8; 4])
        requires
            self.wf(),
            x < self.width,
            y < self.height,
        ensures
            r@ == self.pixel_spec(x as nat, y as nat),
    {
        let total: usize = self.pixels.len();
        proof {
            lemma_pixel_in_bounds(self.width as nat, self.height as nat, x as nat, y as nat);
            assert(0 <= y * self.width) by (nonlinear_arith)
                requires
                    0 <= y,
                    0 <= self.width,
            ;
            assert(total == (self.width * self.height) * 4);
        }
        let at: usize = (y as usize * self.width as usize + x as usize) * 4;
        let r = [self.pixels[at], self.pixels[at + 1], self.pixels[at + 2], self.pixels[at + 3]];
        assert(r@ =~= self.pixel_spec(x as nat, y as nat));
        r
    }

    /// The image cut down to its first `rows` rows.
    pub fn crop_top(self, rows: u32) -> (r: Raster)
        requires
            self.wf(),
            rows <= self.height,
        ensures
            r.wf(),
            r.width == self.width,
            r.height == rows,
            r.pixels@ == self.pixels@.subrange(0, byte_len(self.width as nat, rows as nat) as int),
            forall|x: nat, y: nat| x < self.width && y < rows ==> r.pixel_spec(x, y) == self.pixel_spec(x, y),
    {
        let width = self.width;
        let ghost before = self;
        assert(0 <= width * rows <= width * self.height) by (nonlinear_arith)
            requires
                0 <= rows <= self.height,
                0 <= width,
        ;
        let total: usize = self.pixels.len();
        proof {
            assert(total == (width * self.height) * 4);
            assert(byte_len(width as nat, rows as nat) == (width * rows) * 4);
        }
        let keep: usize = width as usize * rows as usize * 4;
        let mut pixels = self.pixels;
        pixels.truncate(keep);
        let r = Raster { width, height: rows, pixels };
        proof {
            assert forall|x: nat, y: nat| x < width && y < rows implies r.pixel_spec(x, y)
                == before.pixel_spec(x, y) by {
                lemma_pixel_in_bounds(width as nat, rows as nat, x, y);
                assert(r.pixel_spec(x, y) =~= before.pixel_spec(x, y));
            }
        }
        r
    }
}

/// The place after `i` among `len` places in a row, held at the last place: the
/// neighbour that a blend of adjacent pixels reaches for at the rim.
pub open spec fn next_clamped_spec(i: u32, len: u32) -> u32 {
    if i + 1 < len {
        (i + 1) as u32
    } else {
        (len - 1) as u32
    }
}

/// The place after `i` among `len` places in a row, held at the last place.
pub fn next_clamped(i: u32, len: u32) -> (r: u32)
    requires
        i < len,
    ensures
        r == next_clamped_spec(i, len),
        i <= r < len,
        r <= i + 1,
{
    if i < len - 1 {
        i + 1
    } else {
        len - 1
    }
}

} // verus!
