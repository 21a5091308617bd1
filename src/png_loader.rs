use vstd::prelude::*;

verus! {

/// The value of a 24-bit colour packed as `R << 16 | G << 8 | B`.
pub open spec fn packed_colour(r: u8, g: u8, b: u8) -> int {
    r as int * 65536 + g as int * 256 + b as int
}

/// A decoded RGB image: three bytes per pixel, rows one after the other.
#[derive(Clone)]
pub struct PngLoader {
    png_temp: Vec<u8>,
    width: usize,
    height: usize,
}

impl PngLoader {
    pub closed spec fn pixels(&self) -> Seq<u8> {
        self.png_temp@
    }

    pub closed spec fn spec_width(&self) -> nat {
        self.width as nat
    }

    pub closed spec fn spec_height(&self) -> nat {
        self.height as nat
    }

    /// The buffer holds exactly one RGB triple for each pixel.
    pub open spec fn wf(&self) -> bool {
        self.pixels().len() == 3 * self.spec_width() * self.spec_height()
    }

    /// The packed colour of pixel (x, y), or 0 while no image is loaded.
    pub open spec fn rgb_at(&self, x: nat, y: nat) -> int {
        if self.spec_width() > 0 && self.spec_height() > 0 {
            let i: int = 3 * (y * self.spec_width() + x) as int;
            packed_colour(self.pixels()[i], self.pixels()[i + 1], self.pixels()[i + 2])
        } else {
            0
        }
    }

    pub fn new() -> (r: PngLoader)
        ensures
            r.wf(),
            r.spec_width() == 0,
            r.spec_height() == 0,
            r.pixels().len() == 0,
    {
        PngLoader { png_temp: Vec::new(), width: 0, height: 0 }
    }

    /// Takes a decoded image of `width` by `height` pixels, three bytes each,
    /// and hands the pixels back. A buffer of any other length is refused and
    /// leaves the loader as it was.
    pub fn load_pixels(&mut self, width: usize, height: usize, pixels: Vec<u8>) -> (r: Result<
        Vec<u8>,
        String,
    >)
        ensures
            r.is_ok() <==> pixels@.len() == 3 * width * height,
            r.is_ok() ==> {
                &&& r.unwrap()@ == pixels@
                &&& final(self).pixels() == pixels@
                &&& final(self).spec_width() == width
                &&& final(self).spec_height() == height
                &&& final(self).wf()
            },
            r.is_err() ==> *final(self) == *old(self),
    {
        let len = pixels.len();
        assert(3 * width * height == (width * height) * 3) by (nonlinear_arith);
        let expected = match width.checked_mul(height) {
            Some(n) => n.checked_mul(3),
            None => None,
        };
        let fits = match expected {
            Some(n) => n == len,
            None => false,
        };
        if fits {
            let copy = pixels.clone();
            assert(copy@ =~= pixels@);
            self.png_temp = pixels;
            self.width = width;
            self.height = height;
            Ok(copy)
        } else {
            proof {
                if len == 3 * width * height {
                    assert(width * height <= usize::MAX) by (nonlinear_arith)
                        requires
                            len == 3 * width * height,
                            len <= usize::MAX,
                    ;
                }
            }
            Err(String::from_str("the pixel buffer does not hold three bytes per pixel"))
        }
    }

    pub fn _get_width(&self) -> (r: usize)
        ensures
            r == self.spec_width(),
    {
        self.width
    }

    pub fn get_height(&self) -> (r: usize)
        ensures
            r == self.spec_height(),
    {
        self.height
    }

    /// The colour of pixel (x, y) packed into one integer, or 0 while no
    /// image is loaded.
    pub fn get_rgb(&self, x: usize, y: usize) -> (r: i32)
        requires
            self.wf(),
            self.spec_width() == 0 || self.spec_height() == 0 || (x < self.spec_width() && y
                < self.spec_height()),
        ensures
            r == self.rgb_at(x as nat, y as nat),
            0 <= r < 16777216,
    {
        let mut r: i32 = 0;
        let mut g: i32 = 0;
        let mut b: i32 = 0;
        if self.height > 0 && self.width > 0 {
            let len = self.png_temp.len();
            proof {
                let w = self.width as int;
                let h = self.height as int;
                assert(3 * (y * w + x) + 2 < 3 * w * h) by (nonlinear_arith)
                    requires
                        x < w,
                        y < h,
                ;
                assert(y * w + x < w * h) by (nonlinear_arith)
                    requires
                        x < w,
                        y < h,
                ;
            }
            let base = 3 * (y * self.width + x);
            r = self.png_temp[base] as i32;
            g = self.png_temp[base + 1] as i32;
            b = self.png_temp[base + 2] as i32;
        }
        let h: i32 = (r << 16) | (g << 8) | b;
        assert(h == r * 65536 + g * 256 + b && 0 <= h < 16777216) by (bit_vector)
            requires
                0 <= r < 256,
                0 <= g < 256,
                0 <= b < 256,
                h == (r << 16) | (g << 8) | b,
        ;
        h
    }
}

} // verus!
