//! The normalized output image: a flat top-down RGBA byte buffer, and
//! the crop that composes the final capture from it.

use vstd::prelude::*;
use vstd::arithmetic::div_mod::lemma_fundamental_div_mod_converse;
use crate::error::XCapError;

verus! {

/// A top-down RGBA image: `data` holds `width * height` pixels of four
/// bytes each, rows first.
#[derive(Debug, Clone, PartialEq, Eq)]
pub struct RgbaImage {
    pub width: u32,
    pub height: u32,
    pub data: Vec<u8>,
}

/// The source byte that byte `j` of a `w`-pixel-wide crop at `(x, y)`
/// out of a `src_w`-pixel-wide image reads: byte `j % (w * 4)` of source
/// row `y + j / (w * 4)`, starting at pixel column `x`.
pub open spec fn crop_src_index(src_w: int, x: int, y: int, w: int, j: int) -> int
    recommends
        w >= 1,
{
    ((y + j / (w * 4)) * src_w + x) * 4 + j % (w * 4)
}

/// The bytes of the `w` by `h` rectangle at offset `(x, y)` of a
/// `src_w`-pixel-wide image, rows first.
pub open spec fn crop_spec(src: Seq<u8>, src_w: int, x: int, y: int, w: int, h: int) -> Seq<u8> {
    Seq::new((h * w * 4) as nat, |j: int| src[crop_src_index(src_w, x, y, w, j)])
}

impl RgbaImage {
    /// The buffer holds exactly four bytes per pixel.
    pub open spec fn wf(self) -> bool {
        self.data@.len() == self.width * self.height * 4
    }

    /// Wrap a raw buffer as an image if and only if its length is
    /// exactly `width * height * 4`.
    pub fn from_raw(width: u32, height: u32, buffer: Vec<u8>) -> (r: Option<RgbaImage>)
        ensures
            r.is_some() <==> buffer@.len() == width * height * 4,
            r.is_some() ==> ({
                let img = r.unwrap();
                &&& img.width == width
                &&& img.height == height
                &&& img.data@ == buffer@
                &&& img.wf()
            }),
    {
        proof {
            assert(width as int * (height as int) <= 0xffff_ffff_ffff_ffff) by (nonlinear_arith)
                requires
                    width <= 0xffff_ffff,
                    height <= 0xffff_ffff,
            ;
        }
        let pixels: u64 = width as u64 * height as u64;
        if buffer.len() as u128 == pixels as u128 * 4 {
            Some(RgbaImage { width, height, data: buffer })
        } else {
            None
        }
    }

    /// The final composition step: the `w` by `h` sub-image at offset
    /// `(x, y)`. A request that exceeds the source bounds is refused as a
    /// shape error rather than silently clipped.
    pub fn crop(&self, x: u32, y: u32, w: u32, h: u32) -> (r: Result<RgbaImage, XCapError>)
        requires
            self.wf(),
        ensures
            r.is_ok() <==> x + w <= self.width && y + h <= self.height,
            r.is_ok() ==> ({
                let img = r.unwrap();
                &&& img.wf()
                &&& img.width == w
                &&& img.height == h
                &&& img.data@ == crop_spec(self.data@, self.width as int, x as int, y as int, w as int, h as int)
            }),
            r.is_err() ==> r == Err::<RgbaImage, XCapError>(XCapError::BufferShapeInvalid),
    {
        if x as u64 + w as u64 > self.width as u64 || y as u64 + h as u64 > self.height as u64 {
            return Err(XCapError::BufferShapeInvalid);
        }
        if w == 0 || h == 0 {
            let img = RgbaImage { width: w, height: h, data: Vec::new() };
            proof {
                assert(h as int * (w as int) * 4 == 0) by (nonlinear_arith)
                    requires
                        w == 0 || h == 0,
                ;
                assert(w as int * (h as int) * 4 == 0) by (nonlinear_arith)
                    requires
                        w == 0 || h == 0,
                ;
                assert(img.data@ =~= crop_spec(self.data@, self.width as int, x as int, y as int, w as int, h as int));
            }
            return Ok(img);
        }
        let sw: usize = self.width as usize;
        let data_len: usize = self.data.len();
        let ghost swi: int = self.width as int;
        let ghost len: int = data_len as int;
        proof {
            assert(w * 4 <= len && sw * 4 <= len) by (nonlinear_arith)
                requires
                    len == swi * (self.height as int) * 4,
                    1 <= w <= swi,
                    1 <= h <= self.height,
                    sw == swi,
            ;
        }
        let w4: usize = (w as usize) * 4;
        let mut out: Vec<u8> = Vec::new();
        let mut r: usize = 0;
        while r < h as usize
            invariant
                self.wf(),
                0 < w,
                0 < h,
                x + w <= self.width,
                y + h <= self.height,
                sw == self.width,
                w4 == w * 4,
                len == data_len,
                len == self.data@.len(),
                r <= h,
                out@.len() == r * (w * 4),
                forall|j: int|
                    0 <= j < out@.len() ==> out@[j] == self.data@[#[trigger] crop_src_index(
                        self.width as int,
                        x as int,
                        y as int,
                        w as int,
                        j,
                    )],
            decreases h as int - r,
        {
            let row: usize = y as usize + r;
            proof {
                assert((row * sw + x) * 4 + w * 4 <= len) by (nonlinear_arith)
                    requires
                        len == sw * (self.height as int) * 4,
                        row < self.height,
                        x + w <= sw,
                        0 <= x,
                        0 < w,
                        0 <= row,
                        0 < sw,
                ;
                assert(out@.len() + w * 4 <= h * (w * 4)) by (nonlinear_arith)
                    requires
                        out@.len() == r * (w * 4),
                        r < h,
                        0 < w,
                ;
            }
            let base: usize = (row * sw + x as usize) * 4;
            let mut c: usize = 0;
            while c < w4
                invariant
                    self.wf(),
                    0 < w,
                    sw == self.width,
                    w4 == w * 4,
                    len == data_len,
                    len == self.data@.len(),
                    row == y + r,
                    row < self.height,
                    x + w <= self.width,
                    base == (row * sw + x) * 4,
                    base + w4 <= len,
                    c <= w4,
                    out@.len() == r * (w * 4) + c,
                    forall|j: int|
                        0 <= j < out@.len() ==> out@[j] == self.data@[#[trigger] crop_src_index(
                            self.width as int,
                            x as int,
                            y as int,
                            w as int,
                            j,
                        )],
                decreases w4 - c,
            {
                let byte = self.data[base + c];
                out.push(byte);
                proof {
                    let j = (r * (w * 4) + c) as int;
                    lemma_fundamental_div_mod_converse(j, (w * 4) as int, r as int, c as int);
                    assert(crop_src_index(self.width as int, x as int, y as int, w as int, j) == base + c);
                }
                c = c + 1;
            }
            proof {
                assert((r as int + 1) * (w as int * 4) == r as int * (w as int * 4) + w as int * 4)
                    by (nonlinear_arith);
            }
            r = r + 1;
        }
        proof {
            assert(h as int * (w as int * 4) == h as int * (w as int) * 4) by (nonlinear_arith);
        }
        let img = RgbaImage { width: w, height: h, data: out };
        proof {
            assert(img.data@ =~= crop_spec(self.data@, self.width as int, x as int, y as int, w as int, h as int));
        }
        Ok(img)
    }
}

} // verus!
