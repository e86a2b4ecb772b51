use vstd::prelude::*;

use crate::error::PipelineError;

verus! {

/// A decoded RGB image: `height` rows of `width` pixels, three samples per
/// pixel in the order R, G, B, rows top to bottom.
#[derive(Clone, Debug)]
pub struct Raster {
    pub width: u32,
    pub height: u32,
    pub pixels: Vec<u8>,
}

/// Number of samples in an RGB image of the given size.
pub open spec fn rgb_len(width: u32, height: u32) -> int {
    3 * ((width as int) * (height as int))
}

/// The engine's view of an RGB sample sequence: each pixel's three samples
/// reversed, so that the blue sample comes first.
pub open spec fn bgr_of(rgb: Seq<u8>) -> Seq<u8> {
    Seq::new(rgb.len(), |i: int| rgb[3 * (i / 3) + (2 - i % 3)])
}

impl Raster {
    /// The sample buffer has exactly one RGB triple per pixel.
    pub open spec fn wf(&self) -> bool {
        self.pixels@.len() == rgb_len(self.width, self.height)
    }

    /// Builds a raster from a row-major RGB sample buffer; fails unless the
    /// buffer holds exactly `3 * width * height` samples.
    pub fn from_rgb(width: u32, height: u32, pixels: Vec<u8>) -> (r: Result<Raster, PipelineError>)
        ensures
            r is Ok <==> pixels@.len() == rgb_len(width, height),
            r matches Ok(img) ==> img.wf() && img.width == width && img.height == height
                && img.pixels@ == pixels@,
            r is Err ==> r == Err::<Raster, PipelineError>(PipelineError::Decode),
    {
        let w: u64 = width as u64;
        let h: u64 = height as u64;
        assert(w * h <= 0xffff_ffffu64 * 0xffff_ffffu64) by (nonlinear_arith)
            requires
                w <= 0xffff_ffffu64,
                h <= 0xffff_ffffu64,
        ;
        let wh: u64 = w * h;
        let len: usize = pixels.len();
        assert((len as u64) as int == len as int);
        let fits: bool = wh <= u64::MAX / 3 && 3 * wh == len as u64;
        proof {
            assert(fits <==> pixels@.len() == rgb_len(width, height)) by (nonlinear_arith)
                requires
                    fits == (wh <= u64::MAX / 3 && 3 * wh == len as int),
                    wh == w * h,
                    w == width,
                    h == height,
                    len == pixels@.len(),
            ;
        }
        if !fits {
            return Err(PipelineError::Decode);
        }
        Ok(Raster { width, height, pixels })
    }

    /// Flattens the image into the engine's input layout: pixels in row-major
    /// scan order, each as its blue, green and red samples.
    pub fn to_engine_input(&self) -> (r: Vec<u8>)
        requires
            self.wf(),
        ensures
            r@.len() == rgb_len(self.width, self.height),
            r@ == bgr_of(self.pixels@),
            forall|k: int|
                0 <= k < (self.width as int) * (self.height as int) ==> {
                    &&& #[trigger] r@[3 * k] == self.pixels@[3 * k + 2]
                    &&& r@[3 * k + 1] == self.pixels@[3 * k + 1]
                    &&& r@[3 * k + 2] == self.pixels@[3 * k]
                },
    {
        let n: usize = self.pixels.len();
        let mut out: Vec<u8> = Vec::with_capacity(n);
        assert(n % 3 == 0);
        let mut p: usize = 0;
        while p < n / 3
            invariant
                n == self.pixels@.len(),
                n % 3 == 0,
                p <= n / 3,
                out@.len() == 3 * p,
                forall|i: int| 0 <= i < 3 * p ==> out@[i] == #[trigger] bgr_of(self.pixels@)[i],
            decreases n / 3 - p,
        {
            let b: usize = 3 * p;
            out.push(self.pixels[b + 2]);
            out.push(self.pixels[b + 1]);
            out.push(self.pixels[b]);
            proof {
                assert forall|i: int| 3 * p <= i < 3 * p + 3 implies out@[i] == #[trigger] bgr_of(
                    self.pixels@,
                )[i] by {
                    assert(i / 3 == p);
                }
            }
            p = p + 1;
        }
        assert(out@ =~= bgr_of(self.pixels@));
        proof {
            assert forall|k: int| 0 <= k < (self.width as int) * (self.height as int) implies {
                &&& #[trigger] out@[3 * k] == self.pixels@[3 * k + 2]
                &&& out@[3 * k + 1] == self.pixels@[3 * k + 1]
                &&& out@[3 * k + 2] == self.pixels@[3 * k]
            } by {
                assert(3 * k + 2 < 3 * ((self.width as int) * (self.height as int)));
                assert((3 * k) / 3 == k);
                assert((3 * k + 1) / 3 == k);
                assert((3 * k + 2) / 3 == k);
            }
        }
        out
    }
}

} // verus!
