use vstd::prelude::*;
use crate::errors::DenoiseError;
use crate::geometry::win_size;
use crate::img::{lemma_grid_index, Img};
use crate::pad::{pad_fits, pad_image, padded_pix};
use crate::rgb::{clamp_unit_spec, finite_bits, normalize_channel, rgb_unit, Rgb, POS_INF_BITS};

verus! {

/// A filtering-parameter bit pattern encodes a float strictly greater than
/// zero exactly when the sign bit is clear and the pattern is neither zero
/// nor a NaN encoding: the patterns in `(0, POS_INF_BITS]` — the positive
/// subnormals, the positive normals, and positive infinity.
pub open spec fn filter_bits_positive(bits: u32) -> bool {
    0 < bits <= POS_INF_BITS
}

/// The dimension arithmetic of one denoise invocation fits the machine:
/// the image has positive area and the padded copy's dimensions and pixel
/// count stay within the address space.
pub open spec fn dims_ok(w: int, h: int, sample_radius: int, search_radius: int) -> bool {
    &&& w >= 1
    &&& h >= 1
    &&& sample_radius + search_radius <= usize::MAX
    &&& pad_fits(w, h, sample_radius + search_radius)
}

/// One denoise invocation: the validated parameters, the padded working
/// image (read-only for the whole invocation), and the output pixels
/// assembled so far, row-major, each one guarded and clamped to `[0, 1]`.
pub struct Denoiser {
    pub in_width: usize,
    pub in_height: usize,
    pub sample_radius: usize,
    pub search_radius: usize,
    pub padded: Img,
    pub out: Vec<Rgb>,
}

impl Denoiser {
    /// Distance from an image pixel to the furthest pixel any of its windows
    /// reads: patch half-size plus search half-size.
    pub open spec fn offset(self) -> int {
        self.sample_radius + self.search_radius
    }

    pub open spec fn wf(self) -> bool {
        &&& self.padded.wf()
        &&& self.in_width >= 1
        &&& self.in_height >= 1
        &&& self.padded.width == self.in_width + 2 * self.offset()
        &&& self.padded.height == self.in_height + 2 * self.offset()
        &&& self.out@.len() <= self.in_width * self.in_height
        &&& forall|i: int| 0 <= i < self.out@.len() ==> rgb_unit(#[trigger] self.out@[i])
    }

    /// Validate the parameters and build the padded working image. A
    /// non-positive (or NaN) filtering parameter is rejected as
    /// `InvalidParameter` before anything else; a zero-area image or
    /// overflowing padded dimensions as `InvalidInput`. Nothing is computed
    /// after a rejection.
    pub fn new(
        img: &Img,
        sample_radius: usize,
        search_radius: usize,
        filter_param_bits: u32,
    ) -> (result: Result<Denoiser, DenoiseError>)
        requires
            img.wf(),
        ensures
            result is Ok <==> filter_bits_positive(filter_param_bits) && dims_ok(
                img.width as int,
                img.height as int,
                sample_radius as int,
                search_radius as int,
            ),
            (result == Err::<Denoiser, DenoiseError>(DenoiseError::InvalidParameter))
                <==> !filter_bits_positive(filter_param_bits),
            (result == Err::<Denoiser, DenoiseError>(DenoiseError::InvalidInput)) <==> (
            filter_bits_positive(filter_param_bits) && !dims_ok(
                img.width as int,
                img.height as int,
                sample_radius as int,
                search_radius as int,
            )),
            result matches Ok(d) ==> {
                &&& d.wf()
                &&& d.in_width == img.width
                &&& d.in_height == img.height
                &&& d.sample_radius == sample_radius
                &&& d.search_radius == search_radius
                &&& d.out@.len() == 0
                &&& forall|x: int, y: int|
                    0 <= x < d.padded.width && 0 <= y < d.padded.height ==> d.padded.pix(x, y)
                        == #[trigger] padded_pix(*img, d.offset(), x, y)
                &&& forall|x: int, y: int|
                    0 <= x < img.width && 0 <= y < img.height ==> d.padded.pix(
                        x + d.offset(),
                        y + d.offset(),
                    ) == #[trigger] img.pix(x, y)
            },
    {
        if !(filter_param_bits > 0 && filter_param_bits <= POS_INF_BITS) {
            return Err(DenoiseError::InvalidParameter);
        }
        if img.width == 0 || img.height == 0 {
            return Err(DenoiseError::InvalidInput);
        }
        let offset = match sample_radius.checked_add(search_radius) {
            Some(o) => o,
            None => {
                return Err(DenoiseError::InvalidInput);
            },
        };
        let padded = match pad_image(img, offset) {
            Ok(p) => p,
            Err(e) => {
                return Err(e);
            },
        };
        proof {
            assert(img.width * img.height >= 1) by (nonlinear_arith)
                requires
                    img.width >= 1,
                    img.height >= 1,
            ;
        }
        Ok(
            Denoiser {
                in_width: img.width,
                in_height: img.height,
                sample_radius,
                search_radius,
                padded,
                out: Vec::new(),
            },
        )
    }

    /// The padding width around the working image.
    pub fn padding_offset(&self) -> (o: usize)
        requires
            self.wf(),
        ensures
            o == self.offset(),
    {
        self.sample_radius + self.search_radius
    }

    /// Append the next output pixel, row-major, from its three normalized
    /// channel encodings: a non-finite channel is rejected as
    /// `ComputationAnomaly` and changes nothing; finite channels are clamped
    /// to `[0, 1]` and stored. A NaN or zero normalizer makes every divided
    /// channel non-finite, so the guard on the channels catches a bad
    /// normalizer as well.
    pub fn push_pixel(&mut self, c0: u32, c1: u32, c2: u32) -> (result: Result<(), DenoiseError>)
        requires
            old(self).wf(),
            old(self).out@.len() < old(self).in_width * old(self).in_height,
        ensures
            final(self).wf(),
            result is Ok <==> finite_bits(c0) && finite_bits(c1) && finite_bits(c2),
            result is Err ==> result == Err::<(), DenoiseError>(DenoiseError::ComputationAnomaly)
                && *final(self) == *old(self),
            result is Ok ==> {
                &&& final(self).in_width == old(self).in_width
                &&& final(self).in_height == old(self).in_height
                &&& final(self).sample_radius == old(self).sample_radius
                &&& final(self).search_radius == old(self).search_radius
                &&& final(self).padded == old(self).padded
                &&& final(self).out@ == old(self).out@.push(
                    Rgb {
                        r: clamp_unit_spec(c0),
                        g: clamp_unit_spec(c1),
                        b: clamp_unit_spec(c2),
                    },
                )
            },
    {
        let r = match normalize_channel(c0) {
            Ok(v) => v,
            Err(e) => {
                return Err(e);
            },
        };
        let g = match normalize_channel(c1) {
            Ok(v) => v,
            Err(e) => {
                return Err(e);
            },
        };
        let b = match normalize_channel(c2) {
            Ok(v) => v,
            Err(e) => {
                return Err(e);
            },
        };
        self.out.push(Rgb { r, g, b });
        Ok(())
    }

    /// The padding invariant: for any pixel `(x, y)` of the input image and
    /// any cell `(ix, iy)` of the search window centered at the padded
    /// coordinate `(x + offset, y + offset)`, the patch window around that
    /// cell's candidate center never indexes outside the padded image.
    pub proof fn lemma_windows_stay_in_bounds(self, x: int, y: int, ix: int, iy: int)
        requires
            self.wf(),
            0 <= x < self.in_width,
            0 <= y < self.in_height,
            0 <= ix < win_size(self.search_radius as int),
            0 <= iy < win_size(self.search_radius as int),
        ensures
            ({
                let cx = x + self.offset() - self.search_radius + ix;
                let cy = y + self.offset() - self.search_radius + iy;
                &&& self.sample_radius <= cx
                &&& self.sample_radius <= cy
                &&& cx + self.sample_radius < self.padded.width
                &&& cy + self.sample_radius < self.padded.height
            }),
    {
    }

    /// Assemble the output image once every pixel has been pushed. The
    /// result has exactly the input image's dimensions, and every channel of
    /// every pixel lies in `[0, 1]`.
    pub fn finish(self) -> (result: Img)
        requires
            self.wf(),
            self.out@.len() == self.in_width * self.in_height,
        ensures
            result.wf(),
            result.width == self.in_width,
            result.height == self.in_height,
            result.data@ == self.out@,
            forall|x: int, y: int|
                0 <= x < result.width && 0 <= y < result.height ==> rgb_unit(
                    #[trigger] result.pix(x, y),
                ),
    {
        let result = Img { width: self.in_width, height: self.in_height, data: self.out };
        proof {
            assert forall|x: int, y: int|
                0 <= x < result.width && 0 <= y < result.height implies rgb_unit(
                #[trigger] result.pix(x, y),
            ) by {
                lemma_grid_index(result.width as int, result.height as int, x, y);
            }
        }
        result
    }
}

} // verus!
