use vstd::prelude::*;
use crate::errors::DenoiseError;
use crate::rgb::Rgb;

verus! {

/// A row-major grid cell index stays inside the grid's area.
pub proof fn lemma_grid_index(w: int, h: int, x: int, y: int)
    requires
        0 <= x < w,
        0 <= y < h,
    ensures
        0 <= y * w + x < w * h,
{
    assert(0 <= y * w + x < w * h) by (nonlinear_arith)
        requires
            0 <= x < w,
            0 <= y < h,
    ;
}

/// Row-major indices respect the lexicographic order of (row, column).
pub proof fn lemma_grid_lex(w: int, x1: int, y1: int, x2: int, y2: int)
    requires
        0 <= x1 < w,
        0 <= x2 < w,
        0 <= y1,
        0 <= y2,
        y1 < y2 || (y1 == y2 && x1 < x2),
    ensures
        y1 * w + x1 < y2 * w + x2,
{
    assert(y1 * w + x1 < y2 * w + x2) by (nonlinear_arith)
        requires
            0 <= x1 < w,
            0 <= x2 < w,
            0 <= y1,
            0 <= y2,
            y1 < y2 || (y1 == y2 && x1 < x2),
    ;
}

/// Distinct cells of one grid have distinct row-major indices.
pub proof fn lemma_grid_index_injective(w: int, x1: int, y1: int, x2: int, y2: int)
    requires
        0 <= x1 < w,
        0 <= x2 < w,
        0 <= y1,
        0 <= y2,
        y1 * w + x1 == y2 * w + x2,
    ensures
        x1 == x2,
        y1 == y2,
{
    if y1 < y2 || (y1 == y2 && x1 < x2) {
        lemma_grid_lex(w, x1, y1, x2, y2);
    } else if y2 < y1 || (y1 == y2 && x2 < x1) {
        lemma_grid_lex(w, x2, y2, x1, y1);
    }
}

/// A raster image: a `width` x `height` grid of pixels, stored row-major.
pub struct Img {
    pub width: usize,
    pub height: usize,
    pub data: Vec<Rgb>,
}

impl Img {
    /// The storage holds exactly one pixel per grid cell.
    pub open spec fn wf(self) -> bool {
        self.data@.len() == self.width * self.height
    }

    /// The pixel at column `x`, row `y`.
    pub open spec fn pix(self, x: int, y: int) -> Rgb {
        self.data@[y * self.width + x]
    }

    /// Allocate a `width` x `height` image with every pixel equal to `value`.
    /// Fails only when the pixel count overflows the address space.
    pub fn filled(width: usize, height: usize, value: Rgb) -> (result: Result<Img, DenoiseError>)
        ensures
            result is Ok <==> width * height <= usize::MAX,
            result is Err ==> result == Err::<Img, DenoiseError>(DenoiseError::InvalidInput),
            result matches Ok(img) ==> {
                &&& img.wf()
                &&& img.width == width
                &&& img.height == height
                &&& forall|x: int, y: int|
                    0 <= x < width && 0 <= y < height ==> #[trigger] img.pix(x, y) == value
            },
    {
        let area = match width.checked_mul(height) {
            Some(a) => a,
            None => {
                return Err(DenoiseError::InvalidInput);
            },
        };
        let mut data: Vec<Rgb> = Vec::new();
        let mut k: usize = 0;
        while k < area
            invariant
                k <= area,
                area == width * height,
                data@.len() == k,
                forall|j: int| 0 <= j < k ==> data@[j] == value,
            decreases area - k,
        {
            data.push(value);
            k = k + 1;
        }
        let img = Img { width, height, data };
        proof {
            assert forall|x: int, y: int|
                0 <= x < width && 0 <= y < height implies #[trigger] img.pix(x, y) == value by {
                lemma_grid_index(width as int, height as int, x, y);
            }
        }
        Ok(img)
    }

    /// Read the pixel at column `x`, row `y`.
    pub fn get(&self, x: usize, y: usize) -> (p: Rgb)
        requires
            self.wf(),
            x < self.width,
            y < self.height,
        ensures
            p == self.pix(x as int, y as int),
    {
        proof {
            lemma_grid_index(self.width as int, self.height as int, x as int, y as int);
        }
        // the exec length witnesses that the row-major index fits in usize
        let n = self.data.len();
        let i = y * self.width + x;
        self.data[i]
    }

    /// Overwrite the pixel at column `x`, row `y`; every other pixel is kept.
    pub fn set_pixel(&mut self, x: usize, y: usize, value: Rgb)
        requires
            old(self).wf(),
            x < old(self).width,
            y < old(self).height,
        ensures
            final(self).wf(),
            final(self).width == old(self).width,
            final(self).height == old(self).height,
            final(self).pix(x as int, y as int) == value,
            forall|x2: int, y2: int|
                0 <= x2 < old(self).width && 0 <= y2 < old(self).height && !(x2 == x && y2 == y)
                    ==> #[trigger] final(self).pix(x2, y2) == old(self).pix(x2, y2),
    {
        proof {
            lemma_grid_index(self.width as int, self.height as int, x as int, y as int);
        }
        // the exec length witnesses that the row-major index fits in usize
        let n = self.data.len();
        let i = y * self.width + x;
        self.data[i] = value;
        proof {
            assert forall|x2: int, y2: int|
                0 <= x2 < self.width && 0 <= y2 < self.height && !(x2 == x && y2 == y)
                    implies #[trigger] self.pix(x2, y2) == old(self).pix(x2, y2) by {
                lemma_grid_index(self.width as int, self.height as int, x2, y2);
                if y2 * self.width + x2 == y * self.width + x {
                    lemma_grid_index_injective(self.width as int, x2, y2, x as int, y as int);
                }
            }
        }
    }
}

} // verus!
