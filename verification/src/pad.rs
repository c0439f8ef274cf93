use vstd::prelude::*;
use crate::errors::DenoiseError;
use crate::img::{lemma_grid_index, lemma_grid_lex, Img};
use crate::rgb::{rgb_zero, Rgb, ZERO_BITS};

verus! {

/// What a zero-padded copy of `img` holds at cell `(x, y)`: the source pixel
/// where `(x, y)` lies in the interior shifted by `offset`, and the zero
/// pixel (black) on the surrounding border.
pub open spec fn padded_pix(img: Img, offset: int, x: int, y: int) -> Rgb {
    if offset <= x < img.width + offset && offset <= y < img.height + offset {
        img.pix(x - offset, y - offset)
    } else {
        rgb_zero()
    }
}

/// The dimensions of a copy of a `w` x `h` image padded by `offset` on every
/// side, and its pixel count, all fit the machine's address space.
pub open spec fn pad_fits(w: int, h: int, offset: int) -> bool {
    &&& w + 2 * offset <= usize::MAX
    &&& h + 2 * offset <= usize::MAX
    &&& (w + 2 * offset) * (h + 2 * offset) <= usize::MAX
}

/// Border-extend `img` by `offset` zero-filled pixels on every side, so that
/// every window centered on an interior pixel stays in bounds. The source is
/// embedded unchanged at `(offset, offset)`; the call fails only when the
/// padded dimensions would overflow.
pub fn pad_image(img: &Img, offset: usize) -> (result: Result<Img, DenoiseError>)
    requires
        img.wf(),
    ensures
        result is Ok <==> pad_fits(img.width as int, img.height as int, offset as int),
        result is Err ==> result == Err::<Img, DenoiseError>(DenoiseError::InvalidInput),
        result matches Ok(p) ==> {
            &&& p.wf()
            &&& p.width == img.width + 2 * offset
            &&& p.height == img.height + 2 * offset
            &&& forall|x: int, y: int|
                0 <= x < p.width && 0 <= y < p.height
                    ==> p.pix(x, y) == #[trigger] padded_pix(*img, offset as int, x, y)
            &&& forall|x: int, y: int|
                0 <= x < img.width && 0 <= y < img.height
                    ==> p.pix(x + offset, y + offset) == #[trigger] img.pix(x, y)
        },
{
    let w = img.width;
    let h = img.height;
    let two_off = match offset.checked_mul(2) {
        Some(t) => t,
        None => {
            return Err(DenoiseError::InvalidInput);
        },
    };
    let pw = match w.checked_add(two_off) {
        Some(t) => t,
        None => {
            return Err(DenoiseError::InvalidInput);
        },
    };
    let ph = match h.checked_add(two_off) {
        Some(t) => t,
        None => {
            return Err(DenoiseError::InvalidInput);
        },
    };
    let _area: usize = match pw.checked_mul(ph) {
        Some(t) => t,
        None => {
            return Err(DenoiseError::InvalidInput);
        },
    };
    let mut data: Vec<Rgb> = Vec::new();
    let mut py: usize = 0;
    while py < ph
        invariant
            py <= ph,
            img.wf(),
            w == img.width,
            h == img.height,
            pw == w + 2 * offset,
            ph == h + 2 * offset,
            data@.len() == py * pw,
            forall|yy: int, xx: int|
                0 <= yy < py && 0 <= xx < pw
                    ==> data@[yy * pw + xx] == #[trigger] padded_pix(*img, offset as int, xx, yy),
        decreases ph - py,
    {
        let mut px: usize = 0;
        while px < pw
            invariant
                px <= pw,
                py < ph,
                img.wf(),
                w == img.width,
                h == img.height,
                pw == w + 2 * offset,
                ph == h + 2 * offset,
                data@.len() == py * pw + px,
                forall|yy: int, xx: int|
                    0 <= yy < py && 0 <= xx < pw
                        ==> data@[yy * pw + xx] == #[trigger] padded_pix(*img, offset as int, xx, yy),
                forall|xx: int|
                    0 <= xx < px
                        ==> data@[py * pw + xx] == #[trigger] padded_pix(*img, offset as int, xx, py as int),
            decreases pw - px,
        {
            let v = if offset <= px && px < offset + w && offset <= py && py < offset + h {
                img.get(px - offset, py - offset)
            } else {
                Rgb { r: ZERO_BITS, g: ZERO_BITS, b: ZERO_BITS }
            };
            data.push(v);
            proof {
                assert(data@[py * pw + px] == padded_pix(*img, offset as int, px as int, py as int));
                assert forall|yy: int, xx: int|
                    0 <= yy < py && 0 <= xx < pw
                        implies data@[yy * pw + xx] == #[trigger] padded_pix(*img, offset as int, xx, yy) by {
                    lemma_grid_lex(pw as int, xx, yy, px as int, py as int);
                }
                assert forall|xx: int|
                    0 <= xx < px
                        implies data@[py * pw + xx] == #[trigger] padded_pix(*img, offset as int, xx, py as int) by {
                    lemma_grid_lex(pw as int, xx, py as int, px as int, py as int);
                }
            }
            px = px + 1;
        }
        proof {
            assert((py + 1) * pw == py * pw + pw) by (nonlinear_arith);
            assert forall|yy: int, xx: int|
                0 <= yy < py + 1 && 0 <= xx < pw
                    implies data@[yy * pw + xx] == #[trigger] padded_pix(*img, offset as int, xx, yy) by {
                if yy == py {
                    assert(data@[py * pw + xx] == padded_pix(*img, offset as int, xx, py as int));
                }
            }
        }
        py = py + 1;
    }
    let p = Img { width: pw, height: ph, data };
    proof {
        assert(ph * pw == pw * ph) by (nonlinear_arith);
        assert forall|x: int, y: int|
            0 <= x < p.width && 0 <= y < p.height
                implies p.pix(x, y) == #[trigger] padded_pix(*img, offset as int, x, y) by {
            assert(p.data@[y * pw + x] == padded_pix(*img, offset as int, x, y));
        }
        assert forall|x: int, y: int|
            0 <= x < img.width && 0 <= y < img.height
                implies p.pix(x + offset, y + offset) == #[trigger] img.pix(x, y) by {
            assert(p.pix(x + offset, y + offset) == padded_pix(
                *img,
                offset as int,
                x + offset,
                y + offset,
            ));
        }
    }
    Ok(p)
}

} // verus!
