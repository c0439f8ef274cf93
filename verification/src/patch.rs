use vstd::prelude::*;
use crate::geometry::win_size;
use crate::img::{lemma_grid_lex, Img};
use crate::rgb::{Rgb, ONE_BITS};

verus! {

/// The pixel of `img` that patch cell `(ix, iy)` covers, for the patch of
/// half-size `radius` centered at `(cx, cy)`.
pub open spec fn patch_pix(img: Img, cx: int, cy: int, radius: int, ix: int, iy: int) -> Rgb {
    img.pix(cx - radius + ix, cy - radius + iy)
}

/// The row-major patch of half-size `radius` centered at `(cx, cy)`.
pub fn extract_patch(img: &Img, cx: usize, cy: usize, radius: usize) -> (patch: Vec<Rgb>)
    requires
        img.wf(),
        radius <= cx,
        radius <= cy,
        cx + radius < img.width,
        cy + radius < img.height,
    ensures
        patch@.len() == win_size(radius as int) * win_size(radius as int),
        forall|ix: int, iy: int|
            0 <= ix < win_size(radius as int) && 0 <= iy < win_size(radius as int)
                ==> patch@[iy * win_size(radius as int) + ix] == #[trigger] patch_pix(
                *img,
                cx as int,
                cy as int,
                radius as int,
                ix,
                iy,
            ),
{
    let s = 2 * radius + 1;
    let mut patch: Vec<Rgb> = Vec::new();
    let mut iy: usize = 0;
    while iy < s
        invariant
            iy <= s,
            s == win_size(radius as int),
            img.wf(),
            radius <= cx,
            radius <= cy,
            cx + radius < img.width,
            cy + radius < img.height,
            patch@.len() == iy * s,
            forall|xx: int, yy: int|
                0 <= xx < s && 0 <= yy < iy
                    ==> patch@[yy * s + xx] == #[trigger] patch_pix(
                    *img,
                    cx as int,
                    cy as int,
                    radius as int,
                    xx,
                    yy,
                ),
        decreases s - iy,
    {
        let py = cy - radius + iy;
        let mut ix: usize = 0;
        while ix < s
            invariant
                ix <= s,
                iy < s,
                s == win_size(radius as int),
                img.wf(),
                radius <= cx,
                radius <= cy,
                cx + radius < img.width,
                cy + radius < img.height,
                py == cy - radius + iy,
                patch@.len() == iy * s + ix,
                forall|xx: int, yy: int|
                    0 <= xx < s && 0 <= yy < iy
                        ==> patch@[yy * s + xx] == #[trigger] patch_pix(
                        *img,
                        cx as int,
                        cy as int,
                        radius as int,
                        xx,
                        yy,
                    ),
                forall|xx: int|
                    0 <= xx < ix
                        ==> patch@[iy * s + xx] == #[trigger] patch_pix(
                        *img,
                        cx as int,
                        cy as int,
                        radius as int,
                        xx,
                        iy as int,
                    ),
            decreases s - ix,
        {
            let px = cx - radius + ix;
            let v = img.get(px, py);
            patch.push(v);
            proof {
                assert(patch@[iy * s + ix] == patch_pix(
                    *img,
                    cx as int,
                    cy as int,
                    radius as int,
                    ix as int,
                    iy as int,
                ));
                assert forall|xx: int, yy: int|
                    0 <= xx < s && 0 <= yy < iy
                        implies patch@[yy * s + xx] == #[trigger] patch_pix(
                    *img,
                    cx as int,
                    cy as int,
                    radius as int,
                    xx,
                    yy,
                ) by {
                    lemma_grid_lex(s as int, xx, yy, ix as int, iy as int);
                }
                assert forall|xx: int|
                    0 <= xx < ix
                        implies patch@[iy * s + xx] == #[trigger] patch_pix(
                    *img,
                    cx as int,
                    cy as int,
                    radius as int,
                    xx,
                    iy as int,
                ) by {
                    lemma_grid_lex(s as int, xx, iy as int, ix as int, iy as int);
                }
            }
            ix = ix + 1;
        }
        proof {
            assert((iy + 1) * s == iy * s + s) by (nonlinear_arith);
            assert forall|xx: int, yy: int|
                0 <= xx < s && 0 <= yy < iy + 1
                    implies patch@[yy * s + xx] == #[trigger] patch_pix(
                *img,
                cx as int,
                cy as int,
                radius as int,
                xx,
                yy,
            ) by {
                if yy == iy {
                    assert(patch@[iy * s + xx] == patch_pix(
                        *img,
                        cx as int,
                        cy as int,
                        radius as int,
                        xx,
                        iy as int,
                    ));
                }
            }
        }
        iy = iy + 1;
    }
    patch
}

/// What a similarity evaluation between two patch centers needs.
pub enum CompareJob {
    /// The two centers are the same pixel: a pixel is maximally similar to
    /// itself, so the similarity is exactly one and no patches are compared.
    Identical,
    /// Distinct centers: the two row-major patches whose sum of squared
    /// per-channel differences drives the similarity weight.
    Patches { a: Vec<Rgb>, b: Vec<Rgb> },
}

/// Prepare the comparison of the two patches of half-size `radius` centered
/// at `(ax, ay)` and `(bx, by)`: coinciding centers short-circuit to
/// `Identical`, distinct centers yield the two patches to compare.
pub fn compare_samples(
    img: &Img,
    ax: usize,
    ay: usize,
    bx: usize,
    by: usize,
    radius: usize,
) -> (job: CompareJob)
    requires
        img.wf(),
        radius <= ax,
        radius <= ay,
        ax + radius < img.width,
        ay + radius < img.height,
        radius <= bx,
        radius <= by,
        bx + radius < img.width,
        by + radius < img.height,
    ensures
        job is Identical <==> (ax == bx && ay == by),
        job matches CompareJob::Patches { a, b } ==> {
            &&& a@.len() == win_size(radius as int) * win_size(radius as int)
            &&& b@.len() == win_size(radius as int) * win_size(radius as int)
            &&& forall|ix: int, iy: int|
                0 <= ix < win_size(radius as int) && 0 <= iy < win_size(radius as int)
                    ==> a@[iy * win_size(radius as int) + ix] == #[trigger] patch_pix(
                    *img,
                    ax as int,
                    ay as int,
                    radius as int,
                    ix,
                    iy,
                )
            &&& forall|ix: int, iy: int|
                0 <= ix < win_size(radius as int) && 0 <= iy < win_size(radius as int)
                    ==> b@[iy * win_size(radius as int) + ix] == #[trigger] patch_pix(
                    *img,
                    bx as int,
                    by as int,
                    radius as int,
                    ix,
                    iy,
                )
        },
{
    if ax == bx && ay == by {
        CompareJob::Identical
    } else {
        let a = extract_patch(img, ax, ay, radius);
        let b = extract_patch(img, bx, by, radius);
        CompareJob::Patches { a, b }
    }
}

/// The similarity weight, given the evaluated weighting function: a pixel
/// compared with itself weighs exactly one (the bit pattern of `1.0`); any
/// other comparison weighs whatever the caller's evaluation of
/// `exp(-sum_of_squares * fp2inv)` came to, passed in as `exp_bits`.
pub fn similarity_bits(job: &CompareJob, exp_bits: u32) -> (weight: u32)
    ensures
        weight == if job is Identical {
            ONE_BITS
        } else {
            exp_bits
        },
        job is Identical ==> weight == ONE_BITS,
{
    match job {
        CompareJob::Identical => ONE_BITS,
        CompareJob::Patches { .. } => exp_bits,
    }
}

} // verus!
