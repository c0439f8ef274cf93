use vstd::prelude::*;
use crate::img::lemma_grid_lex;
use crate::rgb::ONE_BITS;

verus! {

/// Full side length of a square window with half-size `radius`.
pub open spec fn win_size(radius: int) -> int {
    2 * radius + 1
}

/// Distance of table index `i` from the window center `radius`, along one axis.
pub open spec fn axis_dist(i: int, radius: int) -> int {
    if i >= radius {
        i - radius
    } else {
        radius - i
    }
}

/// Squared Euclidean distance of table cell `(ix, iy)` from the window center.
pub open spec fn sq_dist(radius: int, ix: int, iy: int) -> int {
    axis_dist(ix, radius) * axis_dist(ix, radius) + axis_dist(iy, radius) * axis_dist(
        iy,
        radius,
    )
}

/// The squared center distances are symmetric around the window center:
/// transposing a cell, or reflecting it along either axis, keeps its
/// distance. The Gaussian weight of a cell is a function of its center
/// distance alone, so a weight table built over these distances is symmetric
/// around its center.
pub proof fn lemma_sq_dist_symmetric(radius: int, ix: int, iy: int)
    requires
        0 <= ix < win_size(radius),
        0 <= iy < win_size(radius),
    ensures
        sq_dist(radius, ix, iy) == sq_dist(radius, iy, ix),
        sq_dist(radius, ix, iy) == sq_dist(radius, win_size(radius) - 1 - ix, iy),
        sq_dist(radius, ix, iy) == sq_dist(radius, ix, win_size(radius) - 1 - iy),
{
    assert(axis_dist(win_size(radius) - 1 - ix, radius) == axis_dist(ix, radius));
    assert(axis_dist(win_size(radius) - 1 - iy, radius) == axis_dist(iy, radius));
}

/// The table of squared center distances for a search window with half-size
/// `search_radius`, row-major: entry `(iy, ix)` is the squared Euclidean
/// distance of that cell from the window center.
pub fn sq_dist_table(search_radius: usize) -> (table: Vec<usize>)
    requires
        win_size(search_radius as int) * win_size(search_radius as int) <= usize::MAX,
    ensures
        table@.len() == win_size(search_radius as int) * win_size(search_radius as int),
        forall|ix: int, iy: int|
            0 <= ix < win_size(search_radius as int) && 0 <= iy < win_size(search_radius as int)
                ==> table@[iy * win_size(search_radius as int) + ix] == #[trigger] sq_dist(
                search_radius as int,
                ix,
                iy,
            ),
{
    proof {
        assert(win_size(search_radius as int) <= win_size(search_radius as int) * win_size(
            search_radius as int,
        )) by (nonlinear_arith)
            requires
                win_size(search_radius as int) >= 1,
        ;
    }
    let s = 2 * search_radius + 1;
    let mut table: Vec<usize> = Vec::new();
    let mut iy: usize = 0;
    while iy < s
        invariant
            iy <= s,
            s == win_size(search_radius as int),
            win_size(search_radius as int) * win_size(search_radius as int) <= usize::MAX,
            table@.len() == iy * s,
            forall|xx: int, yy: int|
                0 <= xx < s && 0 <= yy < iy
                    ==> table@[yy * s + xx] == #[trigger] sq_dist(search_radius as int, xx, yy),
        decreases s - iy,
    {
        let dy = if iy >= search_radius {
            iy - search_radius
        } else {
            search_radius - iy
        };
        let mut ix: usize = 0;
        while ix < s
            invariant
                ix <= s,
                iy < s,
                s == win_size(search_radius as int),
                win_size(search_radius as int) * win_size(search_radius as int) <= usize::MAX,
                dy == axis_dist(iy as int, search_radius as int),
                table@.len() == iy * s + ix,
                forall|xx: int, yy: int|
                    0 <= xx < s && 0 <= yy < iy
                        ==> table@[yy * s + xx] == #[trigger] sq_dist(search_radius as int, xx, yy),
                forall|xx: int|
                    0 <= xx < ix
                        ==> table@[iy * s + xx] == #[trigger] sq_dist(
                        search_radius as int,
                        xx,
                        iy as int,
                    ),
            decreases s - ix,
        {
            let dx = if ix >= search_radius {
                ix - search_radius
            } else {
                search_radius - ix
            };
            proof {
                assert(dx * dx + dy * dy <= (2 * search_radius + 1) * (2 * search_radius
                    + 1)) by (nonlinear_arith)
                    requires
                        0 <= dx <= search_radius,
                        0 <= dy <= search_radius,
                ;
            }
            let v = dx * dx + dy * dy;
            table.push(v);
            proof {
                assert(table@[iy * s + ix] == sq_dist(search_radius as int, ix as int, iy as int));
                assert forall|xx: int, yy: int|
                    0 <= xx < s && 0 <= yy < iy
                        implies table@[yy * s + xx] == #[trigger] sq_dist(
                    search_radius as int,
                    xx,
                    yy,
                ) by {
                    lemma_grid_lex(s as int, xx, yy, ix as int, iy as int);
                }
                assert forall|xx: int|
                    0 <= xx < ix
                        implies table@[iy * s + xx] == #[trigger] sq_dist(
                    search_radius as int,
                    xx,
                    iy as int,
                ) by {
                    lemma_grid_lex(s as int, xx, iy as int, ix as int, iy as int);
                }
            }
            ix = ix + 1;
        }
        proof {
            assert((iy + 1) * s == iy * s + s) by (nonlinear_arith);
            assert forall|xx: int, yy: int|
                0 <= xx < s && 0 <= yy < iy + 1
                    implies table@[yy * s + xx] == #[trigger] sq_dist(
                search_radius as int,
                xx,
                yy,
            ) by {
                if yy == iy {
                    assert(table@[iy * s + xx] == sq_dist(search_radius as int, xx, iy as int));
                }
            }
        }
        iy = iy + 1;
    }
    table
}

/// How the Gaussian weight table over the search window is to be built.
pub enum GaussianPlan {
    /// Degenerate search window (`search_radius == 0`): the window is the
    /// single center cell, and a Gaussian density of width zero is
    /// undefined, so the table is defined as the single weight one — the
    /// carried value is the bit pattern of `1.0`.
    SingleCell(u32),
    /// Proper window: the row-major squared center distances. The table
    /// entry for a cell is the normal density with mean `0` and standard
    /// deviation `search_radius`, evaluated at the square root of the
    /// cell's entry here.
    Distances(Vec<usize>),
}

/// Decide how the Gaussian weight table for a search window with half-size
/// `search_radius` is built; the degenerate window is resolved here rather
/// than left to an undefined density.
pub fn gaussian_plan(search_radius: usize) -> (plan: GaussianPlan)
    requires
        win_size(search_radius as int) * win_size(search_radius as int) <= usize::MAX,
    ensures
        search_radius == 0 ==> plan == GaussianPlan::SingleCell(ONE_BITS),
        search_radius > 0 ==> (plan matches GaussianPlan::Distances(t) && t@.len() == win_size(
            search_radius as int,
        ) * win_size(search_radius as int) && forall|ix: int, iy: int|
            0 <= ix < win_size(search_radius as int) && 0 <= iy < win_size(search_radius as int)
                ==> t@[iy * win_size(search_radius as int) + ix] == #[trigger] sq_dist(
                search_radius as int,
                ix,
                iy,
            )),
{
    if search_radius == 0 {
        GaussianPlan::SingleCell(ONE_BITS)
    } else {
        GaussianPlan::Distances(sq_dist_table(search_radius))
    }
}

/// The center coordinate, in the padded image, of search-window cell
/// `(ix, iy)` for the output pixel whose padded coordinate is `(px, py)`.
/// Callers keep `px` and `py` at least `radius` and at most
/// `usize::MAX - radius`, so the arithmetic never leaves `usize`.
pub open spec fn win_center(px: int, py: int, radius: int, ix: int, iy: int) -> (usize, usize) {
    (((px - radius + ix) as usize), ((py - radius + iy) as usize))
}

/// The row-major candidate centers of the search window around padded
/// coordinate `(px, py)`. With `search_radius == 0` the window holds exactly
/// the center pixel itself.
pub fn window_centers(px: usize, py: usize, search_radius: usize) -> (centers: Vec<
    (usize, usize),
>)
    requires
        search_radius <= px,
        search_radius <= py,
        px + search_radius <= usize::MAX,
        py + search_radius <= usize::MAX,
        win_size(search_radius as int) * win_size(search_radius as int) <= usize::MAX,
    ensures
        centers@.len() == win_size(search_radius as int) * win_size(search_radius as int),
        forall|ix: int, iy: int|
            0 <= ix < win_size(search_radius as int) && 0 <= iy < win_size(search_radius as int)
                ==> centers@[iy * win_size(search_radius as int) + ix] == #[trigger] win_center(
                px as int,
                py as int,
                search_radius as int,
                ix,
                iy,
            ),
        search_radius == 0 ==> centers@ == seq![(px, py)],
{
    proof {
        assert(win_size(search_radius as int) <= win_size(search_radius as int) * win_size(
            search_radius as int,
        )) by (nonlinear_arith)
            requires
                win_size(search_radius as int) >= 1,
        ;
    }
    let s = 2 * search_radius + 1;
    let mut centers: Vec<(usize, usize)> = Vec::new();
    let mut iy: usize = 0;
    while iy < s
        invariant
            iy <= s,
            s == win_size(search_radius as int),
            win_size(search_radius as int) * win_size(search_radius as int) <= usize::MAX,
            search_radius <= px,
            search_radius <= py,
            px + search_radius <= usize::MAX,
            py + search_radius <= usize::MAX,
            centers@.len() == iy * s,
            forall|xx: int, yy: int|
                0 <= xx < s && 0 <= yy < iy
                    ==> centers@[yy * s + xx] == #[trigger] win_center(
                    px as int,
                    py as int,
                    search_radius as int,
                    xx,
                    yy,
                ),
        decreases s - iy,
    {
        let cy = py - search_radius + iy;
        let mut ix: usize = 0;
        while ix < s
            invariant
                ix <= s,
                iy < s,
                s == win_size(search_radius as int),
                win_size(search_radius as int) * win_size(search_radius as int) <= usize::MAX,
                search_radius <= px,
                search_radius <= py,
                px + search_radius <= usize::MAX,
                py + search_radius <= usize::MAX,
                cy == py - search_radius + iy,
                centers@.len() == iy * s + ix,
                forall|xx: int, yy: int|
                    0 <= xx < s && 0 <= yy < iy
                        ==> centers@[yy * s + xx] == #[trigger] win_center(
                        px as int,
                        py as int,
                        search_radius as int,
                        xx,
                        yy,
                    ),
                forall|xx: int|
                    0 <= xx < ix
                        ==> centers@[iy * s + xx] == #[trigger] win_center(
                        px as int,
                        py as int,
                        search_radius as int,
                        xx,
                        iy as int,
                    ),
            decreases s - ix,
        {
            let cx = px - search_radius + ix;
            centers.push((cx, cy));
            proof {
                assert(centers@[iy * s + ix] == win_center(
                    px as int,
                    py as int,
                    search_radius as int,
                    ix as int,
                    iy as int,
                ));
                assert forall|xx: int, yy: int|
                    0 <= xx < s && 0 <= yy < iy
                        implies centers@[yy * s + xx] == #[trigger] win_center(
                    px as int,
                    py as int,
                    search_radius as int,
                    xx,
                    yy,
                ) by {
                    lemma_grid_lex(s as int, xx, yy, ix as int, iy as int);
                }
                assert forall|xx: int|
                    0 <= xx < ix
                        implies centers@[iy * s + xx] == #[trigger] win_center(
                    px as int,
                    py as int,
                    search_radius as int,
                    xx,
                    iy as int,
                ) by {
                    lemma_grid_lex(s as int, xx, iy as int, ix as int, iy as int);
                }
            }
            ix = ix + 1;
        }
        proof {
            assert((iy + 1) * s == iy * s + s) by (nonlinear_arith);
            assert forall|xx: int, yy: int|
                0 <= xx < s && 0 <= yy < iy + 1
                    implies centers@[yy * s + xx] == #[trigger] win_center(
                px as int,
                py as int,
                search_radius as int,
                xx,
                yy,
            ) by {
                if yy == iy {
                    assert(centers@[iy * s + xx] == win_center(
                        px as int,
                        py as int,
                        search_radius as int,
                        xx,
                        iy as int,
                    ));
                }
            }
        }
        iy = iy + 1;
    }
    proof {
        if search_radius == 0 {
            assert(centers@.len() == 1) by (nonlinear_arith)
                requires
                    centers@.len() == iy * s,
                    iy == 1,
                    s == 1,
            ;
            assert(centers@[0] == win_center(px as int, py as int, 0, 0, 0));
            assert(centers@ =~= seq![(px, py)]);
        }
    }
    centers
}

} // verus!
