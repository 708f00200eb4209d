use crate::grid::Grid;
use crate::overlay::{link_of, style_of, Overlay};
use vstd::arithmetic::div_mod::lemma_fundamental_div_mod;
use vstd::prelude::*;

verus! {

/// Pure render projection: one (style, link) pair per cell, in row-major
/// order, resolved through the overlay from the cell's (row, col) and its
/// alive state.  Nothing is mutated.
pub fn project(grid: &Grid, overlay: &Overlay) -> (cells: Vec<(String, String)>)
    requires
        grid.wf(),
        grid.width_spec() <= i8::MAX as int,
        grid.height_spec() <= i8::MAX as int,
    ensures
        cells@.len() == grid@.len(),
        forall|i: int|
            0 <= i < cells@.len() ==> #[trigger] cells@[i].0@ == style_of(
                overlay@,
                i / grid.width_spec(),
                i % grid.width_spec(),
                grid@[i],
            ) && cells@[i].1@ == link_of(overlay@, i / grid.width_spec(), i % grid.width_spec()),
{
    let w = grid.width();
    let h = grid.height();
    let n = grid.len();
    let mut cells: Vec<(String, String)> = Vec::new();
    let mut idx: usize = 0;
    while idx < n
        invariant
            grid.wf(),
            w == grid.width_spec(),
            h == grid.height_spec(),
            w <= i8::MAX as int,
            h <= i8::MAX as int,
            n == grid@.len(),
            idx <= n,
            cells@.len() == idx,
            forall|i: int|
                0 <= i < cells@.len() ==> #[trigger] cells@[i].0@ == style_of(
                    overlay@,
                    i / grid.width_spec(),
                    i % grid.width_spec(),
                    grid@[i],
                ) && cells@[i].1@ == link_of(
                    overlay@,
                    i / grid.width_spec(),
                    i % grid.width_spec(),
                ),
        decreases n - idx,
    {
        let row = idx / w;
        let col = idx % w;
        proof {
            lemma_fundamental_div_mod(idx as int, w as int);
            assert(row < h) by (nonlinear_arith)
                requires
                    0 < w,
                    0 <= row,
                    idx < w * h,
                    idx as int == w * (idx as int / w as int) + (idx as int % w as int),
                    row == idx as int / w as int,
                    0 <= idx as int % w as int,
            ;
        }
        let alive = grid.is_alive(idx);
        let pair = overlay.lookup(row as i8, col as i8, alive);
        cells.push(pair);
        idx = idx + 1;
    }
    cells
}

} // verus!
