use crate::cell::{count_alive, live_ind, Cellule};
use vstd::arithmetic::div_mod::{lemma_fundamental_div_mod_converse, lemma_small_mod};
use vstd::prelude::*;

verus! {

/// Wraps a coordinate into `[0, range)` by adding or subtracting `range`
/// once.  This is the toroidal wrap for any coordinate within one grid
/// length of the bounds, i.e. for `coord` in `[-range, 2 * range)`; it is
/// not a general modulo and must not be used for larger excursions.
pub fn wrap(coord: isize, range: isize) -> (r: usize)
    requires
        0 < range,
        -range <= coord,
        coord < 2 * range,
    ensures
        0 <= r < range,
        r as int == (coord as int) % (range as int),
{
    let result = if coord < 0 {
        coord + range
    } else if coord >= range {
        coord - range
    } else {
        coord
    };
    proof {
        if coord < 0 {
            lemma_fundamental_div_mod_converse(
                coord as int,
                range as int,
                -1,
                coord as int + range as int,
            );
        } else if coord >= range {
            lemma_fundamental_div_mod_converse(
                coord as int,
                range as int,
                1,
                coord as int - range as int,
            );
        } else {
            lemma_fundamental_div_mod_converse(coord as int, range as int, 0, coord as int);
        }
    }
    result as usize
}

/// Row-major index of a (row, col) pair on a grid of the given width.
pub open spec fn idx_of(row: int, col: int, width: int) -> int {
    row * width + col
}

/// Whether the cell at the toroidally wrapped (row, col) is alive.
pub open spec fn cell_at(g: Seq<bool>, w: int, h: int, row: int, col: int) -> bool {
    g[idx_of(row % h, col % w, w)]
}

/// 1 if the cell at the wrapped (row, col) is alive, 0 otherwise.
pub open spec fn live_at(g: Seq<bool>, w: int, h: int, row: int, col: int) -> int {
    if cell_at(g, w, h, row, col) {
        1
    } else {
        0
    }
}

/// Number of live cells among the eight Moore neighbors of (row, col),
/// with toroidal wraparound.
pub open spec fn neighbor_count(g: Seq<bool>, w: int, h: int, row: int, col: int) -> int {
    live_at(g, w, h, row + 1, col) + live_at(g, w, h, row + 1, col + 1) + live_at(
        g,
        w,
        h,
        row + 1,
        col - 1,
    ) + live_at(g, w, h, row - 1, col) + live_at(g, w, h, row - 1, col + 1) + live_at(
        g,
        w,
        h,
        row - 1,
        col - 1,
    ) + live_at(g, w, h, row, col - 1) + live_at(g, w, h, row, col + 1)
}

/// The row-major indices of the eight toroidally wrapped Moore neighbors
/// of (row, col), in the same enumeration order as `Grid::neighbors`.
pub open spec fn neighbor_indices(w: int, h: int, row: int, col: int) -> Seq<int> {
    seq![
        idx_of((row + 1) % h, col % w, w),
        idx_of((row + 1) % h, (col + 1) % w, w),
        idx_of((row + 1) % h, (col - 1) % w, w),
        idx_of((row - 1) % h, col % w, w),
        idx_of((row - 1) % h, (col + 1) % w, w),
        idx_of((row - 1) % h, (col - 1) % w, w),
        idx_of(row % h, (col - 1) % w, w),
        idx_of(row % h, (col + 1) % w, w),
    ]
}

/// Distinct in-range (row, col) pairs give distinct row-major indices.
proof fn lemma_idx_pair_distinct(w: int, r1: int, c1: int, r2: int, c2: int)
    requires
        0 < w,
        0 <= c1 < w,
        0 <= c2 < w,
        r1 != r2 || c1 != c2,
    ensures
        idx_of(r1, c1, w) != idx_of(r2, c2, w),
{
    if idx_of(r1, c1, w) == idx_of(r2, c2, w) {
        lemma_fundamental_div_mod_converse(r1 * w + c1, w, r1, c1);
        lemma_fundamental_div_mod_converse(r2 * w + c2, w, r2, c2);
    }
}

/// An in-range (row, col) pair indexes inside the grid.
proof fn lemma_idx_bounds(w: int, h: int, r: int, c: int)
    requires
        0 < w,
        0 <= r < h,
        0 <= c < w,
    ensures
        0 <= idx_of(r, c, w) < w * h,
{
    assert(0 <= r * w + c < w * h) by (nonlinear_arith)
        requires
            0 < w,
            0 <= r < h,
            0 <= c < w,
    ;
}

/// On a grid at least three cells wide and three tall, the eight wrapped
/// Moore-neighbor indices of a cell are pairwise distinct, all lie on the
/// grid, and none is the cell's own index: the neighborhood is complete.
pub proof fn lemma_neighbor_indices_distinct(w: int, h: int, row: int, col: int)
    requires
        3 <= w,
        3 <= h,
        0 <= row < h,
        0 <= col < w,
    ensures
        forall|a: int, b: int|
            0 <= a < b < 8 ==> neighbor_indices(w, h, row, col)[a] != neighbor_indices(
                w,
                h,
                row,
                col,
            )[b],
        forall|a: int|
            0 <= a < 8 ==> neighbor_indices(w, h, row, col)[a] != idx_of(row, col, w),
        forall|a: int|
            0 <= a < 8 ==> 0 <= #[trigger] neighbor_indices(w, h, row, col)[a] < w * h,
{
    let rp = (row + 1) % h;
    let rm = (row - 1) % h;
    let r0 = row % h;
    let cp = (col + 1) % w;
    let cm = (col - 1) % w;
    let c0 = col % w;
    if row + 1 < h {
        lemma_fundamental_div_mod_converse(row + 1, h, 0, row + 1);
    } else {
        lemma_fundamental_div_mod_converse(row + 1, h, 1, row + 1 - h);
    }
    if row - 1 >= 0 {
        lemma_fundamental_div_mod_converse(row - 1, h, 0, row - 1);
    } else {
        lemma_fundamental_div_mod_converse(row - 1, h, -1, row - 1 + h);
    }
    lemma_fundamental_div_mod_converse(row, h, 0, row);
    if col + 1 < w {
        lemma_fundamental_div_mod_converse(col + 1, w, 0, col + 1);
    } else {
        lemma_fundamental_div_mod_converse(col + 1, w, 1, col + 1 - w);
    }
    if col - 1 >= 0 {
        lemma_fundamental_div_mod_converse(col - 1, w, 0, col - 1);
    } else {
        lemma_fundamental_div_mod_converse(col - 1, w, -1, col - 1 + w);
    }
    lemma_fundamental_div_mod_converse(col, w, 0, col);
    assert(0 <= rp < h && 0 <= rm < h && r0 == row);
    assert(0 <= cp < w && 0 <= cm < w && c0 == col);
    assert(rp != row && rm != row && rp != rm);
    assert(cp != col && cm != col && cp != cm);
    lemma_idx_pair_distinct(w, rp, c0, rp, cp);
    lemma_idx_pair_distinct(w, rp, c0, rp, cm);
    lemma_idx_pair_distinct(w, rp, c0, rm, c0);
    lemma_idx_pair_distinct(w, rp, c0, rm, cp);
    lemma_idx_pair_distinct(w, rp, c0, rm, cm);
    lemma_idx_pair_distinct(w, rp, c0, r0, cm);
    lemma_idx_pair_distinct(w, rp, c0, r0, cp);
    lemma_idx_pair_distinct(w, rp, cp, rp, cm);
    lemma_idx_pair_distinct(w, rp, cp, rm, c0);
    lemma_idx_pair_distinct(w, rp, cp, rm, cp);
    lemma_idx_pair_distinct(w, rp, cp, rm, cm);
    lemma_idx_pair_distinct(w, rp, cp, r0, cm);
    lemma_idx_pair_distinct(w, rp, cp, r0, cp);
    lemma_idx_pair_distinct(w, rp, cm, rm, c0);
    lemma_idx_pair_distinct(w, rp, cm, rm, cp);
    lemma_idx_pair_distinct(w, rp, cm, rm, cm);
    lemma_idx_pair_distinct(w, rp, cm, r0, cm);
    lemma_idx_pair_distinct(w, rp, cm, r0, cp);
    lemma_idx_pair_distinct(w, rm, c0, rm, cp);
    lemma_idx_pair_distinct(w, rm, c0, rm, cm);
    lemma_idx_pair_distinct(w, rm, c0, r0, cm);
    lemma_idx_pair_distinct(w, rm, c0, r0, cp);
    lemma_idx_pair_distinct(w, rm, cp, rm, cm);
    lemma_idx_pair_distinct(w, rm, cp, r0, cm);
    lemma_idx_pair_distinct(w, rm, cp, r0, cp);
    lemma_idx_pair_distinct(w, rm, cm, r0, cm);
    lemma_idx_pair_distinct(w, rm, cm, r0, cp);
    lemma_idx_pair_distinct(w, r0, cm, r0, cp);
    lemma_idx_pair_distinct(w, rp, c0, row, col);
    lemma_idx_pair_distinct(w, rp, cp, row, col);
    lemma_idx_pair_distinct(w, rp, cm, row, col);
    lemma_idx_pair_distinct(w, rm, c0, row, col);
    lemma_idx_pair_distinct(w, rm, cp, row, col);
    lemma_idx_pair_distinct(w, rm, cm, row, col);
    lemma_idx_pair_distinct(w, r0, cm, row, col);
    lemma_idx_pair_distinct(w, r0, cp, row, col);
    lemma_idx_bounds(w, h, rp, c0);
    lemma_idx_bounds(w, h, rp, cp);
    lemma_idx_bounds(w, h, rp, cm);
    lemma_idx_bounds(w, h, rm, c0);
    lemma_idx_bounds(w, h, rm, cp);
    lemma_idx_bounds(w, h, rm, cm);
    lemma_idx_bounds(w, h, r0, cm);
    lemma_idx_bounds(w, h, r0, cp);
}

/// The B3/S23 transition rule: a live cell survives with exactly 2 or 3
/// live neighbors; a dead cell is born with exactly 3.
pub open spec fn next_alive(alive: bool, n: int) -> bool {
    if alive {
        n == 2 || n == 3
    } else {
        n == 3
    }
}

/// One synchronous generation: every cell is classified against the same
/// pre-transition grid.
pub open spec fn step_spec(g: Seq<bool>, w: int, h: int) -> Seq<bool> {
    Seq::new(g.len(), |i: int| next_alive(g[i], neighbor_count(g, w, h, i / w, i % w)))
}

/// A single cell flipped, all others unchanged.
pub open spec fn toggled(g: Seq<bool>, i: int) -> Seq<bool> {
    g.update(i, !g[i])
}

/// The transition rule, cell by cell: an isolated live cell (fewer than
/// two live neighbors) dies, a live cell with exactly two or three live
/// neighbors survives, a live cell with four or more dies, and a dead
/// cell comes alive exactly when it has three live neighbors.
pub proof fn lemma_transition_rule(alive: bool, n: int)
    ensures
        alive && n < 2 ==> !next_alive(alive, n),
        alive && (n == 2 || n == 3) ==> next_alive(alive, n),
        alive && n >= 4 ==> !next_alive(alive, n),
        !alive ==> (next_alive(alive, n) <==> n == 3),
{
}

/// Each cell of one generation is the rule applied to that cell's own
/// pre-state and the live count of its eight wrapped neighbors in the
/// pre-state grid alone, so a generation is a function of the pre-state.
pub proof fn lemma_step_cell(g: Seq<bool>, w: int, h: int, i: int)
    requires
        0 <= i < g.len(),
    ensures
        step_spec(g, w, h)[i] == next_alive(g[i], neighbor_count(g, w, h, i / w, i % w)),
{
}

/// Toggling the same cell twice restores the grid.
pub proof fn lemma_toggle_twice(g: Seq<bool>, i: int)
    requires
        0 <= i < g.len(),
    ensures
        toggled(toggled(g, i), i) == g,
{
    assert(toggled(toggled(g, i), i) =~= g);
}

/// A fixed-size toroidal 2D array of cells addressed by (row, col) in
/// row-major order.
pub struct Grid {
    cellules: Vec<Cellule>,
    cellules_width: usize,
    cellules_height: usize,
}

impl View for Grid {
    type V = Seq<bool>;

    closed spec fn view(&self) -> Seq<bool> {
        self.cellules@.map_values(|c: Cellule| c@)
    }
}

impl Grid {
    pub closed spec fn width_spec(&self) -> int {
        self.cellules_width as int
    }

    pub closed spec fn height_spec(&self) -> int {
        self.cellules_height as int
    }

    /// The grid's dimensions are positive, fit in `isize`, and the cell
    /// storage holds exactly width * height cells.
    pub open spec fn wf(&self) -> bool {
        &&& 0 < self.width_spec()
        &&& 0 < self.height_spec()
        &&& self.width_spec() <= isize::MAX as int
        &&& self.height_spec() <= isize::MAX as int
        &&& self@.len() == self.width_spec() * self.height_spec()
    }

    /// A grid of the given dimensions with every cell dead.
    pub fn new(width: usize, height: usize) -> (g: Grid)
        requires
            0 < width,
            0 < height,
            width <= isize::MAX as int,
            height <= isize::MAX as int,
            width * height <= usize::MAX as int,
        ensures
            g.wf(),
            g.width_spec() == width,
            g.height_spec() == height,
            g@.len() == width * height,
            forall|i: int| 0 <= i < g@.len() ==> !g@[i],
    {
        let n = width * height;
        let mut cellules: Vec<Cellule> = Vec::new();
        let mut i: usize = 0;
        while i < n
            invariant
                i <= n,
                cellules@.len() == i,
                forall|j: int| 0 <= j < i ==> !cellules@[j]@,
            decreases n - i,
        {
            cellules.push(Cellule::new_dead());
            i = i + 1;
        }
        let g = Grid { cellules, cellules_width: width, cellules_height: height };
        proof {
            assert(g@.len() == g.cellules@.len());
            assert(forall|j: int| 0 <= j < g@.len() ==> g@[j] == g.cellules@[j]@);
        }
        g
    }

    /// Number of cells in the grid.
    pub fn len(&self) -> (n: usize)
        ensures
            n == self@.len(),
    {
        self.cellules.len()
    }

    pub fn width(&self) -> (w: usize)
        ensures
            w == self.width_spec(),
    {
        self.cellules_width
    }

    pub fn height(&self) -> (h: usize)
        ensures
            h == self.height_spec(),
    {
        self.cellules_height
    }

    /// Resolves any (row, col) within one grid length of the bounds to the
    /// row-major index of the wrapped cell.
    pub fn row_col_as_idx(&self, row: isize, col: isize) -> (idx: usize)
        requires
            self.wf(),
            -self.height_spec() <= row < 2 * self.height_spec(),
            -self.width_spec() <= col < 2 * self.width_spec(),
        ensures
            idx == idx_of(
                (row as int) % self.height_spec(),
                (col as int) % self.width_spec(),
                self.width_spec(),
            ),
            idx < self@.len(),
    {
        let row = wrap(row, self.cellules_height as isize);
        let col = wrap(col, self.cellules_width as isize);
        let total = self.cellules.len();
        proof {
            assert(self@.len() == total);
            assert(row * self.width_spec() + col < self.width_spec() * self.height_spec())
                by (nonlinear_arith)
                requires
                    0 <= row < self.height_spec(),
                    0 <= col < self.width_spec(),
                    0 < self.width_spec(),
            ;
        }
        row * self.cellules_width + col
    }

    /// Whether the cell at a row-major index is alive.
    pub fn is_alive(&self, idx: usize) -> (r: bool)
        requires
            idx < self@.len(),
        ensures
            r == self@[idx as int],
    {
        self.cellules[idx].is_alive()
    }

    /// Sets the cell at a row-major index alive.
    pub fn set_alive(&mut self, idx: usize)
        requires
            idx < old(self)@.len(),
        ensures
            final(self)@ == old(self)@.update(idx as int, true),
            final(self).width_spec() == old(self).width_spec(),
            final(self).height_spec() == old(self).height_spec(),
    {
        let mut c = self.cellules[idx];
        c.set_alive();
        self.cellules[idx] = c;
        proof {
            assert(self@ =~= old(self)@.update(idx as int, true));
        }
    }

    /// Sets the cell at a row-major index dead.
    pub fn set_dead(&mut self, idx: usize)
        requires
            idx < old(self)@.len(),
        ensures
            final(self)@ == old(self)@.update(idx as int, false),
            final(self).width_spec() == old(self).width_spec(),
            final(self).height_spec() == old(self).height_spec(),
    {
        let mut c = self.cellules[idx];
        c.set_dead();
        self.cellules[idx] = c;
        proof {
            assert(self@ =~= old(self)@.update(idx as int, false));
        }
    }

    /// Flips the cell at a row-major index and nothing else.
    pub fn toggle(&mut self, idx: usize)
        requires
            idx < old(self)@.len(),
        ensures
            final(self)@ == toggled(old(self)@, idx as int),
            final(self).width_spec() == old(self).width_spec(),
            final(self).height_spec() == old(self).height_spec(),
    {
        let mut c = self.cellules[idx];
        c.toggle();
        self.cellules[idx] = c;
        proof {
            assert(self@ =~= toggled(old(self)@, idx as int));
        }
    }

    /// The eight toroidally wrapped Moore-neighborhood cells of (row, col),
    /// element by element in the fixed enumeration order (row+1, col),
    /// (row+1, col+1), (row+1, col-1), (row-1, col), (row-1, col+1),
    /// (row-1, col-1), (row, col-1), (row, col+1); their indices are the
    /// entries of `neighbor_indices`, which `lemma_neighbor_indices_distinct`
    /// shows to be the complete Moore neighborhood.
    pub fn neighbors(&self, row: isize, col: isize) -> (ns: [Cellule; 8])
        requires
            self.wf(),
            0 <= row < self.height_spec(),
            0 <= col < self.width_spec(),
        ensures
            ns@.len() == 8,
            ns@[0]@ == cell_at(
                self@,
                self.width_spec(),
                self.height_spec(),
                row as int + 1,
                col as int,
            ),
            ns@[1]@ == cell_at(
                self@,
                self.width_spec(),
                self.height_spec(),
                row as int + 1,
                col as int + 1,
            ),
            ns@[2]@ == cell_at(
                self@,
                self.width_spec(),
                self.height_spec(),
                row as int + 1,
                col as int - 1,
            ),
            ns@[3]@ == cell_at(
                self@,
                self.width_spec(),
                self.height_spec(),
                row as int - 1,
                col as int,
            ),
            ns@[4]@ == cell_at(
                self@,
                self.width_spec(),
                self.height_spec(),
                row as int - 1,
                col as int + 1,
            ),
            ns@[5]@ == cell_at(
                self@,
                self.width_spec(),
                self.height_spec(),
                row as int - 1,
                col as int - 1,
            ),
            ns@[6]@ == cell_at(
                self@,
                self.width_spec(),
                self.height_spec(),
                row as int,
                col as int - 1,
            ),
            ns@[7]@ == cell_at(
                self@,
                self.width_spec(),
                self.height_spec(),
                row as int,
                col as int + 1,
            ),
            count_alive(ns@) == neighbor_count(
                self@,
                self.width_spec(),
                self.height_spec(),
                row as int,
                col as int,
            ),
    {
        let ns = [
            self.cellules[self.row_col_as_idx(row + 1, col)],
            self.cellules[self.row_col_as_idx(row + 1, col + 1)],
            self.cellules[self.row_col_as_idx(row + 1, col - 1)],
            self.cellules[self.row_col_as_idx(row - 1, col)],
            self.cellules[self.row_col_as_idx(row - 1, col + 1)],
            self.cellules[self.row_col_as_idx(row - 1, col - 1)],
            self.cellules[self.row_col_as_idx(row, col - 1)],
            self.cellules[self.row_col_as_idx(row, col + 1)],
        ];
        proof {
            let g = self@;
            let w = self.width_spec();
            let h = self.height_spec();
            crate::cell::lemma_count_alive8(ns@);
            let r = row as int;
            let c = col as int;
            assert(live_ind(ns@[0]) == live_at(g, w, h, r + 1, c));
            assert(live_ind(ns@[1]) == live_at(g, w, h, r + 1, c + 1));
            assert(live_ind(ns@[2]) == live_at(g, w, h, r + 1, c - 1));
            assert(live_ind(ns@[3]) == live_at(g, w, h, r - 1, c));
            assert(live_ind(ns@[4]) == live_at(g, w, h, r - 1, c + 1));
            assert(live_ind(ns@[5]) == live_at(g, w, h, r - 1, c - 1));
            assert(live_ind(ns@[6]) == live_at(g, w, h, r, c - 1));
            assert(live_ind(ns@[7]) == live_at(g, w, h, r, c + 1));
        }
        ns
    }

    /// Advances the whole grid by one generation of the B3/S23 rule.  Every
    /// cell is classified against the pre-transition grid, and all changes
    /// are applied together, so the result depends only on the pre-state.
    pub fn step(&mut self)
        requires
            old(self).wf(),
        ensures
            final(self).wf(),
            final(self).width_spec() == old(self).width_spec(),
            final(self).height_spec() == old(self).height_spec(),
            final(self)@ == step_spec(
                old(self)@,
                old(self).width_spec(),
                old(self).height_spec(),
            ),
    {
        let w = self.cellules_width;
        let h = self.cellules_height;
        let ghost g0 = self@;
        let mut next: Vec<Cellule> = Vec::new();
        let mut row: usize = 0;
        while row < h
            invariant
                self.wf(),
                self@ == g0,
                self.cellules_width == w,
                self.cellules_height == h,
                row <= h,
                next@.len() == row * w,
                forall|i: int|
                    0 <= i < next@.len() ==> next@[i]@ == step_spec(g0, w as int, h as int)[i],
            decreases h - row,
        {
            let mut col: usize = 0;
            proof {
                assert(row * w + w <= h * w) by (nonlinear_arith)
                    requires
                        row < h,
                        0 <= w,
                ;
            }
            while col < w
                invariant
                    self.wf(),
                    self@ == g0,
                    self.cellules_width == w,
                    self.cellules_height == h,
                    row < h,
                    col <= w,
                    next@.len() == row * w + col,
                    row * w + w <= h * w,
                    forall|i: int|
                        0 <= i < next@.len() ==> next@[i]@ == step_spec(g0, w as int, h as int)[i],
                decreases w - col,
            {
                let neighbors = self.neighbors(row as isize, col as isize);
                let current_idx = self.row_col_as_idx(row as isize, col as isize);
                proof {
                    lemma_small_mod(row as nat, h as nat);
                    lemma_small_mod(col as nat, w as nat);
                    assert(current_idx == row * w + col);
                    lemma_fundamental_div_mod_converse(
                        current_idx as int,
                        w as int,
                        row as int,
                        col as int,
                    );
                }
                let mut c = self.cellules[current_idx];
                proof {
                    assert(c@ == g0[current_idx as int]);
                }
                if c.is_alive() {
                    if Cellule::alone(neighbors.as_slice()) || Cellule::overpopulated(
                        neighbors.as_slice(),
                    ) {
                        c.set_dead();
                    }
                } else {
                    if Cellule::can_be_revived(neighbors.as_slice()) {
                        c.set_alive();
                    }
                }
                proof {
                    assert(c@ == step_spec(g0, w as int, h as int)[current_idx as int]);
                }
                next.push(c);
                col = col + 1;
            }
            proof {
                assert((row + 1) * w == row * w + w) by (nonlinear_arith);
            }
            row = row + 1;
        }
        self.cellules = next;
        proof {
            assert(next@.len() == h * w);
            assert(g0.len() == w * h);
            assert(h * w == w * h) by (nonlinear_arith);
            assert(self@ =~= step_spec(g0, w as int, h as int));
        }
    }
}

} // verus!
