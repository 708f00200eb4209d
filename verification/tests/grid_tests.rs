use toroidal_life::grid::{wrap, Grid};

fn euclid_mod(a: i64, m: i64) -> i64 {
    ((a % m) + m) % m
}

#[test]
fn wrap_is_toroidal_within_one_grid_length() {
    for range in [1isize, 2, 3, 5, 29, 53] {
        for coord in -range..2 * range {
            let r = wrap(coord, range);
            assert!(r < range as usize);
            assert_eq!(r as i64, euclid_mod(coord as i64, range as i64));
        }
    }
}

#[test]
fn index_resolution_covers_all_offsets() {
    let width: usize = 4;
    let height: usize = 3;
    let g = Grid::new(width, height);
    for row in -(height as isize)..2 * height as isize {
        for col in -(width as isize)..2 * width as isize {
            let idx = g.row_col_as_idx(row, col);
            assert!(idx < width * height);
            let expected = euclid_mod(row as i64, height as i64) * width as i64
                + euclid_mod(col as i64, width as i64);
            assert_eq!(idx as i64, expected);
        }
    }
}

#[test]
fn toggle_flips_exactly_once_and_twice_restores() {
    let mut g = Grid::new(4, 3);
    assert!(!g.is_alive(5));
    g.toggle(5);
    assert!(g.is_alive(5));
    for i in 0..12 {
        assert_eq!(g.is_alive(i), i == 5);
    }
    g.toggle(5);
    assert!(!g.is_alive(5));
    for i in 0..12 {
        assert!(!g.is_alive(i));
    }
}

#[test]
fn isolated_live_cell_dies() {
    let mut g = Grid::new(3, 3);
    g.toggle(4);
    g.step();
    for i in 0..9 {
        assert!(!g.is_alive(i));
    }
}

#[test]
fn live_cells_with_two_or_three_neighbors_survive_and_three_revive() {
    // A full row of three on the 3x3 torus: each live cell sees exactly two
    // live neighbors and survives; every dead cell sees all three and is
    // born, so the next generation is fully alive.
    let mut g = Grid::new(3, 3);
    g.toggle(3);
    g.toggle(4);
    g.toggle(5);
    g.step();
    for i in 0..9 {
        assert!(g.is_alive(i));
    }
}

#[test]
fn live_cell_with_four_neighbors_dies() {
    // On the 3x3 torus every cell neighbors all eight others, so with five
    // live cells each live cell sees four live neighbors and dies, and each
    // dead cell sees five and stays dead.
    let mut g = Grid::new(3, 3);
    for idx in [0, 2, 4, 6, 8] {
        g.toggle(idx);
    }
    g.step();
    for i in 0..9 {
        assert!(!g.is_alive(i));
    }
}

#[test]
fn dead_cell_with_two_neighbors_stays_dead() {
    // Two live cells: every dead cell sees exactly two live neighbors and
    // stays dead; the live cells see one and die.
    let mut g = Grid::new(3, 3);
    g.toggle(0);
    g.toggle(4);
    g.step();
    for i in 0..9 {
        assert!(!g.is_alive(i));
    }
}

#[test]
fn dead_cell_with_four_neighbors_stays_dead() {
    // Four live cells on the 3x3 torus: each live cell sees three and
    // survives, each dead cell sees four and stays dead.
    let mut g = Grid::new(3, 3);
    for idx in [0, 1, 3, 4] {
        g.toggle(idx);
    }
    g.step();
    for i in 0..9 {
        assert_eq!(g.is_alive(i), [0, 1, 3, 4].contains(&i));
    }
}

#[test]
fn glider_reproduces_shifted_after_four_steps() {
    let width: usize = 8;
    let height: usize = 8;
    let mut g = Grid::new(width, height);
    let glider = [(0usize, 1usize), (1, 2), (2, 0), (2, 1), (2, 2)];
    for (r, c) in glider {
        g.toggle(r * width + c);
    }
    for _ in 0..4 {
        g.step();
    }
    for r in 0..height {
        for c in 0..width {
            let expected = glider.iter().any(|&(gr, gc)| (gr + 1, gc + 1) == (r, c));
            assert_eq!(g.is_alive(r * width + c), expected, "cell ({r},{c})");
        }
    }
}

#[test]
fn step_is_deterministic_in_the_pre_state() {
    let mut a = Grid::new(5, 4);
    let mut b = Grid::new(5, 4);
    for idx in [0, 3, 7, 8, 9, 13, 19] {
        a.toggle(idx);
        b.toggle(idx);
    }
    a.step();
    b.step();
    for i in 0..20 {
        assert_eq!(a.is_alive(i), b.is_alive(i));
    }
}

#[test]
fn neighbors_come_in_the_documented_order() {
    // On a 3x3 grid only (1,1) is alive.  Seen from (0,0), that cell is the
    // wrapped (row+1, col+1) neighbor, the second entry of the enumeration
    // order; every other neighbor is dead.
    let mut g = Grid::new(3, 3);
    g.toggle(4);
    let ns = g.neighbors(0, 0);
    for (k, cell) in ns.iter().enumerate() {
        assert_eq!(cell.is_alive(), k == 1, "neighbor {k}");
    }
    // Seen from (2,2), the live cell (1,1) is the (row-1, col-1) neighbor,
    // the sixth entry; the wrapped (row+1, col+1) neighbor is (0,0), dead.
    let ns = g.neighbors(2, 2);
    for (k, cell) in ns.iter().enumerate() {
        assert_eq!(cell.is_alive(), k == 5, "neighbor {k}");
    }
}
