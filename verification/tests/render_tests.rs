use toroidal_life::engine::{Engine, Msg, CELLULES_HEIGHT, CELLULES_WIDTH};
use toroidal_life::overlay::Overlay;
use toroidal_life::render::project;

const STOC: &str = "https://dblp.org/db/conf/stoc/index.html";

#[test]
fn projection_of_dead_board_is_default_dead_with_region_links() {
    let e = Engine::new(3, 3);
    let overlay = Overlay::conference_map();
    let cells = project(e.grid(), &overlay);
    assert_eq!(cells.len(), 9);
    // Rows 0..2, cols 0..2 all lie in the math region, so every dead cell
    // keeps its link but shows the default dead style.
    for (style, link) in &cells {
        assert_eq!(style, "cellue-dead");
        assert_eq!(link, STOC);
    }
}

#[test]
fn projection_reports_region_style_for_live_cells() {
    let mut e = Engine::new(CELLULES_WIDTH, CELLULES_HEIGHT);
    let idx = 2 * CELLULES_WIDTH + 2; // (row 2, col 2): the math region
    e.toggle(idx);
    let overlay = Overlay::conference_map();
    let cells = project(e.grid(), &overlay);
    assert_eq!(cells.len(), CELLULES_WIDTH * CELLULES_HEIGHT);
    assert_eq!(cells[idx].0, "cellule-live-math");
    assert_eq!(cells[idx].1, STOC);
    assert_eq!(cells[0].0, "cellue-dead");
    assert_eq!(cells[0].1, STOC);
}

#[test]
fn projection_is_row_major_and_pure() {
    let mut e = Engine::new(4, 3);
    e.update(Msg::Tick); // randomize
    let overlay = Overlay::conference_map();
    let first = project(e.grid(), &overlay);
    let second = project(e.grid(), &overlay);
    assert_eq!(first.len(), 12);
    for i in 0..12 {
        assert_eq!(first[i], second[i]);
        // A live cell never shows the dead style and a dead cell always does.
        if e.is_alive(i) {
            assert_ne!(first[i].0, "cellue-dead");
        } else {
            assert_eq!(first[i].0, "cellue-dead");
        }
    }
}
