use toroidal_life::overlay::{is_point_in_polygon, Overlay};

const STOC: &str = "https://dblp.org/db/conf/stoc/index.html";
const AAAI: &str = "https://dblp.org/db/conf/aaai/index.html";
const SODA: &str = "https://dblp.org/db/conf/soda/index.html";

#[test]
fn point_above_top_bound_does_not_match() {
    // 5 <= 4 is false, so the point is outside.
    assert!(!is_point_in_polygon(4, 0, 0, 13, &(5, 2)));
}

#[test]
fn point_within_bounds_matches() {
    // 3 <= 4 && 3 >= 0 && 2 >= 0 && 2 <= 13.
    assert!(is_point_in_polygon(4, 0, 0, 13, &(3, 2)));
}

#[test]
fn lookup_live_cell_in_region_takes_its_style_and_link() {
    let overlay = Overlay::conference_map();
    let (style, link) = overlay.lookup(2, 2, true);
    assert_eq!(style, "cellule-live-math");
    assert_eq!(link, STOC);
}

#[test]
fn lookup_dead_cell_keeps_link_but_default_dead_style() {
    let overlay = Overlay::conference_map();
    let (style, link) = overlay.lookup(2, 2, false);
    assert_eq!(style, "cellue-dead");
    assert_eq!(link, STOC);
}

#[test]
fn lookup_unmatched_point_defaults() {
    // No table rectangle reaches row 50.
    let overlay = Overlay::conference_map();
    let (style, link) = overlay.lookup(50, 0, true);
    assert_eq!(style, "cellue-live");
    assert_eq!(link, "");
    let (style, link) = overlay.lookup(50, 0, false);
    assert_eq!(style, "cellue-dead");
    assert_eq!(link, "");
}

#[test]
fn lookup_overlap_takes_last_entry_in_table_order() {
    let overlay = Overlay::conference_map();
    // (4, 14) lies in both the math and the ai regions; ai is registered
    // later and wins.
    let (style, link) = overlay.lookup(4, 14, true);
    assert_eq!(style, "cellule-live-ai");
    assert_eq!(link, AAAI);
    // (5, 42) lies in both the distributed and the ds regions; ds wins.
    let (style, link) = overlay.lookup(5, 42, true);
    assert_eq!(style, "cellule-live-ds");
    assert_eq!(link, SODA);
}
