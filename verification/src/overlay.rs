use vstd::prelude::*;
use vstd::string::StringExecFns;

verus! {

/// A grid coordinate as (row, col).
pub type Point = (i8, i8);

/// Whether (r, c) lies inside the rectangle (top, bottom, left, right),
/// i.e. `r <= top && r >= bottom && c >= left && c <= right`.  The bounds
/// are taken literally, not pre-sorted into min/max.
pub open spec fn in_rect(t: (i8, i8, i8, i8), r: int, c: int) -> bool {
    r <= t.0 as int && r >= t.1 as int && c >= t.2 as int && c <= t.3 as int
}

/// Tests point containment in the rectangle with bounds top `t1`,
/// bottom `t2`, left `t3`, right `t4`.
pub fn is_point_in_polygon(t1: i8, t2: i8, t3: i8, t4: i8, p: &Point) -> (r: bool)
    ensures
        r == in_rect((t1, t2, t3, t4), p.0 as int, p.1 as int),
{
    p.0 <= t1 && p.0 >= t2 && p.1 >= t3 && p.1 <= t4
}

/// The mathematical model of one overlay entry: its rectangles and its
/// (style, link) pair as character sequences.
#[verifier::ext_equal]
pub ghost struct EntryModel {
    pub rects: Seq<(i8, i8, i8, i8)>,
    pub style: Seq<char>,
    pub link: Seq<char>,
}

/// One decorative region: a set of rectangles mapped to a display style
/// and a hyperlink.
pub struct OverlayEntry {
    pub rects: Vec<(i8, i8, i8, i8)>,
    pub style: String,
    pub link: String,
}

impl View for OverlayEntry {
    type V = EntryModel;

    closed spec fn view(&self) -> EntryModel {
        EntryModel { rects: self.rects@, style: self.style@, link: self.link@ }
    }
}

/// Whether (r, c) lies inside any rectangle of the entry.
pub open spec fn entry_matches(e: EntryModel, r: int, c: int) -> bool {
    exists|k: int| 0 <= k < e.rects.len() && in_rect(e.rects[k], r, c)
}

/// The link of the last entry whose rectangles contain (r, c), or the
/// empty string when none does.
pub open spec fn link_of(entries: Seq<EntryModel>, r: int, c: int) -> Seq<char>
    decreases entries.len(),
{
    if entries.len() == 0 {
        Seq::empty()
    } else if entry_matches(entries.last(), r, c) {
        entries.last().link
    } else {
        link_of(entries.drop_last(), r, c)
    }
}

/// The style of the last entry whose rectangles contain (r, c), or the
/// default live style when none does.
pub open spec fn live_style_of(entries: Seq<EntryModel>, r: int, c: int) -> Seq<char>
    decreases entries.len(),
{
    if entries.len() == 0 {
        "cellue-live"@
    } else if entry_matches(entries.last(), r, c) {
        entries.last().style
    } else {
        live_style_of(entries.drop_last(), r, c)
    }
}

/// The style reported for a cell: a live cell takes the style of the last
/// matching entry (or the default live style), a dead cell always takes
/// the default dead style.
pub open spec fn style_of(entries: Seq<EntryModel>, r: int, c: int, alive: bool) -> Seq<char> {
    if alive {
        live_style_of(entries, r, c)
    } else {
        "cellue-dead"@
    }
}

impl OverlayEntry {
    /// Whether (row, col) lies inside any rectangle of this entry.
    pub fn contains_point(&self, row: i8, col: i8) -> (hit: bool)
        ensures
            hit == entry_matches(self@, row as int, col as int),
    {
        let p: Point = (row, col);
        let mut hit = false;
        let mut k: usize = 0;
        while k < self.rects.len()
            invariant
                k <= self.rects@.len(),
                p.0 == row,
                p.1 == col,
                hit == exists|j: int|
                    0 <= j < k && in_rect(self.rects@[j], row as int, col as int),
            decreases self.rects@.len() - k,
        {
            let t = self.rects[k];
            if is_point_in_polygon(t.0, t.1, t.2, t.3, &p) {
                hit = true;
                proof {
                    assert(in_rect(self.rects@[k as int], row as int, col as int));
                }
            }
            k = k + 1;
        }
        proof {
            assert(self@.rects == self.rects@);
            if hit {
                let j = choose|j: int|
                    0 <= j < k && in_rect(self.rects@[j], row as int, col as int);
                assert(0 <= j < self@.rects.len() && in_rect(self@.rects[j], row as int, col as int));
            }
        }
        hit
    }
}

/// The static table of decorative regions, kept in registration order.
/// When regions overlap, the last matching entry in that order wins.
pub struct Overlay {
    entries: Vec<OverlayEntry>,
}

impl View for Overlay {
    type V = Seq<EntryModel>;

    closed spec fn view(&self) -> Seq<EntryModel> {
        self.entries@.map_values(|e: OverlayEntry| e@)
    }
}

impl Overlay {
    /// Resolves a grid coordinate to the (style, link) pair of the last
    /// entry containing it, with the documented defaults when none does.
    pub fn lookup(&self, row: i8, col: i8, alive: bool) -> (res: (String, String))
        ensures
            res.0@ == style_of(self@, row as int, col as int, alive),
            res.1@ == link_of(self@, row as int, col as int),
    {
        let mut res = String::from_str("cellue-live");
        let mut res1 = String::new();
        proof {
            assert(self@.take(0) =~= Seq::<EntryModel>::empty());
        }
        if alive {
            let mut i: usize = 0;
            while i < self.entries.len()
                invariant
                    i <= self.entries@.len(),
                    self@.len() == self.entries@.len(),
                    res@ == live_style_of(self@.take(i as int), row as int, col as int),
                    res1@ == link_of(self@.take(i as int), row as int, col as int),
                decreases self.entries@.len() - i,
            {
                proof {
                    assert(self@.take(i + 1).drop_last() =~= self@.take(i as int));
                    assert(self@.take(i + 1).last() == self@[i as int]);
                }
                let entry = &self.entries[i];
                if entry.contains_point(row, col) {
                    res = entry.style.clone();
                    res1 = entry.link.clone();
                }
                i = i + 1;
            }
            proof {
                assert(self@.take(self@.len() as int) =~= self@);
            }
            (res, res1)
        } else {
            let mut i: usize = 0;
            while i < self.entries.len()
                invariant
                    i <= self.entries@.len(),
                    self@.len() == self.entries@.len(),
                    res1@ == link_of(self@.take(i as int), row as int, col as int),
                decreases self.entries@.len() - i,
            {
                proof {
                    assert(self@.take(i + 1).drop_last() =~= self@.take(i as int));
                    assert(self@.take(i + 1).last() == self@[i as int]);
                }
                let entry = &self.entries[i];
                if entry.contains_point(row, col) {
                    res1 = entry.link.clone();
                }
                i = i + 1;
            }
            proof {
                assert(self@.take(self@.len() as int) =~= self@);
            }
            res = String::from_str("cellue-dead");
            (res, res1)
        }
    }
}

/// The static conference-map table: each entry maps one or two grid
/// rectangles to a decorative style and an outbound link.
pub open spec fn conference_entries() -> Seq<EntryModel> {
    seq![
        (EntryModel {
            rects: seq![(4, 0, 0, 13), (7, 4, 0, 17)],
            style: "cellule-live-math"@,
            link: "https://dblp.org/db/conf/stoc/index.html"@,
        }),
        (EntryModel {
            rects: seq![(4, 0, 14, 30), (8, 4, 18, 30)],
            style: "cellule-live-ai"@,
            link: "https://dblp.org/db/conf/aaai/index.html"@,
        }),
        (EntryModel {
            rects: seq![(3, 0, 31, 53), (7, 4, 31, 42)],
            style: "cellule-live-distributed"@,
            link: "https://dblp.org/db/conf/sosp/index.html"@,
        }),
        (EntryModel {
            rects: seq![(13, 8, 37, 47), (8, 4, 42, 47)],
            style: "cellule-live-ds"@,
            link: "https://dblp.org/db/conf/soda/index.html"@,
        }),
        (EntryModel {
            rects: seq![(20, 8, 0, 4), (20, 17, 4, 32)],
            style: "cellule-live-os"@,
            link: "https://dblp.org/db/conf/osdi/index.html"@,
        }),
        (EntryModel {
            rects: seq![(12, 8, 5, 36)],
            style: "cellule-live-app"@,
            link: "https://dblp.org/db/conf/nips/index.html"@,
        }),
        (EntryModel {
            rects: seq![(16, 13, 5, 15)],
            style: "cellule-live-framework"@,
            link: "https://dblp.org/db/conf/asplos/index.html"@,
        }),
        (EntryModel {
            rects: seq![(16, 13, 16, 25)],
            style: "cellule-live-data"@,
            link: "https://dblp.org/db/conf/vldb/index.html"@,
        }),
        (EntryModel {
            rects: seq![(16, 13, 26, 36), (20, 17, 33, 36)],
            style: "cellule-live-compiler"@,
            link: "https://dblp.org/db/conf/pldi/index.html"@,
        }),
        (EntryModel {
            rects: seq![(40, 4, 48, 53)],
            style: "cellule-live-pc"@,
            link: "https://dblp.org/db/conf/ppopp/index.html"@,
        }),
        (EntryModel {
            rects: seq![(20, 14, 37, 47)],
            style: "cellule-live-network"@,
            link: "https://dblp.org/db/conf/nsdi/index.html"@,
        }),
        (EntryModel {
            rects: seq![(40, 21, 0, 10), (24, 21, 11, 26)],
            style: "cellule-live-ca"@,
            link: "https://dblp.org/db/conf/micro/index.html"@,
        }),
        (EntryModel {
            rects: seq![(40, 21, 40, 47), (24, 21, 27, 39)],
            style: "cellule-live-reconfigurable"@,
            link: "https://dblp.org/db/conf/fpga/index.html"@,
        }),
        (EntryModel {
            rects: seq![(40, 25, 11, 39)],
            style: "cellule-live-circuit"@,
            link: "https://dblp.org/db/conf/cav/index.html"@,
        }),
    ]
}

impl Overlay {
    /// Builds the static conference-map overlay, in registration order.
    pub fn conference_map() -> (o: Overlay)
        ensures
            o@ == conference_entries(),
    {
        let mut entries: Vec<OverlayEntry> = Vec::new();
        entries.push(
            entry2(
                (4, 0, 0, 13),
                (7, 4, 0, 17),
                "cellule-live-math",
                "https://dblp.org/db/conf/stoc/index.html",
            ),
        );
        entries.push(
            entry2(
                (4, 0, 14, 30),
                (8, 4, 18, 30),
                "cellule-live-ai",
                "https://dblp.org/db/conf/aaai/index.html",
            ),
        );
        entries.push(
            entry2(
                (3, 0, 31, 53),
                (7, 4, 31, 42),
                "cellule-live-distributed",
                "https://dblp.org/db/conf/sosp/index.html",
            ),
        );
        entries.push(
            entry2(
                (13, 8, 37, 47),
                (8, 4, 42, 47),
                "cellule-live-ds",
                "https://dblp.org/db/conf/soda/index.html",
            ),
        );
        entries.push(
            entry2(
                (20, 8, 0, 4),
                (20, 17, 4, 32),
                "cellule-live-os",
                "https://dblp.org/db/conf/osdi/index.html",
            ),
        );
        entries.push(
            entry1((12, 8, 5, 36), "cellule-live-app", "https://dblp.org/db/conf/nips/index.html"),
        );
        entries.push(
            entry1(
                (16, 13, 5, 15),
                "cellule-live-framework",
                "https://dblp.org/db/conf/asplos/index.html",
            ),
        );
        entries.push(
            entry1(
                (16, 13, 16, 25),
                "cellule-live-data",
                "https://dblp.org/db/conf/vldb/index.html",
            ),
        );
        entries.push(
            entry2(
                (16, 13, 26, 36),
                (20, 17, 33, 36),
                "cellule-live-compiler",
                "https://dblp.org/db/conf/pldi/index.html",
            ),
        );
        entries.push(
            entry1((40, 4, 48, 53), "cellule-live-pc", "https://dblp.org/db/conf/ppopp/index.html"),
        );
        entries.push(
            entry1(
                (20, 14, 37, 47),
                "cellule-live-network",
                "https://dblp.org/db/conf/nsdi/index.html",
            ),
        );
        entries.push(
            entry2(
                (40, 21, 0, 10),
                (24, 21, 11, 26),
                "cellule-live-ca",
                "https://dblp.org/db/conf/micro/index.html",
            ),
        );
        entries.push(
            entry2(
                (40, 21, 40, 47),
                (24, 21, 27, 39),
                "cellule-live-reconfigurable",
                "https://dblp.org/db/conf/fpga/index.html",
            ),
        );
        entries.push(
            entry1(
                (40, 25, 11, 39),
                "cellule-live-circuit",
                "https://dblp.org/db/conf/cav/index.html",
            ),
        );
        let o = Overlay { entries };
        proof {
            assert(o@ =~~= conference_entries());
        }
        o
    }
}

/// Builds an entry from a single rectangle.
fn entry1(a: (i8, i8, i8, i8), style: &str, link: &str) -> (e: OverlayEntry)
    ensures
        e@.rects == seq![a],
        e@.style == style@,
        e@.link == link@,
{
    let mut rects: Vec<(i8, i8, i8, i8)> = Vec::new();
    rects.push(a);
    proof {
        assert(rects@ =~= seq![a]);
    }
    OverlayEntry { rects, style: String::from_str(style), link: String::from_str(link) }
}

/// Builds an entry from two rectangles.
fn entry2(a: (i8, i8, i8, i8), b: (i8, i8, i8, i8), style: &str, link: &str) -> (e: OverlayEntry)
    ensures
        e@.rects == seq![a, b],
        e@.style == style@,
        e@.link == link@,
{
    let mut rects: Vec<(i8, i8, i8, i8)> = Vec::new();
    rects.push(a);
    rects.push(b);
    proof {
        assert(rects@ =~= seq![a, b]);
    }
    OverlayEntry { rects, style: String::from_str(style), link: String::from_str(link) }
}

} // verus!
