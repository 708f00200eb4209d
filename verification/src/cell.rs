use vstd::prelude::*;

verus! {

/// A single two-state cell of the grid: alive or dead.
#[derive(Clone, Copy, PartialEq, Eq, Structural)]
pub struct Cellule {
    alive: bool,
}

impl View for Cellule {
    type V = bool;

    closed spec fn view(&self) -> bool {
        self.alive
    }
}

/// Number of live cells in a sequence.
pub open spec fn count_alive(s: Seq<Cellule>) -> int
    decreases s.len(),
{
    if s.len() == 0 {
        0
    } else {
        count_alive(s.drop_last()) + if s.last()@ {
            1int
        } else {
            0int
        }
    }
}

/// 1 if the cell is alive, 0 otherwise.
pub open spec fn live_ind(c: Cellule) -> int {
    if c@ {
        1
    } else {
        0
    }
}

/// The live count of an eight-cell sequence is the sum of the eight
/// per-cell indicators.
pub proof fn lemma_count_alive8(s: Seq<Cellule>)
    requires
        s.len() == 8,
    ensures
        count_alive(s) == live_ind(s[0]) + live_ind(s[1]) + live_ind(s[2]) + live_ind(s[3])
            + live_ind(s[4]) + live_ind(s[5]) + live_ind(s[6]) + live_ind(s[7]),
{
    let s7 = s.drop_last();
    let s6 = s7.drop_last();
    let s5 = s6.drop_last();
    let s4 = s5.drop_last();
    let s3 = s4.drop_last();
    let s2 = s3.drop_last();
    let s1 = s2.drop_last();
    let s0 = s1.drop_last();
    assert(count_alive(s) == count_alive(s7) + live_ind(s[7]));
    assert(count_alive(s7) == count_alive(s6) + live_ind(s[6]));
    assert(count_alive(s6) == count_alive(s5) + live_ind(s[5]));
    assert(count_alive(s5) == count_alive(s4) + live_ind(s[4]));
    assert(count_alive(s4) == count_alive(s3) + live_ind(s[3]));
    assert(count_alive(s3) == count_alive(s2) + live_ind(s[2]));
    assert(count_alive(s2) == count_alive(s1) + live_ind(s[1]));
    assert(count_alive(s1) == count_alive(s0) + live_ind(s[0]));
    assert(count_alive(s0) == 0);
}

impl Cellule {
    /// A fresh cell, dead by default.
    pub fn new_dead() -> (c: Cellule)
        ensures
            !c@,
    {
        Cellule { alive: false }
    }

    pub fn is_alive(&self) -> (r: bool)
        ensures
            r == self@,
    {
        self.alive
    }

    pub fn set_alive(&mut self)
        ensures
            final(self)@,
    {
        self.alive = true;
    }

    pub fn set_dead(&mut self)
        ensures
            !final(self)@,
    {
        self.alive = false;
    }

    pub fn toggle(&mut self)
        ensures
            final(self)@ == !old(self)@,
    {
        self.alive = !self.alive;
    }

    /// How many of the given neighbor cells are alive.
    pub fn count_alive_neighbors(neighbors: &[Cellule]) -> (n: usize)
        ensures
            n == count_alive(neighbors@),
    {
        let mut n: usize = 0;
        let mut i: usize = 0;
        while i < neighbors.len()
            invariant
                i <= neighbors@.len(),
                n <= i,
                n == count_alive(neighbors@.take(i as int)),
            decreases neighbors@.len() - i,
        {
            proof {
                assert(neighbors@.take(i + 1).drop_last() =~= neighbors@.take(i as int));
                assert(neighbors@.take(i + 1).last() == neighbors@[i as int]);
            }
            if neighbors[i].is_alive() {
                n = n + 1;
            }
            i = i + 1;
        }
        proof {
            assert(neighbors@.take(neighbors@.len() as int) =~= neighbors@);
        }
        n
    }

    /// A live cell with fewer than two live neighbors is alone.
    pub fn alone(neighbors: &[Cellule]) -> (r: bool)
        ensures
            r == (count_alive(neighbors@) < 2),
    {
        Cellule::count_alive_neighbors(neighbors) < 2
    }

    /// A live cell with more than three live neighbors is overpopulated.
    pub fn overpopulated(neighbors: &[Cellule]) -> (r: bool)
        ensures
            r == (count_alive(neighbors@) > 3),
    {
        Cellule::count_alive_neighbors(neighbors) > 3
    }

    /// A dead cell with exactly three live neighbors comes back to life.
    pub fn can_be_revived(neighbors: &[Cellule]) -> (r: bool)
        ensures
            r == (count_alive(neighbors@) == 3),
    {
        Cellule::count_alive_neighbors(neighbors) == 3
    }
}

} // verus!
