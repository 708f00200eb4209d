use crate::grid::{step_spec, toggled, Grid};
use rand::Rng;
use vstd::prelude::*;

verus! {

/// Width of the reference board the conference map was drawn for.
pub const CELLULES_WIDTH: usize = 53;

/// Height of the reference board the conference map was drawn for.
pub const CELLULES_HEIGHT: usize = 29;

/// Signals from the external collaborators: the periodic timer sends
/// `Tick`, the user-interaction collaborator sends `ToggleCellule`, and
/// the remaining variants are recognized but cause no state change once
/// the engine is active.
pub enum Msg {
    Random,
    Start,
    Step,
    Reset,
    Stop,
    ToggleCellule(usize),
    Tick,
}

/// Relies on rand::Rng::gen::<bool> on the generator from
/// rand::thread_rng: an unbiased coin flip, independent per call.
/// Nothing can be promised of the outcome.
#[verifier::external_body]
fn coin_flip() -> bool {
    rand::thread_rng().gen()
}

/// The automaton engine: the grid plus a flag recording whether automatic
/// stepping has begun.  The first drive signal of any kind randomizes the
/// board and activates the engine; every later signal is dispatched on
/// its message.
pub struct Engine {
    grid: Grid,
    active: bool,
}

impl View for Engine {
    type V = Seq<bool>;

    closed spec fn view(&self) -> Seq<bool> {
        self.grid@
    }
}

impl Engine {
    pub closed spec fn is_active(&self) -> bool {
        self.active
    }

    pub closed spec fn width_spec(&self) -> int {
        self.grid.width_spec()
    }

    pub closed spec fn height_spec(&self) -> int {
        self.grid.height_spec()
    }

    pub closed spec fn wf(&self) -> bool {
        self.grid.wf()
    }

    /// A fresh engine: all cells dead, not yet active.
    pub fn new(width: usize, height: usize) -> (e: Engine)
        requires
            0 < width,
            0 < height,
            width <= isize::MAX as int,
            height <= isize::MAX as int,
            width * height <= usize::MAX as int,
        ensures
            e.wf(),
            !e.is_active(),
            e.width_spec() == width,
            e.height_spec() == height,
            e@.len() == width * height,
            forall|i: int| 0 <= i < e@.len() ==> !e@[i],
    {
        Engine { grid: Grid::new(width, height), active: false }
    }

    /// Whether automatic stepping has begun.
    pub fn active(&self) -> (a: bool)
        ensures
            a == self.is_active(),
    {
        self.active
    }

    /// Read-only access to the grid, for the render projection.
    pub fn grid(&self) -> (g: &Grid)
        ensures
            g@ == self@,
            g.wf() == self.wf(),
            g.width_spec() == self.width_spec(),
            g.height_spec() == self.height_spec(),
    {
        &self.grid
    }

    /// Whether the cell at a row-major index is alive.
    pub fn is_alive(&self, idx: usize) -> (r: bool)
        requires
            idx < self@.len(),
        ensures
            r == self@[idx as int],
    {
        self.grid.is_alive(idx)
    }

    /// Flips exactly one cell's state and nothing else.
    pub fn toggle(&mut self, idx: usize)
        requires
            old(self).wf(),
            idx < old(self)@.len(),
        ensures
            final(self).wf(),
            final(self)@ == toggled(old(self)@, idx as int),
            final(self).width_spec() == old(self).width_spec(),
            final(self).height_spec() == old(self).height_spec(),
            final(self).is_active() == old(self).is_active(),
    {
        self.grid.toggle(idx);
    }

    /// Sets every cell independently to alive or dead by one coin flip per
    /// cell.  Only the shape of the grid is promised; the cell values are
    /// random.
    pub fn random_mutate(&mut self)
        requires
            old(self).wf(),
        ensures
            final(self).wf(),
            final(self)@.len() == old(self)@.len(),
            final(self).width_spec() == old(self).width_spec(),
            final(self).height_spec() == old(self).height_spec(),
            final(self).is_active() == old(self).is_active(),
    {
        let n = self.grid.len();
        let mut i: usize = 0;
        while i < n
            invariant
                self.grid.wf(),
                self.grid@.len() == old(self).grid@.len(),
                n == self.grid@.len(),
                self.grid.width_spec() == old(self).grid.width_spec(),
                self.grid.height_spec() == old(self).grid.height_spec(),
                self.active == old(self).active,
            decreases n - i,
        {
            if coin_flip() {
                self.grid.set_alive(i);
            } else {
                self.grid.set_dead(i);
            }
            i = i + 1;
        }
    }

    /// Sets every cell to dead, unconditionally.
    pub fn reset(&mut self)
        requires
            old(self).wf(),
        ensures
            final(self).wf(),
            final(self)@.len() == old(self)@.len(),
            forall|i: int| 0 <= i < final(self)@.len() ==> !final(self)@[i],
            final(self).width_spec() == old(self).width_spec(),
            final(self).height_spec() == old(self).height_spec(),
            final(self).is_active() == old(self).is_active(),
    {
        let n = self.grid.len();
        let mut i: usize = 0;
        while i < n
            invariant
                i <= n,
                self.grid.wf(),
                self.grid@.len() == old(self).grid@.len(),
                n == self.grid@.len(),
                self.grid.width_spec() == old(self).grid.width_spec(),
                self.grid.height_spec() == old(self).grid.height_spec(),
                self.active == old(self).active,
                forall|j: int| 0 <= j < i ==> !self.grid@[j],
            decreases n - i,
        {
            self.grid.set_dead(i);
            i = i + 1;
        }
    }

    /// The activation state machine.  While the engine is idle, the first
    /// signal of any kind randomizes the board and activates it.  Once
    /// active, `Step` and `Tick` advance one synchronous generation,
    /// `ToggleCellule` flips one cell, and every other message leaves the
    /// board untouched.  The result says whether a redraw is needed.
    pub fn update(&mut self, msg: Msg) -> (redraw: bool)
        requires
            old(self).wf(),
            old(self).is_active() ==> (msg matches Msg::ToggleCellule(idx)
                ==> idx < old(self)@.len()),
        ensures
            final(self).wf(),
            final(self).is_active(),
            final(self)@.len() == old(self)@.len(),
            final(self).width_spec() == old(self).width_spec(),
            final(self).height_spec() == old(self).height_spec(),
            !old(self).is_active() ==> redraw,
            old(self).is_active() && (msg matches Msg::Step || msg matches Msg::Tick)
                ==> final(self)@ == step_spec(old(self)@, old(self).width_spec(), old(self).height_spec())
                    && redraw,
            old(self).is_active() ==> (msg matches Msg::ToggleCellule(idx) ==> final(self)@
                == toggled(old(self)@, idx as int) && redraw),
            old(self).is_active() && (msg matches Msg::Random || msg matches Msg::Start
                || msg matches Msg::Reset || msg matches Msg::Stop) ==> final(self)@ == old(self)@
                && !redraw,
    {
        if !self.active {
            self.random_mutate();
            self.active = true;
            return true;
        }
        match msg {
            Msg::Step => {
                self.grid.step();
                true
            },
            Msg::ToggleCellule(idx) => {
                self.grid.toggle(idx);
                true
            },
            Msg::Tick => {
                if self.active {
                    self.grid.step();
                    true
                } else {
                    false
                }
            },
            _ => false,
        }
    }
}

} // verus!
