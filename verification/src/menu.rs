//! The menu entries: a fixed, ordered, cyclic set of three actions.

use vstd::prelude::*;

verus! {

/// One entry of the menu. The three entries form a fixed cyclic order:
/// `SingleFileRun`, `MultiFileRun`, `Benchmark`, and back to the start.
#[derive(PartialEq, Eq, Structural, Clone, Copy, Debug)]
pub enum MenuItem {
    SingleFileRun,
    MultiFileRun,
    Benchmark,
}

impl MenuItem {
    /// Position of the entry in the fixed menu order, starting at 0.
    pub open spec fn index(self) -> int {
        match self {
            MenuItem::SingleFileRun => 0,
            MenuItem::MultiFileRun => 1,
            MenuItem::Benchmark => 2,
        }
    }

    /// The entry at a given position of the fixed menu order.
    pub open spec fn from_index(i: int) -> MenuItem
        recommends
            0 <= i < 3,
    {
        if i == 0 {
            MenuItem::SingleFileRun
        } else if i == 1 {
            MenuItem::MultiFileRun
        } else {
            MenuItem::Benchmark
        }
    }

    /// The entry one position forward in the cyclic order.
    pub open spec fn next_spec(self) -> MenuItem {
        match self {
            MenuItem::SingleFileRun => MenuItem::MultiFileRun,
            MenuItem::MultiFileRun => MenuItem::Benchmark,
            MenuItem::Benchmark => MenuItem::SingleFileRun,
        }
    }

    /// The entry one position backward in the cyclic order.
    pub open spec fn prev_spec(self) -> MenuItem {
        match self {
            MenuItem::SingleFileRun => MenuItem::Benchmark,
            MenuItem::Benchmark => MenuItem::MultiFileRun,
            MenuItem::MultiFileRun => MenuItem::SingleFileRun,
        }
    }

    /// The display label of the entry.
    pub open spec fn label_spec(self) -> Seq<char> {
        match self {
            MenuItem::SingleFileRun => "Make single-file run"@,
            MenuItem::MultiFileRun => "Make multi-file run"@,
            MenuItem::Benchmark => "See benchmark performance"@,
        }
    }

    /// Advance one position forward, wrapping past the last entry.
    pub fn next(&self) -> (r: MenuItem)
        ensures
            r == self.next_spec(),
            r.index() == (self.index() + 1) % 3,
    {
        match self {
            MenuItem::SingleFileRun => MenuItem::MultiFileRun,
            MenuItem::MultiFileRun => MenuItem::Benchmark,
            MenuItem::Benchmark => MenuItem::SingleFileRun,
        }
    }

    /// Retreat one position backward, wrapping before the first entry.
    pub fn prev(&self) -> (r: MenuItem)
        ensures
            r == self.prev_spec(),
            r.index() == (self.index() - 1) % 3,
    {
        match self {
            MenuItem::SingleFileRun => MenuItem::Benchmark,
            MenuItem::Benchmark => MenuItem::MultiFileRun,
            MenuItem::MultiFileRun => MenuItem::SingleFileRun,
        }
    }

    /// The display label of the entry.
    pub fn label(&self) -> (r: &'static str)
        ensures
            r@ == self.label_spec(),
    {
        match self {
            MenuItem::SingleFileRun => "Make single-file run",
            MenuItem::MultiFileRun => "Make multi-file run",
            MenuItem::Benchmark => "See benchmark performance",
        }
    }
}

} // verus!
