use vstd::prelude::*;

verus! {

/// A two-state magnetic moment at one lattice site.
#[derive(Clone, Copy, Debug, PartialEq, Eq, Structural)]
pub enum Spin {
    Up,
    Down,
}

impl Spin {
    /// The numeric value of the spin: `+1` for `Up`, `-1` for `Down`.
    pub open spec fn spec_value(self) -> int {
        match self {
            Spin::Up => 1,
            Spin::Down => -1,
        }
    }

    /// The opposite spin.
    pub open spec fn flipped(self) -> Spin {
        match self {
            Spin::Up => Spin::Down,
            Spin::Down => Spin::Up,
        }
    }

    /// Toggles the spin in place.
    pub fn flip(&mut self)
        ensures
            *final(self) == old(self).flipped(),
    {
        match self {
            Spin::Up => *self = Spin::Down,
            Spin::Down => *self = Spin::Up,
        }
    }

    /// The numeric value of the spin: `+1` for `Up`, `-1` for `Down`.
    pub fn value(&self) -> (r: i32)
        ensures
            r == self.spec_value(),
    {
        match self {
            Spin::Up => 1,
            Spin::Down => -1,
        }
    }

    /// Whether the spin points up.
    pub fn is_up(&self) -> (r: bool)
        ensures
            r == (*self == Spin::Up),
    {
        match self {
            Spin::Up => true,
            Spin::Down => false,
        }
    }
}

} // verus!
