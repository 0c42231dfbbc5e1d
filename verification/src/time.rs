use vstd::prelude::*;

verus! {

/// A duration counted in whole milliseconds.
#[derive(Clone, Copy, Debug, PartialEq, Eq, Structural)]
pub struct Milliseconds(pub u32);

impl Milliseconds {
    /// The number of milliseconds, as a mathematical integer.
    pub open spec fn ms(self) -> nat {
        self.0 as nat
    }

    /// The duration left of `self` once `elapsed` has gone by, never below zero.
    pub open spec fn minus(self, elapsed: Milliseconds) -> Milliseconds {
        if self.0 >= elapsed.0 {
            Milliseconds((self.0 - elapsed.0) as u32)
        } else {
            Milliseconds(0)
        }
    }

    /// Subtracts `elapsed`, stopping at zero.
    pub fn saturating_sub(self, elapsed: Milliseconds) -> (left: Milliseconds)
        ensures
            left == self.minus(elapsed),
    {
        if self.0 >= elapsed.0 {
            Milliseconds(self.0 - elapsed.0)
        } else {
            Milliseconds(0)
        }
    }
}

} // verus!
