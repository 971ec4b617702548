//! The ordering capability: a type whose values can be compared, with the
//! comparison pinned down by a spec function.

use vstd::prelude::*;

verus! {

/// A capability for types with an ordering comparison.
pub trait Orderable {
    /// Whether `self` is at least `other` under the type's ordering.
    spec fn spec_ge(&self, other: &Self) -> bool;

    fn ge(&self, other: &Self) -> (b: bool)
        ensures
            b == self.spec_ge(other),
    ;
}

impl Orderable for i32 {
    open spec fn spec_ge(&self, other: &Self) -> bool {
        *self >= *other
    }

    fn ge(&self, other: &Self) -> (b: bool) {
        *self >= *other
    }
}

} // verus!
