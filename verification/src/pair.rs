//! A generic pair with a conditionally available method: `cmp_display`
//! exists on `Pair<T>` only when `T` carries both the display and the
//! ordering capability, and is absent from the type's interface otherwise.

use vstd::prelude::*;
use vstd::string::StringExecFns;
use crate::display::Displayable;
use crate::order::Orderable;

verus! {

/// The line `cmp_display` produces for the element whose text is `s`.
pub open spec fn spec_larger_line(s: Seq<char>) -> Seq<char> {
    "The larger of the pair is: "@ + s
}

/// Two values of one type.
pub struct Pair<T> {
    pub first: T,
    pub second: T,
}

impl<T> Pair<T> {
    /// Unconditional constructor: available for every element type.
    pub fn new(first: T, second: T) -> (p: Pair<T>)
        ensures
            p.first == first,
            p.second == second,
    {
        Pair { first, second }
    }
}

impl<T: Displayable + Orderable> Pair<T> {
    /// Announces the element that is not smaller: `first` when
    /// `first >= second` under the ordering capability (so a tie resolves in
    /// favor of `first`), and `second` otherwise, rendered by the display
    /// capability.
    pub fn cmp_display(&self) -> (r: String)
        ensures
            self.first.spec_ge(&self.second) ==> r@ == spec_larger_line(
                self.first.spec_display(),
            ),
            !self.first.spec_ge(&self.second) ==> r@ == spec_larger_line(
                self.second.spec_display(),
            ),
    {
        if self.first.ge(&self.second) {
            String::from_str("The larger of the pair is: ").concat(self.first.display().as_str())
        } else {
            String::from_str("The larger of the pair is: ").concat(self.second.display().as_str())
        }
    }
}

} // verus!
