//! The display capability: a type that can render itself as text, with the
//! rendering pinned down by a spec function. `i32` carries the capability
//! through a verified decimal rendering.

use vstd::prelude::*;
use vstd::string::StrSliceExecFns;
use vstd::string::StringExecFns;

verus! {

/// A capability for types that have a textual form.
pub trait Displayable {
    /// The exact text `display` returns.
    spec fn spec_display(&self) -> Seq<char>;

    fn display(&self) -> (r: String)
        ensures
            r@ == self.spec_display(),
    ;
}

/// The character for one decimal digit.
pub open spec fn digit_char(d: nat) -> char {
    if d == 0 {
        '0'
    } else if d == 1 {
        '1'
    } else if d == 2 {
        '2'
    } else if d == 3 {
        '3'
    } else if d == 4 {
        '4'
    } else if d == 5 {
        '5'
    } else if d == 6 {
        '6'
    } else if d == 7 {
        '7'
    } else if d == 8 {
        '8'
    } else {
        '9'
    }
}

/// The decimal digits of `n`, most significant first, with no leading zero
/// except for `n == 0` itself.
pub open spec fn spec_decimal_digits(n: nat) -> Seq<char>
    decreases n,
{
    if n < 10 {
        seq![digit_char(n)]
    } else {
        spec_decimal_digits(n / 10) + seq![digit_char(n % 10)]
    }
}

/// The decimal rendering of an integer: a minus sign before the digits of the
/// magnitude when `n` is negative.
pub open spec fn spec_decimal(n: int) -> Seq<char> {
    if n < 0 {
        seq!['-'] + spec_decimal_digits((-n) as nat)
    } else {
        spec_decimal_digits(n as nat)
    }
}

/// Renders `n` in decimal, matching `spec_decimal_digits`.
fn decimal_digits(n: u32) -> (r: String)
    ensures
        r@ == spec_decimal_digits(n as nat),
    decreases n,
{
    let d = (n % 10) as usize;
    proof {
        reveal_strlit("0123456789");
    }
    let digit = "0123456789".substring_ascii(d, d + 1);
    proof {
        assert(digit@ =~= seq![digit_char((n % 10) as nat)]);
    }
    if n < 10 {
        String::from_str(digit)
    } else {
        decimal_digits(n / 10).concat(digit)
    }
}

impl Displayable for i32 {
    open spec fn spec_display(&self) -> Seq<char> {
        spec_decimal(*self as int)
    }

    fn display(&self) -> (r: String) {
        if *self < 0 {
            let magnitude = (-(*self as i64)) as u32;
            let r = String::from_str("-").concat(decimal_digits(magnitude).as_str());
            proof {
                reveal_strlit("-");
                assert(r@ =~= self.spec_display());
            }
            r
        } else {
            decimal_digits(*self as u32)
        }
    }
}

} // verus!
