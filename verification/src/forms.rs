//! The equivalent call-site forms over capability bounds: an implicit
//! existential parameter, an explicit generic parameter, and both of those
//! with a set of two capabilities; a where-clause form of the same bounds;
//! and a return-position capability.

use vstd::prelude::*;
use vstd::string::StringExecFns;
use crate::display::Displayable;
use crate::summary::Summary;

verus! {

/// The line a notify call produces for a value whose summary is `s`.
pub open spec fn spec_notify(s: Seq<char>) -> Seq<char> {
    "Breaking news! "@ + s
}

/// Implicit existential parameter over the one capability.
pub fn notify(item: &impl Summary) -> (r: String)
    ensures
        r@ == spec_notify(item.spec_summarize()),
{
    String::from_str("Breaking news! ").concat(item.summarize().as_str())
}

/// Explicit generic parameter bound to the one capability; the same behavior
/// as `notify`, but able to force two parameters onto one concrete type.
pub fn notify_2<T: Summary>(item: &T) -> (r: String)
    ensures
        r@ == spec_notify(item.spec_summarize()),
{
    String::from_str("Breaking news! ").concat(item.summarize().as_str())
}

/// Explicit generic parameter bound to the capability set {summarizable,
/// displayable}.
pub fn notify_3<T: Summary + Displayable>(item: &T) -> (r: String)
    ensures
        r@ == spec_notify(item.spec_summarize()),
{
    String::from_str("Breaking news! ").concat(item.summarize().as_str())
}

/// Implicit existential parameter bound to the same capability set as
/// `notify_3`.
pub fn notify_4(item: &(impl Summary + Displayable)) -> (r: String)
    ensures
        r@ == spec_notify(item.spec_summarize()),
{
    String::from_str("Breaking news! ").concat(item.summarize().as_str())
}

/// The four call-site forms agree byte for byte: results of `notify`,
/// `notify_2`, `notify_3` and `notify_4` for one value `item` are all the
/// same character sequence, since each is exactly
/// `spec_notify(item.spec_summarize())`.
pub proof fn lemma_notify_forms_agree<T: Summary + Displayable>(
    item: &T,
    r1: String,
    r2: String,
    r3: String,
    r4: String,
)
    requires
        call_ensures(notify, (item,), r1),
        call_ensures(notify_2::<T>, (item,), r2),
        call_ensures(notify_3::<T>, (item,), r3),
        call_ensures(notify_4, (item,), r4),
    ensures
        r1@ == r2@,
        r2@ == r3@,
        r3@ == r4@,
{
}

/// Inline-bounds form of a call site whose generic parameters each carry
/// several capabilities.
pub fn foo<T: Displayable + core::fmt::Debug, U: Summary + Displayable>(
    first: &T,
    sec: &U,
) -> (r: i32)
    ensures
        r == 267,
{
    267
}

/// Where-clause form of the same kind of call site; the separate constraint
/// clause changes nothing about dispatch.
pub fn foo2<T, U>(first: &T, sec: &U) -> (r: i32) where
    T: Displayable + core::fmt::Debug,
    U: Displayable + Clone,
    ensures
        r == 123,
{
    123
}

/// Return-position capability: some concrete type satisfying `Clone`, chosen
/// here once for every return path and opaque to the caller.
pub fn cloneable() -> impl Clone {
    String::new()
}

} // verus!
