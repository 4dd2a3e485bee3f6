//! Source positions of synthesized syntax.
use vstd::prelude::*;

verus! {

/// A source position.  `Source(n)` is a position that the front end keeps
/// under the number `n`; the transforms only carry it from the syntax that a
/// fragment is derived from to the fragment.
#[derive(Clone, Copy, Debug, PartialEq, Eq, Structural, Hash)]
pub enum Span {
    /// The position of the macro invocation itself.
    CallSite,
    /// A position in the user's source.
    Source(u64),
}

/// The position of the macro invocation.
pub fn call_site() -> (s: Span)
    ensures
        s == Span::CallSite,
{
    Span::CallSite
}

} // verus!
