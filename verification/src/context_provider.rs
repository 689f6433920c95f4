//! Values that a composition root provides once and hands to whoever needs
//! them.

use vstd::prelude::*;

verus! {

/// A value with a defined initial state, provided once at start-up.
pub trait ContextProvider: Clone + Sized {
    /// The state the value starts in.
    spec fn initial() -> Self;

    /// The value in its initial state.
    fn instance() -> (provided: Self)
        ensures
            provided == Self::initial(),
    ;
}

} // verus!
