//! Sharing of immutable values behind reference-counted pointers.

use std::rc::Rc;
use vstd::prelude::*;

verus! {

/// `Rc::clone`: a second pointer to the same allocation. The contract claims
/// that the new pointer reads the same value as the one it was made from.
#[verifier::external_body]
pub(crate) fn share<T>(value: &Rc<T>) -> (shared: Rc<T>)
    ensures
        shared == *value,
{
    Rc::clone(value)
}

} // verus!
