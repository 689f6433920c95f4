//! Services: the long-lived state holders of the client.

use vstd::prelude::*;

verus! {

/// A service with a defined initial state. A service is created once, at the
/// composition root, and passed on by reference.
pub trait Service: Clone + Sized {
    /// The state the service starts in.
    spec fn initial() -> Self;

    /// The service in its initial state.
    fn instance() -> (service: Self)
        ensures
            service == Self::initial(),
    ;
}

} // verus!
