//! What the whole application is busy with.

use crate::service_provider::Service;
use vstd::prelude::*;

verus! {

/// The one long-running activity the application may be engaged in; while
/// there is one, its description is shown over everything else.
#[derive(Debug, Clone, PartialEq)]
pub struct GlobalService {
    pub doing: Option<String>,
}

impl Service for GlobalService {
    open spec fn initial() -> Self {
        GlobalService { doing: None }
    }

    fn instance() -> (service: Self) {
        GlobalService { doing: None }
    }
}

impl GlobalService {
    /// Marks the application as busy with `content`.
    pub fn engaged(&mut self, content: String)
        ensures
            final(self).doing == Some(content),
    {
        self.doing = Some(content);
    }

    /// Marks the application as free again.
    pub fn unengaged(&mut self)
        ensures
            final(self).doing is None,
    {
        self.doing = None;
    }
}

} // verus!
