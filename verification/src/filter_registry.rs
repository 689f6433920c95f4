//! The registry of active filters: at most one filter of each kind, kept in
//! the order in which the kinds were first registered.

use crate::transaction_filter::{FilterKind, TransactionFilter};
use vstd::prelude::*;

verus! {

/// Whether no two filters of `filters` are of the same kind.
pub open spec fn distinct_kinds(filters: Seq<TransactionFilter>) -> bool {
    forall|i: int, j: int|
        0 <= i < j < filters.len() ==> (#[trigger] filters[i]).kind() != (#[trigger] filters[j]).kind()
}

/// The position of the filter of kind `kind` in `filters`, if there is one.
pub open spec fn position_of(filters: Seq<TransactionFilter>, kind: FilterKind) -> Option<int> {
    if exists|i: int| 0 <= i < filters.len() && (#[trigger] filters[i]).kind() == kind {
        Some(choose|i: int| 0 <= i < filters.len() && (#[trigger] filters[i]).kind() == kind)
    } else {
        None
    }
}

/// `filters` with `filter` registered: in the place of the filter of the same
/// kind where there is one, behind all others where there is none.
pub open spec fn registered(filters: Seq<TransactionFilter>, filter: TransactionFilter) -> Seq<
    TransactionFilter,
> {
    match position_of(filters, filter.kind()) {
        Some(i) => filters.update(i, filter),
        None => filters.push(filter),
    }
}

/// `filters` without the filter of kind `kind`.
pub open spec fn unregistered(filters: Seq<TransactionFilter>, kind: FilterKind) -> Seq<
    TransactionFilter,
> {
    match position_of(filters, kind) {
        Some(i) => filters.remove(i),
        None => filters,
    }
}

/// The active filters, keyed by kind. Evaluation follows registration order.
#[derive(Debug, PartialEq)]
pub struct FilterRegistry {
    filters: Vec<TransactionFilter>,
}

impl View for FilterRegistry {
    type V = Seq<TransactionFilter>;

    closed spec fn view(&self) -> Seq<TransactionFilter> {
        self.filters@
    }
}

impl FilterRegistry {
    #[verifier::type_invariant]
    spec fn kinds_are_keys(&self) -> bool {
        distinct_kinds(self.filters@)
    }

    /// An empty registry.
    pub fn new() -> (registry: Self)
        ensures
            registry@ == Seq::<TransactionFilter>::empty(),
    {
        FilterRegistry { filters: Vec::new() }
    }

    /// How many filters are registered.
    pub fn len(&self) -> (n: usize)
        ensures
            n == self@.len(),
    {
        self.filters.len()
    }

    /// Whether no filter is registered.
    pub fn is_empty(&self) -> (empty: bool)
        ensures
            empty == (self@.len() == 0),
    {
        self.filters.len() == 0
    }

    /// The filters in evaluation order; no two of them are of one kind.
    pub fn as_slice(&self) -> (filters: &[TransactionFilter])
        ensures
            filters@ == self@,
            distinct_kinds(self@),
    {
        proof {
            use_type_invariant(self);
        }
        self.filters.as_slice()
    }

    /// Where the filter of kind `kind` stands, if one is registered.
    pub fn find(&self, kind: FilterKind) -> (at: Option<usize>)
        ensures
            match at {
                Some(i) => position_of(self@, kind) == Some(i as int) && i < self@.len()
                    && self@[i as int].kind() == kind,
                None => position_of(self@, kind) is None,
            },
            distinct_kinds(self@),
    {
        proof {
            use_type_invariant(self);
        }
        let mut i: usize = 0;
        while i < self.filters.len()
            invariant
                i <= self.filters.len(),
                distinct_kinds(self.filters@),
                forall|j: int| 0 <= j < i ==> (#[trigger] self.filters@[j]).kind() != kind,
            decreases self.filters.len() - i,
        {
            if self.filters[i].id() == kind {
                proof {
                    let chosen = position_of(self@, kind).unwrap();
                    assert(self@[chosen].kind() == kind);
                    assert(chosen == i);
                }
                return Some(i);
            }
            i += 1;
        }
        None
    }

    /// The filter of kind `kind`, if one is registered.
    pub fn get(&self, kind: FilterKind) -> (filter: Option<&TransactionFilter>)
        ensures
            match position_of(self@, kind) {
                Some(i) => filter == Some(&self@[i]),
                None => filter is None,
            },
    {
        match self.find(kind) {
            Some(i) => Some(&self.filters[i]),
            None => None,
        }
    }

    /// Registers `filter` under its kind, replacing the filter of that kind
    /// if one is registered.
    pub fn insert(&mut self, filter: TransactionFilter)
        ensures
            final(self)@ == registered(old(self)@, filter),
            distinct_kinds(final(self)@),
    {
        let at = self.find(filter.id());
        let mut taken = FilterRegistry::new();
        core::mem::swap(self, &mut taken);
        let FilterRegistry { mut filters } = taken;
        match at {
            Some(i) => {
                filters.set(i, filter);
            },
            None => {
                filters.push(filter);
            },
        }
        *self = FilterRegistry { filters };
    }

    /// Unregisters the filter of kind `kind`; nothing changes where none is
    /// registered.
    pub fn remove(&mut self, kind: FilterKind)
        ensures
            final(self)@ == unregistered(old(self)@, kind),
            distinct_kinds(final(self)@),
    {
        let at = self.find(kind);
        let mut taken = FilterRegistry::new();
        core::mem::swap(self, &mut taken);
        let FilterRegistry { mut filters } = taken;
        match at {
            Some(i) => {
                filters.remove(i);
            },
            None => {},
        }
        *self = FilterRegistry { filters };
    }
}

} // verus!
