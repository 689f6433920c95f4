//! The filter panel: what the user ticked and typed, and the registry that
//! follows from it.

use crate::filter_registry::{registered, FilterRegistry};
use crate::text::texts;
use crate::transaction_filter::{
    AccountFilter, CircleSwapFilter, FilterKind, SignatureFilter, TransactionFilter,
    TransactionStatusFilter,
};
use crate::transaction_service::TransactionServiceState;
use vstd::prelude::*;
use vstd::string::StrSliceExecFns;

verus! {

/// Whether `c` is white space: a character with the Unicode property
/// `White_Space`.
pub open spec fn is_space(c: char) -> bool {
    let u = c as u32;
    ||| u == 0x20
    ||| 0x09 <= u <= 0x0D
    ||| u == 0x85
    ||| u == 0xA0
    ||| u == 0x1680
    ||| 0x2000 <= u <= 0x200A
    ||| u == 0x2028
    ||| u == 0x2029
    ||| u == 0x202F
    ||| u == 0x205F
    ||| u == 0x3000
}

/// Whether `c` is white space.
pub fn is_white_space(c: char) -> (space: bool)
    ensures
        space == is_space(c),
{
    let u: u32 = c as u32;
    u == 0x20 || (0x09 <= u && u <= 0x0D) || u == 0x85 || u == 0xA0 || u == 0x1680 || (0x2000 <= u
        && u <= 0x200A) || u == 0x2028 || u == 0x2029 || u == 0x202F || u == 0x205F || u == 0x3000
}

/// Where the text of `s` begins: the position of its first character that
/// is not white space, or its length if there is none.
pub open spec fn text_start(s: Seq<char>) -> int
    decreases s.len(),
{
    if s.len() == 0 || !is_space(s[0]) {
        0
    } else {
        1 + text_start(s.drop_first())
    }
}

/// Where the text of `s` ends: the position after its last character that
/// is not white space, or 0 if there is none.
pub open spec fn text_end(s: Seq<char>) -> int
    decreases s.len(),
{
    if s.len() == 0 {
        0
    } else if !is_space(s.last()) {
        s.len() as int
    } else {
        text_end(s.drop_last())
    }
}

/// `s` without the white space at its start and at its end.
pub open spec fn trimmed(s: Seq<char>) -> Seq<char> {
    if text_start(s) >= text_end(s) {
        Seq::empty()
    } else {
        s.subrange(text_start(s), text_end(s))
    }
}

/// The pieces of `s` between the occurrences of `separator`, in order. There
/// is always at least one piece, and a piece may be empty.
pub open spec fn split_on(s: Seq<char>, separator: char) -> Seq<Seq<char>>
    decreases s.len(),
{
    if s.len() == 0 {
        seq![Seq::empty()]
    } else {
        let before = split_on(s.drop_last(), separator);
        if s.last() == separator {
            before.push(Seq::empty())
        } else {
            before.drop_last().push(before.last().push(s.last()))
        }
    }
}

/// `s` without the white space at its start and at its end.
pub fn trim(s: &str) -> (text: &str)
    ensures
        text@ == trimmed(s@),
{
    let len = s.unicode_len();
    let mut start: usize = 0;
    assert(s@.skip(0) == s@);
    while start < len && is_white_space(s.get_char(start))
        invariant
            start <= len,
            len == s@.len(),
            text_start(s@) == start + text_start(s@.skip(start as int)),
        decreases len - start,
    {
        assert(s@.skip(start as int).drop_first() == s@.skip(start + 1));
        start += 1;
    }
    let mut end: usize = len;
    while end > 0 && is_white_space(s.get_char(end - 1))
        invariant
            end <= len,
            len == s@.len(),
            text_end(s@) == text_end(s@.take(end as int)),
        decreases end,
    {
        assert(s@.take(end as int).drop_last() == s@.take(end - 1));
        end -= 1;
    }
    if start >= end {
        s.substring_char(0, 0)
    } else {
        s.substring_char(start, end)
    }
}

/// The pieces of `s` between the occurrences of `separator`, as strings.
pub fn split(s: &str, separator: char) -> (pieces: Vec<String>)
    ensures
        texts(pieces@) == split_on(s@, separator),
{
    let len = s.unicode_len();
    let mut pieces: Vec<String> = Vec::new();
    let mut start: usize = 0;
    let mut i: usize = 0;
    assert(s@.take(0) =~= Seq::<char>::empty());
    while i < len
        invariant
            start <= i <= len,
            len == s@.len(),
            split_on(s@.take(i as int), separator) == texts(pieces@).push(
                s@.subrange(start as int, i as int),
            ),
        decreases len - i,
    {
        let c = s.get_char(i);
        let ghost current = s@.subrange(start as int, i as int);
        assert(s@.take(i + 1).drop_last() == s@.take(i as int));
        if c == separator {
            pieces.push(s.substring_char(start, i).to_string());
            start = i + 1;
            assert(s@.subrange(start as int, i + 1) =~= Seq::<char>::empty());
        } else {
            assert(s@.subrange(start as int, i + 1) =~= current.push(c));
        }
        i += 1;
    }
    assert(s@.take(len as int) == s@);
    pieces.push(s.substring_char(start, len).to_string());
    pieces
}

/// The list a text field stands for: nothing where the field is blank, else
/// the pieces of the trimmed text between commas.
pub open spec fn listed(content: Seq<char>) -> Option<Seq<Seq<char>>> {
    if trimmed(content).len() == 0 {
        None
    } else {
        Some(split_on(trimmed(content), ','))
    }
}

/// The list a text field stands for; see [`listed`].
pub fn parse_list(content: &String) -> (list: Option<Vec<String>>)
    ensures
        match list {
            Some(items) => listed(content@) == Some(texts(items@)),
            None => listed(content@) is None,
        },
{
    let text = trim(content.as_str());
    if text.unicode_len() == 0 {
        return None;
    }
    Some(split(text, ','))
}

/// What the user set on the filter panel.
#[derive(Debug, Clone, PartialEq)]
pub struct FilterContext {
    pub need_filter_account: bool,
    /// Accounts, separated by commas.
    pub filtering_accounts: String,
    pub need_filter_signature: bool,
    /// Signatures, separated by commas.
    pub filtering_signatures: String,
    pub need_filter_status: bool,
    /// `true` for succeeded, `false` for failed.
    pub filtering_status: bool,
    pub need_filter_circle_swap: bool,
}

impl FilterContext {
    /// A panel with nothing ticked and nothing typed.
    pub fn new() -> (panel: Self)
        ensures
            !panel.need_filter_account,
            !panel.need_filter_signature,
            !panel.need_filter_status,
            !panel.need_filter_circle_swap,
            !panel.filtering_status,
            panel.filtering_accounts@.len() == 0,
            panel.filtering_signatures@.len() == 0,
    {
        FilterContext {
            need_filter_account: false,
            filtering_accounts: String::new(),
            need_filter_signature: false,
            filtering_signatures: String::new(),
            need_filter_status: false,
            filtering_status: false,
            need_filter_circle_swap: false,
        }
    }

    /// The circle-swap filter, if it is ticked.
    pub fn make_circle_swap_filter(&self) -> (filter: Option<CircleSwapFilter>)
        ensures
            filter is Some == self.need_filter_circle_swap,
    {
        if self.need_filter_circle_swap {
            Some(CircleSwapFilter)
        } else {
            None
        }
    }

    /// The account filter, if it is ticked and accounts were typed.
    pub fn make_account_filter(&self) -> (filter: Option<AccountFilter>)
        ensures
            match filter {
                Some(AccountFilter::Include(accounts)) => self.wanted_accounts() == Some(
                    texts(accounts@),
                ),
                None => self.wanted_accounts() is None,
            },
    {
        if !self.need_filter_account {
            return None;
        }
        match parse_list(&self.filtering_accounts) {
            Some(accounts) => Some(AccountFilter::Include(accounts)),
            None => None,
        }
    }

    /// The status filter, if it is ticked.
    pub fn make_status_filter(&self) -> (filter: Option<TransactionStatusFilter>)
        ensures
            filter == (if self.need_filter_status {
                Some(TransactionStatusFilter { success: self.filtering_status })
            } else {
                None
            }),
    {
        if self.need_filter_status {
            Some(
                if self.filtering_status {
                    TransactionStatusFilter::success()
                } else {
                    TransactionStatusFilter::fail()
                },
            )
        } else {
            None
        }
    }

    /// The signature filter, if it is ticked and signatures were typed.
    pub fn make_signature_filter(&self) -> (filter: Option<SignatureFilter>)
        ensures
            match filter {
                Some(SignatureFilter::Include(signatures)) => self.wanted_signatures() == Some(
                    texts(signatures@),
                ),
                None => self.wanted_signatures() is None,
            },
    {
        if !self.need_filter_signature {
            return None;
        }
        match parse_list(&self.filtering_signatures) {
            Some(signatures) => Some(SignatureFilter::Include(signatures)),
            None => None,
        }
    }

    /// Registers `filter` in `container` if there is one.
    pub fn collect_filter(container: &mut FilterRegistry, filter: Option<TransactionFilter>)
        ensures
            final(container)@ == (match filter {
                Some(f) => registered(old(container)@, f),
                None => old(container)@,
            }),
    {
        if let Some(filter) = filter {
            container.insert(filter);
        }
    }

    /// The accounts the panel asks for, if it asks for any.
    pub open spec fn wanted_accounts(&self) -> Option<Seq<Seq<char>>> {
        if self.need_filter_account {
            listed(self.filtering_accounts@)
        } else {
            None
        }
    }

    /// The signatures the panel asks for, if it asks for any.
    pub open spec fn wanted_signatures(&self) -> Option<Seq<Seq<char>>> {
        if self.need_filter_signature {
            listed(self.filtering_signatures@)
        } else {
            None
        }
    }

    /// The kinds of filter the panel asks for, in the order in which they are
    /// registered: status, signature, account, circle swap.
    pub open spec fn kinds(&self) -> Seq<FilterKind> {
        (if self.need_filter_status {
            seq![FilterKind::Status]
        } else {
            Seq::empty()
        }) + (if self.wanted_signatures() is Some {
            seq![FilterKind::Signature]
        } else {
            Seq::empty()
        }) + (if self.wanted_accounts() is Some {
            seq![FilterKind::Account]
        } else {
            Seq::empty()
        }) + (if self.need_filter_circle_swap {
            seq![FilterKind::CircleSwap]
        } else {
            Seq::empty()
        })
    }

    /// Whether `filter` is what the panel asks of a filter of its kind.
    pub open spec fn describes(&self, filter: TransactionFilter) -> bool {
        match filter {
            TransactionFilter::Status(f) => self.need_filter_status && f.success
                == self.filtering_status,
            TransactionFilter::Signature(SignatureFilter::Include(list)) => self.wanted_signatures()
                == Some(texts(list@)),
            TransactionFilter::Account(AccountFilter::Include(list)) => self.wanted_accounts()
                == Some(texts(list@)),
            TransactionFilter::CircleSwap(_) => self.need_filter_circle_swap,
        }
    }

    /// Whether `filters` is the registry the panel stands for: the filters it
    /// asks for, each as it asks for it, in registration order.
    pub open spec fn stands_for(&self, filters: Seq<TransactionFilter>) -> bool {
        &&& filters.map_values(|f: TransactionFilter| f.kind()) == self.kinds()
        &&& forall|i: int| 0 <= i < filters.len() ==> self.describes(#[trigger] filters[i])
    }

    /// The registry the panel stands for.
    pub fn collect(&self) -> (filters: FilterRegistry)
        ensures
            self.stands_for(filters@),
    {
        let ghost kind_of = |f: TransactionFilter| f.kind();
        let mut filters = FilterRegistry::new();
        let status = match self.make_status_filter() {
            Some(f) => Some(TransactionFilter::Status(f)),
            None => None,
        };
        Self::collect_filter(&mut filters, status);
        let ghost first = filters@;
        let ghost first_kinds: Seq<FilterKind> = if self.need_filter_status {
            seq![FilterKind::Status]
        } else {
            Seq::empty()
        };
        let signature = match self.make_signature_filter() {
            Some(f) => Some(TransactionFilter::Signature(f)),
            None => None,
        };
        Self::collect_filter(&mut filters, signature);
        let ghost second = filters@;
        let ghost second_kinds: Seq<FilterKind> = first_kinds + (if self.wanted_signatures()
            is Some {
            seq![FilterKind::Signature]
        } else {
            Seq::empty()
        });
        assert(second.map_values(kind_of) =~= second_kinds && forall|i: int|
            0 <= i < second.len() ==> self.describes(#[trigger] second[i])) by {
            if signature is Some {
                assert forall|i: int| 0 <= i < first.len() implies (#[trigger] first[i]).kind()
                    != FilterKind::Signature by {}
            }
        }
        let account = match self.make_account_filter() {
            Some(f) => Some(TransactionFilter::Account(f)),
            None => None,
        };
        Self::collect_filter(&mut filters, account);
        let ghost third = filters@;
        let ghost third_kinds: Seq<FilterKind> = second_kinds + (if self.wanted_accounts() is Some {
            seq![FilterKind::Account]
        } else {
            Seq::empty()
        });
        assert(third.map_values(kind_of) =~= third_kinds && forall|i: int|
            0 <= i < third.len() ==> self.describes(#[trigger] third[i])) by {
            if account is Some {
                assert forall|i: int| 0 <= i < second.len() implies (#[trigger] second[i]).kind()
                    != FilterKind::Account by {}
            }
        }
        let circle_swap = match self.make_circle_swap_filter() {
            Some(f) => Some(TransactionFilter::CircleSwap(f)),
            None => None,
        };
        Self::collect_filter(&mut filters, circle_swap);
        let ghost fourth = filters@;
        assert(fourth.map_values(kind_of) =~= self.kinds() && forall|i: int|
            0 <= i < fourth.len() ==> self.describes(#[trigger] fourth[i])) by {
            if circle_swap is Some {
                assert forall|i: int| 0 <= i < third.len() implies (#[trigger] third[i]).kind()
                    != FilterKind::CircleSwap by {}
            }
        }
        filters
    }

    /// Collects the ticked filters and applies them to the service.
    pub fn apply_filters(&self, transaction_service_state: &mut TransactionServiceState)
        ensures
            self.stands_for(final(transaction_service_state).transaction_filter@),
            TransactionServiceState::refiltered(
                *old(transaction_service_state),
                final(transaction_service_state).transaction_filter@,
                *final(transaction_service_state),
            ),
    {
        let filters = self.collect();
        transaction_service_state.set_and_apply_filters(filters);
    }
}

} // verus!
