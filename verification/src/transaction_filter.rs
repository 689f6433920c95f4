//! The predicate filters a transaction list can be narrowed by, and the
//! accumulator that one pass over the list carries through every evaluation.

use crate::encoded_transaction::{ParsedEncodedConfirmedTransactionWithStatusMeta, ParsedInstruction};
use crate::text::{contains_any_text, texts};
use vstd::prelude::*;

verus! {

/// The accumulator of one filter pass. Every evaluation of a filter is
/// recorded in it; both counters stop at `u64::MAX`.
#[derive(Debug, Clone, Copy, PartialEq, Eq)]
pub struct TransactionFilterContext {
    /// How many times a filter was asked about a transaction.
    pub evaluated: u64,
    /// How many of those evaluations turned the transaction down.
    pub rejected: u64,
}

/// `n + 1`, held at `u64::MAX`.
pub open spec fn bumped(n: u64) -> u64 {
    if n < u64::MAX {
        (n + 1) as u64
    } else {
        n
    }
}

impl TransactionFilterContext {
    /// The context after one more evaluation with verdict `keep`.
    pub open spec fn recorded(self, keep: bool) -> Self {
        TransactionFilterContext {
            evaluated: bumped(self.evaluated),
            rejected: if keep {
                self.rejected
            } else {
                bumped(self.rejected)
            },
        }
    }

    /// The context every pass starts from: nothing evaluated yet.
    pub open spec fn fresh() -> Self {
        TransactionFilterContext { evaluated: 0, rejected: 0 }
    }

    /// Records one evaluation with verdict `keep`.
    pub fn record(&mut self, keep: bool)
        ensures
            *final(self) == old(self).recorded(keep),
    {
        if self.evaluated < u64::MAX {
            self.evaluated = self.evaluated + 1;
        }
        if !keep && self.rejected < u64::MAX {
            self.rejected = self.rejected + 1;
        }
    }
}

impl Default for TransactionFilterContext {
    fn default() -> (context: Self)
        ensures
            context == TransactionFilterContext::fresh(),
    {
        TransactionFilterContext { evaluated: 0, rejected: 0 }
    }
}

/// The stable key of a filter in the registry: one per kind of filter.
#[derive(Debug, Clone, Copy, PartialEq, Eq, Structural)]
pub enum FilterKind {
    Status,
    Signature,
    Account,
    CircleSwap,
}

/// Keeps the transactions that refer to at least one of the listed accounts.
#[derive(Debug, Clone, PartialEq)]
pub enum AccountFilter {
    Include(Vec<String>),
}

/// Keeps the transactions that carry at least one of the listed signatures.
#[derive(Debug, Clone, PartialEq)]
pub enum SignatureFilter {
    Include(Vec<String>),
}

/// Keeps the transactions whose recorded outcome is the wanted one. A
/// transaction without an execution record is turned down either way.
#[derive(Debug, Clone, Copy, PartialEq, Eq)]
pub struct TransactionStatusFilter {
    pub success: bool,
}

/// Keeps the transactions whose swaps run in a circle: at least two swaps,
/// each paying with the mint the previous one bought, the last one buying
/// back the mint the first one paid with.
#[derive(Debug, Clone, Copy, PartialEq, Eq)]
pub struct CircleSwapFilter;

/// Whether some string of `wanted` occurs in `present`.
pub open spec fn any_listed(wanted: Seq<String>, present: Seq<Seq<char>>) -> bool {
    exists|k: int| 0 <= k < wanted.len() && present.contains(#[trigger] texts(wanted)[k])
}

impl AccountFilter {
    /// Whether `transaction` refers to at least one of the listed accounts.
    pub open spec fn accepts(&self, transaction: &ParsedEncodedConfirmedTransactionWithStatusMeta) -> bool {
        match self {
            AccountFilter::Include(accounts) => any_listed(accounts@, transaction.accounts()),
        }
    }

    /// The key under which the registry holds the filter.
    pub fn id(&self) -> (kind: FilterKind)
        ensures
            kind == FilterKind::Account,
    {
        FilterKind::Account
    }

    /// Judges one transaction and records the evaluation in `context`.
    pub fn filter(
        &self,
        transaction: &ParsedEncodedConfirmedTransactionWithStatusMeta,
        context: &mut TransactionFilterContext,
    ) -> (keep: bool)
        ensures
            keep == self.accepts(transaction),
            *final(context) == old(context).recorded(keep),
    {
        let keep = match self {
            AccountFilter::Include(accounts) => transaction.get_accounts().contains_any(accounts),
        };
        context.record(keep);
        keep
    }
}

impl SignatureFilter {
    /// Whether `transaction` lists its signatures and carries at least one
    /// of the wanted ones.
    pub open spec fn accepts(&self, transaction: &ParsedEncodedConfirmedTransactionWithStatusMeta) -> bool {
        match self {
            SignatureFilter::Include(signatures) => match transaction.signatures() {
                Some(present) => any_listed(signatures@, present),
                None => false,
            },
        }
    }

    /// The key under which the registry holds the filter.
    pub fn id(&self) -> (kind: FilterKind)
        ensures
            kind == FilterKind::Signature,
    {
        FilterKind::Signature
    }

    /// Judges one transaction and records the evaluation in `context`.
    pub fn filter(
        &self,
        transaction: &ParsedEncodedConfirmedTransactionWithStatusMeta,
        context: &mut TransactionFilterContext,
    ) -> (keep: bool)
        ensures
            keep == self.accepts(transaction),
            *final(context) == old(context).recorded(keep),
    {
        let keep = match self {
            SignatureFilter::Include(signatures) => match transaction.get_signatures() {
                Some(present) => contains_any_text(present, signatures),
                None => false,
            },
        };
        context.record(keep);
        keep
    }
}

impl TransactionStatusFilter {
    /// The filter that keeps the transactions that succeeded.
    pub fn success() -> (filter: Self)
        ensures
            filter.success,
    {
        TransactionStatusFilter { success: true }
    }

    /// The filter that keeps the transactions that failed.
    pub fn fail() -> (filter: Self)
        ensures
            !filter.success,
    {
        TransactionStatusFilter { success: false }
    }

    /// Whether `transaction` has an execution record with the wanted outcome.
    pub open spec fn accepts(&self, transaction: &ParsedEncodedConfirmedTransactionWithStatusMeta) -> bool {
        transaction.succeeded() == Some(self.success)
    }

    /// The key under which the registry holds the filter.
    pub fn id(&self) -> (kind: FilterKind)
        ensures
            kind == FilterKind::Status,
    {
        FilterKind::Status
    }

    /// Judges one transaction and records the evaluation in `context`.
    pub fn filter(
        &self,
        transaction: &ParsedEncodedConfirmedTransactionWithStatusMeta,
        context: &mut TransactionFilterContext,
    ) -> (keep: bool)
        ensures
            keep == self.accepts(transaction),
            *final(context) == old(context).recorded(keep),
    {
        let keep = match transaction.get_meta() {
            Some(meta) => meta.status == self.success,
            None => false,
        };
        context.record(keep);
        keep
    }
}

/// The swaps among `instructions`, in order, each as the pair of the mint
/// paid and the mint bought.
pub open spec fn swap_route(instructions: Seq<ParsedInstruction>) -> Seq<(Seq<char>, Seq<char>)>
    decreases instructions.len(),
{
    if instructions.len() == 0 {
        Seq::empty()
    } else {
        let before = swap_route(instructions.drop_last());
        match instructions.last() {
            ParsedInstruction::Swap { source_mint, destination_mint } => before.push(
                (source_mint@, destination_mint@),
            ),
            ParsedInstruction::Other { .. } => before,
        }
    }
}

/// Whether each swap of `route` pays with the mint that the one before bought.
pub open spec fn chained(route: Seq<(Seq<char>, Seq<char>)>) -> bool {
    forall|i: int| 0 <= i < route.len() - 1 ==> (#[trigger] route[i]).1 == route[i + 1].0
}

/// Whether `route` runs in a circle.
pub open spec fn closes_circle(route: Seq<(Seq<char>, Seq<char>)>) -> bool {
    &&& route.len() >= 2
    &&& chained(route)
    &&& route.last().1 == route[0].0
}

impl CircleSwapFilter {
    /// Whether the swaps of `transaction` run in a circle.
    pub open spec fn accepts(&self, transaction: &ParsedEncodedConfirmedTransactionWithStatusMeta) -> bool {
        closes_circle(swap_route(transaction.parsed_instructions.instructions@))
    }

    /// The key under which the registry holds the filter.
    pub fn id(&self) -> (kind: FilterKind)
        ensures
            kind == FilterKind::CircleSwap,
    {
        FilterKind::CircleSwap
    }

    /// Judges one transaction and records the evaluation in `context`.
    pub fn filter(
        &self,
        transaction: &ParsedEncodedConfirmedTransactionWithStatusMeta,
        context: &mut TransactionFilterContext,
    ) -> (keep: bool)
        ensures
            keep == self.accepts(transaction),
            *final(context) == old(context).recorded(keep),
    {
        let instructions = &transaction.parsed_instructions.instructions;
        let mut first_source: Option<&String> = None;
        let mut last_destination: Option<&String> = None;
        let mut swaps: usize = 0;
        let mut unbroken = true;
        let mut i: usize = 0;
        while i < instructions.len()
            invariant
                i <= instructions.len(),
                swaps <= i,
                swaps == swap_route(instructions@.take(i as int)).len(),
                unbroken == chained(swap_route(instructions@.take(i as int))),
                swaps == 0 ==> first_source is None && last_destination is None,
                swaps > 0 ==> first_source is Some && first_source.unwrap()@ == swap_route(
                    instructions@.take(i as int),
                )[0].0,
                swaps > 0 ==> last_destination is Some && last_destination.unwrap()@ == swap_route(
                    instructions@.take(i as int),
                ).last().1,
            decreases instructions.len() - i,
        {
            let ghost before = swap_route(instructions@.take(i as int));
            assert(instructions@.take(i + 1).drop_last() == instructions@.take(i as int));
            match &instructions[i] {
                ParsedInstruction::Swap { source_mint, destination_mint } => {
                    let ghost after = before.push((source_mint@, destination_mint@));
                    match last_destination {
                        Some(bought) => {
                            if !(*bought == *source_mint) {
                                unbroken = false;
                            }
                            proof {
                                if chained(before) && bought@ == source_mint@ {
                                    assert forall|j: int| 0 <= j < after.len() - 1 implies (
                                    #[trigger] after[j]).1 == after[j + 1].0 by {}
                                } else if chained(after) {
                                    assert forall|j: int| 0 <= j < before.len() - 1 implies (
                                    #[trigger] before[j]).1 == before[j + 1].0 by {
                                        assert(after[j].1 == after[j + 1].0);
                                    }
                                    assert(after[before.len() - 1].1 == after[before.len() as int].0);
                                }
                            }
                        },
                        None => {
                            first_source = Some(source_mint);
                        },
                    }
                    last_destination = Some(destination_mint);
                    swaps = swaps + 1;
                },
                ParsedInstruction::Other { .. } => {},
            }
            i += 1;
        }
        assert(instructions@.take(i as int) == instructions@);
        let keep = match (first_source, last_destination) {
            (Some(paid), Some(bought)) => swaps >= 2 && unbroken && *bought == *paid,
            _ => false,
        };
        context.record(keep);
        keep
    }
}

/// A filter of one of the kinds the registry knows.
#[derive(Debug, Clone, PartialEq)]
pub enum TransactionFilter {
    Status(TransactionStatusFilter),
    Signature(SignatureFilter),
    Account(AccountFilter),
    CircleSwap(CircleSwapFilter),
}

impl TransactionFilter {
    /// The kind of the filter, its key in the registry.
    pub open spec fn kind(&self) -> FilterKind {
        match self {
            TransactionFilter::Status(_) => FilterKind::Status,
            TransactionFilter::Signature(_) => FilterKind::Signature,
            TransactionFilter::Account(_) => FilterKind::Account,
            TransactionFilter::CircleSwap(_) => FilterKind::CircleSwap,
        }
    }

    /// Whether the filter keeps `transaction`. The verdict depends on the
    /// filter and the transaction alone, never on the pass so far.
    pub open spec fn accepts(&self, transaction: &ParsedEncodedConfirmedTransactionWithStatusMeta) -> bool {
        match self {
            TransactionFilter::Status(f) => f.accepts(transaction),
            TransactionFilter::Signature(f) => f.accepts(transaction),
            TransactionFilter::Account(f) => f.accepts(transaction),
            TransactionFilter::CircleSwap(f) => f.accepts(transaction),
        }
    }

    /// The key under which the registry holds the filter.
    pub fn id(&self) -> (kind: FilterKind)
        ensures
            kind == self.kind(),
    {
        match self {
            TransactionFilter::Status(f) => f.id(),
            TransactionFilter::Signature(f) => f.id(),
            TransactionFilter::Account(f) => f.id(),
            TransactionFilter::CircleSwap(f) => f.id(),
        }
    }

    /// Judges one transaction and records the evaluation in `context`.
    pub fn filter(
        &self,
        transaction: &ParsedEncodedConfirmedTransactionWithStatusMeta,
        context: &mut TransactionFilterContext,
    ) -> (keep: bool)
        ensures
            keep == self.accepts(transaction),
            *final(context) == old(context).recorded(keep),
    {
        match self {
            TransactionFilter::Status(f) => f.filter(transaction, context),
            TransactionFilter::Signature(f) => f.filter(transaction, context),
            TransactionFilter::Account(f) => f.filter(transaction, context),
            TransactionFilter::CircleSwap(f) => f.filter(transaction, context),
        }
    }
}

} // verus!
