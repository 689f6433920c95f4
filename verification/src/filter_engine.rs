//! One pass of every registered filter over fetched data.
//!
//! A transaction stays visible when every registered filter keeps it. The
//! filters are asked in registration order and the first refusal ends the
//! questioning for that transaction, so what the pass records in its context
//! is the same on every run over the same data.

use crate::cheap_block_transaction::{groups, BlockTransactionGroup, CheapBlockTransaction};
use crate::encoded_transaction::ParsedEncodedConfirmedTransactionWithStatusMeta;
use crate::filter_registry::FilterRegistry;
use crate::transaction_filter::{TransactionFilter, TransactionFilterContext};
use std::rc::Rc;
use vstd::prelude::*;

verus! {

/// Whether every filter of `filters` keeps `transaction`.
pub open spec fn accepted_by_all(
    filters: Seq<TransactionFilter>,
    transaction: ParsedEncodedConfirmedTransactionWithStatusMeta,
) -> bool {
    forall|i: int| 0 <= i < filters.len() ==> (#[trigger] filters[i]).accepts(&transaction)
}

/// The predicate "every filter of `filters` keeps it".
pub open spec fn keeps(filters: Seq<TransactionFilter>) -> spec_fn(
    ParsedEncodedConfirmedTransactionWithStatusMeta,
) -> bool {
    |transaction: ParsedEncodedConfirmedTransactionWithStatusMeta|
        accepted_by_all(filters, transaction)
}

/// The context after `transaction` went through `filters`: each filter asked
/// is recorded, up to and including the first that refuses.
pub open spec fn judged_context(
    filters: Seq<TransactionFilter>,
    transaction: ParsedEncodedConfirmedTransactionWithStatusMeta,
    context: TransactionFilterContext,
) -> TransactionFilterContext
    decreases filters.len(),
{
    if filters.len() == 0 {
        context
    } else {
        let keep = filters[0].accepts(&transaction);
        if keep {
            judged_context(filters.drop_first(), transaction, context.recorded(keep))
        } else {
            context.recorded(keep)
        }
    }
}

/// The context after every transaction of `transactions` went through
/// `filters`, in order.
pub open spec fn group_context(
    filters: Seq<TransactionFilter>,
    transactions: Seq<ParsedEncodedConfirmedTransactionWithStatusMeta>,
    context: TransactionFilterContext,
) -> TransactionFilterContext
    decreases transactions.len(),
{
    if transactions.len() == 0 {
        context
    } else {
        group_context(
            filters,
            transactions.drop_first(),
            judged_context(filters, transactions[0], context),
        )
    }
}

/// The context after a whole pass over `data`. A pass with no filter leaves
/// the context as it was.
pub open spec fn pass_context(
    filters: Seq<TransactionFilter>,
    data: Seq<BlockTransactionGroup>,
    context: TransactionFilterContext,
) -> TransactionFilterContext
    decreases data.len(),
{
    if data.len() == 0 {
        context
    } else {
        pass_context(
            filters,
            data.drop_first(),
            group_context(filters, data[0].transactions, context),
        )
    }
}

/// A group narrowed to the transactions that every filter keeps, in the
/// order they came in; slot, time and height are the group's own.
pub open spec fn visible_group(
    group: BlockTransactionGroup,
    filters: Seq<TransactionFilter>,
) -> BlockTransactionGroup {
    BlockTransactionGroup {
        slot: group.slot,
        block_time: group.block_time,
        block_height: group.block_height,
        transactions: group.transactions.filter(keeps(filters)),
    }
}

/// What a pass of `filters` leaves visible of `data`: every group, narrowed.
pub open spec fn visible(data: Seq<BlockTransactionGroup>, filters: Seq<TransactionFilter>) -> Seq<
    BlockTransactionGroup,
> {
    data.map_values(|group: BlockTransactionGroup| visible_group(group, filters))
}

/// Filtering by a predicate that holds of every element changes nothing.
pub proof fn lemma_filter_keeps_all<T>(items: Seq<T>, pred: spec_fn(T) -> bool)
    requires
        forall|i: int| 0 <= i < items.len() ==> pred(#[trigger] items[i]),
    ensures
        items.filter(pred) == items,
    decreases items.len(),
{
    reveal(Seq::filter);
    if items.len() > 0 {
        lemma_filter_keeps_all(items.drop_last(), pred);
    }
}

/// What a filtered sequence contains: the elements of the sequence of which
/// the predicate holds.
pub proof fn lemma_filter_contains<T>(items: Seq<T>, pred: spec_fn(T) -> bool, x: T)
    ensures
        items.filter(pred).contains(x) <==> items.contains(x) && pred(x),
    decreases items.len(),
{
    reveal(Seq::filter);
    if items.len() > 0 {
        let front = items.drop_last();
        lemma_filter_contains(front, pred, x);
        let kept = front.filter(pred);
        if items.contains(x) {
            let i = choose|i: int| 0 <= i < items.len() && items[i] == x;
            if i < front.len() {
                assert(front[i] == x);
            }
        }
        if front.contains(x) {
            let i = choose|i: int| 0 <= i < front.len() && front[i] == x;
            assert(items[i] == x);
        }
        if pred(items.last()) {
            let out = kept.push(items.last());
            if kept.contains(x) {
                let i = choose|i: int| 0 <= i < kept.len() && kept[i] == x;
                assert(out[i] == x);
            }
            if out.contains(x) {
                let i = choose|i: int| 0 <= i < out.len() && out[i] == x;
                if i < kept.len() {
                    assert(kept[i] == x);
                }
            }
            assert(out[kept.len() as int] == items.last());
            assert(items[items.len() - 1] == items.last());
        }
    }
}

/// Where `narrow` implies `wide`, narrowing what `wide` kept gives what
/// `narrow` keeps.
pub proof fn lemma_filter_of_wider<T>(items: Seq<T>, narrow: spec_fn(T) -> bool, wide: spec_fn(T) -> bool)
    requires
        forall|x: T| #[trigger] narrow(x) ==> wide(x),
    ensures
        items.filter(wide).filter(narrow) == items.filter(narrow),
    decreases items.len(),
{
    reveal(Seq::filter);
    if items.len() > 0 {
        let front = items.drop_last();
        lemma_filter_of_wider(front, narrow, wide);
        if wide(items.last()) {
            front.filter(wide).lemma_filter_push(items.last(), narrow);
        }
    }
}

/// With no filter registered, everything stays visible.
pub proof fn lemma_no_filter_is_identity(data: Seq<BlockTransactionGroup>)
    ensures
        visible(data, Seq::empty()) == data,
{
    let none = Seq::<TransactionFilter>::empty();
    assert forall|i: int| 0 <= i < data.len() implies visible(data, none)[i] == data[i] by {
        lemma_filter_keeps_all(data[i].transactions, keeps(none));
    }
}

/// A transaction is visible in a group exactly when the fetched group holds
/// it and every registered filter keeps it; the verdict of the filters is
/// the one [`filter_one`] gives on a fresh context.
pub proof fn lemma_visible_iff_accepted(
    data: Seq<BlockTransactionGroup>,
    filters: Seq<TransactionFilter>,
    group: int,
    transaction: ParsedEncodedConfirmedTransactionWithStatusMeta,
)
    requires
        0 <= group < data.len(),
    ensures
        visible(data, filters)[group].transactions.contains(transaction) <==> data[group].transactions.contains(
            transaction,
        ) && accepted_by_all(filters, transaction),
{
    lemma_filter_contains(data[group].transactions, keeps(filters), transaction);
}

/// Taking a filter out of the registry never hides a transaction: what was
/// visible with the filter in place stays visible without it, and narrowing
/// the wider result by the full registry gives the narrower one back.
pub proof fn lemma_fewer_filters_show_more(
    data: Seq<BlockTransactionGroup>,
    filters: Seq<TransactionFilter>,
    taken: int,
    group: int,
)
    requires
        0 <= taken < filters.len(),
        0 <= group < data.len(),
    ensures
        forall|transaction: ParsedEncodedConfirmedTransactionWithStatusMeta|
            #![trigger visible(data, filters.remove(taken))[group].transactions.contains(transaction)]
            visible(data, filters)[group].transactions.contains(transaction) ==> visible(
                data,
                filters.remove(taken),
            )[group].transactions.contains(transaction),
        visible(data, filters.remove(taken))[group].transactions.filter(keeps(filters)) == visible(
            data,
            filters,
        )[group].transactions,
{
    let fewer = filters.remove(taken);
    assert forall|x: ParsedEncodedConfirmedTransactionWithStatusMeta| #[trigger]
        keeps(filters)(x) implies keeps(fewer)(x) by {
        assert forall|i: int| 0 <= i < fewer.len() implies (#[trigger] fewer[i]).accepts(&x) by {}
    }
    lemma_filter_of_wider(data[group].transactions, keeps(filters), keeps(fewer));
    assert forall|transaction: ParsedEncodedConfirmedTransactionWithStatusMeta|
        visible(data, filters)[group].transactions.contains(transaction) implies visible(
        data,
        fewer,
    )[group].transactions.contains(transaction) by {
        lemma_filter_contains(data[group].transactions, keeps(filters), transaction);
        lemma_filter_contains(data[group].transactions, keeps(fewer), transaction);
    }
}

/// A second pass of the same registry over what the first pass left visible
/// changes nothing. The visible result of a pass is a function of the data
/// and the registry alone, so two passes over the same data agree as well.
pub proof fn lemma_pass_is_idempotent(data: Seq<BlockTransactionGroup>, filters: Seq<TransactionFilter>)
    ensures
        visible(visible(data, filters), filters) == visible(data, filters),
{
    let once = visible(data, filters);
    assert forall|i: int| 0 <= i < once.len() implies visible(once, filters)[i] == once[i] by {
        lemma_filter_of_wider(data[i].transactions, keeps(filters), keeps(filters));
    }
}

/// Asks the registered filters about one transaction, in registration order,
/// until one refuses it.
pub fn filter_transaction(
    transaction: &ParsedEncodedConfirmedTransactionWithStatusMeta,
    context: &mut TransactionFilterContext,
    filters: &FilterRegistry,
) -> (keep: bool)
    ensures
        keep == accepted_by_all(filters@, *transaction),
        *final(context) == judged_context(filters@, *transaction, *old(context)),
{
    let list = filters.as_slice();
    let mut i: usize = 0;
    assert(list@.skip(0) == list@);
    while i < list.len()
        invariant
            i <= list.len(),
            list@ == filters@,
            forall|j: int| 0 <= j < i ==> (#[trigger] list@[j]).accepts(transaction),
            judged_context(list@, *transaction, *old(context)) == judged_context(
                list@.skip(i as int),
                *transaction,
                *context,
            ),
        decreases list.len() - i,
    {
        assert(list@.skip(i as int).drop_first() == list@.skip(i + 1));
        let keep = list[i].filter(transaction, context);
        if !keep {
            return false;
        }
        i += 1;
    }
    true
}

/// Whether `transaction` passes every registered filter, judged on a fresh
/// context: the verdict on one item, without a pass over the list.
pub fn filter_one(
    transaction: &ParsedEncodedConfirmedTransactionWithStatusMeta,
    filters: &FilterRegistry,
) -> (keep: bool)
    ensures
        keep == accepted_by_all(filters@, *transaction),
{
    let mut context = TransactionFilterContext::default();
    filter_transaction(transaction, &mut context, filters)
}

/// The transactions of `transactions` that every registered filter keeps.
fn filter_group(
    transactions: &Vec<ParsedEncodedConfirmedTransactionWithStatusMeta>,
    context: &mut TransactionFilterContext,
    filters: &FilterRegistry,
) -> (kept: Vec<ParsedEncodedConfirmedTransactionWithStatusMeta>)
    ensures
        kept@ == transactions@.filter(keeps(filters@)),
        *final(context) == group_context(filters@, transactions@, *old(context)),
{
    let mut kept: Vec<ParsedEncodedConfirmedTransactionWithStatusMeta> = Vec::new();
    let mut i: usize = 0;
    assert(transactions@.take(0).filter(keeps(filters@)) == Seq::<
        ParsedEncodedConfirmedTransactionWithStatusMeta,
    >::empty()) by {
        reveal(Seq::filter);
    }
    assert(transactions@.skip(0) == transactions@);
    while i < transactions.len()
        invariant
            i <= transactions.len(),
            kept@ == transactions@.take(i as int).filter(keeps(filters@)),
            group_context(filters@, transactions@, *old(context)) == group_context(
                filters@,
                transactions@.skip(i as int),
                *context,
            ),
        decreases transactions.len() - i,
    {
        assert(transactions@.skip(i as int).drop_first() == transactions@.skip(i + 1));
        proof {
            assert(transactions@.take(i + 1) == transactions@.take(i as int).push(
                transactions@[i as int],
            ));
            transactions@.take(i as int).lemma_filter_push(transactions@[i as int], keeps(filters@));
        }
        let t = &transactions[i];
        let keep = filter_transaction(t, context, filters);
        if keep {
            kept.push(t.duplicate());
        }
        i += 1;
    }
    kept
}

/// Runs the registered filters over `data`, threading `context` through every
/// evaluation, and returns what stays visible: one group per fetched group,
/// with the same slot, time and height and the transactions that every filter
/// keeps, in the order they came in. With an empty registry the groups come
/// back as they are and the context is not touched.
pub fn do_apply_filters(
    data: &Vec<CheapBlockTransaction>,
    context: &mut TransactionFilterContext,
    filters: &FilterRegistry,
) -> (shown: Vec<CheapBlockTransaction>)
    ensures
        groups(shown@) == visible(groups(data@), filters@),
        filters@.len() == 0 ==> shown@ == data@ && *final(context) == *old(context),
        *final(context) == pass_context(filters@, groups(data@), *old(context)),
{
    let mut ret: Vec<CheapBlockTransaction> = Vec::new();
    if filters.is_empty() {
        let mut i: usize = 0;
        while i < data.len()
            invariant
                i <= data.len(),
                ret@ == data@.take(i as int),
            decreases data.len() - i,
        {
            ret.push(data[i].duplicate());
            i += 1;
        }
        proof {
            assert(filters@ == Seq::<TransactionFilter>::empty());
            lemma_no_filter_is_identity(groups(data@));
            lemma_no_filter_leaves_context(groups(data@), *context);
        }
        return ret;
    }
    let mut i: usize = 0;
    assert(groups(data@).skip(0) == groups(data@));
    while i < data.len()
        invariant
            i <= data.len(),
            ret@.len() == i,
            forall|j: int| 0 <= j < i ==> (#[trigger] ret@[j])@ == visible_group(data@[j]@, filters@),
            pass_context(filters@, groups(data@), *old(context)) == pass_context(
                filters@,
                groups(data@).skip(i as int),
                *context,
            ),
        decreases data.len() - i,
    {
        assert(groups(data@).skip(i as int).drop_first() == groups(data@).skip(i + 1));
        let d = &data[i];
        let r = filter_group(&d.transactions, context, filters);
        let new = CheapBlockTransaction {
            slot: d.slot,
            block_time: d.block_time,
            block_height: d.block_height,
            transactions: Rc::new(r),
        };
        ret.push(new);
        i += 1;
    }
    ret
}

/// A pass without filters records nothing.
proof fn lemma_no_filter_leaves_context(data: Seq<BlockTransactionGroup>, context: TransactionFilterContext)
    ensures
        pass_context(Seq::empty(), data, context) == context,
    decreases data.len(),
{
    if data.len() > 0 {
        lemma_no_filter_leaves_group_context(data[0].transactions, context);
        lemma_no_filter_leaves_context(data.drop_first(), context);
    }
}

proof fn lemma_no_filter_leaves_group_context(
    transactions: Seq<ParsedEncodedConfirmedTransactionWithStatusMeta>,
    context: TransactionFilterContext,
)
    ensures
        group_context(Seq::empty(), transactions, context) == context,
    decreases transactions.len(),
{
    if transactions.len() > 0 {
        lemma_no_filter_leaves_group_context(transactions.drop_first(), context);
    }
}

/// One complete pass: a fresh context, then every registered filter over
/// every transaction of `data`.
pub fn apply(data: &Vec<CheapBlockTransaction>, filters: &FilterRegistry) -> (shown: Vec<
    CheapBlockTransaction,
>)
    ensures
        groups(shown@) == visible(groups(data@), filters@),
        filters@.len() == 0 ==> shown@ == data@,
{
    let mut context = TransactionFilterContext::default();
    do_apply_filters(data, &mut context, filters)
}

} // verus!
