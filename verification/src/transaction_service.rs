//! The query service of the workspace: what is being fetched, what came back,
//! what of it the filters leave visible, and which transaction is under
//! inspection.

use crate::cheap_block_transaction::{
    confirmed_all, groups, last_signed, BlockTransaction, BlockTransactionGroup,
    CheapBlockTransaction,
};
use crate::encoded_transaction::{
    EncodedConfirmedTransactionWithStatusMeta, ParsedEncodedConfirmedTransactionWithStatusMeta,
};
use crate::filter_engine::{accepted_by_all, do_apply_filters, filter_one, pass_context, visible};
use crate::filter_registry::{registered, unregistered, FilterRegistry};
use crate::shared::share;
use crate::transaction_filter::{FilterKind, TransactionFilter, TransactionFilterContext};
use std::rc::Rc;
use vstd::prelude::*;

verus! {

/// The two kinds of query the workspace offers.
#[derive(Copy, Clone, Debug, PartialEq, Eq, Structural)]
pub enum TransactionServiceModule {
    /// One transaction, by signature.
    Query,
    /// The blocks around the transaction with a given signature.
    QueryNearby,
}

impl TransactionServiceModule {
    /// The name of the module as the workspace shows it.
    pub fn label(&self) -> (text: String)
        ensures
            text@ == (match self {
                TransactionServiceModule::Query => "查询交易"@,
                TransactionServiceModule::QueryNearby => "查询邻近交易"@,
            }),
    {
        match self {
            TransactionServiceModule::Query => "查询交易".to_string(),
            TransactionServiceModule::QueryNearby => "查询邻近交易".to_string(),
        }
    }
}

/// A failure reported by the fetch capability.
#[derive(Debug, Clone, PartialEq)]
pub struct ApiError {
    pub code: i32,
    pub message: String,
}

/// What to ask the backend for one transaction.
#[derive(Debug, Clone, PartialEq)]
pub struct FetchTransactionParam {
    pub signature: String,
}

/// What to ask the backend for the blocks around a transaction.
#[derive(Debug, Clone, PartialEq)]
pub struct FetchTransactionsNearByParam {
    pub signature: String,
    pub backward: Option<u32>,
    pub forward: Option<u32>,
}

/// The result of a query: one transaction, or a list of block groups.
#[derive(Debug, Clone, PartialEq)]
pub enum HandlingData {
    Query(ParsedEncodedConfirmedTransactionWithStatusMeta),
    QueryNearby(Rc<Vec<CheapBlockTransaction>>),
}

/// What a [`HandlingData`] holds.
pub enum HandlingDataView {
    Query(ParsedEncodedConfirmedTransactionWithStatusMeta),
    QueryNearby(Seq<BlockTransactionGroup>),
}

impl View for HandlingData {
    type V = HandlingDataView;

    open spec fn view(&self) -> HandlingDataView {
        match self {
            HandlingData::Query(transaction) => HandlingDataView::Query(*transaction),
            HandlingData::QueryNearby(data) => HandlingDataView::QueryNearby(groups(data@)),
        }
    }
}

/// What an optional result holds.
pub open spec fn handled(data: Option<HandlingData>) -> Option<HandlingDataView> {
    match data {
        Some(d) => Some(d@),
        None => None,
    }
}

/// The item picked for the detail view.
#[derive(Debug, Clone, PartialEq)]
pub enum InspectingData {
    SingleTransaction(ParsedEncodedConfirmedTransactionWithStatusMeta),
}

impl InspectingData {
    /// The transaction under inspection.
    pub open spec fn transaction(self) -> ParsedEncodedConfirmedTransactionWithStatusMeta {
        match self {
            InspectingData::SingleTransaction(transaction) => transaction,
        }
    }
}

/// The inspected item with its standing under the current filters: active
/// while the filters keep it, inactive once they do not. A change of filters
/// changes the tag, never the item.
#[derive(Debug, Clone, PartialEq)]
pub enum InspectingDataStatus {
    Active(InspectingData),
    InActive(InspectingData),
}

impl InspectingDataStatus {
    /// The wrapped item.
    pub open spec fn item(self) -> InspectingData {
        match self {
            InspectingDataStatus::Active(data) => data,
            InspectingDataStatus::InActive(data) => data,
        }
    }

    /// Whether the tag is `Active`.
    pub open spec fn active(self) -> bool {
        self is Active
    }

    /// The same item under the tag that `is_active` asks for.
    pub open spec fn tagged(self, is_active: bool) -> Self {
        if is_active {
            InspectingDataStatus::Active(self.item())
        } else {
            InspectingDataStatus::InActive(self.item())
        }
    }

    /// Replaces the wrapped item by what `f` makes of it; the tag stays.
    pub fn map<F: FnOnce(InspectingData) -> InspectingData>(self, f: F) -> (mapped: Self)
        requires
            call_requires(f, (self.item(),)),
        ensures
            mapped.active() == self.active(),
            call_ensures(f, (self.item(),), mapped.item()),
    {
        match self {
            InspectingDataStatus::Active(data) => InspectingDataStatus::Active(f(data)),
            InspectingDataStatus::InActive(data) => InspectingDataStatus::InActive(f(data)),
        }
    }

    /// The wrapped item, by value.
    pub fn data(self) -> (data: InspectingData)
        ensures
            data == self.item(),
    {
        match self {
            InspectingDataStatus::Active(d) => d,
            InspectingDataStatus::InActive(d) => d,
        }
    }

    /// Sets the tag. Asking for the tag the item already has changes nothing;
    /// otherwise the tag flips and the item is carried over as it is.
    pub fn set_active_status(self, is_active: bool) -> (tagged: Self)
        ensures
            tagged == self.tagged(is_active),
            is_active == self.active() ==> tagged == self,
            tagged.item() == self.item(),
            tagged.active() == is_active,
    {
        if is_active == self.is_active() {
            return self;
        }
        let data = self.data();
        match is_active {
            true => InspectingDataStatus::Active(data),
            false => InspectingDataStatus::InActive(data),
        }
    }

    /// Whether the tag is `Active`.
    pub fn is_active(&self) -> (active: bool)
        ensures
            active == self.active(),
    {
        match &self {
            InspectingDataStatus::Active(_) => true,
            InspectingDataStatus::InActive(_) => false,
        }
    }

    /// The wrapped item.
    pub fn data_ref(&self) -> (data: &InspectingData)
        ensures
            *data == self.item(),
    {
        match &self {
            InspectingDataStatus::Active(d) => d,
            InspectingDataStatus::InActive(d) => d,
        }
    }
}

/// Where the service stands with the last command it took.
#[derive(Clone, Copy, Debug, PartialEq, Eq, Structural)]
pub enum TransactionServiceStatus {
    Idle,
    Processing(TransactionServiceModule),
    Finish(TransactionServiceModule),
}

/// A query waiting in the service's queue.
#[derive(Debug, Clone, PartialEq)]
pub enum TransactionCmd {
    Query(String),
    QueryNearBy { signature: String, backward: Option<u32>, forward: Option<u32> },
}

impl TransactionCmd {
    /// The module that carries out the command.
    pub open spec fn module(self) -> TransactionServiceModule {
        match self {
            TransactionCmd::Query(_) => TransactionServiceModule::Query,
            TransactionCmd::QueryNearBy { .. } => TransactionServiceModule::QueryNearby,
        }
    }
}

/// The group that a fetched block becomes.
pub open spec fn group_of(block: BlockTransaction) -> BlockTransactionGroup {
    BlockTransactionGroup {
        slot: block.slot,
        block_time: block.block_time,
        block_height: block.block_height,
        transactions: confirmed_all(block.transactions, block.slot, block.block_time),
    }
}

/// The groups that a fetched list of blocks becomes, in order.
pub open spec fn fetched_groups(blocks: Seq<BlockTransaction>) -> Seq<BlockTransactionGroup> {
    blocks.map_values(|block: BlockTransaction| group_of(block))
}

/// The transaction of `blocks` that carries `signature`: the last such
/// transaction of the last block that holds one.
pub open spec fn located(blocks: Seq<BlockTransaction>, signature: Seq<char>) -> Option<
    ParsedEncodedConfirmedTransactionWithStatusMeta,
>
    decreases blocks.len(),
{
    if blocks.len() == 0 {
        None
    } else {
        match last_signed(group_of(blocks.last()).transactions, signature) {
            Some(found) => Some(found),
            None => located(blocks.drop_last(), signature),
        }
    }
}

/// The tracker's item after the filters were applied anew: the same item,
/// active exactly when every filter keeps it.
pub open spec fn reassessed(
    inspecting: Option<InspectingDataStatus>,
    filters: Seq<TransactionFilter>,
) -> Option<InspectingDataStatus> {
    match inspecting {
        Some(status) => Some(status.tagged(accepted_by_all(filters, status.item().transaction()))),
        None => None,
    }
}

/// Everything the query service knows.
#[derive(Debug, PartialEq)]
pub struct TransactionServiceState {
    /// The module the workspace currently shows.
    pub transaction_focus: TransactionServiceModule,
    pub transaction_service_status: TransactionServiceStatus,
    /// The last result as it was fetched.
    pub handling_data: Option<HandlingData>,
    /// What the filters leave of the last result: the data the user sees.
    pub real_handling_data: Option<HandlingData>,
    /// The item picked for the detail view, if any.
    pub inspecting_data: Option<InspectingDataStatus>,
    pub transaction_service_error: Option<ApiError>,
    /// The context as the filter pass of the last range query left it.
    pub transaction_filter_context: TransactionFilterContext,
    pub transaction_filter: FilterRegistry,
}

impl TransactionServiceState {
    /// The service before its first command.
    pub fn new() -> (state: Self)
        ensures
            state.transaction_focus == TransactionServiceModule::Query,
            state.transaction_service_status == TransactionServiceStatus::Idle,
            state.handling_data is None,
            state.real_handling_data is None,
            state.inspecting_data is None,
            state.transaction_service_error is None,
            state.transaction_filter_context == TransactionFilterContext::fresh(),
            state.transaction_filter@ == Seq::<TransactionFilter>::empty(),
    {
        TransactionServiceState {
            transaction_focus: TransactionServiceModule::Query,
            transaction_service_status: TransactionServiceStatus::Idle,
            handling_data: None,
            real_handling_data: None,
            inspecting_data: None,
            transaction_service_error: None,
            transaction_filter_context: TransactionFilterContext::default(),
            transaction_filter: FilterRegistry::new(),
        }
    }

    /// Turns the workspace to `module`.
    pub fn focus(&mut self, module: TransactionServiceModule)
        ensures
            *final(self) == (TransactionServiceState { transaction_focus: module, ..*old(self) }),
    {
        self.transaction_focus = module;
    }

    /// Registers `filter` without applying it.
    pub fn insert_filter(&mut self, filter: TransactionFilter)
        ensures
            final(self).transaction_filter@ == registered(old(self).transaction_filter@, filter),
            *final(self) == (TransactionServiceState {
                transaction_filter: final(self).transaction_filter,
                ..*old(self)
            }),
    {
        self.transaction_filter.insert(filter);
    }

    /// Unregisters the filter of kind `kind` without applying the rest.
    pub fn remove_filter(&mut self, kind: FilterKind)
        ensures
            final(self).transaction_filter@ == unregistered(old(self).transaction_filter@, kind),
            *final(self) == (TransactionServiceState {
                transaction_filter: final(self).transaction_filter,
                ..*old(self)
            }),
    {
        self.transaction_filter.remove(kind);
    }

    /// Replaces the registry and applies it to the last raw result.
    pub fn set_and_apply_filters(&mut self, filters: FilterRegistry)
        ensures
            final(self).transaction_filter == filters,
            Self::refiltered(*old(self), filters@, *final(self)),
    {
        self.transaction_filter = filters;
        self.apply_filters();
    }

    /// How a state `after` relates to the state `before` once the registry
    /// `filters` has been applied to it. After a range query the visible
    /// result is the raw result narrowed by the registry and the inspected
    /// item is re-tagged; after a single query, or before any, nothing but
    /// the registry differs.
    pub open spec fn refiltered(before: Self, filters: Seq<TransactionFilter>, after: Self) -> bool {
        &&& after.transaction_filter@ == filters
        &&& after.transaction_focus == before.transaction_focus
        &&& after.transaction_service_status == before.transaction_service_status
        &&& after.handling_data == before.handling_data
        &&& after.transaction_service_error == before.transaction_service_error
        &&& after.transaction_filter_context == before.transaction_filter_context
        &&& match handled(before.handling_data) {
            Some(HandlingDataView::QueryNearby(raw)) => {
                &&& handled(after.real_handling_data) == Some(
                    HandlingDataView::QueryNearby(visible(raw, filters)),
                )
                &&& after.inspecting_data == reassessed(before.inspecting_data, filters)
            },
            _ => {
                &&& after.real_handling_data == before.real_handling_data
                &&& after.inspecting_data == before.inspecting_data
            },
        }
    }

    /// Applies the registry to the last raw result of a range query and
    /// re-tags the inspected item. The item itself is never dropped.
    pub fn apply_filters(&mut self)
        ensures
            final(self).transaction_filter == old(self).transaction_filter,
            Self::refiltered(*old(self), old(self).transaction_filter@, *final(self)),
    {
        let raw = match &self.handling_data {
            Some(HandlingData::QueryNearby(data)) => Some(share(data)),
            _ => None,
        };
        if let Some(data) = raw {
            let mut ctx = TransactionFilterContext::default();
            let real_handling_data = do_apply_filters(&*data, &mut ctx, &self.transaction_filter);
            let inspecting_data = self.inspecting_data.take();
            if let Some(inspecting_data) = inspecting_data {
                let is_active = match inspecting_data.data_ref() {
                    InspectingData::SingleTransaction(inspecting_tx) => filter_one(
                        inspecting_tx,
                        &self.transaction_filter,
                    ),
                };
                let inspecting_data = inspecting_data.set_active_status(is_active);
                self.inspecting_data = Some(inspecting_data);
            }
            self.real_handling_data = Some(HandlingData::QueryNearby(Rc::new(real_handling_data)));
        }
    }

    /// Marks the single-item query as running and says what to fetch.
    pub fn begin_query(&mut self, signature: String) -> (param: FetchTransactionParam)
        ensures
            param.signature == signature,
            *final(self) == (TransactionServiceState {
                transaction_service_status: TransactionServiceStatus::Processing(
                    TransactionServiceModule::Query,
                ),
                ..*old(self)
            }),
    {
        self.transaction_service_status =
        TransactionServiceStatus::Processing(TransactionServiceModule::Query);
        FetchTransactionParam { signature }
    }

    /// Takes in what the fetch of one transaction returned. A fetched
    /// transaction becomes both the raw and the visible result, unfiltered; a
    /// failure empties both and is kept as the current error.
    pub fn finish_query(&mut self, ret: Result<EncodedConfirmedTransactionWithStatusMeta, ApiError>)
        ensures
            final(self).transaction_focus == old(self).transaction_focus,
            final(self).transaction_filter == old(self).transaction_filter,
            final(self).transaction_filter_context == old(self).transaction_filter_context,
            final(self).inspecting_data == old(self).inspecting_data,
            final(self).transaction_service_status == TransactionServiceStatus::Finish(
                TransactionServiceModule::Query,
            ),
            match ret {
                Ok(resp) => {
                    &&& final(self).transaction_service_error is None
                    &&& final(self).handling_data matches Some(HandlingData::Query(raw))
                        && *raw.transaction == resp && raw.parsed_instructions
                        == resp.transaction.instructions
                    &&& final(self).real_handling_data == final(self).handling_data
                },
                Err(e) => {
                    &&& final(self).transaction_service_error == Some(e)
                    &&& final(self).handling_data is None
                    &&& final(self).real_handling_data is None
                },
            },
    {
        match ret {
            Ok(resp) => {
                self.transaction_service_error = None;
                let data = ParsedEncodedConfirmedTransactionWithStatusMeta::new(resp);
                self.handling_data = Some(HandlingData::Query(data.duplicate()));
                self.real_handling_data = Some(HandlingData::Query(data));
            },
            Err(e) => {
                self.transaction_service_error = Some(e);
                self.handling_data = None;
                self.real_handling_data = None;
            },
        }
        self.transaction_service_status =
        TransactionServiceStatus::Finish(TransactionServiceModule::Query);
    }

    /// Marks the range query as running and says what to fetch.
    pub fn begin_query_near_by(
        &mut self,
        signature: String,
        backward: Option<u32>,
        forward: Option<u32>,
    ) -> (param: FetchTransactionsNearByParam)
        ensures
            param.signature == signature,
            param.backward == backward,
            param.forward == forward,
            *final(self) == (TransactionServiceState {
                transaction_service_status: TransactionServiceStatus::Processing(
                    TransactionServiceModule::QueryNearby,
                ),
                ..*old(self)
            }),
    {
        self.transaction_service_status =
        TransactionServiceStatus::Processing(TransactionServiceModule::QueryNearby);
        FetchTransactionsNearByParam { signature, backward, forward }
    }

    /// Takes in what the range fetch around `signature` returned.
    ///
    /// Fetched blocks become the raw result, group by group; one pass of the
    /// registry on a fresh context gives the visible result and the stored
    /// context; the transaction that carries `signature` becomes the
    /// inspected item, active, and where no block holds it nothing is
    /// inspected. A failure empties both results, is kept as the current
    /// error, and leaves the inspected item and the context as they were.
    pub fn finish_query_near_by(&mut self, signature: &String, ret: Result<Vec<BlockTransaction>, ApiError>)
        ensures
            final(self).transaction_focus == old(self).transaction_focus,
            final(self).transaction_filter == old(self).transaction_filter,
            final(self).transaction_service_status == TransactionServiceStatus::Finish(
                TransactionServiceModule::QueryNearby,
            ),
            match ret {
                Ok(resp) => {
                    &&& handled(final(self).handling_data) == Some(
                        HandlingDataView::QueryNearby(fetched_groups(resp@)),
                    )
                    &&& handled(final(self).real_handling_data) == Some(
                        HandlingDataView::QueryNearby(
                            visible(fetched_groups(resp@), old(self).transaction_filter@),
                        ),
                    )
                    &&& final(self).inspecting_data == (match located(resp@, signature@) {
                        Some(current) => Some(
                            InspectingDataStatus::Active(InspectingData::SingleTransaction(current)),
                        ),
                        None => None,
                    })
                    &&& final(self).transaction_filter_context == pass_context(
                        old(self).transaction_filter@,
                        fetched_groups(resp@),
                        TransactionFilterContext::fresh(),
                    )
                    &&& final(self).transaction_service_error is None
                },
                Err(e) => {
                    &&& final(self).transaction_service_error == Some(e)
                    &&& final(self).handling_data is None
                    &&& final(self).real_handling_data is None
                    &&& final(self).inspecting_data == old(self).inspecting_data
                    &&& final(self).transaction_filter_context == old(
                        self,
                    ).transaction_filter_context
                },
            },
    {
        match ret {
            Ok(resp) => {
                let mut current: Option<ParsedEncodedConfirmedTransactionWithStatusMeta> = None;
                let mut raw_resp: Vec<CheapBlockTransaction> = Vec::new();
                let ghost all = resp@;
                for block in it: resp.into_iter()
                    invariant
                        it.seq() == all,
                        raw_resp@.len() == it.index(),
                        forall|j: int|
                            0 <= j < raw_resp@.len() ==> (#[trigger] raw_resp@[j])@ == group_of(
                                all[j],
                            ),
                        current == located(all.take(raw_resp@.len() as int), signature@),
                {
                    let ghost n = raw_resp@.len() as int;
                    let (cheap, temp) = CheapBlockTransaction::from_block_transaction(
                        block,
                        signature,
                    );
                    if temp.is_some() {
                        current = temp;
                    }
                    raw_resp.push(cheap);
                    assert(all.take(n + 1).drop_last() == all.take(n));
                }
                assert(all.take(raw_resp@.len() as int) == all);
                assert(groups(raw_resp@) =~= fetched_groups(all));
                let mut context = TransactionFilterContext::default();
                let data = do_apply_filters(&raw_resp, &mut context, &self.transaction_filter);
                self.handling_data = Some(HandlingData::QueryNearby(Rc::new(raw_resp)));
                self.real_handling_data = Some(HandlingData::QueryNearby(Rc::new(data)));
                self.inspecting_data = match current {
                    Some(c) => Some(
                        InspectingDataStatus::Active(InspectingData::SingleTransaction(c)),
                    ),
                    None => None,
                };
                self.transaction_filter_context = context;
                self.transaction_service_error = None;
            },
            Err(e) => {
                self.transaction_service_error = Some(e);
                self.handling_data = None;
                self.real_handling_data = None;
            },
        }
        self.transaction_service_status =
        TransactionServiceStatus::Finish(TransactionServiceModule::QueryNearby);
    }
}

} // verus!
