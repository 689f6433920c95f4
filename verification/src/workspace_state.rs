//! The workspace: the query service and the queue of commands waiting for it.
//!
//! Commands are taken from the queue one at a time, oldest first, and the
//! next one is handed out only when the fetch of the previous one has been
//! taken in: at most one fetch is in flight.

use crate::signature::{check_signature, is_signature, signature_from_str, ParseSignatureError};
use crate::transaction_filter::TransactionFilterContext;
use crate::transaction_service::{
    FetchTransactionParam, FetchTransactionsNearByParam, TransactionCmd, TransactionServiceModule,
    TransactionServiceState, TransactionServiceStatus,
};
use std::collections::VecDeque;
use vstd::prelude::*;

verus! {

/// What the fetch capability is to be asked next.
#[derive(Debug, Clone, PartialEq)]
pub enum FetchRequest {
    Transaction(FetchTransactionParam),
    TransactionsNearBy(FetchTransactionsNearByParam),
}

/// The fetch that carries out `cmd`.
pub open spec fn request_of(cmd: TransactionCmd) -> FetchRequest {
    match cmd {
        TransactionCmd::Query(signature) => FetchRequest::Transaction(
            FetchTransactionParam { signature },
        ),
        TransactionCmd::QueryNearBy { signature, backward, forward } => FetchRequest::TransactionsNearBy(
            FetchTransactionsNearByParam { signature, backward, forward },
        ),
    }
}

/// The query service with its command queue.
#[derive(Debug, PartialEq)]
pub struct WorkspaceState {
    pub transaction_service_state: TransactionServiceState,
    /// The commands not yet taken up, in submission order.
    pub transaction_service: VecDeque<TransactionCmd>,
}

impl WorkspaceState {
    /// A workspace with an idle service and nothing queued.
    pub fn start() -> (workspace: WorkspaceState)
        ensures
            workspace.transaction_service@ == Seq::<TransactionCmd>::empty(),
            workspace.transaction_service_state.transaction_focus
                == TransactionServiceModule::Query,
            workspace.transaction_service_state.transaction_filter_context
                == TransactionFilterContext::fresh(),
            workspace.transaction_service_state.transaction_service_status
                == TransactionServiceStatus::Idle,
            workspace.transaction_service_state.handling_data is None,
            workspace.transaction_service_state.real_handling_data is None,
            workspace.transaction_service_state.inspecting_data is None,
            workspace.transaction_service_state.transaction_service_error is None,
            workspace.transaction_service_state.transaction_filter@.len() == 0,
    {
        let transaction_service_state = TransactionServiceState::new();
        let transaction_service = Self::start_transaction_service(&transaction_service_state);
        Self::new(transaction_service_state, transaction_service)
    }

    fn new(
        transaction_service_state: TransactionServiceState,
        transaction_service: VecDeque<TransactionCmd>,
    ) -> (workspace: Self)
        ensures
            workspace.transaction_service_state == transaction_service_state,
            workspace.transaction_service == transaction_service,
    {
        WorkspaceState { transaction_service_state, transaction_service }
    }

    /// The queue through which commands reach the service of `state`: empty
    /// at the start.
    pub fn start_transaction_service(state: &TransactionServiceState) -> (queue: VecDeque<
        TransactionCmd,
    >)
        ensures
            queue@ == Seq::<TransactionCmd>::empty(),
    {
        VecDeque::new()
    }

    /// Queues `cmd` where the check of its signature succeeded, and hands the
    /// failure back where it did not.
    pub fn submit(&mut self, cmd: TransactionCmd, checked: Result<(), ParseSignatureError>) -> (sent:
        Result<(), ParseSignatureError>)
        ensures
            sent == checked,
            final(self).transaction_service_state == old(self).transaction_service_state,
            final(self).transaction_service@ == (match checked {
                Ok(()) => old(self).transaction_service@.push(cmd),
                Err(_) => old(self).transaction_service@,
            }),
    {
        if checked.is_ok() {
            self.transaction_service.push_back(cmd);
        }
        checked
    }

    /// Asks for the transaction signed with `signature`. The command is
    /// queued only if `signature` is well-formed.
    pub fn query_transaction(&mut self, signature: String) -> (sent: Result<(), ParseSignatureError>)
        ensures
            final(self).transaction_service_state == old(self).transaction_service_state,
            match sent {
                Ok(()) => is_signature(signature@) && final(self).transaction_service@ == old(
                    self,
                ).transaction_service@.push(TransactionCmd::Query(signature)),
                Err(e) => signature_from_str(signature@) == Err::<Seq<u8>, ParseSignatureError>(e)
                    && final(self).transaction_service@ == old(self).transaction_service@,
            },
    {
        let checked = check_signature(&signature);
        let cmd = TransactionCmd::Query(signature);
        self.submit(cmd, checked)
    }

    /// Asks for the blocks around the transaction signed with `signature`.
    /// The command is queued only if `signature` is well-formed.
    pub fn query_transaction_near_by(
        &mut self,
        signature: String,
        backward_slot: Option<u32>,
        forward_slot: Option<u32>,
    ) -> (sent: Result<(), ParseSignatureError>)
        ensures
            final(self).transaction_service_state == old(self).transaction_service_state,
            match sent {
                Ok(()) => is_signature(signature@) && final(self).transaction_service@ == old(
                    self,
                ).transaction_service@.push(
                    TransactionCmd::QueryNearBy {
                        signature,
                        backward: backward_slot,
                        forward: forward_slot,
                    },
                ),
                Err(e) => signature_from_str(signature@) == Err::<Seq<u8>, ParseSignatureError>(e)
                    && final(self).transaction_service@ == old(self).transaction_service@,
            },
    {
        let checked = check_signature(&signature);
        let cmd = TransactionCmd::QueryNearBy {
            signature,
            backward: backward_slot,
            forward: forward_slot,
        };
        self.submit(cmd, checked)
    }

    /// Whether a fetch is in flight.
    pub open spec fn busy(&self) -> bool {
        self.transaction_service_state.transaction_service_status is Processing
    }

    /// Takes up the oldest queued command, unless a fetch is in flight or the
    /// queue is empty. The service is marked as processing the command's
    /// module; the caller performs the fetch and hands what it returned to
    /// `finish_query` or `finish_query_near_by` of the service.
    pub fn next_command(&mut self) -> (request: Option<FetchRequest>)
        ensures
            match request {
                Some(fetch) => {
                    &&& !old(self).busy()
                    &&& old(self).transaction_service@.len() > 0
                    &&& fetch == request_of(old(self).transaction_service@[0])
                    &&& final(self).transaction_service@ == old(
                        self,
                    ).transaction_service@.drop_first()
                    &&& final(self).transaction_service_state == (TransactionServiceState {
                        transaction_service_status: TransactionServiceStatus::Processing(
                            old(self).transaction_service@[0].module(),
                        ),
                        ..old(self).transaction_service_state
                    })
                },
                None => {
                    &&& old(self).busy() || old(self).transaction_service@.len() == 0
                    &&& final(self).transaction_service@ == old(self).transaction_service@
                    &&& final(self).transaction_service_state == old(
                        self,
                    ).transaction_service_state
                },
            },
    {
        match self.transaction_service_state.transaction_service_status {
            TransactionServiceStatus::Processing(_) => {
                return None;
            },
            _ => {},
        }
        match self.transaction_service.pop_front() {
            Some(cmd) => {
                match cmd {
                    TransactionCmd::Query(signature) => Some(
                        FetchRequest::Transaction(
                            self.transaction_service_state.begin_query(signature),
                        ),
                    ),
                    TransactionCmd::QueryNearBy { signature, backward, forward } => Some(
                        FetchRequest::TransactionsNearBy(
                            self.transaction_service_state.begin_query_near_by(
                                signature,
                                backward,
                                forward,
                            ),
                        ),
                    ),
                }
            },
            None => {
                None
            },
        }
    }
}

} // verus!
