//! The transaction data that queries return, as plain values: what the
//! filters, the signature search and the detail view read of a transaction.

use crate::shared::share;
use crate::text::{contains_text, texts};
use std::rc::Rc;
use vstd::prelude::*;

verus! {

/// A message in raw form: the static account keys it names.
#[derive(Debug, Clone, PartialEq)]
pub struct UiRawMessage {
    pub account_keys: Vec<String>,
}

/// The message of a JSON-encoded transaction.
#[derive(Debug, Clone, PartialEq)]
pub enum UiMessage {
    /// Already broken down by the backend; its account keys are not listed.
    Parsed,
    Raw(UiRawMessage),
}

/// A JSON-encoded transaction.
#[derive(Debug, Clone, PartialEq)]
pub struct UiTransaction {
    pub signatures: Vec<String>,
    pub message: UiMessage,
}

/// A transaction in one of the encodings the backend may answer with.
/// Only the JSON encoding can be searched and filtered by content.
#[derive(Debug, Clone, PartialEq)]
pub enum EncodedTransaction {
    Json(UiTransaction),
    /// An opaque base58 or base64 blob.
    Binary(String),
    /// The account list alone.
    Accounts(Vec<String>),
}

/// Addresses that a transaction loaded from lookup tables.
#[derive(Debug, Clone, PartialEq)]
pub struct UiLoadedAddresses {
    pub writable: Vec<String>,
    pub readonly: Vec<String>,
}

/// What the ledger recorded about the execution of a transaction.
#[derive(Debug, Clone, PartialEq)]
pub struct UiTransactionStatusMeta {
    /// The failure, rendered as text; `None` when the transaction succeeded.
    pub err: Option<String>,
    pub fee: u64,
    pub pre_balances: Vec<u64>,
    pub post_balances: Vec<u64>,
    pub log_messages: Option<Vec<String>>,
    pub loaded_addresses: Option<UiLoadedAddresses>,
    pub compute_units_consumed: Option<u64>,
}

/// One instruction of a transaction, reduced to what the filters look at.
#[derive(Debug, Clone, PartialEq)]
pub enum ParsedInstruction {
    /// A token swap from one mint into another.
    Swap { source_mint: String, destination_mint: String },
    /// Any other instruction, by the program that executes it.
    Other { program_id: String },
}

/// The instructions of one transaction, in execution order.
#[derive(Debug, Clone, PartialEq)]
pub struct ParsedInstructionList {
    pub instructions: Vec<ParsedInstruction>,
}

impl ParsedInstructionList {
    /// The instructions in execution order.
    pub fn as_slice(&self) -> (items: &[ParsedInstruction])
        ensures
            items@ == self.instructions@,
    {
        self.instructions.as_slice()
    }
}

/// A transaction as it stands in a block: its encoded form, the execution
/// record, and its instructions.
#[derive(Debug, Clone, PartialEq)]
pub struct EncodedTransactionWithStatusMeta {
    pub transaction: EncodedTransaction,
    pub meta: Option<UiTransactionStatusMeta>,
    pub instructions: Rc<ParsedInstructionList>,
}

/// A transaction together with the slot and time of the block that holds it.
#[derive(Debug, Clone, PartialEq)]
pub struct EncodedConfirmedTransactionWithStatusMeta {
    pub slot: u64,
    pub transaction: EncodedTransactionWithStatusMeta,
    pub block_time: Option<i64>,
}

/// The execution record of a transaction, borrowed from the transaction.
pub struct TransactionMeta<'a> {
    pub err: Option<&'a String>,
    /// Whether the transaction succeeded.
    pub status: bool,
    pub fee: u64,
    pub pre_balances: &'a Vec<u64>,
    pub post_balances: &'a Vec<u64>,
    pub log_messages: Option<&'a Vec<String>>,
    pub compute_units_consumed: Option<u64>,
}

/// Every account a transaction refers to: the static keys of its message,
/// then the writable and the read-only addresses it loaded.
pub struct TransactionAccounts<'a> {
    pub account_keys: Option<&'a Vec<String>>,
    pub writable: Option<&'a Vec<String>>,
    pub readonly: Option<&'a Vec<String>>,
}

/// The content of an optional value, borrowed.
pub open spec fn borrowed<T>(value: &Option<T>) -> Option<&T> {
    match value {
        Some(v) => Some(v),
        None => None,
    }
}

/// The strings of an optional list; none where the list is absent.
pub open spec fn optional_texts(list: Option<&Vec<String>>) -> Seq<Seq<char>> {
    match list {
        Some(l) => texts(l@),
        None => Seq::empty(),
    }
}

impl<'a> View for TransactionAccounts<'a> {
    type V = Seq<Seq<char>>;

    /// The accounts in order: static keys, loaded writable, loaded read-only.
    open spec fn view(&self) -> Seq<Seq<char>> {
        optional_texts(self.account_keys) + optional_texts(self.writable) + optional_texts(
            self.readonly,
        )
    }
}

impl<'a> TransactionAccounts<'a> {
    /// The accounts of a transaction from their three sources, each of
    /// which may be missing.
    pub fn from_accounts(
        account_keys: Option<&'a Vec<String>>,
        writable: Option<&'a Vec<String>>,
        readonly: Option<&'a Vec<String>>,
    ) -> (accounts: Self)
        ensures
            accounts.account_keys == account_keys,
            accounts.writable == writable,
            accounts.readonly == readonly,
    {
        TransactionAccounts { account_keys, writable, readonly }
    }

    /// Whether the transaction refers to `account`.
    pub fn contains(&self, account: &String) -> (found: bool)
        ensures
            found == self@.contains(account@),
    {
        let in_keys = optional_contains(self.account_keys, account);
        let in_writable = optional_contains(self.writable, account);
        let in_readonly = optional_contains(self.readonly, account);
        proof {
            let a = optional_texts(self.account_keys);
            let b = optional_texts(self.writable);
            let c = optional_texts(self.readonly);
            lemma_contains_concat(a, b, account@);
            lemma_contains_concat(a + b, c, account@);
        }
        in_keys || in_writable || in_readonly
    }

    /// Whether the transaction refers to at least one account of `wanted`.
    pub fn contains_any(&self, wanted: &Vec<String>) -> (found: bool)
        ensures
            found == exists|k: int|
                0 <= k < wanted.len() && self@.contains(#[trigger] texts(wanted@)[k]),
    {
        let mut k: usize = 0;
        while k < wanted.len()
            invariant
                k <= wanted.len(),
                forall|j: int| 0 <= j < k ==> !self@.contains(#[trigger] texts(wanted@)[j]),
            decreases wanted.len() - k,
        {
            assert(texts(wanted@)[k as int] == wanted@[k as int]@);
            if self.contains(&wanted[k]) {
                return true;
            }
            k += 1;
        }
        false
    }
}

fn optional_contains(list: Option<&Vec<String>>, needle: &String) -> (found: bool)
    ensures
        found == optional_texts(list).contains(needle@),
{
    match list {
        Some(l) => contains_text(l, needle),
        None => false,
    }
}

proof fn lemma_contains_concat<T>(a: Seq<T>, b: Seq<T>, x: T)
    ensures
        (a + b).contains(x) == (a.contains(x) || b.contains(x)),
{
    if a.contains(x) {
        let i = choose|i: int| 0 <= i < a.len() && a[i] == x;
        assert((a + b)[i] == x);
    }
    if b.contains(x) {
        let i = choose|i: int| 0 <= i < b.len() && b[i] == x;
        assert((a + b)[a.len() + i] == x);
    }
}

/// A fetched transaction with its instructions, both shared: a copy costs two
/// reference counts.
#[derive(Debug, Clone, PartialEq)]
pub struct ParsedEncodedConfirmedTransactionWithStatusMeta {
    pub transaction: Rc<EncodedConfirmedTransactionWithStatusMeta>,
    pub parsed_instructions: Rc<ParsedInstructionList>,
}

impl ParsedEncodedConfirmedTransactionWithStatusMeta {
    /// The signatures of the transaction, where its encoding lists them.
    pub open spec fn signatures(&self) -> Option<Seq<Seq<char>>> {
        match self.transaction.transaction.transaction {
            EncodedTransaction::Json(tx) => Some(texts(tx.signatures@)),
            _ => None,
        }
    }

    /// Whether the transaction carries `signature`.
    pub open spec fn signed_with(&self, signature: Seq<char>) -> bool {
        match self.signatures() {
            Some(list) => list.contains(signature),
            None => false,
        }
    }

    /// The static account keys, listed only by a JSON transaction with a raw
    /// message.
    pub open spec fn static_keys(&self) -> Option<&Vec<String>> {
        match &self.transaction.transaction.transaction {
            EncodedTransaction::Json(tx) => match &tx.message {
                UiMessage::Raw(raw) => Some(&raw.account_keys),
                UiMessage::Parsed => None,
            },
            _ => None,
        }
    }

    /// The addresses loaded from lookup tables, where the execution record
    /// lists them.
    pub open spec fn loaded(&self) -> Option<&UiLoadedAddresses> {
        match &self.transaction.transaction.meta {
            Some(m) => match &m.loaded_addresses {
                Some(l) => Some(l),
                None => None,
            },
            None => None,
        }
    }

    /// Every account the transaction refers to, in the order of
    /// [`TransactionAccounts`].
    pub open spec fn accounts(&self) -> Seq<Seq<char>> {
        optional_texts(self.static_keys()) + (match self.loaded() {
            Some(l) => texts(l.writable@) + texts(l.readonly@),
            None => Seq::empty(),
        })
    }

    /// Whether the transaction is known to have succeeded (`Some(true)`), to
    /// have failed (`Some(false)`), or carries no execution record.
    pub open spec fn succeeded(&self) -> Option<bool> {
        match self.transaction.transaction.meta {
            Some(m) => Some(m.err is None),
            None => None,
        }
    }

    /// Wraps a confirmed transaction, sharing the instruction list it holds.
    pub fn new(transaction: EncodedConfirmedTransactionWithStatusMeta) -> (parsed: Self)
        ensures
            *parsed.transaction == transaction,
            parsed.parsed_instructions == transaction.transaction.instructions,
    {
        let parsed_instructions = share(&transaction.transaction.instructions);
        ParsedEncodedConfirmedTransactionWithStatusMeta {
            transaction: Rc::new(transaction),
            parsed_instructions,
        }
    }

    /// Confirms a transaction of a block with the block's slot and time.
    pub fn from_encoded_transaction_with_status_meta(
        transaction: EncodedTransactionWithStatusMeta,
        slot: u64,
        block_time: Option<i64>,
    ) -> (parsed: Self)
        ensures
            parsed == Self::confirmed(transaction, slot, block_time),
    {
        let parsed_instructions = share(&transaction.instructions);
        let transaction = EncodedConfirmedTransactionWithStatusMeta { slot, transaction, block_time };
        let transaction = Rc::new(transaction);
        ParsedEncodedConfirmedTransactionWithStatusMeta { transaction, parsed_instructions }
    }

    /// The value that [`Self::from_encoded_transaction_with_status_meta`]
    /// builds.
    pub open spec fn confirmed(
        transaction: EncodedTransactionWithStatusMeta,
        slot: u64,
        block_time: Option<i64>,
    ) -> Self {
        ParsedEncodedConfirmedTransactionWithStatusMeta {
            transaction: Rc::new(
                EncodedConfirmedTransactionWithStatusMeta { slot, transaction, block_time },
            ),
            parsed_instructions: transaction.instructions,
        }
    }

    /// A second handle on the same transaction.
    pub fn duplicate(&self) -> (copy: Self)
        ensures
            copy == *self,
    {
        ParsedEncodedConfirmedTransactionWithStatusMeta {
            transaction: share(&self.transaction),
            parsed_instructions: share(&self.parsed_instructions),
        }
    }

    /// Every account the transaction refers to: the static keys where the
    /// encoding lists them, and the addresses loaded from lookup tables where
    /// the execution record lists them.
    pub fn get_accounts(&self) -> (accounts: TransactionAccounts<'_>)
        ensures
            accounts.account_keys == self.static_keys(),
            accounts.writable == (match self.loaded() {
                Some(l) => Some(&l.writable),
                None => None,
            }),
            accounts.readonly == (match self.loaded() {
                Some(l) => Some(&l.readonly),
                None => None,
            }),
            accounts@ == self.accounts(),
    {
        let (w, r) = match &self.transaction.transaction.meta {
            Some(m) => match &m.loaded_addresses {
                Some(l) => (Some(&l.writable), Some(&l.readonly)),
                None => (None, None),
            },
            None => (None, None),
        };
        let account_keys = match &self.transaction.transaction.transaction {
            EncodedTransaction::Json(tx) => match &tx.message {
                UiMessage::Parsed => None,
                UiMessage::Raw(raw) => Some(&raw.account_keys),
            },
            _ => None,
        };
        let accounts = TransactionAccounts::from_accounts(account_keys, w, r);
        accounts
    }

    /// The signatures of the transaction; none for an encoding other than
    /// JSON.
    pub fn get_signatures(&self) -> (signatures: Option<&Vec<String>>)
        ensures
            match signatures {
                Some(list) => self.signatures() == Some(texts(list@)),
                None => self.signatures() is None,
            },
            signatures == (match &self.transaction.transaction.transaction {
                EncodedTransaction::Json(tx) => Some(&tx.signatures),
                _ => None,
            }),
    {
        match &self.transaction.transaction.transaction {
            EncodedTransaction::Json(tx) => Some(&tx.signatures),
            _ => None,
        }
    }

    /// The instructions of the transaction.
    pub fn get_parsed_instructions(&self) -> (instructions: Option<&[ParsedInstruction]>)
        ensures
            instructions matches Some(items) && items@ == self.parsed_instructions.instructions@,
    {
        Some(self.parsed_instructions.as_slice())
    }

    /// The execution record, where the transaction carries one.
    pub fn get_meta(&self) -> (meta: Option<TransactionMeta<'_>>)
        ensures
            match (meta, self.transaction.transaction.meta) {
                (Some(t), Some(m)) => {
                    &&& t.err == borrowed(&m.err)
                    &&& t.status == (m.err is None)
                    &&& t.fee == m.fee
                    &&& *t.pre_balances == m.pre_balances
                    &&& *t.post_balances == m.post_balances
                    &&& t.log_messages == borrowed(&m.log_messages)
                    &&& t.compute_units_consumed == m.compute_units_consumed
                },
                (None, None) => true,
                _ => false,
            },
    {
        match &self.transaction.transaction.meta {
            None => None,
            Some(m) => {
                let meta = TransactionMeta {
                    err: m.err.as_ref(),
                    status: m.err.is_none(),
                    fee: m.fee,
                    pre_balances: &m.pre_balances,
                    post_balances: &m.post_balances,
                    log_messages: m.log_messages.as_ref(),
                    compute_units_consumed: m.compute_units_consumed,
                };
                Some(meta)
            },
        }
    }

    /// Whether the transaction carries `signature`.
    pub fn has_signature(&self, signature: &String) -> (found: bool)
        ensures
            found == self.signed_with(signature@),
    {
        match self.get_signatures() {
            Some(list) => contains_text(list, signature),
            None => false,
        }
    }
}

} // verus!
