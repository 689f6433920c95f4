//! Blocks as the range query returns them, and the groups of confirmed
//! transactions that the workspace shows.

use crate::encoded_transaction::{
    EncodedTransactionWithStatusMeta, ParsedEncodedConfirmedTransactionWithStatusMeta,
};
use crate::shared::share;
use std::rc::Rc;
use vstd::prelude::*;

verus! {

/// One block of a range query: its position in the ledger and, where the
/// backend sent them, its transactions.
#[derive(Debug, Clone, PartialEq)]
pub struct BlockTransaction {
    pub slot: u64,
    pub block_time: Option<i64>,
    pub block_height: Option<u64>,
    pub transactions: Option<Vec<EncodedTransactionWithStatusMeta>>,
}

/// The transactions of one block, each confirmed with the block's slot and
/// time. The list is shared, so a copy of the group costs one reference count.
#[derive(Debug, Clone, PartialEq)]
pub struct CheapBlockTransaction {
    pub slot: u64,
    pub block_time: Option<i64>,
    pub block_height: Option<u64>,
    pub transactions: Rc<Vec<ParsedEncodedConfirmedTransactionWithStatusMeta>>,
}

/// What a [`CheapBlockTransaction`] holds: the block's position and the
/// ordered sequence of its transactions.
pub struct BlockTransactionGroup {
    pub slot: u64,
    pub block_time: Option<i64>,
    pub block_height: Option<u64>,
    pub transactions: Seq<ParsedEncodedConfirmedTransactionWithStatusMeta>,
}

impl View for CheapBlockTransaction {
    type V = BlockTransactionGroup;

    open spec fn view(&self) -> BlockTransactionGroup {
        BlockTransactionGroup {
            slot: self.slot,
            block_time: self.block_time,
            block_height: self.block_height,
            transactions: self.transactions@,
        }
    }
}

/// The groups that a list of [`CheapBlockTransaction`] holds, in order.
pub open spec fn groups(data: Seq<CheapBlockTransaction>) -> Seq<BlockTransactionGroup> {
    data.map_values(|g: CheapBlockTransaction| g@)
}

/// The transactions of a block, each confirmed with `slot` and `block_time`;
/// none where the block came without transactions.
pub open spec fn confirmed_all(
    transactions: Option<Vec<EncodedTransactionWithStatusMeta>>,
    slot: u64,
    block_time: Option<i64>,
) -> Seq<ParsedEncodedConfirmedTransactionWithStatusMeta> {
    match transactions {
        Some(list) => list@.map_values(
            |tx: EncodedTransactionWithStatusMeta|
                ParsedEncodedConfirmedTransactionWithStatusMeta::confirmed(tx, slot, block_time),
        ),
        None => Seq::empty(),
    }
}

/// The last transaction of `transactions` that carries `signature`.
pub open spec fn last_signed(
    transactions: Seq<ParsedEncodedConfirmedTransactionWithStatusMeta>,
    signature: Seq<char>,
) -> Option<ParsedEncodedConfirmedTransactionWithStatusMeta>
    decreases transactions.len(),
{
    if transactions.len() == 0 {
        None
    } else if transactions.last().signed_with(signature) {
        Some(transactions.last())
    } else {
        last_signed(transactions.drop_last(), signature)
    }
}

impl CheapBlockTransaction {
    /// A second handle on the same group.
    pub fn duplicate(&self) -> (copy: Self)
        ensures
            copy == *self,
    {
        CheapBlockTransaction {
            slot: self.slot,
            block_time: self.block_time,
            block_height: self.block_height,
            transactions: share(&self.transactions),
        }
    }

    /// Turns a fetched block into a group and looks in it for the transaction
    /// signed with `signature`. Where several transactions of the block carry
    /// the signature, the last one is returned.
    pub fn from_block_transaction(block_transaction: BlockTransaction, signature: &String) -> (found: (
        Self,
        Option<ParsedEncodedConfirmedTransactionWithStatusMeta>,
    ))
        ensures
            found.0@ == (BlockTransactionGroup {
                slot: block_transaction.slot,
                block_time: block_transaction.block_time,
                block_height: block_transaction.block_height,
                transactions: confirmed_all(
                    block_transaction.transactions,
                    block_transaction.slot,
                    block_transaction.block_time,
                ),
            }),
            found.1 == last_signed(found.0@.transactions, signature@),
    {
        let BlockTransaction { slot, block_time, block_height, transactions } = block_transaction;
        let mut looking_tx: Option<ParsedEncodedConfirmedTransactionWithStatusMeta> = None;
        let mut confirmed: Vec<ParsedEncodedConfirmedTransactionWithStatusMeta> = Vec::new();
        if let Some(transactions) = transactions {
            let ghost all = transactions@;
            for tx in it: transactions.into_iter()
                invariant
                    it.seq() == all,
                    confirmed@.len() == it.index(),
                    forall|j: int|
                        0 <= j < confirmed@.len() ==> confirmed@[j]
                            == ParsedEncodedConfirmedTransactionWithStatusMeta::confirmed(
                            all[j],
                            slot,
                            block_time,
                        ),
                    looking_tx == last_signed(confirmed@, signature@),
            {
                let v =
                    ParsedEncodedConfirmedTransactionWithStatusMeta::from_encoded_transaction_with_status_meta(
                    tx,
                    slot,
                    block_time,
                );
                let ghost before = confirmed@;
                if v.has_signature(signature) {
                    looking_tx = Some(v.duplicate());
                }
                confirmed.push(v);
                assert(confirmed@.drop_last() == before);
            }
            assert(confirmed@ =~= confirmed_all(Some(transactions), slot, block_time));
        }
        let cheap = CheapBlockTransaction {
            slot,
            block_time,
            block_height,
            transactions: Rc::new(confirmed),
        };
        (cheap, looking_tx)
    }
}

} // verus!
