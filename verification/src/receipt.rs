//! Transaction receipts.

use crate::primitives::B256;
use vstd::prelude::*;

verus! {

/// The outcome that a receipt records.
#[derive(Debug, Clone, Copy, PartialEq, Eq)]
pub enum Eip658Value {
    /// Whether the transaction succeeded.
    Eip658(bool),
    /// The state root after the transaction, as old receipts hold it.
    PostState(B256),
}

/// An event that a contract emitted.
#[derive(Debug, PartialEq, Eq)]
pub struct Log {
    /// The contract that emitted the event.
    pub address: [u8; 20],
    /// The indexed topics.
    pub topics: Vec<B256>,
    /// The plain data.
    pub data: Vec<u8>,
}

/// A transaction receipt.
#[derive(Debug, PartialEq, Eq)]
pub struct Receipt {
    /// The outcome of the transaction.
    pub status: Eip658Value,
    /// The gas used in the block up to and including the transaction.
    pub cumulative_gas_used: u64,
    /// The events that the transaction emitted, in order.
    pub logs: Vec<Log>,
}

/// The contents of a [`Log`].
pub struct LogView {
    pub address: [u8; 20],
    pub topics: Seq<B256>,
    pub data: Seq<u8>,
}

/// The contents of a [`Receipt`].
pub struct ReceiptView {
    pub status: Eip658Value,
    pub cumulative_gas_used: u64,
    pub logs: Seq<LogView>,
}

impl View for Log {
    type V = LogView;

    open spec fn view(&self) -> LogView {
        LogView { address: self.address, topics: self.topics@, data: self.data@ }
    }
}

impl View for Receipt {
    type V = ReceiptView;

    open spec fn view(&self) -> ReceiptView {
        ReceiptView {
            status: self.status,
            cumulative_gas_used: self.cumulative_gas_used,
            logs: self.logs@.map_values(|log: Log| log@),
        }
    }
}

/// The contents of a list of receipts.
pub open spec fn receipt_views(receipts: Seq<Receipt>) -> Seq<ReceiptView> {
    receipts.map_values(|receipt: Receipt| receipt@)
}

impl Clone for Log {
    fn clone(&self) -> (copy: Self)
        ensures
            copy@ == self@,
    {
        let mut topics: Vec<B256> = Vec::new();
        let mut i: usize = 0;
        while i < self.topics.len()
            invariant
                i <= self.topics@.len(),
                topics@ == self.topics@.take(i as int),
            decreases self.topics@.len() - i,
        {
            topics.push(self.topics[i]);
            i += 1;
        }
        let copy = Log { address: self.address, topics, data: self.data.clone() };
        assert(copy.topics@ =~= self.topics@);
        assert(copy.data@ =~= self.data@);
        copy
    }
}

impl Clone for Receipt {
    fn clone(&self) -> (copy: Self)
        ensures
            copy@ == self@,
    {
        let mut logs: Vec<Log> = Vec::new();
        let mut i: usize = 0;
        while i < self.logs.len()
            invariant
                i <= self.logs@.len(),
                logs@.len() == i,
                forall|j: int| 0 <= j < i ==> (#[trigger] logs@[j])@ == self.logs@[j]@,
            decreases self.logs@.len() - i,
        {
            logs.push(self.logs[i].clone());
            i += 1;
        }
        let copy = Receipt {
            status: self.status,
            cumulative_gas_used: self.cumulative_gas_used,
            logs,
        };
        assert(copy@.logs =~= self@.logs);
        copy
    }
}

/// Copies a list of receipts.
pub fn clone_receipts(receipts: &Vec<Receipt>) -> (copy: Vec<Receipt>)
    ensures
        receipt_views(copy@) == receipt_views(receipts@),
{
    let mut copy: Vec<Receipt> = Vec::new();
    let mut i: usize = 0;
    while i < receipts.len()
        invariant
            i <= receipts@.len(),
            copy@.len() == i,
            forall|j: int| 0 <= j < i ==> (#[trigger] copy@[j])@ == receipts@[j]@,
        decreases receipts@.len() - i,
    {
        copy.push(receipts[i].clone());
        i += 1;
    }
    assert(receipt_views(copy@) =~= receipt_views(receipts@));
    copy
}

/// Whether no entry of a list is missing.
pub open spec fn all_present(entries: Seq<Option<Receipt>>) -> bool {
    forall|i: int| 0 <= i < entries.len() ==> (#[trigger] entries[i]) is Some
}

/// Takes the receipts out of a list, provided that none is missing.
pub fn collect_receipts(entries: Vec<Option<Receipt>>) -> (collected: Option<Vec<Receipt>>)
    ensures
        collected is Some <==> all_present(entries@),
        collected matches Some(receipts) ==> receipts@ == entries@.map_values(
            |entry: Option<Receipt>| entry->0,
        ),
{
    let mut receipts: Vec<Receipt> = Vec::new();
    for entry in iter: entries
        invariant
            receipts@.len() == iter.index(),
            iter.seq() == entries@,
            forall|j: int| 0 <= j < iter.index() ==> #[trigger] entries@[j] == Some(receipts@[j]),
    {
        match entry {
            Some(receipt) => receipts.push(receipt),
            None => return None,
        }
    }
    assert(receipts@ =~= entries@.map_values(|entry: Option<Receipt>| entry->0));
    Some(receipts)
}

} // verus!
