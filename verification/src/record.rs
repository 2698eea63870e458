use crate::host::text_bytes;
use soroban_sdk::Address;
use vstd::prelude::*;

verus! {

/// One transfer between two accounts, as the ledger keeps it.
///
/// A record is made once, by a successful write, and never changed afterwards.
pub struct Transaction {
    /// The record's number: the ledger's count at the moment it was written.
    pub tx_id: u64,
    /// The account that sent.
    pub from: Address,
    /// The account that received.
    pub to: Address,
    /// The amount moved. Its sign and unit are the caller's business.
    pub amount: i128,
    /// The host's ledger time when the record was written.
    pub timestamp: u64,
    /// A free-form tag such as "send" or "receive"; queries match it exactly.
    pub tx_type: soroban_sdk::String,
    /// A free-form note.
    pub description: soroban_sdk::String,
}

/// What a [`Transaction`] says: its numbers, the two accounts, and the bytes
/// of its two texts.
pub struct Record {
    /// The record's number.
    pub tx_id: u64,
    /// The account that sent.
    pub from: Address,
    /// The account that received.
    pub to: Address,
    /// The amount moved.
    pub amount: i128,
    /// The ledger time of the write.
    pub timestamp: u64,
    /// The bytes of the tag.
    pub tx_type: Seq<u8>,
    /// The bytes of the note.
    pub description: Seq<u8>,
}

impl View for Transaction {
    type V = Record;

    open spec fn view(&self) -> Record {
        Record {
            tx_id: self.tx_id,
            from: self.from,
            to: self.to,
            amount: self.amount,
            timestamp: self.timestamp,
            tx_type: text_bytes(self.tx_type),
            description: text_bytes(self.description),
        }
    }
}

/// What a list of transactions says, record by record.
pub open spec fn records(list: Seq<Transaction>) -> Seq<Record> {
    list.map_values(|t: Transaction| t@)
}

impl Clone for Transaction {
    fn clone(&self) -> (r: Self)
        ensures
            r@ == self@,
    {
        Transaction {
            tx_id: self.tx_id,
            from: self.from.clone(),
            to: self.to.clone(),
            amount: self.amount,
            timestamp: self.timestamp,
            tx_type: self.tx_type.clone(),
            description: self.description.clone(),
        }
    }
}

/// The keys under which the store keeps its account sequences.
pub enum TxHistory {
    /// The sequence of the records that name this account.
    UserTxs(Address),
}

impl TxHistory {
    /// The account whose sequence the key names.
    pub open spec fn account(self) -> Address {
        match self {
            TxHistory::UserTxs(a) => a,
        }
    }
}

} // verus!
