use crate::host::{stored_count, stored_histories, stored_rows};
use crate::record::Record;
use soroban_sdk::{Address, Env};
use vstd::prelude::*;

verus! {

/// What the store holds, as a value: the number of records written and, for
/// each account that has one, its sequence of records in the order written.
pub struct Ledger {
    /// The last number issued; 0 while nothing was written.
    pub count: nat,
    /// The account sequences. An account without an entry has the empty one.
    pub histories: Map<Address, Seq<Record>>,
}

impl Ledger {
    /// The ledger in which nothing was written.
    pub open spec fn empty() -> Ledger {
        Ledger { count: 0, histories: Map::empty() }
    }

    /// The records that name `account`, oldest first; empty for an account
    /// that never took part.
    pub open spec fn history(self, account: Address) -> Seq<Record> {
        if self.histories.contains_key(account) {
            self.histories[account]
        } else {
            Seq::empty()
        }
    }

    /// The records of `account` whose tag is exactly `tx_type`, in the order
    /// of the account's sequence.
    pub open spec fn history_by_type(self, account: Address, tx_type: Seq<u8>) -> Seq<Record> {
        self.history(account).filter(|t: Record| t.tx_type == tx_type)
    }

    /// The record that the next write makes of a transfer at ledger time
    /// `now`: it carries the number after the last one issued.
    pub open spec fn next_record(
        self,
        from: Address,
        to: Address,
        amount: i128,
        now: u64,
        tx_type: Seq<u8>,
        description: Seq<u8>,
    ) -> Record {
        Record {
            tx_id: (self.count + 1) as u64,
            from,
            to,
            amount,
            timestamp: now,
            tx_type,
            description,
        }
    }

    /// The ledger with `tx` added at the end of the sequence of `account`.
    pub open spec fn append(self, account: Address, tx: Record) -> Ledger {
        Ledger {
            count: self.count,
            histories: self.histories.insert(account, self.history(account).push(tx)),
        }
    }

    /// The ledger after `tx` was written: added to its sender's sequence, then
    /// to its receiver's (twice to the same one where they are one account),
    /// and counted.
    pub open spec fn record(self, tx: Record) -> Ledger {
        let both = self.append(tx.from, tx).append(tx.to, tx);
        Ledger { count: self.count + 1, histories: both.histories }
    }

    /// `after` is this ledger after one write of the given transfer, made at
    /// some ledger time.
    pub open spec fn wrote(
        self,
        after: Ledger,
        from: Address,
        to: Address,
        amount: i128,
        tx_type: Seq<u8>,
        description: Seq<u8>,
    ) -> bool {
        exists|now: u64|
            after == self.record(
                #[trigger] self.next_record(from, to, amount, now, tx_type, description),
            )
    }

    /// How often `tx` stands in the sequence of `account`.
    pub open spec fn occurrences(self, account: Address, tx: Record) -> nat {
        self.history(account).to_multiset().count(tx)
    }

    /// No stored record carries a number that was not issued yet.
    pub open spec fn well_formed(self) -> bool {
        forall|account: Address, i: int|
            0 <= i < self.history(account).len() ==> 1 <= (#[trigger] self.history(
                account,
            )[i]).tx_id <= self.count
    }
}

/// The counter of the store in `env` can be read: nothing is stored under its
/// key, or a number is.
pub open spec fn count_readable(env: Env) -> bool {
    stored_count(env) != Some(None::<u64>)
}

/// The sequence of `account` in the store in `env` can be read: nothing is
/// stored under its key, or a list of records is.
pub open spec fn history_readable(env: Env, account: Address) -> bool {
    stored_histories(env).contains_key(account) ==> stored_histories(env)[account].is_some()
}

/// The ledger that the instance storage of the contract running in `env`
/// holds. A counter that was never stored counts as 0; what cannot be read
/// counts as not stored.
pub open spec fn ledger_of(env: Env) -> Ledger {
    Ledger {
        count: match stored_count(env) {
            Some(Some(n)) => n as nat,
            _ => 0,
        },
        histories: Map::new(
            |account: Address|
                stored_histories(env).contains_key(account) && stored_histories(
                    env,
                )[account].is_some(),
            |account: Address| stored_histories(env)[account].unwrap(),
        ),
    }
}

/// What can be read of the store in `before` can be read of the store in
/// `after`, and nothing else.
pub open spec fn same_readable(before: Env, after: Env) -> bool {
    &&& count_readable(after) == count_readable(before)
    &&& forall|account: Address| #[trigger]
        history_readable(after, account) == history_readable(before, account)
}

/// The stores in `before` and `after` hold the same.
pub open spec fn same_store(before: Env, after: Env) -> bool {
    &&& stored_count(after) == stored_count(before)
    &&& stored_rows(after) == stored_rows(before)
}

/// The ledger after the records of `log` were written, in order, to an empty
/// store.
pub open spec fn replay(log: Seq<Record>) -> Ledger
    decreases log.len(),
{
    if log.len() == 0 {
        Ledger::empty()
    } else {
        replay(log.drop_last()).record(log.last())
    }
}

/// `log` is what successive writes to an empty store make: each record
/// carries the number that the ledger issued when it was written.
pub open spec fn issued_in_order(log: Seq<Record>) -> bool {
    forall|i: int|
        0 <= i < log.len() ==> (#[trigger] log[i]).tx_id == replay(log.take(i)).count + 1
}

/// The set of the numbers that the records of `log` carry.
pub open spec fn issued_numbers(log: Seq<Record>) -> Set<u64> {
    log.map_values(|t: Record| t.tx_id).to_set()
}

} // verus!
