use crate::error::StorageFailure;
use crate::host::{
    contract_running, extend_instance_ttl, host_row_len, in_contract, ledger_timestamp,
    load_count, load_rows, row_to_transaction, rows_readable, rows_records, same_text,
    store_count, store_history, stored_rows, text_bytes,
};
use crate::laws::record_keeps_well_formed;
use crate::ledger::{
    count_readable, history_readable, ledger_of, same_readable, same_store, Ledger,
};
use crate::record::{records, Record, Transaction, TxHistory};
use soroban_sdk::{Address, Env, Val};
use vstd::prelude::*;

verus! {

/// The key of the counter in the contract's instance storage.
pub const TX_COUNTER: &'static str = "TX_COUNT";

/// The tag of the keys of the account sequences.
pub const USER_TXS: &'static str = "UserTxs";

/// The number of values in the stored form of one record.
pub const ROW_FIELDS: u32 = 7;

/// Below this many remaining ledgers the instance's lifetime is extended.
pub const TTL_THRESHOLD: u32 = 5000;

/// The number of ledgers that an extension makes the instance live for.
pub const TTL_EXTEND_TO: u32 = 5000;

/// Why reading the counter fails on the store in `env`, if it does.
pub open spec fn count_failure(env: Env) -> Option<StorageFailure> {
    if !contract_running(env) {
        Some(StorageFailure::NoContract)
    } else if !count_readable(env) {
        Some(StorageFailure::Unreadable)
    } else {
        None
    }
}

/// Why reading the sequence of `user` fails on the store in `env`, if it
/// does.
pub open spec fn read_failure(env: Env, user: Address) -> Option<StorageFailure> {
    if !contract_running(env) {
        Some(StorageFailure::NoContract)
    } else if !history_readable(env, user) {
        Some(StorageFailure::Unreadable)
    } else {
        None
    }
}

/// Why writing a transfer from `from` to `to` fails on the store in `env`,
/// if it does.
pub open spec fn write_failure(env: Env, from: Address, to: Address) -> Option<StorageFailure> {
    if count_failure(env).is_some() {
        count_failure(env)
    } else if ledger_of(env).count >= u64::MAX {
        Some(StorageFailure::CounterExhausted)
    } else if !history_readable(env, from) || !history_readable(env, to) {
        Some(StorageFailure::Unreadable)
    } else {
        None
    }
}

/// The ledger of transfers: its operations are associated functions that
/// work on the instance storage of the running contract.
pub struct TransactionHistoryContract;

impl TransactionHistoryContract {
    /// The stored counter, 0 where none was stored yet.
    fn read_count(env: &Env) -> (r: Result<u64, StorageFailure>)
        requires
            contract_running(*env),
        ensures
            r.is_ok() <==> count_readable(*env),
            r.is_ok() ==> r.unwrap() == ledger_of(*env).count,
            r.is_err() ==> r == Err::<u64, StorageFailure>(StorageFailure::Unreadable),
    {
        match load_count(env, TX_COUNTER) {
            Ok(Some(n)) => Ok(n),
            Ok(None) => Ok(0),
            Err(_) => Err(StorageFailure::Unreadable),
        }
    }

    /// Reads stored rows as records: each must hold seven values of the
    /// kinds of the seven fields. One row that does not makes the whole list
    /// unreadable.
    fn decode(env: &Env, rows: &Vec<soroban_sdk::Vec<Val>>) -> (r: Result<
        Vec<Transaction>,
        StorageFailure,
    >)
        ensures
            r.is_ok() <==> rows_readable(rows@),
            r.is_ok() ==> records(r.unwrap()@) == rows_records(rows@),
            r.is_err() ==> r == Err::<Vec<Transaction>, StorageFailure>(StorageFailure::Unreadable),
    {
        let mut list: Vec<Transaction> = Vec::new();
        let mut i: usize = 0;
        while i < rows.len()
            invariant
                i <= rows.len(),
                rows_readable(rows@.take(i as int)),
                records(list@) == rows_records(rows@.take(i as int)),
            decreases rows.len() - i,
        {
            let row = &rows[i];
            if host_row_len(row) != ROW_FIELDS {
                return Err(StorageFailure::Unreadable);
            }
            let tx = match row_to_transaction(env, row) {
                Ok(tx) => tx,
                Err(_) => {
                    return Err(StorageFailure::Unreadable);
                },
            };
            proof {
                let seen = rows@.take(i as int);
                assert(rows@.take(i + 1) =~= seen.push(rows@[i as int]));
                assert(rows_records(seen.push(rows@[i as int])) =~= rows_records(seen).push(tx@));
                assert(records(list@.push(tx)) =~= records(list@).push(tx@));
            }
            list.push(tx);
            i += 1;
        }
        proof {
            assert(rows@.take(rows.len() as int) =~= rows@);
        }
        Ok(list)
    }

    /// The stored sequence of the account that `key` names, empty where none
    /// was stored yet.
    fn read_history(env: &Env, key: &TxHistory) -> (r: Result<Vec<Transaction>, StorageFailure>)
        requires
            contract_running(*env),
        ensures
            r.is_ok() <==> history_readable(*env, key.account()),
            r.is_ok() ==> records(r.unwrap()@) == ledger_of(*env).history(key.account()),
            r.is_err() ==> r == Err::<Vec<Transaction>, StorageFailure>(StorageFailure::Unreadable),
    {
        let found = match key {
            TxHistory::UserTxs(account) => load_rows(env, USER_TXS, account),
        };
        match found {
            Ok(Some(rows)) => Self::decode(env, &rows),
            Ok(None) => {
                let list: Vec<Transaction> = Vec::new();
                proof {
                    assert(records(list@) =~= ledger_of(*env).history(key.account()));
                }
                Ok(list)
            },
            Err(_) => Err(StorageFailure::Unreadable),
        }
    }

    /// Stores `list` as the sequence of the account that `key` names.
    fn write_history(env: &mut Env, key: &TxHistory, list: &Vec<Transaction>)
        requires
            contract_running(*old(env)),
        ensures
            contract_running(*final(env)),
            count_readable(*final(env)) == count_readable(*old(env)),
            ledger_of(*final(env)).count == ledger_of(*old(env)).count,
            ledger_of(*final(env)).histories == ledger_of(*old(env)).histories.insert(
                key.account(),
                records(list@),
            ),
            forall|other: Address|
                other != key.account() ==> history_readable(*final(env), other)
                    == history_readable(*old(env), other),
            history_readable(*final(env), key.account()),
    {
        match key {
            TxHistory::UserTxs(account) => store_history(env, USER_TXS, account, list),
        }
        proof {
            let account = key.account();
            assert forall|other: Address| other != account implies stored_rows(*env).contains_key(
                other,
            ) == stored_rows(*old(env)).contains_key(other) && (stored_rows(*env).contains_key(
                other,
            ) ==> stored_rows(*env)[other] == stored_rows(*old(env))[other]) by {
                assert(stored_rows(*env).remove(account).contains_key(other) == stored_rows(
                    *env,
                ).contains_key(other));
                assert(stored_rows(*old(env)).remove(account).contains_key(other) == stored_rows(
                    *old(env),
                ).contains_key(other));
                if stored_rows(*env).contains_key(other) {
                    assert(stored_rows(*env).remove(account)[other] == stored_rows(*env)[other]);
                    assert(stored_rows(*old(env)).remove(account)[other] == stored_rows(
                        *old(env),
                    )[other]);
                }
            }
            assert(ledger_of(*env).histories =~= ledger_of(*old(env)).histories.insert(
                account,
                records(list@),
            ));
        }
    }

    /// Issues the next record number: one more than the stored counter, which
    /// it replaces. The account sequences stay as they are.
    fn next_id(env: &mut Env, last: u64) -> (id: u64)
        requires
            contract_running(*old(env)),
            count_readable(*old(env)),
            last == ledger_of(*old(env)).count,
            last < u64::MAX,
        ensures
            contract_running(*final(env)),
            id == last + 1,
            ledger_of(*final(env)).count == id,
            ledger_of(*final(env)).histories == ledger_of(*old(env)).histories,
            forall|account: Address|
                history_readable(*final(env), account) == history_readable(*old(env), account),
    {
        let id: u64 = last + 1;
        store_count(env, TX_COUNTER, id);
        id
    }

    /// Writes the transfer as a record made at ledger time `now`, and returns
    /// the record's number.
    ///
    /// The record gets the number after the last one issued and is added to
    /// the sender's sequence and to the receiver's; for a transfer from an
    /// account to itself it stands twice in that one sequence. The caller has
    /// established that `from` authorized the transfer.
    ///
    /// Where the store cannot serve the write, nothing is written and the
    /// reason is returned.
    pub fn record_at(
        env: &mut Env,
        from: Address,
        to: Address,
        amount: i128,
        tx_type: soroban_sdk::String,
        description: soroban_sdk::String,
        now: u64,
    ) -> (r: Result<u64, StorageFailure>)
        ensures
            contract_running(*final(env)) == contract_running(*old(env)),
            match r {
                Ok(id) => {
                    &&& write_failure(*old(env), from, to).is_none()
                    &&& id == ledger_of(*old(env)).count + 1
                    &&& ledger_of(*final(env)) == ledger_of(*old(env)).record(
                        ledger_of(*old(env)).next_record(
                            from,
                            to,
                            amount,
                            now,
                            text_bytes(tx_type),
                            text_bytes(description),
                        ),
                    )
                    &&& same_readable(*old(env), *final(env))
                    &&& ledger_of(*old(env)).well_formed() ==> ledger_of(*final(env)).well_formed()
                },
                Err(why) => {
                    &&& write_failure(*old(env), from, to) == Some(why)
                    &&& same_store(*old(env), *final(env))
                },
            },
    {
        if !in_contract(env) {
            return Err(StorageFailure::NoContract);
        }
        let last = match Self::read_count(env) {
            Ok(n) => n,
            Err(why) => {
                return Err(why);
            },
        };
        if last == u64::MAX {
            return Err(StorageFailure::CounterExhausted);
        }
        let sender = TxHistory::UserTxs(from.clone());
        let receiver = TxHistory::UserTxs(to.clone());
        let mut sent = match Self::read_history(env, &sender) {
            Ok(list) => list,
            Err(why) => {
                return Err(why);
            },
        };
        if Self::read_history(env, &receiver).is_err() {
            return Err(StorageFailure::Unreadable);
        }
        let ghost before = ledger_of(*env);
        let id = Self::next_id(env, last);
        let tx = Transaction {
            tx_id: id,
            from,
            to,
            amount,
            timestamp: now,
            tx_type,
            description,
        };
        let copy = tx.clone();
        proof {
            assert(records(sent@.push(copy)) =~= records(sent@).push(copy@));
        }
        sent.push(copy);
        Self::write_history(env, &sender, &sent);
        let mut received = match Self::read_history(env, &receiver) {
            Ok(list) => list,
            Err(why) => {
                return Err(why);
            },
        };
        proof {
            assert(records(received@.push(tx)) =~= records(received@).push(tx@));
        }
        received.push(tx);
        Self::write_history(env, &receiver, &received);
        proof {
            let made = before.next_record(
                from,
                to,
                amount,
                now,
                text_bytes(tx_type),
                text_bytes(description),
            );
            assert(ledger_of(*env).histories =~= before.record(made).histories);
            if before.well_formed() {
                record_keeps_well_formed(before, made);
            }
        }
        Ok(id)
    }

    /// Records a transfer from `from` to `to` and returns the record's number.
    ///
    /// The caller has established that `from` authorized the transfer. The
    /// record is stamped with the host's ledger time and written as
    /// [`Self::record_at`] writes it; then the instance's lifetime is
    /// extended. Where the store cannot serve the write, nothing is written
    /// and the reason is returned.
    pub fn record_transaction(
        env: &mut Env,
        from: Address,
        to: Address,
        amount: i128,
        tx_type: soroban_sdk::String,
        description: soroban_sdk::String,
    ) -> (r: Result<u64, StorageFailure>)
        ensures
            contract_running(*final(env)) == contract_running(*old(env)),
            match r {
                Ok(id) => {
                    &&& write_failure(*old(env), from, to).is_none()
                    &&& id == ledger_of(*old(env)).count + 1
                    &&& ledger_of(*old(env)).wrote(
                        ledger_of(*final(env)),
                        from,
                        to,
                        amount,
                        text_bytes(tx_type),
                        text_bytes(description),
                    )
                    &&& same_readable(*old(env), *final(env))
                    &&& ledger_of(*old(env)).well_formed() ==> ledger_of(*final(env)).well_formed()
                },
                Err(why) => {
                    &&& write_failure(*old(env), from, to) == Some(why)
                    &&& same_store(*old(env), *final(env))
                },
            },
    {
        let now = ledger_timestamp(env);
        let r = Self::record_at(env, from, to, amount, tx_type, description, now);
        if r.is_ok() {
            extend_instance_ttl(env, TTL_THRESHOLD, TTL_EXTEND_TO);
        }
        r
    }

    /// The records that name `user` as sender or receiver, oldest first;
    /// empty for an account that never took part.
    pub fn get_user_transactions(env: &Env, user: Address) -> (r: Result<
        Vec<Transaction>,
        StorageFailure,
    >)
        ensures
            match r {
                Ok(history) => {
                    &&& read_failure(*env, user).is_none()
                    &&& records(history@) == ledger_of(*env).history(user)
                },
                Err(why) => read_failure(*env, user) == Some(why),
            },
    {
        if !in_contract(env) {
            return Err(StorageFailure::NoContract);
        }
        let key = TxHistory::UserTxs(user);
        Self::read_history(env, &key)
    }

    /// The records of `user` whose tag is exactly `tx_type`, in the order of
    /// the account's sequence.
    pub fn get_transactions_by_type(
        env: &Env,
        user: Address,
        tx_type: soroban_sdk::String,
    ) -> (r: Result<Vec<Transaction>, StorageFailure>)
        ensures
            match r {
                Ok(found) => {
                    &&& read_failure(*env, user).is_none()
                    &&& records(found@) == ledger_of(*env).history_by_type(
                        user,
                        text_bytes(tx_type),
                    )
                },
                Err(why) => read_failure(*env, user) == Some(why),
            },
    {
        let all = match Self::get_user_transactions(env, user) {
            Ok(list) => list,
            Err(why) => {
                return Err(why);
            },
        };
        let mut found: Vec<Transaction> = Vec::new();
        let ghost wanted = |t: Record| t.tx_type == text_bytes(tx_type);
        let mut i: usize = 0;
        while i < all.len()
            invariant
                i <= all.len(),
                wanted == (|t: Record| t.tx_type == text_bytes(tx_type)),
                records(found@) == records(all@).take(i as int).filter(wanted),
            decreases all.len() - i,
        {
            proof {
                let seen = records(all@).take(i as int);
                let next = all@[i as int]@;
                assert(records(all@).take(i + 1) == seen.push(next));
                assert(seen.push(next) == seen + seq![next]);
                Seq::filter_distributes_over_add(seen, seq![next], wanted);
                reveal_with_fuel(Seq::filter, 2);
            }
            if same_text(&all[i].tx_type, &tx_type) {
                let copy = all[i].clone();
                proof {
                    assert(records(found@.push(copy)) == records(found@).push(copy@));
                }
                found.push(copy);
            }
            i += 1;
        }
        proof {
            assert(records(all@).take(all.len() as int) == records(all@));
        }
        Ok(found)
    }

    /// The number of records written so far, over all accounts.
    pub fn get_total_transaction_count(env: &Env) -> (r: Result<u64, StorageFailure>)
        ensures
            match r {
                Ok(count) => count_failure(*env).is_none() && count == ledger_of(*env).count,
                Err(why) => count_failure(*env) == Some(why),
            },
    {
        if !in_contract(env) {
            return Err(StorageFailure::NoContract);
        }
        Self::read_count(env)
    }
}

} // verus!
