use crate::ledger::{issued_in_order, issued_numbers, replay, Ledger};
use crate::record::Record;
use soroban_sdk::Address;
use vstd::prelude::*;

verus! {

/// A write changes the sequences of its sender and of its receiver and no
/// other: every other account reads what it read before.
pub proof fn record_leaves_others(l: Ledger, tx: Record, account: Address)
    requires
        account != tx.from,
        account != tx.to,
    ensures
        l.record(tx).history(account) == l.history(account),
{
}

/// What a write adds: the sender's sequence ends with the new record, and so
/// does the receiver's; where they are one account, its sequence ends with
/// the record twice.
pub proof fn record_appends(l: Ledger, tx: Record)
    ensures
        tx.from != tx.to ==> l.record(tx).history(tx.from) == l.history(tx.from).push(tx),
        tx.from != tx.to ==> l.record(tx).history(tx.to) == l.history(tx.to).push(tx),
        tx.from == tx.to ==> l.record(tx).history(tx.from) == l.history(tx.from).push(tx).push(tx),
        l.record(tx).count == l.count + 1,
{
}

/// A write removes and changes nothing: what an account read before the
/// write is the beginning of what it reads after it.
pub proof fn record_only_appends(l: Ledger, tx: Record, account: Address)
    ensures
        l.history(account).is_prefix_of(l.record(tx).history(account)),
{
    record_appends(l, tx);
    if account != tx.from && account != tx.to {
        record_leaves_others(l, tx, account);
    }
}

/// A ledger whose stored records all carry issued numbers does not hold a
/// record with the next number yet.
proof fn fresh_record_is_absent(l: Ledger, tx: Record, account: Address)
    requires
        l.well_formed(),
        tx.tx_id == l.count + 1,
    ensures
        l.occurrences(account, tx) == 0,
{
    let h = l.history(account);
    h.to_multiset_ensures();
    if h.contains(tx) {
        let i = choose|i: int| 0 <= i < h.len() && h[i] == tx;
        assert(l.history(account)[i].tx_id <= l.count);
    }
}

/// Writing keeps the ledger well formed: after the next record is written,
/// every stored record still carries a number between 1 and the count.
pub proof fn record_keeps_well_formed(l: Ledger, tx: Record)
    requires
        l.well_formed(),
        tx.tx_id == l.count + 1,
    ensures
        l.record(tx).well_formed(),
{
    let after = l.record(tx);
    record_appends(l, tx);
    assert forall|account: Address, i: int| 0 <= i < after.history(account).len() implies 1 <= (
    #[trigger] after.history(account)[i]).tx_id <= after.count by {
        if account != tx.from && account != tx.to {
            record_leaves_others(l, tx, account);
            assert(l.history(account)[i].tx_id <= l.count);
        } else {
            if i < l.history(account).len() {
                assert(after.history(account)[i] == l.history(account)[i]);
                assert(l.history(account)[i].tx_id <= l.count);
            }
        }
    }
}

/// A transfer between two different accounts is recorded exactly once for
/// the sender, exactly once for the receiver, and for nobody else.
pub proof fn transfer_recorded_once_each(
    l: Ledger,
    from: Address,
    to: Address,
    amount: i128,
    now: u64,
    tx_type: Seq<u8>,
    description: Seq<u8>,
    other: Address,
)
    requires
        l.well_formed(),
        l.count < u64::MAX,
        from != to,
        other != from,
        other != to,
    ensures
        ({
            let tx = l.next_record(from, to, amount, now, tx_type, description);
            &&& l.record(tx).occurrences(from, tx) == 1
            &&& l.record(tx).occurrences(to, tx) == 1
            &&& l.record(tx).occurrences(other, tx) == 0
        }),
{
    let tx = l.next_record(from, to, amount, now, tx_type, description);
    record_appends(l, tx);
    record_leaves_others(l, tx, other);
    fresh_record_is_absent(l, tx, from);
    fresh_record_is_absent(l, tx, to);
    fresh_record_is_absent(l, tx, other);
    l.history(from).to_multiset_ensures();
    l.history(to).to_multiset_ensures();
}

/// A transfer from an account to itself is recorded exactly twice for that
/// account, and for nobody else.
pub proof fn self_transfer_recorded_twice(
    l: Ledger,
    account: Address,
    amount: i128,
    now: u64,
    tx_type: Seq<u8>,
    description: Seq<u8>,
    other: Address,
)
    requires
        l.well_formed(),
        l.count < u64::MAX,
        other != account,
    ensures
        ({
            let tx = l.next_record(account, account, amount, now, tx_type, description);
            &&& l.record(tx).occurrences(account, tx) == 2
            &&& l.record(tx).occurrences(other, tx) == 0
        }),
{
    let tx = l.next_record(account, account, amount, now, tx_type, description);
    record_appends(l, tx);
    record_leaves_others(l, tx, other);
    fresh_record_is_absent(l, tx, account);
    fresh_record_is_absent(l, tx, other);
    l.history(account).to_multiset_ensures();
    l.history(account).push(tx).to_multiset_ensures();
}

/// After any number of writes the count is the number of writes.
pub proof fn count_is_number_of_writes(log: Seq<Record>)
    ensures
        replay(log).count == log.len(),
    decreases log.len(),
{
    if log.len() > 0 {
        count_is_number_of_writes(log.drop_last());
    }
}

/// Successive writes to an empty store issue the numbers 1, 2, 3 and so on,
/// in that order: the record of the write at place `i` carries `i + 1`. So
/// no number is issued twice, and after `n` writes the numbers issued are
/// exactly those from 1 to `n`.
pub proof fn numbers_issued_in_sequence(log: Seq<Record>)
    requires
        issued_in_order(log),
    ensures
        forall|i: int| 0 <= i < log.len() ==> (#[trigger] log[i]).tx_id == i + 1,
        forall|i: int, j: int|
            0 <= i < j < log.len() ==> (#[trigger] log[i]).tx_id != (#[trigger] log[j]).tx_id,
        issued_numbers(log) == Set::new(|n: u64| 1 <= n <= log.len()),
{
    assert forall|i: int| 0 <= i < log.len() implies (#[trigger] log[i]).tx_id == i + 1 by {
        count_is_number_of_writes(log.take(i));
    }
    let numbers = log.map_values(|t: Record| t.tx_id);
    assert forall|n: u64| issued_numbers(log).contains(n) <==> 1 <= n <= log.len() by {
        if 1 <= n <= log.len() {
            assert(numbers[n - 1] == log[n - 1].tx_id);
            assert(numbers.contains(n));
        }
        if numbers.contains(n) {
            let i = choose|i: int| 0 <= i < numbers.len() && numbers[i] == n;
            assert(numbers[i] == log[i].tx_id);
        }
    }
    assert(issued_numbers(log) =~= Set::new(|n: u64| 1 <= n <= log.len()));
}

/// One more write goes on from where the earlier ones stopped: where `log`
/// is what successive writes to an empty store made and `tx` carries the
/// next number, the store after `tx` is written is the one that the longer
/// log makes, and the longer log is again what successive writes make.
pub proof fn replay_goes_on(log: Seq<Record>, tx: Record)
    requires
        issued_in_order(log),
        tx.tx_id == replay(log).count + 1,
    ensures
        replay(log.push(tx)) == replay(log).record(tx),
        issued_in_order(log.push(tx)),
{
    let longer = log.push(tx);
    assert(longer.drop_last() =~= log);
    assert(longer.last() == tx);
    assert forall|i: int| 0 <= i < longer.len() implies (#[trigger] longer[i]).tx_id == replay(
        longer.take(i),
    ).count + 1 by {
        if i < log.len() {
            assert(longer.take(i) =~= log.take(i));
            assert(longer[i] == log[i]);
        } else {
            assert(longer.take(i) =~= log);
        }
    }
}

/// Successive writes to an empty store leave a well-formed ledger.
pub proof fn replay_is_well_formed(log: Seq<Record>)
    requires
        issued_in_order(log),
    ensures
        replay(log).well_formed(),
    decreases log.len(),
{
    if log.len() > 0 {
        let before = log.drop_last();
        assert forall|i: int| 0 <= i < before.len() implies (#[trigger] before[i]).tx_id == replay(
            before.take(i),
        ).count + 1 by {
            assert(before[i] == log[i]);
            assert(before.take(i) == log.take(i));
        }
        replay_is_well_formed(before);
        assert(log.take(log.len() - 1) == before);
        assert(log[log.len() - 1].tx_id == replay(before).count + 1);
        record_keeps_well_formed(replay(before), log.last());
    }
}

/// An account that no write named has an empty sequence.
pub proof fn stranger_has_no_history(log: Seq<Record>, account: Address)
    requires
        forall|i: int| 0 <= i < log.len() ==> (#[trigger] log[i]).from != account && log[i].to != account,
    ensures
        replay(log).history(account) == Seq::<Record>::empty(),
    decreases log.len(),
{
    if log.len() > 0 {
        let before = log.drop_last();
        assert forall|i: int| 0 <= i < before.len() implies (#[trigger] before[i]).from != account
            && before[i].to != account by {
            assert(before[i] == log[i]);
        }
        stranger_has_no_history(before, account);
        assert(log[log.len() - 1] == log.last());
        record_leaves_others(replay(before), log.last(), account);
    }
}

} // verus!
