use crate::record::{records, Record, Transaction};
use soroban_sdk::{Address, ConversionError, Env, Symbol, TryFromVal, Val};
use vstd::prelude::*;

verus! {

/// `soroban_sdk::Env`, a handle to the host. Nothing inside it is visible
/// here: what the host holds is spoken of through [`contract_running`],
/// [`stored_count`] and [`stored_rows`].
///
/// Copies of a handle share one host. The contracts of this library hold
/// while the host is reached through one handle only: a write through a
/// second handle to the same host changes what the first one reads.
#[verifier::external_type_specification]
#[verifier::external_body]
pub struct ExEnv(Env);

/// `soroban_sdk::Address`, an account or contract identifier. A value stands
/// for the identifier that it names, whichever handle carries it.
#[verifier::external_type_specification]
#[verifier::external_body]
pub struct ExAddress(Address);

/// `soroban_sdk::String`, a text kept by the host. What it holds is spoken of
/// through [`text_bytes`].
#[verifier::external_type_specification]
#[verifier::external_body]
pub struct ExString(soroban_sdk::String);

/// `soroban_sdk::ConversionError`: a stored value is not of the type that it
/// was read as. It says no more than that.
#[verifier::external_type_specification]
#[verifier::external_body]
pub struct ExConversionError(ConversionError);

/// `soroban_sdk::Val`, a raw value of the host. Nothing is known of one
/// until it is read as a value of some kind.
#[verifier::external_type_specification]
#[verifier::external_body]
pub struct ExVal(Val);

/// `soroban_sdk::Vec`, a vector kept by the host. A value stands for the
/// vector that the host keeps, whichever handle carries it; a vector of raw
/// values is spoken of through [`row_len`] and [`row_record`].
#[verifier::external_type_specification]
#[verifier::external_body]
#[verifier::reject_recursive_types(T)]
pub struct ExHostVec<T>(soroban_sdk::Vec<T>);

/// The stored form of one record: its fields in the order of
/// [`Transaction`].
pub type Row = (u64, Address, Address, i128, u64, soroban_sdk::String, soroban_sdk::String);

/// Whether a contract is running in `env`. Only then does the host serve
/// calls on instance storage.
pub uninterp spec fn contract_running(env: Env) -> bool;

/// What the instance storage of the contract running in `env` holds under
/// the counter's key: `None` where it holds nothing, `Some(None)` where it
/// holds something that is no `u64`, else the number.
pub uninterp spec fn stored_count(env: Env) -> Option<Option<u64>>;

/// What the instance storage of the contract running in `env` holds under
/// the sequence keys: each account under whose key something is stored, with
/// the stored vectors in order, or with `None` where what is stored is no
/// vector of vectors.
pub uninterp spec fn stored_rows(env: Env) -> Map<Address, Option<Seq<soroban_sdk::Vec<Val>>>>;

/// The number of values that the host vector `row` holds.
pub uninterp spec fn row_len(row: soroban_sdk::Vec<Val>) -> nat;

/// What the seven values of `row` say when they are read as the fields of a
/// record, in the order of [`Transaction`]: the record, or `None` where one
/// of them is not of its field's kind.
pub uninterp spec fn row_record(row: soroban_sdk::Vec<Val>) -> Option<Record>;

/// Every vector of `rows` holds one record: seven values, each of its
/// field's kind.
pub open spec fn rows_readable(rows: Seq<soroban_sdk::Vec<Val>>) -> bool {
    forall|i: int|
        0 <= i < rows.len() ==> row_len(#[trigger] rows[i]) == crate::contract::ROW_FIELDS
            && row_record(rows[i]).is_some()
}

/// The records that readable `rows` hold, in order.
pub open spec fn rows_records(rows: Seq<soroban_sdk::Vec<Val>>) -> Seq<Record> {
    rows.map_values(|row: soroban_sdk::Vec<Val>| row_record(row).unwrap())
}

/// What the store in `env` holds under the sequence key of `account`: `None`
/// where it holds nothing, `Some(None)` where it holds something that is no
/// vector of vectors, else the vectors.
pub open spec fn stored_rows_at(env: Env, account: Address) -> Option<Option<Seq<soroban_sdk::Vec<Val>>>> {
    if stored_rows(env).contains_key(account) {
        Some(stored_rows(env)[account])
    } else {
        None
    }
}

/// What the store in `env` holds under the sequence keys, read as records:
/// each account under whose key something is stored, with its records in
/// order, or with `None` where what is stored is no list of records.
pub open spec fn stored_histories(env: Env) -> Map<Address, Option<Seq<Record>>> {
    Map::new(
        |account: Address| stored_rows(env).contains_key(account),
        |account: Address|
            match stored_rows(env)[account] {
                Some(rows) => if rows_readable(rows) {
                    Some(rows_records(rows))
                } else {
                    None
                },
                None => None,
            },
    )
}

/// What a read of the counter says of the store: nothing stored, something
/// that is no number, or the number.
pub open spec fn count_read(r: Result<Option<u64>, ConversionError>) -> Option<Option<u64>> {
    match r {
        Ok(None) => None,
        Ok(Some(n)) => Some(Some(n)),
        Err(_) => Some(None),
    }
}

/// What a read of a sequence says of the store: nothing stored, something
/// that is no vector of vectors, or the vectors.
pub open spec fn rows_read(r: Result<Option<Vec<soroban_sdk::Vec<Val>>>, ConversionError>) -> Option<
    Option<Seq<soroban_sdk::Vec<Val>>>,
> {
    match r {
        Ok(None) => None,
        Ok(Some(rows)) => Some(Some(rows@)),
        Err(_) => Some(None),
    }
}

/// What a read of one row says of it: the record, or that a value is not of
/// its field's kind.
pub open spec fn record_read(r: Result<Transaction, ConversionError>) -> Option<Record> {
    match r {
        Ok(t) => Some(t@),
        Err(_) => None,
    }
}

/// Under the sequence key of `account` the store `after` holds rows that say
/// `list`, and under every other sequence key what `before` holds there.
pub open spec fn rows_stored(before: Env, after: Env, account: Address, list: Seq<Record>) -> bool {
    &&& stored_rows(after).remove(account) == stored_rows(before).remove(account)
    &&& stored_rows_at(after, account) matches Some(Some(rows)) && rows_readable(rows)
        && rows_records(rows) == list
}

/// The bytes that the text `s` holds.
pub uninterp spec fn text_bytes(s: soroban_sdk::String) -> Seq<u8>;

/// `Clone::clone` of `soroban_sdk::Address`: the copy names the same
/// identifier.
pub assume_specification[ <Address as Clone>::clone ](a: &Address) -> (r: Address)
    ensures
        r == *a,
;

/// `Clone::clone` of `soroban_sdk::String`: the copy holds the same bytes.
pub assume_specification[ <soroban_sdk::String as Clone>::clone ](s: &soroban_sdk::String) -> (r:
    soroban_sdk::String)
    ensures
        text_bytes(r) == text_bytes(*s),
;

/// `PartialEq::eq` of `soroban_sdk::String`: true exactly when the two texts
/// hold the same bytes.
#[verifier::external_body]
pub(crate) fn same_text(a: &soroban_sdk::String, b: &soroban_sdk::String) -> (r: bool)
    ensures
        r == (text_bytes(*a) == text_bytes(*b)),
{
    a == b
}

/// `Env::in_contract`: whether a contract is running in `env`.
#[verifier::external_body]
pub(crate) fn in_contract(env: &Env) -> (r: bool)
    ensures
        r == contract_running(*env),
{
    env.in_contract()
}

/// `Ledger::timestamp`: the close time of the ledger that the host is at.
/// It depends on the host, so nothing is claimed of the number.
#[verifier::external_body]
pub(crate) fn ledger_timestamp(env: &Env) -> (now: u64) {
    env.ledger().timestamp()
}

/// `Instance::get` with the symbol made of `key` as the key, read as a raw
/// value, then `u64::try_from_val` on it: the stored counter, `None` where
/// nothing is stored under the key, or the error where what is stored is no
/// `u64`.
#[verifier::external_body]
pub(crate) fn load_count(env: &Env, key: &str) -> (r: Result<Option<u64>, ConversionError>)
    requires
        contract_running(*env),
        key@ == crate::contract::TX_COUNTER@,
    ensures
        stored_count(*env) == count_read(r),
{
    match env.storage().instance().get::<Symbol, Val>(&Symbol::new(env, key)) {
        Some(v) => u64::try_from_val(env, &v).map(Some).map_err(|_| ConversionError),
        None => Ok(None),
    }
}

/// `Instance::set` with the symbol made of `key` as the key: afterwards the
/// storage holds `count` as the counter, and under every sequence key what
/// it held before. The contract goes on running.
#[verifier::external_body]
pub(crate) fn store_count(env: &mut Env, key: &str, count: u64)
    requires
        contract_running(*old(env)),
        key@ == crate::contract::TX_COUNTER@,
    ensures
        contract_running(*final(env)),
        stored_count(*final(env)) == Some(Some(count)),
        stored_rows(*final(env)) == stored_rows(*old(env)),
{
    env.storage().instance().set(&Symbol::new(env, key), &count)
}

/// `Instance::get` with the pair of the symbol made of `tag` and the account
/// as the key, read as a raw value, then `Vec::try_from_val` and
/// `Vec::try_iter` on it, each element read as a vector of raw values: the
/// vectors stored for the account, in order; `None` where nothing is stored
/// under the key; or the error where what is stored is no vector of vectors.
#[verifier::external_body]
pub(crate) fn load_rows(env: &Env, tag: &str, account: &Address) -> (r: Result<Option<Vec<soroban_sdk::Vec<Val>>>, ConversionError>)
    requires
        contract_running(*env),
        tag@ == crate::contract::USER_TXS@,
    ensures
        stored_rows_at(*env, *account) == rows_read(r),
{
    let key = (Symbol::new(env, tag), account.clone());
    let Some(v) = env.storage().instance().get::<_, Val>(&key) else { return Ok(None) };
    let rows = soroban_sdk::Vec::<soroban_sdk::Vec<Val>>::try_from_val(env, &v)?;
    rows.try_iter().collect::<Result<_, _>>().map(Some)
}

/// `Vec::len`: the number of values that the host vector holds.
#[verifier::external_body]
pub(crate) fn host_row_len(row: &soroban_sdk::Vec<Val>) -> (n: u32)
    ensures
        n == row_len(*row),
{
    row.len()
}

/// `TryFromVal::try_from_val` for the tuple of the seven field types, on a
/// vector of seven values: the record that they say, each field moved into a
/// [`Transaction`], or the error where a value is not of its field's kind.
/// On a vector of another length the host refuses the call.
#[verifier::external_body]
pub(crate) fn row_to_transaction(env: &Env, row: &soroban_sdk::Vec<Val>) -> (r: Result<Transaction, ConversionError>)
    requires
        row_len(*row) == crate::contract::ROW_FIELDS,
    ensures
        row_record(*row) == record_read(r),
{
    Row::try_from_val(env, &row.to_val()).map(|r| Transaction {
        tx_id: r.0, from: r.1, to: r.2, amount: r.3, timestamp: r.4, tx_type: r.5, description: r.6,
    }).map_err(|_| ConversionError)
}

/// `Instance::set` with the pair of the symbol made of `tag` and the account
/// as the key, and a host vector that holds each record of `list` as a row:
/// afterwards the storage holds what `list` says as the account's sequence,
/// under every other sequence key what it held before, and the counter as
/// before. The contract goes on running.
#[verifier::external_body]
pub(crate) fn store_history(env: &mut Env, tag: &str, account: &Address, list: &Vec<Transaction>)
    requires
        contract_running(*old(env)),
        tag@ == crate::contract::USER_TXS@,
    ensures
        contract_running(*final(env)),
        rows_stored(*old(env), *final(env), *account, records(list@)),
        stored_count(*final(env)) == stored_count(*old(env)),
{
    let mut rows: soroban_sdk::Vec<Row> = soroban_sdk::Vec::new(env);
    for t in list.iter() {
        rows.push_back((t.tx_id, t.from.clone(), t.to.clone(), t.amount, t.timestamp,
            t.tx_type.clone(), t.description.clone()));
    }
    env.storage().instance().set(&(Symbol::new(env, tag), account.clone()), &rows)
}

/// `Instance::extend_ttl`: asks the host to keep the contract's instance and
/// code for `extend_to` ledgers where `threshold` or fewer remain. The stored
/// counter and sequences are not touched. The host refuses a `threshold`
/// above `extend_to`.
#[verifier::external_body]
pub(crate) fn extend_instance_ttl(env: &Env, threshold: u32, extend_to: u32)
    requires
        contract_running(*env),
        threshold <= extend_to,
{
    env.storage().instance().extend_ttl(threshold, extend_to)
}

} // verus!
