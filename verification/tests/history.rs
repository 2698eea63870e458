use soroban_sdk::testutils::storage::Instance as _;
use soroban_sdk::testutils::{Address as _, ContractFunctionSet, EnvTestConfig, Ledger as _};
use soroban_sdk::xdr::{ScErrorCode, ScErrorType};
use soroban_sdk::{Address, Env, Error, String, Symbol, Val};
use tx_history::{StorageFailure, Transaction, TransactionHistoryContract};

/// A contract without functions: it only lends its instance storage.
struct Store;

impl ContractFunctionSet for Store {
    fn call(&self, _func: &str, _env: Env, _args: &[Val]) -> Option<Val> {
        None
    }
}

fn fresh() -> (Env, Address) {
    let env = Env::new_with_config(EnvTestConfig { capture_snapshot_at_drop: false });
    let id = env.register(Store, ());
    (env, id)
}

fn text(env: &Env, s: &str) -> String {
    String::from_str(env, s)
}

/// What the contract's entry point does: the sender's authorization first,
/// then the write.
fn entry(host: &mut Env, from: &Address, to: &Address, amount: i128, tag: String, note: String) -> u64 {
    from.require_auth();
    TransactionHistoryContract::record_transaction(host, from.clone(), to.clone(), amount, tag, note).unwrap()
}

fn write(env: &Env, id: &Address, from: &Address, to: &Address, amount: i128, tag: &str, note: &str) -> u64 {
    let mut host = env.clone();
    let (tag, note) = (text(env, tag), text(env, note));
    env.as_contract(id, || entry(&mut host, from, to, amount, tag, note))
}

fn try_write(env: &Env, id: &Address, from: &Address, to: &Address) -> Result<u64, StorageFailure> {
    let mut host = env.clone();
    let (tag, note) = (text(env, "send"), text(env, "note"));
    env.as_contract(id, || {
        TransactionHistoryContract::record_transaction(&mut host, from.clone(), to.clone(), 3, tag, note)
    })
}

fn history(env: &Env, id: &Address, user: &Address) -> Vec<Transaction> {
    env.as_contract(id, || TransactionHistoryContract::get_user_transactions(env, user.clone())).unwrap()
}

fn by_type(env: &Env, id: &Address, user: &Address, tag: &str) -> Vec<Transaction> {
    let tag = text(env, tag);
    env.as_contract(id, || TransactionHistoryContract::get_transactions_by_type(env, user.clone(), tag)).unwrap()
}

fn count(env: &Env, id: &Address) -> u64 {
    env.as_contract(id, || TransactionHistoryContract::get_total_transaction_count(env)).unwrap()
}

fn ids(list: &[Transaction]) -> Vec<u64> {
    list.iter().map(|t| t.tx_id).collect()
}

#[test]
fn test_record_and_retrieve_transaction() {
    let (env, contract_id) = fresh();

    let user1 = Address::generate(&env);
    let user2 = Address::generate(&env);

    env.mock_all_auths();

    let tx_id = write(&env, &contract_id, &user1, &user2, 1000, "send", "Payment for services");

    assert_eq!(tx_id, 1);

    let user1_txs = history(&env, &contract_id, &user1);
    assert_eq!(user1_txs.len(), 1);

    let user2_txs = history(&env, &contract_id, &user2);
    assert_eq!(user2_txs.len(), 1);
}

#[test]
fn record_holds_every_field() {
    let (env, id) = fresh();
    let (a, b) = (Address::generate(&env), Address::generate(&env));
    env.mock_all_auths();
    env.ledger().set_timestamp(1_700_000_123);
    write(&env, &id, &a, &b, -42, "contract_call", "a note");
    let list = history(&env, &id, &b);
    assert_eq!(list.len(), 1);
    let t = &list[0];
    assert_eq!(t.tx_id, 1);
    assert!(t.from == a);
    assert!(t.to == b);
    assert_eq!(t.amount, -42);
    assert_eq!(t.timestamp, 1_700_000_123);
    assert!(t.tx_type == text(&env, "contract_call"));
    assert!(t.description == text(&env, "a note"));
}

#[test]
fn two_way_scenario() {
    let (env, id) = fresh();
    let (a, b) = (Address::generate(&env), Address::generate(&env));
    env.mock_all_auths();
    assert_eq!(write(&env, &id, &a, &b, 1000, "send", "pay"), 1);
    assert_eq!(write(&env, &id, &b, &a, 500, "send", "refund"), 2);
    assert_eq!(count(&env, &id), 2);
    assert_eq!(ids(&history(&env, &id, &a)), vec![1, 2]);
    assert_eq!(ids(&history(&env, &id, &b)), vec![1, 2]);
    assert_eq!(by_type(&env, &id, &a, "send").len(), 2);
}

#[test]
fn unauthorized_write_fails_and_writes_nothing() {
    let (env, id) = fresh();
    let (a, b) = (Address::generate(&env), Address::generate(&env));
    env.mock_all_auths();
    write(&env, &id, &a, &b, 1000, "send", "pay");
    write(&env, &id, &b, &a, 500, "send", "refund");
    env.set_auths(&[]);
    let mut host = env.clone();
    let (tag, note) = (text(&env, "send"), text(&env, "again"));
    let outcome = env.try_as_contract::<u64, Error>(&id, || entry(&mut host, &a, &b, 1, tag, note));
    assert_eq!(outcome, Err(Ok(Error::from_type_and_code(ScErrorType::Auth, ScErrorCode::InvalidAction))));
    assert_eq!(count(&env, &id), 2);
    assert_eq!(ids(&history(&env, &id, &a)), vec![1, 2]);
    assert_eq!(ids(&history(&env, &id, &b)), vec![1, 2]);
}

#[test]
fn count_follows_writes_and_ids_run_from_one() {
    let (env, id) = fresh();
    let (a, b) = (Address::generate(&env), Address::generate(&env));
    env.mock_all_auths();
    assert_eq!(count(&env, &id), 0);
    for n in 1..=5u64 {
        assert_eq!(write(&env, &id, &a, &b, 10, "send", "n"), n);
        assert_eq!(count(&env, &id), n);
    }
    assert_eq!(ids(&history(&env, &id, &a)), vec![1, 2, 3, 4, 5]);
}

#[test]
fn transfer_stands_once_for_each_party_and_nowhere_else() {
    let (env, id) = fresh();
    let (a, b, c) = (Address::generate(&env), Address::generate(&env), Address::generate(&env));
    env.mock_all_auths();
    write(&env, &id, &a, &b, 7, "send", "x");
    assert_eq!(ids(&history(&env, &id, &a)), vec![1]);
    assert_eq!(ids(&history(&env, &id, &b)), vec![1]);
    assert!(history(&env, &id, &c).is_empty());
}

#[test]
fn self_transfer_stands_twice() {
    let (env, id) = fresh();
    let (a, b) = (Address::generate(&env), Address::generate(&env));
    env.mock_all_auths();
    write(&env, &id, &a, &b, 1, "send", "first");
    assert_eq!(write(&env, &id, &a, &a, 5, "send", "to myself"), 2);
    assert_eq!(ids(&history(&env, &id, &a)), vec![1, 2, 2]);
    assert_eq!(ids(&history(&env, &id, &b)), vec![1]);
    assert_eq!(count(&env, &id), 2);
}

#[test]
fn filter_matches_the_tag_exactly_and_keeps_order() {
    let (env, id) = fresh();
    let (a, b) = (Address::generate(&env), Address::generate(&env));
    env.mock_all_auths();
    write(&env, &id, &a, &b, 1, "send", "");
    write(&env, &id, &b, &a, 2, "receive", "");
    write(&env, &id, &a, &b, 3, "Send", "");
    write(&env, &id, &a, &b, 4, "send", "");
    write(&env, &id, &a, &b, 5, "sen", "");
    assert_eq!(ids(&by_type(&env, &id, &a, "send")), vec![1, 4]);
    assert_eq!(ids(&by_type(&env, &id, &a, "receive")), vec![2]);
    assert_eq!(ids(&by_type(&env, &id, &a, "Send")), vec![3]);
    assert!(by_type(&env, &id, &a, "contract_call").is_empty());
    assert!(by_type(&env, &id, &a, "").is_empty());
    assert_eq!(ids(&history(&env, &id, &a)), vec![1, 2, 3, 4, 5]);
}

#[test]
fn stranger_reads_an_empty_history() {
    let (env, id) = fresh();
    let (a, b, c) = (Address::generate(&env), Address::generate(&env), Address::generate(&env));
    assert!(history(&env, &id, &c).is_empty());
    assert!(by_type(&env, &id, &c, "send").is_empty());
    env.mock_all_auths();
    write(&env, &id, &a, &b, 1, "send", "");
    assert!(history(&env, &id, &c).is_empty());
}

#[test]
fn reading_twice_gives_the_same() {
    let (env, id) = fresh();
    let (a, b) = (Address::generate(&env), Address::generate(&env));
    env.mock_all_auths();
    write(&env, &id, &a, &b, 1, "send", "one");
    write(&env, &id, &b, &a, 2, "receive", "two");
    let first = history(&env, &id, &a);
    let second = history(&env, &id, &a);
    assert_eq!(first.len(), second.len());
    for (x, y) in first.iter().zip(second.iter()) {
        assert_eq!(x.tx_id, y.tx_id);
        assert!(x.from == y.from && x.to == y.to);
        assert_eq!(x.amount, y.amount);
        assert_eq!(x.timestamp, y.timestamp);
        assert!(x.tx_type == y.tx_type && x.description == y.description);
    }
    assert_eq!(count(&env, &id), 2);
}

#[test]
fn record_at_uses_the_given_time_and_asks_no_authorization() {
    let (env, id) = fresh();
    let (a, b) = (Address::generate(&env), Address::generate(&env));
    let mut host = env.clone();
    let (tag, note) = (text(&env, "send"), text(&env, "pay"));
    let n = env.as_contract(&id, || {
        TransactionHistoryContract::record_at(&mut host, a.clone(), b.clone(), 9, tag, note, 77)
    });
    assert_eq!(n, Ok(1));
    let list = history(&env, &id, &a);
    assert_eq!(list.len(), 1);
    assert_eq!(list[0].timestamp, 77);
    assert_eq!(list[0].amount, 9);
    assert_eq!(count(&env, &id), 1);
}

#[test]
fn counter_is_kept_under_its_key() {
    let (env, id) = fresh();
    let (a, b) = (Address::generate(&env), Address::generate(&env));
    env.mock_all_auths();
    write(&env, &id, &a, &b, 1, "send", "");
    write(&env, &id, &a, &b, 1, "send", "");
    let stored: Option<u64> =
        env.as_contract(&id, || env.storage().instance().get(&Symbol::new(&env, "TX_COUNT")));
    assert_eq!(stored, Some(2));
}

#[test]
fn write_stops_at_the_last_number() {
    let (env, id) = fresh();
    let (a, b) = (Address::generate(&env), Address::generate(&env));
    env.as_contract(&id, || env.storage().instance().set(&Symbol::new(&env, "TX_COUNT"), &(u64::MAX - 1)));
    assert_eq!(try_write(&env, &id, &a, &b), Ok(u64::MAX));
    assert_eq!(try_write(&env, &id, &a, &b), Err(StorageFailure::CounterExhausted));
    assert_eq!(count(&env, &id), u64::MAX);
    assert_eq!(ids(&history(&env, &id, &a)), vec![u64::MAX]);
    assert_eq!(ids(&history(&env, &id, &b)), vec![u64::MAX]);
}

#[test]
fn nothing_is_served_outside_a_contract() {
    let (env, id) = fresh();
    let (a, b) = (Address::generate(&env), Address::generate(&env));
    let mut host = env.clone();
    let (tag, note) = (text(&env, "send"), text(&env, "note"));
    assert_eq!(
        TransactionHistoryContract::record_transaction(&mut host, a.clone(), b.clone(), 3, tag.clone(), note.clone()),
        Err(StorageFailure::NoContract)
    );
    assert_eq!(
        TransactionHistoryContract::record_at(&mut host, a.clone(), b.clone(), 3, tag.clone(), note, 5),
        Err(StorageFailure::NoContract)
    );
    assert!(matches!(
        TransactionHistoryContract::get_user_transactions(&env, a.clone()),
        Err(StorageFailure::NoContract)
    ));
    assert!(matches!(
        TransactionHistoryContract::get_transactions_by_type(&env, a.clone(), tag),
        Err(StorageFailure::NoContract)
    ));
    assert_eq!(TransactionHistoryContract::get_total_transaction_count(&env), Err(StorageFailure::NoContract));
    assert_eq!(count(&env, &id), 0);
    assert!(history(&env, &id, &a).is_empty());
}

#[test]
fn counter_of_another_kind_is_unreadable() {
    let (env, id) = fresh();
    let (a, b) = (Address::generate(&env), Address::generate(&env));
    env.as_contract(&id, || env.storage().instance().set(&Symbol::new(&env, "TX_COUNT"), &text(&env, "seven")));
    let read = env.as_contract(&id, || TransactionHistoryContract::get_total_transaction_count(&env));
    assert_eq!(read, Err(StorageFailure::Unreadable));
    assert_eq!(try_write(&env, &id, &a, &b), Err(StorageFailure::Unreadable));
    assert!(history(&env, &id, &a).is_empty());
    assert!(history(&env, &id, &b).is_empty());
}

#[test]
fn sequence_of_another_kind_is_unreadable_and_stops_the_write() {
    let (env, id) = fresh();
    let (a, b, c) = (Address::generate(&env), Address::generate(&env), Address::generate(&env));
    assert_eq!(try_write(&env, &id, &a, &c), Ok(1));
    env.as_contract(&id, || env.storage().instance().set(&(Symbol::new(&env, "UserTxs"), b.clone()), &7u64));
    let read = env.as_contract(&id, || TransactionHistoryContract::get_user_transactions(&env, b.clone()));
    assert!(matches!(read, Err(StorageFailure::Unreadable)));
    let tag = text(&env, "send");
    let read = env.as_contract(&id, || TransactionHistoryContract::get_transactions_by_type(&env, b.clone(), tag));
    assert!(matches!(read, Err(StorageFailure::Unreadable)));
    assert_eq!(try_write(&env, &id, &a, &b), Err(StorageFailure::Unreadable));
    assert_eq!(try_write(&env, &id, &b, &a), Err(StorageFailure::Unreadable));
    assert_eq!(count(&env, &id), 1);
    assert_eq!(ids(&history(&env, &id, &a)), vec![1]);
    assert_eq!(try_write(&env, &id, &a, &c), Ok(2));
}

#[test]
fn vector_of_other_things_is_unreadable() {
    let (env, id) = fresh();
    let a = Address::generate(&env);
    let other: soroban_sdk::Vec<u32> = soroban_sdk::Vec::from_array(&env, [1, 2, 3]);
    env.as_contract(&id, || env.storage().instance().set(&(Symbol::new(&env, "UserTxs"), a.clone()), &other));
    let read = env.as_contract(&id, || TransactionHistoryContract::get_user_transactions(&env, a.clone()));
    assert!(matches!(read, Err(StorageFailure::Unreadable)));
}

fn stored_under(env: &Env, id: &Address, user: &Address, value: Val) {
    env.as_contract(id, || env.storage().instance().set(&(Symbol::new(env, "UserTxs"), user.clone()), &value));
}

fn expect_unreadable(env: &Env, id: &Address, user: &Address, other: &Address) {
    let read = env.as_contract(id, || TransactionHistoryContract::get_user_transactions(env, user.clone()));
    assert!(matches!(read, Err(StorageFailure::Unreadable)));
    let tag = text(env, "send");
    let read = env.as_contract(id, || TransactionHistoryContract::get_transactions_by_type(env, user.clone(), tag));
    assert!(matches!(read, Err(StorageFailure::Unreadable)));
    assert_eq!(try_write(env, id, user, other), Err(StorageFailure::Unreadable));
    assert_eq!(try_write(env, id, other, user), Err(StorageFailure::Unreadable));
    assert_eq!(count(env, id), 0);
    assert!(history(env, id, other).is_empty());
}

#[test]
fn vector_of_short_vectors_is_unreadable() {
    let (env, id) = fresh();
    let (a, b) = (Address::generate(&env), Address::generate(&env));
    let short: soroban_sdk::Vec<u32> = soroban_sdk::Vec::from_array(&env, [1, 2]);
    let rows: soroban_sdk::Vec<soroban_sdk::Vec<u32>> = soroban_sdk::Vec::from_array(&env, [short]);
    stored_under(&env, &id, &a, rows.to_val());
    expect_unreadable(&env, &id, &a, &b);
}

#[test]
fn vector_of_pairs_is_unreadable() {
    let (env, id) = fresh();
    let (a, b) = (Address::generate(&env), Address::generate(&env));
    let rows: soroban_sdk::Vec<(u64, u64)> = soroban_sdk::Vec::from_array(&env, [(1, 2), (3, 4)]);
    stored_under(&env, &id, &a, rows.to_val());
    expect_unreadable(&env, &id, &a, &b);
}

#[test]
fn vector_with_an_empty_row_is_unreadable() {
    let (env, id) = fresh();
    let (a, b) = (Address::generate(&env), Address::generate(&env));
    let empty: soroban_sdk::Vec<Val> = soroban_sdk::Vec::new(&env);
    let rows: soroban_sdk::Vec<soroban_sdk::Vec<Val>> = soroban_sdk::Vec::from_array(&env, [empty]);
    stored_under(&env, &id, &a, rows.to_val());
    expect_unreadable(&env, &id, &a, &b);
}

#[test]
fn row_of_eight_values_is_unreadable() {
    let (env, id) = fresh();
    let (a, b) = (Address::generate(&env), Address::generate(&env));
    let long: soroban_sdk::Vec<u64> = soroban_sdk::Vec::from_array(&env, [1, 2, 3, 4, 5, 6, 7, 8]);
    let rows: soroban_sdk::Vec<soroban_sdk::Vec<u64>> = soroban_sdk::Vec::from_array(&env, [long]);
    stored_under(&env, &id, &a, rows.to_val());
    expect_unreadable(&env, &id, &a, &b);
}

#[test]
fn row_of_seven_values_of_other_kinds_is_unreadable() {
    let (env, id) = fresh();
    let (a, b) = (Address::generate(&env), Address::generate(&env));
    let seven: soroban_sdk::Vec<u64> = soroban_sdk::Vec::from_array(&env, [1, 2, 3, 4, 5, 6, 7]);
    let rows: soroban_sdk::Vec<soroban_sdk::Vec<u64>> = soroban_sdk::Vec::from_array(&env, [seven]);
    stored_under(&env, &id, &a, rows.to_val());
    expect_unreadable(&env, &id, &a, &b);
}

#[test]
fn one_bad_row_spoils_a_list_of_good_ones() {
    let (env, id) = fresh();
    let (a, b) = (Address::generate(&env), Address::generate(&env));
    assert_eq!(try_write(&env, &id, &a, &b), Ok(1));
    let key = (Symbol::new(&env, "UserTxs"), a.clone());
    let mut rows: soroban_sdk::Vec<Val> = env.as_contract(&id, || env.storage().instance().get(&key).unwrap());
    assert_eq!(rows.len(), 1);
    let short: soroban_sdk::Vec<u32> = soroban_sdk::Vec::from_array(&env, [9]);
    rows.push_back(short.to_val());
    stored_under(&env, &id, &a, rows.to_val());
    let read = env.as_contract(&id, || TransactionHistoryContract::get_user_transactions(&env, a.clone()));
    assert!(matches!(read, Err(StorageFailure::Unreadable)));
    assert_eq!(try_write(&env, &id, &b, &a), Err(StorageFailure::Unreadable));
    assert_eq!(count(&env, &id), 1);
    assert_eq!(ids(&history(&env, &id, &b)), vec![1]);
}

#[test]
fn write_extends_the_lifetime_of_the_instance() {
    let (env, id) = fresh();
    let (a, b) = (Address::generate(&env), Address::generate(&env));
    env.mock_all_auths();
    let before = env.as_contract(&id, || env.storage().instance().get_ttl());
    assert!(before < 5000);
    write(&env, &id, &a, &b, 1, "send", "");
    let after = env.as_contract(&id, || env.storage().instance().get_ttl());
    assert_eq!(after, 5000);
}
