use wager_ledger::service::adjust_balance;
use wager_ledger::store::Account;
use wager_ledger::service::authenticate;
use wager_ledger::service::register;
use wager_ledger::service::Outcome;
use wager_ledger::store::CredentialStore;

fn seeded(name: &str, password: &str, currency: i64) -> CredentialStore {
    let mut store = CredentialStore::new();
    let r = register(
        &mut store,
        &name.to_owned(),
        &password.to_owned(),
        currency,
    );
    assert_eq!(r, Outcome::Created);
    store
}

#[test]
fn register_round_trip_returns_initial_balance() {
    let mut store = CredentialStore::new();
    let r = register(&mut store, &"alice".to_owned(), &"p".to_owned(), 100);
    assert_eq!(r, Outcome::Created);
    let a = authenticate(&store, &"alice".to_owned(), &"p".to_owned());
    assert_eq!(a, Outcome::Authenticated(100));
}

#[test]
fn duplicate_register_gets_already_exists() {
    let mut store = seeded("alice", "p", 100);
    let again = register(&mut store, &"alice".to_owned(), &"q".to_owned(), 7);
    assert_eq!(again, Outcome::AlreadyExists);
    // The earlier registration is untouched.
    let a = authenticate(&store, &"alice".to_owned(), &"p".to_owned());
    assert_eq!(a, Outcome::Authenticated(100));
}

#[test]
fn register_rejects_empty_name() {
    let mut store = CredentialStore::new();
    let r = register(&mut store, &String::new(), &"p".to_owned(), 10);
    assert_eq!(r, Outcome::InvalidInput);
}

#[test]
fn register_rejects_empty_password() {
    let mut store = CredentialStore::new();
    let r = register(&mut store, &"alice".to_owned(), &String::new(), 10);
    assert_eq!(r, Outcome::InvalidInput);
}

#[test]
fn register_rejects_negative_initial_balance() {
    let mut store = CredentialStore::new();
    let r = register(&mut store, &"alice".to_owned(), &"p".to_owned(), -1);
    assert_eq!(r, Outcome::InvalidInput);
}

#[test]
fn register_accepts_zero_initial_balance() {
    let mut store = CredentialStore::new();
    let r = register(&mut store, &"alice".to_owned(), &"p".to_owned(), 0);
    assert_eq!(r, Outcome::Created);
    let a = authenticate(&store, &"alice".to_owned(), &"p".to_owned());
    assert_eq!(a, Outcome::Authenticated(0));
}

#[test]
fn authenticate_wrong_password_is_unauthorized() {
    let store = seeded("alice", "p", 100);
    let a = authenticate(&store, &"alice".to_owned(), &"wrong".to_owned());
    assert_eq!(a, Outcome::Unauthorized);
    // The balance is unaffected.
    let b = authenticate(&store, &"alice".to_owned(), &"p".to_owned());
    assert_eq!(b, Outcome::Authenticated(100));
}

#[test]
fn authenticate_unknown_name_is_not_found() {
    let store = seeded("alice", "p", 100);
    let a = authenticate(&store, &"bob".to_owned(), &"p".to_owned());
    assert_eq!(a, Outcome::NotFound);
}

#[test]
fn adjust_applies_sum_of_deltas() {
    let mut store = seeded("alice", "p", 100);
    let name = "alice".to_owned();
    let pw = "p".to_owned();
    assert_eq!(adjust_balance(&mut store, &name, &pw, 10), Outcome::Adjusted(110));
    assert_eq!(adjust_balance(&mut store, &name, &pw, -30), Outcome::Adjusted(80));
    assert_eq!(adjust_balance(&mut store, &name, &pw, 5), Outcome::Adjusted(85));
    assert_eq!(authenticate(&store, &name, &pw), Outcome::Authenticated(85));
}

#[test]
fn adjust_same_total_other_order() {
    let mut store = seeded("alice", "p", 100);
    let name = "alice".to_owned();
    let pw = "p".to_owned();
    assert_eq!(adjust_balance(&mut store, &name, &pw, 5), Outcome::Adjusted(105));
    assert_eq!(adjust_balance(&mut store, &name, &pw, 10), Outcome::Adjusted(115));
    assert_eq!(adjust_balance(&mut store, &name, &pw, -30), Outcome::Adjusted(85));
    assert_eq!(authenticate(&store, &name, &pw), Outcome::Authenticated(85));
}

#[test]
fn adjust_insufficient_funds_leaves_balance() {
    let mut store = seeded("alice", "p", 100);
    let name = "alice".to_owned();
    let pw = "p".to_owned();
    assert_eq!(
        adjust_balance(&mut store, &name, &pw, -250),
        Outcome::InsufficientFunds
    );
    assert_eq!(authenticate(&store, &name, &pw), Outcome::Authenticated(100));
}

#[test]
fn adjust_to_exactly_zero_is_allowed() {
    let mut store = seeded("alice", "p", 100);
    let name = "alice".to_owned();
    let pw = "p".to_owned();
    assert_eq!(adjust_balance(&mut store, &name, &pw, -100), Outcome::Adjusted(0));
}

#[test]
fn adjust_wrong_password_is_unauthorized() {
    let mut store = seeded("alice", "p", 100);
    assert_eq!(
        adjust_balance(&mut store, &"alice".to_owned(), &"wrong".to_owned(), -10),
        Outcome::Unauthorized
    );
    assert_eq!(
        authenticate(&store, &"alice".to_owned(), &"p".to_owned()),
        Outcome::Authenticated(100)
    );
}

#[test]
fn adjust_unknown_name_is_not_found() {
    let mut store = seeded("alice", "p", 100);
    assert_eq!(
        adjust_balance(&mut store, &"bob".to_owned(), &"p".to_owned(), 1),
        Outcome::NotFound
    );
}

#[test]
fn adjust_past_representable_range_is_overflow() {
    let mut store = seeded("rich", "p", i64::MAX);
    let name = "rich".to_owned();
    let pw = "p".to_owned();
    assert_eq!(adjust_balance(&mut store, &name, &pw, 1), Outcome::Overflow);
    assert_eq!(authenticate(&store, &name, &pw), Outcome::Authenticated(i64::MAX));
}

#[test]
fn store_lookup_and_update() {
    let mut store = seeded("alice", "p", 100);
    let found = store.find_by_name(&"alice".to_owned());
    assert!(found.is_some());
    let account = found.unwrap();
    assert_eq!(account.name, "alice");
    assert_eq!(account.password, "p");
    assert_eq!(account.currency, 100);
    assert!(store.find_by_name(&"bob".to_owned()).is_none());
    assert!(store.update_balance(&"alice".to_owned(), 55));
    assert!(!store.update_balance(&"bob".to_owned(), 55));
    assert_eq!(store.find_by_name(&"alice".to_owned()).unwrap().currency, 55);
}

#[test]
fn accounts_dump_holds_every_account() {
    let mut store = seeded("alice", "p", 100);
    register(&mut store, &"bob".to_owned(), &"q".to_owned(), 5);
    let mut accounts = store.accounts();
    accounts.sort_by(|a, b| a.name.cmp(&b.name));
    assert_eq!(accounts.len(), 2);
    assert_eq!(accounts[0].name, "alice");
    assert_eq!(accounts[0].password, "p");
    assert_eq!(accounts[0].currency, 100);
    assert_eq!(accounts[1].name, "bob");
    assert_eq!(accounts[1].currency, 5);
}

#[test]
fn store_insert_is_check_and_insert() {
    let mut store = CredentialStore::new();
    let fresh = store.insert(Account {
        name: "alice".to_owned(),
        password: "p".to_owned(),
        currency: 3,
    });
    assert!(fresh);
    let taken = store.insert(Account {
        name: "alice".to_owned(),
        password: "other".to_owned(),
        currency: 9,
    });
    assert!(!taken);
    // The first registration survives.
    let account = store.find_by_name(&"alice".to_owned()).unwrap();
    assert_eq!(account.password, "p");
    assert_eq!(account.currency, 3);
}
