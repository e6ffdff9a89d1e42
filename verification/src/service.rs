//! Account service: register, authenticate, adjust balance.
//!
//! Each operation is one logical transaction against the credential store,
//! and its exact behaviour is the corresponding `spec_*` function over the
//! store's abstract map. The service is stateless: it reads and writes only
//! through the store it is handed, and every store failure mode surfaces as
//! one of the `Outcome` variants — none escapes untranslated.
//!
//! `NotFound` and `Unauthorized` are kept distinct for observability; a
//! transport that fears username enumeration may collapse the two when it
//! renders a response. The password is an opaque value compared only for
//! equality: a deployment that must not hold raw secrets can hand a salted
//! one-way hash of the password to `register` and the same hash to
//! `authenticate` and `adjust_balance`, and nothing here changes.
//! `IntegrityError` is part of the outcome vocabulary,
//! but with uniqueness of names a proved store invariant it is never
//! produced, and the contracts say so.

use crate::store::AccountData;
use crate::store::Account;
use crate::store::CredentialStore;
use vstd::prelude::*;

verus! {

/// Every result an account operation can end in, each mapped to exactly one
/// response by the adapter.
#[derive(Clone, Copy, Debug, PartialEq, Eq, Structural)]
pub enum Outcome {
    /// Registration stored a new account.
    Created,
    /// Registration found the name taken.
    AlreadyExists,
    /// Credentials matched; carries the current balance.
    Authenticated(i64),
    /// A balance adjustment was applied; carries the new balance.
    Adjusted(i64),
    /// No account under the given name.
    NotFound,
    /// The account exists but the password does not match.
    Unauthorized,
    /// A negative delta would push the balance below zero.
    InsufficientFunds,
    /// A positive delta would push the balance past the representable range.
    Overflow,
    /// The payload was malformed or a field value is out of range.
    InvalidInput,
    /// The store's uniqueness invariant was observed broken. Proved
    /// unreachable here; kept so the adapter's mapping is total.
    IntegrityError,
}

/// What registering does to the store: reject empty identity or credential
/// and negative initial balances, refuse a taken name, otherwise add the
/// account.
pub open spec fn spec_register(
    m: Map<Seq<char>, AccountData>,
    name: Seq<char>,
    password: Seq<char>,
    initial: int,
) -> (Outcome, Map<Seq<char>, AccountData>) {
    if name.len() == 0 || password.len() == 0 || initial < 0 {
        (Outcome::InvalidInput, m)
    } else if m.contains_key(name) {
        (Outcome::AlreadyExists, m)
    } else {
        (Outcome::Created, m.insert(name, AccountData { password, currency: initial }))
    }
}

/// What authenticating returns: `NotFound` before `Unauthorized`, the
/// balance on a match. Never touches the store.
pub open spec fn spec_authenticate(
    m: Map<Seq<char>, AccountData>,
    name: Seq<char>,
    password: Seq<char>,
) -> Outcome {
    if !m.contains_key(name) {
        Outcome::NotFound
    } else if m[name].password != password {
        Outcome::Unauthorized
    } else {
        Outcome::Authenticated(m[name].currency as i64)
    }
}

/// What adjusting does: re-authenticate, then move the balance by `delta`
/// only if the result stays within `0 ..= i64::MAX`; otherwise report why
/// and leave the store as it was.
pub open spec fn spec_adjust(
    m: Map<Seq<char>, AccountData>,
    name: Seq<char>,
    password: Seq<char>,
    delta: int,
) -> (Outcome, Map<Seq<char>, AccountData>) {
    if !m.contains_key(name) {
        (Outcome::NotFound, m)
    } else if m[name].password != password {
        (Outcome::Unauthorized, m)
    } else if m[name].currency + delta < 0 {
        (Outcome::InsufficientFunds, m)
    } else if m[name].currency + delta > i64::MAX as int {
        (Outcome::Overflow, m)
    } else {
        (
            Outcome::Adjusted((m[name].currency + delta) as i64),
            m.insert(
                name,
                AccountData { password: m[name].password, currency: m[name].currency + delta },
            ),
        )
    }
}

/// Register an account. `InvalidInput` on an empty name or password or a
/// negative initial balance; the store's atomic check-and-insert settles a
/// duplicate name.
pub fn register(
    store: &mut CredentialStore,
    name: &String,
    password: &String,
    initial_currency: i64,
) -> (r: Outcome)
    requires
        old(store).wf(),
    ensures
        final(store).wf(),
        r == spec_register(old(store)@, name@, password@, initial_currency as int).0,
        final(store)@ == spec_register(old(store)@, name@, password@, initial_currency as int).1,
{
    if name.as_str().is_empty() || password.as_str().is_empty() || initial_currency < 0 {
        return Outcome::InvalidInput;
    }
    let account = Account {
        name: name.clone(),
        password: password.clone(),
        currency: initial_currency,
    };
    if store.insert(account) {
        Outcome::Created
    } else {
        Outcome::AlreadyExists
    }
}

/// Verify a claimed credential and return the balance on success. Reads
/// only: the store is borrowed immutably, so no balance is affected.
pub fn authenticate(store: &CredentialStore, name: &String, password: &String) -> (r: Outcome)
    requires
        store.wf(),
    ensures
        r == spec_authenticate(store@, name@, password@),
        r != Outcome::IntegrityError,
{
    match store.find_by_name(name) {
        None => Outcome::NotFound,
        Some(a) => {
            if a.password == *password {
                Outcome::Authenticated(a.currency)
            } else {
                Outcome::Unauthorized
            }
        },
    }
}

/// Re-authenticate, then apply `delta` to the balance as one
/// read-modify-write under the store's exclusive borrow: no other operation
/// can interleave between the read and the write, so no update is lost.
pub fn adjust_balance(
    store: &mut CredentialStore,
    name: &String,
    password: &String,
    delta: i64,
) -> (r: Outcome)
    requires
        old(store).wf(),
    ensures
        final(store).wf(),
        r == spec_adjust(old(store)@, name@, password@, delta as int).0,
        final(store)@ == spec_adjust(old(store)@, name@, password@, delta as int).1,
{
    match store.find_by_name(name) {
        None => Outcome::NotFound,
        Some(a) => {
            if !(a.password == *password) {
                return Outcome::Unauthorized;
            }
            let wide: i128 = a.currency as i128 + delta as i128;
            if wide < 0 {
                return Outcome::InsufficientFunds;
            }
            if wide > i64::MAX as i128 {
                return Outcome::Overflow;
            }
            let new_balance: i64 = wide as i64;
            let _updated = store.update_balance(name, new_balance);
            Outcome::Adjusted(new_balance)
        },
    }
}

} // verus!
