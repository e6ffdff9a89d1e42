//! Laws of the account service, proved over the store's abstract map.
//!
//! The exec operations in `service` are pinned to the `spec_*` model
//! functions, so each law below holds of the running code as well: any
//! serialization of the named calls behaves as stated.

use crate::service::Outcome;
use crate::service::spec_adjust;
use crate::service::spec_authenticate;
use crate::service::spec_register;
use crate::store::AccountData;
use vstd::prelude::*;

verus! {

/// Sum of a sequence of balance deltas.
pub open spec fn delta_total(ds: Seq<int>) -> int
    decreases ds.len(),
{
    if ds.len() == 0 {
        0
    } else {
        delta_total(ds.drop_last()) + ds.last()
    }
}

/// The store after a run of balance adjustments for one account, applied in
/// the given serial order.
pub open spec fn apply_adjusts(
    m: Map<Seq<char>, AccountData>,
    name: Seq<char>,
    password: Seq<char>,
    ds: Seq<int>,
) -> Map<Seq<char>, AccountData>
    decreases ds.len(),
{
    if ds.len() == 0 {
        m
    } else {
        spec_adjust(apply_adjusts(m, name, password, ds.drop_last()), name, password, ds.last()).1
    }
}

/// Registering one name twice, in either serialization: when the name is
/// free, the first call is the one `Created` and the second gets
/// `AlreadyExists` — never two `Created`.
pub proof fn lemma_duplicate_register(
    m: Map<Seq<char>, AccountData>,
    name: Seq<char>,
    p1: Seq<char>,
    c1: int,
    p2: Seq<char>,
    c2: int,
)
    requires
        !m.contains_key(name),
        name.len() > 0,
        p1.len() > 0,
        p2.len() > 0,
        0 <= c1,
        0 <= c2,
    ensures
        spec_register(m, name, p1, c1).0 == Outcome::Created,
        spec_register(spec_register(m, name, p1, c1).1, name, p2, c2).0 == Outcome::AlreadyExists,
{
}

/// Linearized concurrent adjustments: a run of adjustments for one account,
/// each with the right credential, whose running balance stays within
/// `0 ..= i64::MAX` at every step, succeeds wholly: every one of the calls
/// returns `Adjusted` with its running balance, and the run ends with the
/// balance moved by exactly the sum of the deltas — whatever order the run
/// has, since only the sum enters the result. No update is lost.
pub proof fn lemma_adjust_run_totals(
    m: Map<Seq<char>, AccountData>,
    name: Seq<char>,
    password: Seq<char>,
    ds: Seq<int>,
)
    requires
        m.contains_key(name),
        m[name].password == password,
        forall|i: int|
            0 <= i <= ds.len() ==> 0 <= m[name].currency + delta_total(#[trigger] ds.take(i))
                <= i64::MAX as int,
    ensures
        apply_adjusts(m, name, password, ds).contains_key(name),
        apply_adjusts(m, name, password, ds)[name].password == password,
        apply_adjusts(m, name, password, ds)[name].currency == m[name].currency + delta_total(ds),
        forall|i: int|
            0 <= i < ds.len() ==> (#[trigger] spec_adjust(
                apply_adjusts(m, name, password, ds.take(i)),
                name,
                password,
                ds[i],
            )).0 == Outcome::Adjusted(
                (m[name].currency + delta_total(ds.take(i + 1))) as i64,
            ),
        forall|k: Seq<char>|
            k != name ==> (#[trigger] apply_adjusts(m, name, password, ds).contains_key(k)
                == m.contains_key(k)) && (m.contains_key(k) ==> apply_adjusts(
                m,
                name,
                password,
                ds,
            )[k] == m[k]),
    decreases ds.len(),
{
    if ds.len() == 0 {
        assert(ds.take(0) =~= ds);
    } else {
        let prefix = ds.drop_last();
        assert forall|i: int| 0 <= i <= prefix.len() implies 0 <= m[name].currency + delta_total(
            #[trigger] prefix.take(i),
        ) <= i64::MAX as int by {
            assert(prefix.take(i) =~= ds.take(i));
        }
        lemma_adjust_run_totals(m, name, password, prefix);
        let before = apply_adjusts(m, name, password, prefix);
        assert(ds.take(prefix.len() as int) =~= prefix);
        assert(ds.take(ds.len() as int) =~= ds);
        assert(before[name].currency + ds.last() == m[name].currency + delta_total(ds));
        assert(0 <= m[name].currency + delta_total(ds.take(ds.len() as int)) <= i64::MAX as int);
        assert forall|i: int| 0 <= i < ds.len() implies (#[trigger] spec_adjust(
            apply_adjusts(m, name, password, ds.take(i)),
            name,
            password,
            ds[i],
        )).0 == Outcome::Adjusted(
            (m[name].currency + delta_total(ds.take(i + 1))) as i64,
        ) by {
            if i < ds.len() - 1 {
                assert(ds.take(i) =~= prefix.take(i));
                assert(ds.take(i + 1) =~= prefix.take(i + 1));
                assert(ds[i] == prefix[i]);
            } else {
                // The last call starts from the state the prefix left.
                assert(ds.take(i) =~= prefix);
                assert(ds.take(i + 1) =~= ds);
                assert(before[name].currency + ds[i] == m[name].currency + delta_total(ds));
            }
        }
    }
}

/// The arrival order does not matter: two serializations whose deltas sum
/// alike — any two orders of one set of deltas among them — leave the
/// account at the same final balance.
pub proof fn lemma_adjust_order_irrelevant(
    m: Map<Seq<char>, AccountData>,
    name: Seq<char>,
    password: Seq<char>,
    ds1: Seq<int>,
    ds2: Seq<int>,
)
    requires
        m.contains_key(name),
        m[name].password == password,
        delta_total(ds1) == delta_total(ds2),
        forall|i: int|
            0 <= i <= ds1.len() ==> 0 <= m[name].currency + delta_total(#[trigger] ds1.take(i))
                <= i64::MAX as int,
        forall|i: int|
            0 <= i <= ds2.len() ==> 0 <= m[name].currency + delta_total(#[trigger] ds2.take(i))
                <= i64::MAX as int,
    ensures
        apply_adjusts(m, name, password, ds1)[name].currency == apply_adjusts(
            m,
            name,
            password,
            ds2,
        )[name].currency,
{
    lemma_adjust_run_totals(m, name, password, ds1);
    lemma_adjust_run_totals(m, name, password, ds2);
}

/// A delta whose magnitude exceeds the current balance is refused: the
/// outcome is `InsufficientFunds` and the store — the balance included — is
/// left exactly as it was.
pub proof fn lemma_insufficient_funds_unchanged(
    m: Map<Seq<char>, AccountData>,
    name: Seq<char>,
    password: Seq<char>,
    delta: int,
)
    requires
        m.contains_key(name),
        m[name].password == password,
        m[name].currency + delta < 0,
    ensures
        spec_adjust(m, name, password, delta).0 == Outcome::InsufficientFunds,
        spec_adjust(m, name, password, delta).1 == m,
{
}

/// Round trip: a registration that reports `Created` is immediately
/// readable back — authenticating with the same name and password returns
/// exactly the initial balance.
pub proof fn lemma_register_then_authenticate(
    m: Map<Seq<char>, AccountData>,
    name: Seq<char>,
    password: Seq<char>,
    initial: int,
)
    requires
        spec_register(m, name, password, initial).0 == Outcome::Created,
        initial <= i64::MAX as int,
    ensures
        spec_authenticate(spec_register(m, name, password, initial).1, name, password)
            == Outcome::Authenticated(initial as i64),
{
}

/// A name is a literal value: registering it — whatever characters it
/// holds — touches no other account. Every other name keeps its presence,
/// password and balance.
pub proof fn lemma_register_isolates(
    m: Map<Seq<char>, AccountData>,
    name: Seq<char>,
    password: Seq<char>,
    initial: int,
    other: Seq<char>,
)
    requires
        other != name,
    ensures
        spec_register(m, name, password, initial).1.contains_key(other) == m.contains_key(other),
        m.contains_key(other) ==> spec_register(m, name, password, initial).1[other] == m[other],
{
}

/// Adjusting one account's balance touches no other account.
pub proof fn lemma_adjust_isolates(
    m: Map<Seq<char>, AccountData>,
    name: Seq<char>,
    password: Seq<char>,
    delta: int,
    other: Seq<char>,
)
    requires
        other != name,
    ensures
        spec_adjust(m, name, password, delta).1.contains_key(other) == m.contains_key(other),
        m.contains_key(other) ==> spec_adjust(m, name, password, delta).1[other] == m[other],
{
}

/// A failed authentication — wrong password or unknown name — is exactly
/// `Unauthorized` or `NotFound`, and the authenticating read never changes
/// any balance (the exec operation borrows the store immutably).
pub proof fn lemma_authenticate_failures(
    m: Map<Seq<char>, AccountData>,
    name: Seq<char>,
    password: Seq<char>,
)
    ensures
        !m.contains_key(name) ==> spec_authenticate(m, name, password) == Outcome::NotFound,
        m.contains_key(name) && m[name].password != password ==> spec_authenticate(
            m,
            name,
            password,
        ) == Outcome::Unauthorized,
{
}

} // verus!
