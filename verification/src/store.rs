//! Credential store: the single owner of persisted accounts.
//!
//! The store is modelled as a finite map from account name to the account's
//! credential and balance. Uniqueness of names is an internal invariant that
//! every operation preserves; `insert` checks and inserts under one exclusive
//! borrow, so a registration race cannot create two rows for one name.
//! Account fields are only ever held as plain values — they are never spliced
//! into any query text, so metacharacters in a name or password are inert.

use vstd::prelude::*;

verus! {

/// A stored account: identity, credential, currency balance.
pub struct Account {
    pub name: String,
    pub password: String,
    pub currency: i64,
}

/// Mathematical content of an account, keyed elsewhere by its name.
pub ghost struct AccountData {
    pub password: Seq<char>,
    pub currency: int,
}

impl Account {
    /// A well-formed account: non-empty identity and credential,
    /// non-negative balance.
    pub open spec fn valid(self) -> bool {
        &&& self.name@.len() > 0
        &&& self.password@.len() > 0
        &&& 0 <= self.currency
    }

    /// The account's content, with the name stripped off.
    pub open spec fn data(self) -> AccountData {
        AccountData { password: self.password@, currency: self.currency as int }
    }
}

/// Every account a well-formed store can hold satisfies this: non-empty name
/// and password, balance within the representable non-negative range.
pub open spec fn wf_data(m: Map<Seq<char>, AccountData>) -> bool {
    forall|k: Seq<char>| #[trigger] m.contains_key(k) ==> {
        &&& k.len() > 0
        &&& m[k].password.len() > 0
        &&& 0 <= m[k].currency <= i64::MAX as int
    }
}

/// The set of accounts. Its abstract value is a map from name to
/// `AccountData`; names are unique by invariant.
pub struct CredentialStore {
    accounts: Vec<Account>,
}

spec fn unique_names(s: Seq<Account>) -> bool {
    forall|i: int, j: int| 0 <= i < j < s.len() ==> s[i].name@ != s[j].name@
}

spec fn map_of(s: Seq<Account>) -> Map<Seq<char>, AccountData>
    decreases s.len(),
{
    if s.len() == 0 {
        Map::empty()
    } else {
        map_of(s.drop_last()).insert(s.last().name@, s.last().data())
    }
}

proof fn lemma_map_of_contains(s: Seq<Account>, k: Seq<char>)
    ensures
        map_of(s).contains_key(k) <==> exists|i: int| 0 <= i < s.len() && s[i].name@ == k,
    decreases s.len(),
{
    if s.len() > 0 {
        lemma_map_of_contains(s.drop_last(), k);
        if s.last().name@ == k {
            assert(s[s.len() - 1].name@ == k);
        } else {
            if exists|i: int| 0 <= i < s.len() && s[i].name@ == k {
                let i = choose|i: int| 0 <= i < s.len() && s[i].name@ == k;
                assert(s.drop_last()[i].name@ == k);
            }
            if exists|i: int| 0 <= i < s.drop_last().len() && s.drop_last()[i].name@ == k {
                let i = choose|i: int| 0 <= i < s.drop_last().len() && s.drop_last()[i].name@ == k;
                assert(s[i].name@ == k);
            }
        }
    }
}

proof fn lemma_map_of_value(s: Seq<Account>, i: int)
    requires
        unique_names(s),
        0 <= i < s.len(),
    ensures
        map_of(s).contains_key(s[i].name@),
        map_of(s)[s[i].name@] == s[i].data(),
    decreases s.len(),
{
    if i == s.len() - 1 {
        assert(s.last() == s[i]);
    } else {
        assert(unique_names(s.drop_last())) by {
            assert(forall|p: int, q: int|
                0 <= p < q < s.drop_last().len() ==> s.drop_last()[p] == s[p]
                    && s.drop_last()[q] == s[q]);
        }
        assert(s.drop_last()[i] == s[i]);
        lemma_map_of_value(s.drop_last(), i);
        assert(s[i].name@ != s.last().name@);
    }
}

proof fn lemma_map_of_wf(s: Seq<Account>)
    requires
        unique_names(s),
        forall|i: int| 0 <= i < s.len() ==> #[trigger] s[i].valid(),
    ensures
        wf_data(map_of(s)),
{
    assert forall|k: Seq<char>| #[trigger] map_of(s).contains_key(k) implies {
        &&& k.len() > 0
        &&& map_of(s)[k].password.len() > 0
        &&& 0 <= map_of(s)[k].currency <= i64::MAX as int
    } by {
        lemma_map_of_contains(s, k);
        let i = choose|i: int| 0 <= i < s.len() && s[i].name@ == k;
        assert(s[i].valid());
        lemma_map_of_value(s, i);
        assert(map_of(s)[k] == s[i].data());
    }
}

impl CredentialStore {
    /// Names are pairwise distinct and every stored account is well formed.
    pub closed spec fn wf(self) -> bool {
        &&& unique_names(self.accounts@)
        &&& forall|i: int| 0 <= i < self.accounts@.len() ==> #[trigger] self.accounts@[i].valid()
    }

    /// An empty store.
    pub fn new() -> (s: CredentialStore)
        ensures
            s.wf(),
            s@ == Map::<Seq<char>, AccountData>::empty(),
    {
        CredentialStore { accounts: Vec::new() }
    }

    /// A well-formed store only holds well-formed accounts.
    pub proof fn lemma_wf_data(self)
        requires
            self.wf(),
        ensures
            wf_data(self@),
    {
        lemma_map_of_wf(self.accounts@);
    }

    fn find_index(&self, name: &String) -> (r: Option<usize>)
        ensures
            match r {
                Some(i) => i < self.accounts@.len() && self.accounts@[i as int].name@ == name@,
                None => forall|i: int|
                    0 <= i < self.accounts@.len() ==> self.accounts@[i].name@ != name@,
            },
    {
        let n = self.accounts.len();
        let mut i: usize = 0;
        while i < n
            invariant
                n == self.accounts@.len(),
                i <= n,
                forall|j: int| 0 <= j < i ==> self.accounts@[j].name@ != name@,
            decreases n - i,
        {
            if self.accounts[i].name == *name {
                return Some(i);
            }
            i = i + 1;
        }
        None
    }

    /// Exact-match lookup by name. Returns a copy of the stored account when
    /// one exists. Because uniqueness of names is an invariant proved of
    /// every operation, a lookup can never observe two rows for one name:
    /// the result is either exactly the one account under that name, or
    /// nothing.
    pub fn find_by_name(&self, name: &String) -> (r: Option<Account>)
        requires
            self.wf(),
        ensures
            match r {
                Some(a) => {
                    &&& self@.contains_key(name@)
                    &&& a.name@ == name@
                    &&& a.data() == self@[name@]
                    &&& a.valid()
                },
                None => !self@.contains_key(name@),
            },
    {
        proof {
            lemma_map_of_contains(self.accounts@, name@);
        }
        match self.find_index(name) {
            Some(i) => {
                proof {
                    lemma_map_of_value(self.accounts@, i as int);
                }
                let a = &self.accounts[i];
                Some(Account { name: a.name.clone(), password: a.password.clone(), currency: a.currency })
            },
            None => None,
        }
    }

    /// Copies of every stored account, one per name the store holds — for a
    /// transport that persists the accounts elsewhere.
    pub fn accounts(&self) -> (r: Vec<Account>)
        requires
            self.wf(),
        ensures
            forall|i: int| 0 <= i < r@.len() ==> {
                &&& (#[trigger] r@[i]).valid()
                &&& self@.contains_key(r@[i].name@)
                &&& self@[r@[i].name@] == r@[i].data()
            },
            forall|k: Seq<char>| #[trigger] self@.contains_key(k) ==> exists|i: int|
                0 <= i < r@.len() && r@[i].name@ == k,
    {
        let n = self.accounts.len();
        let mut out: Vec<Account> = Vec::new();
        let mut i: usize = 0;
        while i < n
            invariant
                self.wf(),
                n == self.accounts@.len(),
                i <= n,
                out@.len() == i,
                forall|j: int| 0 <= j < i ==> out@[j] == self.accounts@[j],
            decreases n - i,
        {
            let a = &self.accounts[i];
            out.push(Account {
                name: a.name.clone(),
                password: a.password.clone(),
                currency: a.currency,
            });
            i = i + 1;
        }
        proof {
            assert forall|j: int| 0 <= j < out@.len() implies {
                &&& (#[trigger] out@[j]).valid()
                &&& self@.contains_key(out@[j].name@)
                &&& self@[out@[j].name@] == out@[j].data()
            } by {
                lemma_map_of_value(self.accounts@, j);
            }
            assert forall|k: Seq<char>| #[trigger] self@.contains_key(k) implies exists|i: int|
                0 <= i < out@.len() && out@[i].name@ == k by {
                lemma_map_of_contains(self.accounts@, k);
                let j = choose|j: int|
                    0 <= j < self.accounts@.len() && self.accounts@[j].name@ == k;
                assert(out@[j] == self.accounts@[j]);
                assert(out@[j].name@ == k);
            }
        }
        out
    }

    /// Check-and-insert under one exclusive borrow: either the name is new
    /// and the account is added (`true`), or a row with that name already
    /// exists and nothing changes (`false`). No separate caller-side lookup
    /// is involved, so two racing registrations serialize here.
    pub fn insert(&mut self, account: Account) -> (r: bool)
        requires
            old(self).wf(),
            account.valid(),
        ensures
            final(self).wf(),
            r == !old(self)@.contains_key(account.name@),
            r ==> final(self)@ == old(self)@.insert(account.name@, account.data()),
            !r ==> final(self)@ == old(self)@,
    {
        proof {
            lemma_map_of_contains(self.accounts@, account.name@);
        }
        match self.find_index(&account.name) {
            Some(_) => false,
            None => {
                let ghost prev = self.accounts@;
                self.accounts.push(account);
                proof {
                    assert(self.accounts@.drop_last() =~= prev);
                }
                true
            },
        }
    }

    /// Replace the stored balance of the account under `name`, keeping its
    /// password; `false` (and no change) when no such account exists.
    pub fn update_balance(&mut self, name: &String, new_balance: i64) -> (r: bool)
        requires
            old(self).wf(),
            0 <= new_balance,
        ensures
            final(self).wf(),
            r == old(self)@.contains_key(name@),
            r ==> final(self)@ == old(self)@.insert(
                name@,
                AccountData { password: old(self)@[name@].password, currency: new_balance as int },
            ),
            !r ==> final(self)@ == old(self)@,
    {
        proof {
            lemma_map_of_contains(self.accounts@, name@);
        }
        match self.find_index(name) {
            Some(i) => {
                proof {
                    lemma_map_of_value(self.accounts@, i as int);
                }
                let ghost prev = self.accounts@;
                self.accounts[i].currency = new_balance;
                proof {
                    let updated = self.accounts@[i as int];
                    assert(self.accounts@ == prev.update(i as int, updated));
                    assert(updated.name@ == prev[i as int].name@);
                    assert(prev[i as int].valid());
                    assert(updated.valid());
                    assert forall|p: int, q: int|
                        0 <= p < q < self.accounts@.len() implies self.accounts@[p].name@
                        != self.accounts@[q].name@ by {
                        assert(self.accounts@[p].name@ == prev[p].name@);
                        assert(self.accounts@[q].name@ == prev[q].name@);
                    }
                    assert forall|p: int|
                        0 <= p < self.accounts@.len() implies #[trigger] self.accounts@[p].valid() by {
                        if p != i as int {
                            assert(self.accounts@[p] == prev[p]);
                        }
                    }
                    lemma_map_of_update(prev, i as int, updated);
                }
                true
            },
            None => false,
        }
    }
}

impl View for CredentialStore {
    type V = Map<Seq<char>, AccountData>;

    closed spec fn view(&self) -> Map<Seq<char>, AccountData> {
        map_of(self.accounts@)
    }
}

proof fn lemma_map_of_update(s: Seq<Account>, i: int, a: Account)
    requires
        unique_names(s),
        0 <= i < s.len(),
        a.name@ == s[i].name@,
    ensures
        map_of(s.update(i, a)) == map_of(s).insert(a.name@, a.data()),
    decreases s.len(),
{
    let t = s.update(i, a);
    if i == s.len() - 1 {
        assert(t.drop_last() =~= s.drop_last());
        assert(t.last() == a);
        assert(map_of(s).insert(a.name@, a.data()) =~= map_of(s.drop_last()).insert(
            a.name@,
            a.data(),
        ));
    } else {
        assert(unique_names(s.drop_last())) by {
            assert(forall|p: int, q: int|
                0 <= p < q < s.drop_last().len() ==> s.drop_last()[p] == s[p]
                    && s.drop_last()[q] == s[q]);
        }
        assert(s.drop_last()[i] == s[i]);
        lemma_map_of_update(s.drop_last(), i, a);
        assert(t.drop_last() =~= s.drop_last().update(i, a));
        assert(t.last() == s.last());
        // The two inserts commute because the updated name differs from the
        // last account's name.
        assert(s[i].name@ != s.last().name@);
        assert(map_of(s.drop_last()).insert(a.name@, a.data()).insert(
            s.last().name@,
            s.last().data(),
        ) =~= map_of(s.drop_last()).insert(s.last().name@, s.last().data()).insert(
            a.name@,
            a.data(),
        ));
    }
}

} // verus!
