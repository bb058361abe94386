use vstd::prelude::*;
use crate::model::{Account, AccountInsert, AccountQuery, AccountUpdate, updated_accounts};

verus! {

/// Why a store operation failed.
#[derive(Debug, Clone, Copy, PartialEq, Eq, Structural)]
pub enum StoreError {
    NotFoundError,
    NetworkError,
    InternalError,
}

/// The persistence boundary for accounts. A store holds at most one account
/// per phone; `accounts` maps each phone to its account.
///
/// What is proved of the sign-up and sign-in flows holds for stores whose
/// methods are verified against these contracts. A store implemented outside
/// verified code keeps the default spec functions below, and its methods are
/// not checked against anything.
pub trait Storer {
    /// The accounts held, by phone.
    closed spec fn accounts(&self) -> Map<Seq<char>, Account> {
        Map::empty()
    }

    /// The store never fails but for the reasons its contract names (a
    /// taken phone, a query that matches nothing).
    closed spec fn infallible(&self) -> bool {
        false
    }

    /// The store's own invariant, kept by every operation.
    closed spec fn wf(&self) -> bool {
        true
    }

    /// Adds a new account; fails, changing nothing, when the phone is taken
    /// or the write fails.
    fn insert_account(&mut self, acct: AccountInsert) -> (r: Result<usize, StoreError>)
        requires
            old(self).wf(),
        ensures
            final(self).wf(),
            r is Ok ==> !old(self).accounts().contains_key(acct.phone@),
            r is Ok ==> final(self).accounts() == old(self).accounts().insert(acct.phone@, acct.to_account()),
            r is Err ==> final(self).accounts() == old(self).accounts(),
            old(self).infallible() && !old(self).accounts().contains_key(acct.phone@) ==> r is Ok,
            final(self).infallible() == old(self).infallible(),
    ;

    /// Writes `u` to every account that `q` matches; a failure changes nothing.
    fn update_account(&mut self, q: AccountQuery, u: AccountUpdate) -> (r: Result<usize, StoreError>)
        requires
            old(self).wf(),
        ensures
            final(self).wf(),
            r is Ok ==> final(self).accounts() == updated_accounts(old(self).accounts(), q, u),
            r is Err ==> final(self).accounts() == old(self).accounts(),
            old(self).infallible() ==> r is Ok,
            final(self).infallible() == old(self).infallible(),
    ;

    /// Fetches an account that `q` matches; `NotFoundError` only when none does.
    fn get_account(&self, q: AccountQuery) -> (r: Result<Account, StoreError>)
        requires
            self.wf(),
        ensures
            r matches Ok(a) ==> self.accounts().contains_key(a.phone@) && self.accounts()[a.phone@] == a
                && q.matches(a),
            r == Err::<Account, StoreError>(StoreError::NotFoundError) ==> forall|k: Seq<char>|
                #[trigger] self.accounts().contains_key(k) ==> !q.matches(self.accounts()[k]),
            r == Err::<Account, StoreError>(StoreError::NotFoundError) && q.id is None ==> (q.phone matches Some(
                p,
            ) ==> !self.accounts().contains_key(p@)),
            self.infallible() && r is Err ==> r == Err::<Account, StoreError>(StoreError::NotFoundError),
    ;
}

/// A store that keeps its accounts in memory, in insertion order.
pub struct MemoryStore {
    rows: Vec<Account>,
    model: Ghost<Map<Seq<char>, Account>>,
}

impl MemoryStore {
    /// Each row is the account its phone maps to, and each phone of the map
    /// has a row.
    pub closed spec fn inv(&self) -> bool {
        &&& forall|i: int|
            0 <= i < self.rows@.len() ==> self.model@.contains_key(#[trigger] self.rows@[i].phone@)
                && self.model@[self.rows@[i].phone@] == self.rows@[i]
        &&& forall|k: Seq<char>|
            #[trigger] self.model@.contains_key(k) ==> exists|i: int|
                0 <= i < self.rows@.len() && #[trigger] self.rows@[i].phone@ == k
    }

    pub fn new() -> (r: MemoryStore)
        ensures
            r.wf(),
            r.infallible(),
            r.accounts() == Map::<Seq<char>, Account>::empty(),
    {
        MemoryStore { rows: Vec::new(), model: Ghost(Map::empty()) }
    }

    /// Index of the first row that `q` matches.
    fn find(&self, q: &AccountQuery) -> (r: Option<usize>)
        ensures
            r matches Some(i) ==> i < self.rows@.len() && q.matches(self.rows@[i as int]),
            r is None ==> forall|i: int| 0 <= i < self.rows@.len() ==> !q.matches(#[trigger] self.rows@[i]),
    {
        let mut i: usize = 0;
        while i < self.rows.len()
            invariant
                i <= self.rows@.len(),
                forall|j: int| 0 <= j < i ==> !q.matches(#[trigger] self.rows@[j]),
            decreases self.rows@.len() - i,
        {
            if query_matches(q, &self.rows[i]) {
                return Some(i);
            }
            i = i + 1;
        }
        None
    }
}

fn opt_str_eq(filter: &Option<String>, value: &String) -> (r: bool)
    ensures
        r == (filter matches Some(f) ==> value@ == f@),
{
    match filter {
        Some(f) => *f == *value,
        None => true,
    }
}

/// Whether `q` addresses `a`.
pub fn query_matches(q: &AccountQuery, a: &Account) -> (r: bool)
    ensures
        r == q.matches(*a),
{
    opt_str_eq(&q.id, &a.id) && opt_str_eq(&q.phone, &a.phone)
}

/// Writes `u` to `a`.
pub fn apply_update(u: &AccountUpdate, a: &Account) -> (r: Account)
    ensures
        r == u.apply(*a),
{
    let mut r = a.clone();
    match &u.password {
        Some(p) => r.password = p.clone(),
        None => {},
    }
    match u.login_error_count {
        Some(c) => r.login_error_count = c,
        None => {},
    }
    match u.last_login_at {
        Some(t) => r.last_login_at = Some(t),
        None => {},
    }
    match u.last_error_at {
        Some(t) => r.last_error_at = Some(t),
        None => {},
    }
    r
}

impl Storer for MemoryStore {
    closed spec fn accounts(&self) -> Map<Seq<char>, Account> {
        self.model@
    }

    closed spec fn infallible(&self) -> bool {
        true
    }

    closed spec fn wf(&self) -> bool {
        self.inv()
    }


    fn insert_account(&mut self, acct: AccountInsert) -> (r: Result<usize, StoreError>) {
        let q = AccountQuery::by_phone(&acct.phone);
        if self.find(&q).is_some() {
            return Err(StoreError::InternalError);
        }
        let ghost old_rows = self.rows@;
        let ghost old_model = self.model@;
        let ghost phone = acct.phone@;
        proof {
            if old_model.contains_key(phone) {
                let i = choose|i: int| 0 <= i < old_rows.len() && #[trigger] old_rows[i].phone@ == phone;
                assert(q.matches(old_rows[i]));
            }
        }
        let ghost new_acct = acct.to_account();
        let a = Account {
            id: acct.id,
            phone: acct.phone,
            password: acct.password,
            salt: acct.salt,
            login_error_count: 0,
            last_login_at: None,
            last_error_at: None,
            create_at: acct.create_at,
            update_at: None,
        };
        self.rows.push(a);
        self.model = Ghost(old_model.insert(phone, new_acct));
        proof {
            assert forall|i: int| 0 <= i < self.rows@.len() implies self.model@.contains_key(
                #[trigger] self.rows@[i].phone@,
            ) && self.model@[self.rows@[i].phone@] == self.rows@[i] by {
                if i < old_rows.len() {
                    assert(self.rows@[i] == old_rows[i]);
                    assert(!q.matches(old_rows[i]));
                }
            }
            assert forall|k: Seq<char>| #[trigger] self.model@.contains_key(k) implies exists|i: int|
                0 <= i < self.rows@.len() && #[trigger] self.rows@[i].phone@ == k by {
                if k == phone {
                    assert(self.rows@[old_rows.len() as int].phone@ == k);
                } else {
                    let i = choose|i: int| 0 <= i < old_rows.len() && #[trigger] old_rows[i].phone@ == k;
                    assert(self.rows@[i] == old_rows[i]);
                }
            }
        }
        Ok(1)
    }

    fn update_account(&mut self, q: AccountQuery, u: AccountUpdate) -> (r: Result<usize, StoreError>) {
        let ghost old_rows = self.rows@;
        let ghost old_model = self.model@;
        let mut count: usize = 0;
        let mut i: usize = 0;
        while i < self.rows.len()
            invariant
                i <= self.rows@.len(),
                self.rows@.len() == old_rows.len(),
                count <= i,
                forall|j: int|
                    0 <= j < i ==> #[trigger] self.rows@[j] == (if q.matches(old_rows[j]) {
                        u.apply(old_rows[j])
                    } else {
                        old_rows[j]
                    }),
                forall|j: int| i <= j < self.rows@.len() ==> #[trigger] self.rows@[j] == old_rows[j],
            decreases self.rows@.len() - i,
        {
            if query_matches(&q, &self.rows[i]) {
                let a = apply_update(&u, &self.rows[i]);
                self.rows[i] = a;
                count = count + 1;
            }
            i = i + 1;
        }
        let ghost new_model = updated_accounts(old_model, q, u);
        self.model = Ghost(new_model);
        proof {
            assert forall|i: int| 0 <= i < self.rows@.len() implies self.model@.contains_key(
                #[trigger] self.rows@[i].phone@,
            ) && self.model@[self.rows@[i].phone@] == self.rows@[i] by {
                assert(self.rows@[i].phone == old_rows[i].phone);
                assert(old_model.contains_key(old_rows[i].phone@));
            }
            assert forall|k: Seq<char>| #[trigger] self.model@.contains_key(k) implies exists|i: int|
                0 <= i < self.rows@.len() && #[trigger] self.rows@[i].phone@ == k by {
                let i = choose|i: int| 0 <= i < old_rows.len() && #[trigger] old_rows[i].phone@ == k;
                assert(self.rows@[i].phone == old_rows[i].phone);
            }
        }
        Ok(count)
    }

    fn get_account(&self, q: AccountQuery) -> (r: Result<Account, StoreError>) {
        match self.find(&q) {
            Some(i) => Ok(self.rows[i].clone()),
            None => {
                proof {
                    assert forall|k: Seq<char>| #[trigger] self.model@.contains_key(k) implies !q.matches(
                        self.model@[k],
                    ) by {
                        let i = choose|i: int| 0 <= i < self.rows@.len() && #[trigger] self.rows@[i].phone@ == k;
                        assert(!q.matches(self.rows@[i]));
                    }
                    if let Some(p) = q.phone {
                        if q.id is None && self.model@.contains_key(p@) {
                            let i = choose|i: int| 0 <= i < self.rows@.len() && #[trigger] self.rows@[i].phone@ == p@;
                            assert(!q.matches(self.rows@[i]));
                        }
                    }
                }
                Err(StoreError::NotFoundError)
            },
        }
    }
}

} // verus!
