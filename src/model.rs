use vstd::prelude::*;

verus! {

/// A stored identity, keyed by its phone number.
pub struct Account {
    pub id: String,
    pub phone: String,
    /// Upper-case hex digest of the password followed by the salt.
    pub password: String,
    pub salt: String,
    pub login_error_count: i32,
    pub last_login_at: Option<i64>,
    pub last_error_at: Option<i64>,
    pub create_at: i64,
    pub update_at: Option<i64>,
}

impl Clone for Account {
    fn clone(&self) -> (r: Account)
        ensures
            r == *self,
    {
        Account {
            id: self.id.clone(),
            phone: self.phone.clone(),
            password: self.password.clone(),
            salt: self.salt.clone(),
            login_error_count: self.login_error_count,
            last_login_at: self.last_login_at,
            last_error_at: self.last_error_at,
            create_at: self.create_at,
            update_at: self.update_at,
        }
    }
}

/// The fields written when an account is created.
pub struct AccountInsert {
    pub id: String,
    pub phone: String,
    pub password: String,
    pub salt: String,
    pub create_at: i64,
}

impl AccountInsert {
    /// The account that a store holds right after this insert: no failures,
    /// no logins yet.
    pub open spec fn to_account(self) -> Account {
        Account {
            id: self.id,
            phone: self.phone,
            password: self.password,
            salt: self.salt,
            login_error_count: 0,
            last_login_at: None,
            last_error_at: None,
            create_at: self.create_at,
            update_at: None,
        }
    }
}

/// Addresses accounts by id and/or phone; given filters combine with AND.
pub struct AccountQuery {
    pub id: Option<String>,
    pub phone: Option<String>,
}

impl AccountQuery {
    pub open spec fn matches(self, a: Account) -> bool {
        &&& (self.id matches Some(id) ==> a.id@ == id@)
        &&& (self.phone matches Some(phone) ==> a.phone@ == phone@)
    }

    /// The query that addresses the account with this phone.
    pub fn by_phone(phone: &String) -> (r: AccountQuery)
        ensures
            r == phone_query(*phone),
    {
        AccountQuery { id: None, phone: Some(phone.clone()) }
    }
}

pub open spec fn phone_query(phone: String) -> AccountQuery {
    AccountQuery { id: None, phone: Some(phone) }
}

/// A partial update: only the fields that are `Some` are written.
pub struct AccountUpdate {
    pub password: Option<String>,
    pub login_error_count: Option<i32>,
    pub last_login_at: Option<i64>,
    pub last_error_at: Option<i64>,
}

impl AccountUpdate {
    /// The account after this update is written to it.
    pub open spec fn apply(self, a: Account) -> Account {
        Account {
            password: match self.password {
                Some(p) => p,
                None => a.password,
            },
            login_error_count: match self.login_error_count {
                Some(c) => c,
                None => a.login_error_count,
            },
            last_login_at: match self.last_login_at {
                Some(t) => Some(t),
                None => a.last_login_at,
            },
            last_error_at: match self.last_error_at {
                Some(t) => Some(t),
                None => a.last_error_at,
            },
            ..a
        }
    }
}

/// The accounts of `accounts` after `u` is written to each one that `q` matches.
pub open spec fn updated_accounts(
    accounts: Map<Seq<char>, Account>,
    q: AccountQuery,
    u: AccountUpdate,
) -> Map<Seq<char>, Account> {
    Map::new(
        |k: Seq<char>| accounts.contains_key(k),
        |k: Seq<char>|
            if q.matches(accounts[k]) {
                u.apply(accounts[k])
            } else {
                accounts[k]
            },
    )
}

} // verus!
