use vstd::prelude::*;

use crate::text::{lower_of, to_lowercase};

use crate::search::{first_index, lemma_first_index_absent, lemma_first_index_found};

verus! {

/// An identity record. `id` is the row number the store gave it; `uid` is the
/// identifier shown outside.
#[derive(Debug)]
pub struct Account {
    pub id: i64,
    pub uid: u128,
    pub account_type: String,
    pub username: Option<String>,
    pub email: Option<String>,
    pub phone: Option<String>,
    pub created_at: i64,
    pub updated_at: i64,
    pub deleted_at: Option<i64>,
    pub created_by: Option<u128>,
    pub updated_by: Option<u128>,
    pub deleted_by: Option<u128>,
}

/// One way for an account to authenticate: a password, or an identity at an
/// OAuth provider.
#[derive(Debug)]
pub struct Credential {
    pub id: i64,
    pub account_id: i64,
    pub provider: String,
    pub provider_subject: Option<String>,
    pub password_hash: Option<String>,
    pub deleted_at: Option<i64>,
}

/// A single-use, typed, time-boxed secret bound to an account; only the hash of
/// the secret is kept.
#[derive(Debug)]
pub struct AuthorizationToken {
    pub id: i64,
    pub account_id: i64,
    pub token_hash: String,
    pub token_type: String,
    pub expires_at: Option<i64>,
    pub revoked_at: Option<i64>,
    pub deleted_at: Option<i64>,
}

/// Why the store refused a write, or why an operation found no row it needs.
#[derive(Debug, PartialEq, Eq)]
pub enum StoreError {
    /// A uniqueness rule of the table would be broken.
    Conflict,
    /// The table holds as many rows as its identifiers can number.
    Full,
    /// A row that the operation needs is missing; the text says which.
    NotFound(String),
    /// A row breaks a check rule of its table.
    Invalid,
}

/// The tables of accounts, credentials and authorization tokens. Row `i` of
/// each table has the identifier `i + 1`.
#[derive(Debug)]
pub struct Store {
    pub accounts: Vec<Account>,
    pub credentials: Vec<Credential>,
    pub tokens: Vec<AuthorizationToken>,
}

/// The largest number of rows a table holds.
pub const MAX_ROWS: usize = 0x7fff_fffe;

pub open spec fn same_text(x: Option<String>, y: Option<String>) -> bool {
    x matches Some(u) && y matches Some(v) && u@ == v@
}

pub open spec fn text_is(x: Option<String>, s: Seq<char>) -> bool {
    x matches Some(u) && u@ == s
}

/// The check rules of an account row: a known kind, and a deletion time
/// exactly when there is a deleting actor.
pub open spec fn account_row_valid(a: Account) -> bool {
    &&& (a.account_type@ == "user"@ || a.account_type@ == "team"@ || a.account_type@ == "robot"@)
    &&& (a.deleted_at is None) == (a.deleted_by is None)
}

/// Both texts are set and equal once lower-cased.
pub open spec fn same_lower(x: Option<String>, y: Option<String>) -> bool {
    x matches Some(u) && y matches Some(v) && lower_of(u@) == lower_of(v@)
}

/// The text is set and equals `s` once both are lower-cased.
pub open spec fn lower_is(x: Option<String>, s: Seq<char>) -> bool {
    x matches Some(u) && lower_of(u@) == lower_of(s)
}

pub open spec fn account_live(a: Account) -> bool {
    a.deleted_at is None
}

/// Two accounts that cannot both be stored: the same `uid`, or both live with
/// the same username or the same email, letter case aside.
pub open spec fn accounts_clash(r: Account, a: Account) -> bool {
    r.uid == a.uid || (account_live(r) && account_live(a) && (same_lower(r.username, a.username)
        || same_lower(r.email, a.email)))
}

pub open spec fn credential_live(c: Credential) -> bool {
    c.deleted_at is None
}

/// Two credentials that cannot both be live: one account twice at one
/// provider, or one provider identity twice.
pub open spec fn credentials_clash(r: Credential, c: Credential) -> bool {
    credential_live(r) && credential_live(c) && r.provider@ == c.provider@ && (r.account_id
        == c.account_id || same_text(r.provider_subject, c.provider_subject))
}

/// A token that can still be used at time `now`.
pub open spec fn token_active(t: AuthorizationToken, now: i64) -> bool {
    &&& t.deleted_at is None
    &&& t.revoked_at is None
    &&& (t.expires_at matches Some(e) ==> now < e)
}

pub open spec fn ids_are_positions(s: Store) -> bool {
    &&& forall|i: int| 0 <= i < s.accounts@.len() ==> #[trigger] s.accounts@[i].id == i + 1
    &&& forall|i: int| 0 <= i < s.credentials@.len() ==> #[trigger] s.credentials@[i].id == i + 1
    &&& forall|i: int| 0 <= i < s.tokens@.len() ==> #[trigger] s.tokens@[i].id == i + 1
}

/// The live account with this email, letter case aside.
pub open spec fn has_email(email: Seq<char>) -> spec_fn(Account) -> bool {
    |a: Account| account_live(a) && lower_is(a.email, email)
}

/// The live account with this username, letter case aside.
pub open spec fn has_username(username: Seq<char>) -> spec_fn(Account) -> bool {
    |a: Account| account_live(a) && lower_is(a.username, username)
}

/// The live account with this external identifier.
pub open spec fn has_uid(uid: u128) -> spec_fn(Account) -> bool {
    |a: Account| account_live(a) && a.uid == uid
}

/// The live account with this row identifier.
pub open spec fn has_id(id: i64) -> spec_fn(Account) -> bool {
    |a: Account| account_live(a) && a.id == id
}

/// The live credential of an account at a provider.
pub open spec fn of_account_and_provider(account_id: i64, provider: Seq<char>) -> spec_fn(
    Credential,
) -> bool {
    |c: Credential| credential_live(c) && c.account_id == account_id && c.provider@ == provider
}

/// The live credential of a provider identity.
pub open spec fn of_provider_subject(provider: Seq<char>, subject: Seq<char>) -> spec_fn(
    Credential,
) -> bool {
    |c: Credential| credential_live(c) && c.provider@ == provider && text_is(c.provider_subject, subject)
}

/// The active token with this hash.
pub open spec fn active_with_hash(hash: Seq<char>, now: i64) -> spec_fn(AuthorizationToken) -> bool {
    |t: AuthorizationToken| token_active(t, now) && t.token_hash@ == hash
}

/// An active token of this type for this account.
pub open spec fn active_of_type(account_id: i64, token_type: Seq<char>, now: i64) -> spec_fn(
    AuthorizationToken,
) -> bool {
    |t: AuthorizationToken| token_active(t, now) && t.account_id == account_id && t.token_type@ == token_type
}

/// `t` as it is once revoked at `now`.
pub open spec fn revoked(t: AuthorizationToken, now: i64) -> AuthorizationToken {
    AuthorizationToken { revoked_at: Some(now), ..t }
}

/// `ts` with every token that satisfies `p` revoked at `now`.
pub open spec fn revoke_matching(
    ts: Seq<AuthorizationToken>,
    p: spec_fn(AuthorizationToken) -> bool,
    now: i64,
) -> Seq<AuthorizationToken> {
    Seq::new(ts.len(), |i: int| if p(ts[i]) { revoked(ts[i], now) } else { ts[i] })
}

fn account_row_is_valid(a: &Account) -> (r: bool)
    ensures
        r == account_row_valid(*a),
{
    let t = a.account_type.as_str();
    (str_eq(t, "user") || str_eq(t, "team") || str_eq(t, "robot")) && (a.deleted_at.is_none()
        == a.deleted_by.is_none())
}

fn token_is_active(t: &AuthorizationToken, now: i64) -> (r: bool)
    ensures
        r == token_active(*t, now),
{
    t.deleted_at.is_none() && t.revoked_at.is_none() && match t.expires_at {
        Some(e) => now < e,
        None => true,
    }
}

fn same_lower_exec(x: &Option<String>, y: &Option<String>) -> (r: bool)
    ensures
        r == same_lower(*x, *y),
{
    match (x, y) {
        (Some(u), Some(v)) => to_lowercase(u.as_str()) == to_lowercase(v.as_str()),
        _ => false,
    }
}

/// Whether `x` is set and equals `lowered` once lower-cased; `lowered` is the
/// lower case of `s`.
fn lower_is_exec(x: &Option<String>, lowered: &String, Ghost(s): Ghost<Seq<char>>) -> (r: bool)
    requires
        lowered@ == lower_of(s),
    ensures
        r == lower_is(*x, s),
{
    match x {
        Some(u) => to_lowercase(u.as_str()) == *lowered,
        None => false,
    }
}

fn same_text_exec(x: &Option<String>, y: &Option<String>) -> (r: bool)
    ensures
        r == same_text(*x, *y),
{
    match (x, y) {
        (Some(u), Some(v)) => *u == *v,
        _ => false,
    }
}

fn text_is_exec(x: &Option<String>, s: &str) -> (r: bool)
    ensures
        r == text_is(*x, s@),
{
    match x {
        Some(u) => {
            let t = u.as_str();
            str_eq(t, s)
        },
        None => false,
    }
}

/// Character-by-character equality of two strings.
pub fn str_eq(a: &str, b: &str) -> (r: bool)
    ensures
        r == (a@ == b@),
{
    let n = a.unicode_len();
    if n != b.unicode_len() {
        return false;
    }
    let mut i: usize = 0;
    while i < n
        invariant
            n == a@.len(),
            n == b@.len(),
            i <= n,
            forall|j: int| 0 <= j < i ==> a@[j] == b@[j],
        decreases n - i,
    {
        if a.get_char(i) != b.get_char(i) {
            return false;
        }
        i = i + 1;
    }
    assert(a@ =~= b@);
    true
}

pub fn clone_text(x: &Option<String>) -> (r: Option<String>)
    ensures
        r == *x,
{
    match x {
        Some(s) => Some(s.clone()),
        None => None,
    }
}

impl Account {
    /// A field-by-field copy.
    pub fn copy(&self) -> (r: Account)
        ensures
            r == *self,
    {
        Account {
            id: self.id,
            uid: self.uid,
            account_type: self.account_type.clone(),
            username: clone_text(&self.username),
            email: clone_text(&self.email),
            phone: clone_text(&self.phone),
            created_at: self.created_at,
            updated_at: self.updated_at,
            deleted_at: self.deleted_at,
            created_by: self.created_by,
            updated_by: self.updated_by,
            deleted_by: self.deleted_by,
        }
    }
}

impl Store {
    /// The well-formedness of the tables.
    pub open spec fn wf(&self) -> bool {
        &&& ids_are_positions(*self)
        &&& forall|i: int| 0 <= i < self.accounts@.len() ==> account_row_valid(#[trigger] self.accounts@[i])
        &&& forall|i: int, j: int|
            #![trigger self.accounts@[i], self.accounts@[j]]
            0 <= i < self.accounts@.len() && 0 <= j < self.accounts@.len() && i != j
                ==> !accounts_clash(self.accounts@[i], self.accounts@[j])
        &&& forall|i: int, j: int|
            #![trigger self.credentials@[i], self.credentials@[j]]
            0 <= i < self.credentials@.len() && 0 <= j < self.credentials@.len() && i != j
                ==> !credentials_clash(self.credentials@[i], self.credentials@[j])
        &&& forall|i: int, j: int|
            0 <= i < j < self.tokens@.len() ==> #[trigger] self.tokens@[i].token_hash@
                != #[trigger] self.tokens@[j].token_hash@
    }

    /// Empty tables.
    pub fn new() -> (r: Store)
        ensures
            r.wf(),
            r.accounts@.len() == 0,
            r.credentials@.len() == 0,
            r.tokens@.len() == 0,
    {
        Store { accounts: Vec::new(), credentials: Vec::new(), tokens: Vec::new() }
    }

    /// The first live account whose stored email is `email`.
    pub fn find_by_email(&self, email: &str) -> (r: Option<usize>)
        ensures
            r matches Some(i) ==> first_index(self.accounts@, has_email(email@)) == Some(i as int),
            r is None ==> first_index(self.accounts@, has_email(email@)) is None,
    {
        let ghost p = has_email(email@);
        let key = to_lowercase(email);
        let mut i: usize = 0;
        while i < self.accounts.len()
            invariant
                i <= self.accounts@.len(),
                p == has_email(email@),
                key@ == lower_of(email@),
                forall|j: int| 0 <= j < i ==> !p(#[trigger] self.accounts@[j]),
            decreases self.accounts@.len() - i,
        {
            let a = &self.accounts[i];
            if a.deleted_at.is_none() && lower_is_exec(&a.email, &key, Ghost(email@)) {
                proof {
                    lemma_first_index_found(self.accounts@, p, i as int);
                }
                return Some(i);
            }
            i = i + 1;
        }
        proof {
            lemma_first_index_absent(self.accounts@, p);
        }
        None
    }

    /// The first live account whose stored username is `username`.
    pub fn find_by_username(&self, username: &str) -> (r: Option<usize>)
        ensures
            r matches Some(i) ==> first_index(self.accounts@, has_username(username@)) == Some(
                i as int,
            ),
            r is None ==> first_index(self.accounts@, has_username(username@)) is None,
    {
        let ghost p = has_username(username@);
        let key = to_lowercase(username);
        let mut i: usize = 0;
        while i < self.accounts.len()
            invariant
                i <= self.accounts@.len(),
                p == has_username(username@),
                key@ == lower_of(username@),
                forall|j: int| 0 <= j < i ==> !p(#[trigger] self.accounts@[j]),
            decreases self.accounts@.len() - i,
        {
            let a = &self.accounts[i];
            if a.deleted_at.is_none() && lower_is_exec(&a.username, &key, Ghost(username@)) {
                proof {
                    lemma_first_index_found(self.accounts@, p, i as int);
                }
                return Some(i);
            }
            i = i + 1;
        }
        proof {
            lemma_first_index_absent(self.accounts@, p);
        }
        None
    }

    /// The first live account with this external identifier.
    pub fn find_by_uid(&self, uid: u128) -> (r: Option<usize>)
        ensures
            r matches Some(i) ==> first_index(self.accounts@, has_uid(uid)) == Some(i as int),
            r is None ==> first_index(self.accounts@, has_uid(uid)) is None,
    {
        let ghost p = has_uid(uid);
        let mut i: usize = 0;
        while i < self.accounts.len()
            invariant
                i <= self.accounts@.len(),
                p == has_uid(uid),
                forall|j: int| 0 <= j < i ==> !p(#[trigger] self.accounts@[j]),
            decreases self.accounts@.len() - i,
        {
            let a = &self.accounts[i];
            if a.deleted_at.is_none() && a.uid == uid {
                proof {
                    lemma_first_index_found(self.accounts@, p, i as int);
                }
                return Some(i);
            }
            i = i + 1;
        }
        proof {
            lemma_first_index_absent(self.accounts@, p);
        }
        None
    }

    /// The live account with this row identifier.
    pub fn find_by_id(&self, id: i64) -> (r: Option<usize>)
        requires
            self.wf(),
        ensures
            r matches Some(i) ==> first_index(self.accounts@, has_id(id)) == Some(i as int),
            r is None ==> first_index(self.accounts@, has_id(id)) is None,
    {
        let ghost p = has_id(id);
        let in_range = id >= 1 && ((id - 1) as u64) < (self.accounts.len() as u64);
        let found = in_range && self.accounts[(id - 1) as usize].deleted_at.is_none();
        proof {
            assert forall|j: int| 0 <= j < self.accounts@.len() && j != id - 1 implies !p(
                #[trigger] self.accounts@[j],
            ) by {
                assert(self.accounts@[j].id == j + 1);
            }
        }
        if found {
            let i = (id - 1) as usize;
            proof {
                lemma_first_index_found(self.accounts@, p, i as int);
            }
            Some(i)
        } else {
            proof {
                if in_range {
                    assert(self.accounts@[id - 1].id == id);
                    assert(!p(self.accounts@[id - 1]));
                }
                lemma_first_index_absent(self.accounts@, p);
            }
            None
        }
    }

    /// Whether `account` clashes with a stored account.
    fn account_clashes(&self, account: &Account) -> (r: bool)
        ensures
            r == exists|j: int|
                0 <= j < self.accounts@.len() && accounts_clash(#[trigger] self.accounts@[j], *account),
    {
        let n = self.accounts.len();
        let mut i: usize = 0;
        while i < n
            invariant
                n == self.accounts@.len(),
                i <= n,
                forall|j: int| 0 <= j < i ==> !accounts_clash(#[trigger] self.accounts@[j], *account),
            decreases n - i,
        {
            let r = &self.accounts[i];
            let both_live = r.deleted_at.is_none() && account.deleted_at.is_none();
            if r.uid == account.uid || (both_live && (same_lower_exec(&r.username, &account.username)
                || same_lower_exec(&r.email, &account.email))) {
                return true;
            }
            i = i + 1;
        }
        false
    }

    /// Adds an account; its identifier is the next row number. Refused when it
    /// clashes with a stored account, or when the table is full.
    pub fn insert_account(&mut self, account: Account) -> (r: Result<i64, StoreError>)
        requires
            old(self).wf(),
        ensures
            final(self).wf(),
            final(self).credentials == old(self).credentials,
            final(self).tokens == old(self).tokens,
            old(self).accounts@.len() >= MAX_ROWS ==> r == Err::<i64, StoreError>(StoreError::Full),
            old(self).accounts@.len() < MAX_ROWS ==> (r is Err <==> (!account_row_valid(account)
                || exists|j: int|
                0 <= j < old(self).accounts@.len() && accounts_clash(
                    #[trigger] old(self).accounts@[j],
                    account,
                ))),
            r is Err ==> final(self).accounts@ == old(self).accounts@,
            r matches Ok(id) ==> id == old(self).accounts@.len() + 1 && final(self).accounts@
                == old(self).accounts@.push(Account { id, ..account }),
    {
        let n = self.accounts.len();
        if n >= MAX_ROWS {
            return Err(StoreError::Full);
        }
        if !account_row_is_valid(&account) {
            return Err(StoreError::Invalid);
        }
        if self.account_clashes(&account) {
            return Err(StoreError::Conflict);
        }
        let id = (n + 1) as i64;
        let mut account = account;
        account.id = id;
        self.accounts.push(account);
        Ok(id)
    }

    /// The first live credential of this account at this provider.
    pub fn find_by_account_and_provider(&self, account_id: i64, provider: &str) -> (r: Option<
        usize,
    >)
        ensures
            r matches Some(i) ==> first_index(
                self.credentials@,
                of_account_and_provider(account_id, provider@),
            ) == Some(i as int),
            r is None ==> first_index(
                self.credentials@,
                of_account_and_provider(account_id, provider@),
            ) is None,
    {
        let ghost p = of_account_and_provider(account_id, provider@);
        let mut i: usize = 0;
        while i < self.credentials.len()
            invariant
                i <= self.credentials@.len(),
                p == of_account_and_provider(account_id, provider@),
                forall|j: int| 0 <= j < i ==> !p(#[trigger] self.credentials@[j]),
            decreases self.credentials@.len() - i,
        {
            let c = &self.credentials[i];
            if c.deleted_at.is_none() && c.account_id == account_id && str_eq(
                c.provider.as_str(),
                provider,
            ) {
                proof {
                    lemma_first_index_found(self.credentials@, p, i as int);
                }
                return Some(i);
            }
            i = i + 1;
        }
        proof {
            lemma_first_index_absent(self.credentials@, p);
        }
        None
    }

    /// The first live credential of this identity at this provider.
    pub fn find_by_provider_subject(&self, provider: &str, subject: &str) -> (r: Option<usize>)
        ensures
            r matches Some(i) ==> first_index(
                self.credentials@,
                of_provider_subject(provider@, subject@),
            ) == Some(i as int),
            r is None ==> first_index(self.credentials@, of_provider_subject(provider@, subject@))
                is None,
    {
        let ghost p = of_provider_subject(provider@, subject@);
        let mut i: usize = 0;
        while i < self.credentials.len()
            invariant
                i <= self.credentials@.len(),
                p == of_provider_subject(provider@, subject@),
                forall|j: int| 0 <= j < i ==> !p(#[trigger] self.credentials@[j]),
            decreases self.credentials@.len() - i,
        {
            let c = &self.credentials[i];
            if c.deleted_at.is_none() && str_eq(c.provider.as_str(), provider) && text_is_exec(
                &c.provider_subject,
                subject,
            ) {
                proof {
                    lemma_first_index_found(self.credentials@, p, i as int);
                }
                return Some(i);
            }
            i = i + 1;
        }
        proof {
            lemma_first_index_absent(self.credentials@, p);
        }
        None
    }

    /// Whether `credential` clashes with a stored credential.
    fn credential_clashes(&self, credential: &Credential) -> (r: bool)
        ensures
            r == exists|j: int|
                0 <= j < self.credentials@.len() && credentials_clash(
                    #[trigger] self.credentials@[j],
                    *credential,
                ),
    {
        let n = self.credentials.len();
        let mut i: usize = 0;
        while i < n
            invariant
                n == self.credentials@.len(),
                i <= n,
                forall|j: int|
                    0 <= j < i ==> !credentials_clash(#[trigger] self.credentials@[j], *credential),
            decreases n - i,
        {
            let r = &self.credentials[i];
            if r.deleted_at.is_none() && credential.deleted_at.is_none() && r.provider
                == credential.provider && (r.account_id == credential.account_id || same_text_exec(
                &r.provider_subject,
                &credential.provider_subject,
            )) {
                return true;
            }
            i = i + 1;
        }
        false
    }

    /// Adds a credential; its identifier is the next row number. Refused when
    /// it clashes with a stored credential, or when the table is full.
    pub fn insert_credential(&mut self, credential: Credential) -> (r: Result<i64, StoreError>)
        requires
            old(self).wf(),
        ensures
            final(self).wf(),
            final(self).accounts == old(self).accounts,
            final(self).tokens == old(self).tokens,
            old(self).credentials@.len() >= MAX_ROWS ==> r == Err::<i64, StoreError>(
                StoreError::Full,
            ),
            old(self).credentials@.len() < MAX_ROWS ==> (r is Err <==> exists|j: int|
                0 <= j < old(self).credentials@.len() && credentials_clash(
                    #[trigger] old(self).credentials@[j],
                    credential,
                )),
            r is Err ==> final(self).credentials@ == old(self).credentials@,
            r matches Ok(id) ==> id == old(self).credentials@.len() + 1 && final(self).credentials@
                == old(self).credentials@.push(Credential { id, ..credential }),
    {
        let n = self.credentials.len();
        if n >= MAX_ROWS {
            return Err(StoreError::Full);
        }
        if self.credential_clashes(&credential) {
            return Err(StoreError::Conflict);
        }
        let id = (n + 1) as i64;
        let mut credential = credential;
        credential.id = id;
        self.credentials.push(credential);
        Ok(id)
    }

    /// The first active token with this hash at time `now`.
    pub fn find_active_by_token_hash(&self, hash: &str, now: i64) -> (r: Option<usize>)
        ensures
            r matches Some(i) ==> first_index(self.tokens@, active_with_hash(hash@, now)) == Some(
                i as int,
            ),
            r is None ==> first_index(self.tokens@, active_with_hash(hash@, now)) is None,
    {
        let ghost p = active_with_hash(hash@, now);
        let mut i: usize = 0;
        while i < self.tokens.len()
            invariant
                i <= self.tokens@.len(),
                p == active_with_hash(hash@, now),
                forall|j: int| 0 <= j < i ==> !p(#[trigger] self.tokens@[j]),
            decreases self.tokens@.len() - i,
        {
            let t = &self.tokens[i];
            if token_is_active(t, now) && str_eq(t.token_hash.as_str(), hash) {
                proof {
                    lemma_first_index_found(self.tokens@, p, i as int);
                }
                return Some(i);
            }
            i = i + 1;
        }
        proof {
            lemma_first_index_absent(self.tokens@, p);
        }
        None
    }

    /// The first active token of this type for this account at time `now`.
    pub fn find_active_by_account_and_type(
        &self,
        account_id: i64,
        token_type: &str,
        now: i64,
    ) -> (r: Option<usize>)
        ensures
            r matches Some(i) ==> first_index(
                self.tokens@,
                active_of_type(account_id, token_type@, now),
            ) == Some(i as int),
            r is None ==> first_index(self.tokens@, active_of_type(account_id, token_type@, now))
                is None,
    {
        let ghost p = active_of_type(account_id, token_type@, now);
        let mut i: usize = 0;
        while i < self.tokens.len()
            invariant
                i <= self.tokens@.len(),
                p == active_of_type(account_id, token_type@, now),
                forall|j: int| 0 <= j < i ==> !p(#[trigger] self.tokens@[j]),
            decreases self.tokens@.len() - i,
        {
            let t = &self.tokens[i];
            if token_is_active(t, now) && t.account_id == account_id && str_eq(
                t.token_type.as_str(),
                token_type,
            ) {
                proof {
                    lemma_first_index_found(self.tokens@, p, i as int);
                }
                return Some(i);
            }
            i = i + 1;
        }
        proof {
            lemma_first_index_absent(self.tokens@, p);
        }
        None
    }

    /// Whether a stored token has this hash, in whatever state.
    fn token_hash_taken(&self, hash: &String) -> (r: bool)
        ensures
            r == exists|j: int|
                0 <= j < self.tokens@.len() && (#[trigger] self.tokens@[j]).token_hash@ == hash@,
    {
        let n = self.tokens.len();
        let mut i: usize = 0;
        while i < n
            invariant
                n == self.tokens@.len(),
                i <= n,
                forall|j: int| 0 <= j < i ==> (#[trigger] self.tokens@[j]).token_hash@ != hash@,
            decreases n - i,
        {
            if self.tokens[i].token_hash == *hash {
                return true;
            }
            i = i + 1;
        }
        false
    }

    /// Adds a token; its identifier is the next row number. Refused when a
    /// stored token has the same hash, or when the table is full.
    pub fn insert_token(&mut self, token: AuthorizationToken) -> (r: Result<i64, StoreError>)
        requires
            old(self).wf(),
        ensures
            final(self).wf(),
            final(self).accounts == old(self).accounts,
            final(self).credentials == old(self).credentials,
            old(self).tokens@.len() >= MAX_ROWS ==> r == Err::<i64, StoreError>(StoreError::Full),
            old(self).tokens@.len() < MAX_ROWS ==> (r is Err <==> exists|j: int|
                0 <= j < old(self).tokens@.len() && (#[trigger] old(self).tokens@[j]).token_hash@
                    == token.token_hash@),
            r is Err ==> final(self).tokens@ == old(self).tokens@,
            r matches Ok(id) ==> id == old(self).tokens@.len() + 1 && final(self).tokens@
                == old(self).tokens@.push(AuthorizationToken { id, ..token }),
    {
        let n = self.tokens.len();
        if n >= MAX_ROWS {
            return Err(StoreError::Full);
        }
        if self.token_hash_taken(&token.token_hash) {
            return Err(StoreError::Conflict);
        }
        let id = (n + 1) as i64;
        let mut token = token;
        token.id = id;
        self.tokens.push(token);
        Ok(id)
    }

    /// Marks the token at row `i` revoked at time `now`.
    pub fn revoke_at(&mut self, i: usize, now: i64)
        requires
            old(self).wf(),
            i < old(self).tokens@.len(),
        ensures
            final(self).wf(),
            final(self).accounts == old(self).accounts,
            final(self).credentials == old(self).credentials,
            final(self).tokens@ == old(self).tokens@.update(
                i as int,
                revoked(old(self).tokens@[i as int], now),
            ),
    {
        let mut t = self.tokens.remove(i);
        t.revoked_at = Some(now);
        self.tokens.insert(i, t);
        proof {
            assert forall|k: int, j: int|
                0 <= k < j < self.tokens@.len() implies #[trigger] self.tokens@[k].token_hash@
                != #[trigger] self.tokens@[j].token_hash@ by {
                assert(old(self).tokens@[k].token_hash@ != old(self).tokens@[j].token_hash@);
            }
        }
        assert(self.tokens@ =~= old(self).tokens@.update(i as int, revoked(old(self).tokens@[i as int], now)));
    }

    /// Revokes, at time `now`, every active token of this type for this account.
    pub fn revoke_active_of_type(&mut self, account_id: i64, token_type: &str, now: i64)
        requires
            old(self).wf(),
        ensures
            final(self).wf(),
            final(self).accounts == old(self).accounts,
            final(self).credentials == old(self).credentials,
            final(self).tokens@ == revoke_matching(
                old(self).tokens@,
                active_of_type(account_id, token_type@, now),
                now,
            ),
    {
        let ghost p = active_of_type(account_id, token_type@, now);
        let n = self.tokens.len();
        let mut i: usize = 0;
        while i < n
            invariant
                old(self).wf(),
                self.wf(),
                self.accounts == old(self).accounts,
                self.credentials == old(self).credentials,
                p == active_of_type(account_id, token_type@, now),
                n == self.tokens@.len(),
                n == old(self).tokens@.len(),
                i <= n,
                forall|j: int|
                    0 <= j < i ==> #[trigger] self.tokens@[j] == (if p(old(self).tokens@[j]) {
                        revoked(old(self).tokens@[j], now)
                    } else {
                        old(self).tokens@[j]
                    }),
                forall|j: int| i <= j < n ==> #[trigger] self.tokens@[j] == old(self).tokens@[j],
            decreases n - i,
        {
            let hit = {
                let t = &self.tokens[i];
                token_is_active(t, now) && t.account_id == account_id && str_eq(
                    t.token_type.as_str(),
                    token_type,
                )
            };
            if hit {
                self.revoke_at(i, now);
            }
            i = i + 1;
        }
        assert(self.tokens@ =~= revoke_matching(old(self).tokens@, p, now));
    }

    /// Whether `account` clashes with a stored account other than row `skip`.
    pub fn account_clashes_except(&self, account: &Account, skip: usize) -> (r: bool)
        ensures
            r == exists|j: int|
                0 <= j < self.accounts@.len() && j != skip && accounts_clash(
                    #[trigger] self.accounts@[j],
                    *account,
                ),
    {
        let n = self.accounts.len();
        let mut i: usize = 0;
        while i < n
            invariant
                n == self.accounts@.len(),
                i <= n,
                forall|j: int|
                    0 <= j < i && j != skip ==> !accounts_clash(#[trigger] self.accounts@[j], *account),
            decreases n - i,
        {
            if i != skip {
                let r = &self.accounts[i];
                let both_live = r.deleted_at.is_none() && account.deleted_at.is_none();
                if r.uid == account.uid || (both_live && (same_lower_exec(&r.username, &account.username)
                    || same_lower_exec(&r.email, &account.email))) {
                    return true;
                }
            }
            i = i + 1;
        }
        false
    }

    /// Puts `account` in row `i`, keeping the row's identifier.
    pub fn replace_account(&mut self, i: usize, account: Account)
        requires
            old(self).wf(),
            i < old(self).accounts@.len(),
            account_row_valid(account),
            forall|j: int|
                0 <= j < old(self).accounts@.len() && j != i ==> !accounts_clash(
                    #[trigger] old(self).accounts@[j],
                    account,
                ),
        ensures
            final(self).wf(),
            final(self).credentials == old(self).credentials,
            final(self).tokens == old(self).tokens,
            final(self).accounts@ == old(self).accounts@.update(
                i as int,
                Account { id: old(self).accounts@[i as int].id, ..account },
            ),
    {
        let mut account = account;
        account.id = self.accounts[i].id;
        self.accounts.remove(i);
        self.accounts.insert(i, account);
        proof {
            assert forall|k: int| 0 <= k < self.accounts@.len() implies #[trigger] self.accounts@[k].id
                == k + 1 && account_row_valid(self.accounts@[k]) by {
                if k != i {
                    assert(self.accounts@[k] == old(self).accounts@[k]);
                }
            }
            assert forall|k: int, j: int|
                #![trigger self.accounts@[k], self.accounts@[j]]
                0 <= k < self.accounts@.len() && 0 <= j < self.accounts@.len() && k != j
                    implies !accounts_clash(self.accounts@[k], self.accounts@[j]) by {
                if k != i {
                    assert(self.accounts@[k] == old(self).accounts@[k]);
                }
                if j != i {
                    assert(self.accounts@[j] == old(self).accounts@[j]);
                }
                if k != i && j != i {
                    assert(!accounts_clash(old(self).accounts@[k], old(self).accounts@[j]));
                }
            }
        }
        assert(self.accounts@ =~= old(self).accounts@.update(
            i as int,
            Account { id: old(self).accounts@[i as int].id, ..account },
        ));
    }
}

} // verus!
