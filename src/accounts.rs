use vstd::prelude::*;

use crate::random::{now_unix_seconds, random_uuid};
use crate::search::{first_index, lemma_first_index_spec};
use crate::store::{
    Account, Credential, Store, StoreError, MAX_ROWS, account_row_valid, accounts_clash, credentials_clash, has_id,
    has_uid, of_provider_subject, clone_text,
};

verus! {

/// An identity at an OAuth provider, and what a new account for it gets.
#[derive(Debug)]
pub struct GetOrCreateByProviderSubjectInput {
    pub provider: String,
    pub provider_subject: String,
    pub account_type: String,
    pub username: Option<String>,
    pub email: Option<String>,
    pub created_by: Option<u128>,
}

/// The values of an account made directly.
#[derive(Debug)]
pub struct CreateAccountInput {
    pub account_type: String,
    pub username: Option<String>,
    pub email: Option<String>,
    pub phone: Option<String>,
    pub created_by: Option<u128>,
}

/// The fields to change on an account; `None` keeps a field.
#[derive(Debug)]
pub struct UpdateAccountInput {
    pub username: Option<String>,
    pub email: Option<String>,
    pub phone: Option<String>,
    pub updated_by: Option<u128>,
}

/// `given` if it is set, else `current`.
pub open spec fn kept_or(current: Option<String>, given: Option<String>) -> Option<String> {
    match given {
        Some(v) => Some(v),
        None => current,
    }
}

/// The account after an update at `now`.
pub open spec fn updated(a: Account, input: UpdateAccountInput, now: i64) -> Account {
    Account {
        username: kept_or(a.username, input.username),
        email: kept_or(a.email, input.email),
        phone: kept_or(a.phone, input.phone),
        updated_by: input.updated_by,
        updated_at: now,
        ..a
    }
}

/// Who a removal is recorded as: the given actor, else the last updater, else
/// the creator, else the nil identifier.
pub open spec fn removal_actor(a: Account, deleted_by: Option<u128>) -> u128 {
    match deleted_by {
        Some(x) => x,
        None => match a.updated_by {
            Some(x) => x,
            None => match a.created_by {
                Some(x) => x,
                None => 0,
            },
        },
    }
}

/// The account after a soft delete at `now`.
pub open spec fn soft_deleted(a: Account, deleted_by: Option<u128>, now: i64) -> Account {
    let actor = removal_actor(a, deleted_by);
    Account { deleted_at: Some(now), deleted_by: Some(actor), updated_by: Some(actor), updated_at: now, ..a }
}

/// The account that a direct creation stores.
pub open spec fn created_account(input: CreateAccountInput, id: i64, uid: u128, now: i64) -> Account {
    Account {
        id,
        uid,
        account_type: input.account_type,
        username: input.username,
        email: input.email,
        phone: input.phone,
        created_at: now,
        updated_at: now,
        deleted_at: None,
        created_by: input.created_by,
        updated_by: input.created_by,
        deleted_by: None,
    }
}

/// What creating an account with `uid` at `now` does: the account is added
/// unless the table is full or it clashes with a stored account.
pub open spec fn create_post(
    before: Store,
    after: Store,
    input: CreateAccountInput,
    uid: u128,
    now: i64,
    r: Result<Account, StoreError>,
) -> bool {
    let a = created_account(input, (before.accounts@.len() + 1) as i64, uid, now);
    &&& after.wf()
    &&& after.credentials == before.credentials
    &&& after.tokens == before.tokens
    &&& r is Ok <==> (before.accounts@.len() < MAX_ROWS && account_row_valid(a) && !exists|j: int|
        0 <= j < before.accounts@.len() && accounts_clash(#[trigger] before.accounts@[j], a))
    &&& r matches Ok(x) ==> x == a && after.accounts@ == before.accounts@.push(a)
    &&& r is Err ==> after.accounts@ == before.accounts@
}

/// What updating the live account `uid` at `now` does to the accounts and returns.
pub open spec fn update_post(
    before: Store,
    after: Store,
    uid: u128,
    input: UpdateAccountInput,
    now: i64,
    r: Result<Option<Account>, StoreError>,
) -> bool {
    match first_index(before.accounts@, has_uid(uid)) {
        None => r == Ok::<Option<Account>, StoreError>(None) && after.accounts@ == before.accounts@,
        Some(i) => {
            let a = updated(before.accounts@[i], input, now);
            if exists|j: int|
                0 <= j < before.accounts@.len() && j != i && accounts_clash(#[trigger] before.accounts@[j], a) {
                r == Err::<Option<Account>, StoreError>(StoreError::Conflict) && after.accounts@
                    == before.accounts@
            } else {
                r == Ok::<Option<Account>, StoreError>(Some(a)) && after.accounts@ == before.accounts@.update(i, a)
            }
        },
    }
}

/// What soft-deleting the live account `uid` at `now` does to the accounts
/// and returns.
pub open spec fn delete_post(
    before: Store,
    after: Store,
    uid: u128,
    deleted_by: Option<u128>,
    now: i64,
    r: Option<Account>,
) -> bool {
    match first_index(before.accounts@, has_uid(uid)) {
        None => r is None && after.accounts@ == before.accounts@,
        Some(i) => {
            let a = soft_deleted(before.accounts@[i], deleted_by, now);
            r == Some(a) && after.accounts@ == before.accounts@.update(i, a)
        },
    }
}

/// Account lookups and the get-or-create of accounts by provider identity.
#[derive(Debug)]
pub struct AccountsServiceImpl {}

/// The three tables hold the same rows.
pub open spec fn same_tables(a: Store, b: Store) -> bool {
    &&& a.accounts@ == b.accounts@
    &&& a.credentials@ == b.credentials@
    &&& a.tokens@ == b.tokens@
}

/// The account that a first login through a provider creates.
pub open spec fn account_for(input: GetOrCreateByProviderSubjectInput, uid: u128, now: i64) -> Account {
    Account {
        id: 0,
        uid,
        account_type: input.account_type,
        username: input.username,
        email: input.email,
        phone: None,
        created_at: now,
        updated_at: now,
        deleted_at: None,
        created_by: input.created_by,
        updated_by: input.created_by,
        deleted_by: None,
    }
}

/// The credential that links a new account to its provider identity.
pub open spec fn credential_for(input: GetOrCreateByProviderSubjectInput, account_id: i64) -> Credential {
    Credential {
        id: 0,
        account_id,
        provider: input.provider,
        provider_subject: Some(input.provider_subject),
        password_hash: None,
        deleted_at: None,
    }
}

/// The error text for a credential whose account is missing.
pub open spec fn orphan_message(provider: Seq<char>, subject: Seq<char>) -> Seq<char> {
    "account not found for credential "@ + provider + ":"@ + subject
}

/// Whether the store takes `a` as its next account and `c` as its next credential.
pub open spec fn pair_insertable(s: Store, a: Account, c: Credential) -> bool {
    &&& account_row_valid(a)
    &&& s.accounts@.len() < MAX_ROWS
    &&& !exists|j: int| 0 <= j < s.accounts@.len() && accounts_clash(#[trigger] s.accounts@[j], a)
    &&& s.credentials@.len() < MAX_ROWS
    &&& !exists|j: int|
        0 <= j < s.credentials@.len() && credentials_clash(#[trigger] s.credentials@[j], c)
}

/// What resolving a provider identity does. A live credential for it leads to
/// its account, and a credential whose account is missing is an error.
/// Otherwise an account and its credential are added together, or neither is.
pub open spec fn resolve_post(
    before: Store,
    after: Store,
    input: GetOrCreateByProviderSubjectInput,
    uid: u128,
    now: i64,
    r: Result<Account, StoreError>,
) -> bool {
    &&& after.wf()
    &&& match first_index(
        before.credentials@,
        of_provider_subject(input.provider@, input.provider_subject@),
    ) {
        Some(ci) => {
            &&& same_tables(before, after)
            &&& match first_index(before.accounts@, has_id(before.credentials@[ci].account_id)) {
                Some(ai) => r == Ok::<Account, StoreError>(before.accounts@[ai]),
                None => r matches Err(StoreError::NotFound(m)) && m@ == orphan_message(
                    input.provider@,
                    input.provider_subject@,
                ),
            }
        },
        None => {
            let id = (before.accounts@.len() + 1) as i64;
            let a = Account { id, ..account_for(input, uid, now) };
            let c = credential_for(input, id);
            if pair_insertable(before, account_for(input, uid, now), c) {
                &&& r == Ok::<Account, StoreError>(a)
                &&& after.accounts@ == before.accounts@.push(a)
                &&& after.credentials@ == before.credentials@.push(
                    Credential { id: (before.credentials@.len() + 1) as i64, ..c },
                )
                &&& after.tokens@ == before.tokens@
            } else {
                &&& r is Err
                &&& same_tables(before, after)
            }
        },
    }
}

impl AccountsServiceImpl {
    pub fn new() -> (r: AccountsServiceImpl) {
        AccountsServiceImpl {  }
    }

    /// The live account with this external identifier.
    pub fn get(&self, store: &Store, uid: u128) -> (r: Option<Account>)
        ensures
            match first_index(store.accounts@, has_uid(uid)) {
                Some(i) => r == Some(store.accounts@[i]),
                None => r is None,
            },
    {
        match store.find_by_uid(uid) {
            Some(i) => Some(store.accounts[i].copy()),
            None => None,
        }
    }

    /// Finds the account linked to a provider identity, or creates the account
    /// and its credential, with the given `uid` and time `now`. Working on the
    /// store through one exclusive borrow, two resolutions of one identity
    /// cannot both create an account.
    pub fn get_or_create_by_provider_subject_at(
        &self,
        store: &mut Store,
        input: &GetOrCreateByProviderSubjectInput,
        uid: u128,
        now: i64,
    ) -> (r: Result<Account, StoreError>)
        requires
            old(store).wf(),
        ensures
            resolve_post(*old(store), *final(store), *input, uid, now, r),
    {
        match store.find_by_provider_subject(input.provider.as_str(), input.provider_subject.as_str()) {
            Some(ci) => {
                proof {
                    lemma_first_index_spec(
                        store.credentials@,
                        of_provider_subject(input.provider@, input.provider_subject@),
                    );
                }
                let account_id = store.credentials[ci].account_id;
                match store.find_by_id(account_id) {
                    Some(ai) => {
                        proof {
                            lemma_first_index_spec(store.accounts@, has_id(account_id));
                        }
                        Ok(store.accounts[ai].copy())
                    },
                    None => {
                        let mut m = "account not found for credential ".to_string();
                        m.append(input.provider.as_str());
                        m.append(":");
                        m.append(input.provider_subject.as_str());
                        Err(StoreError::NotFound(m))
                    },
                }
            },
            None => {
                let ghost before = *store;
                let account = Account {
                    id: 0,
                    uid,
                    account_type: input.account_type.clone(),
                    username: clone_text(&input.username),
                    email: clone_text(&input.email),
                    phone: None,
                    created_at: now,
                    updated_at: now,
                    deleted_at: None,
                    created_by: input.created_by,
                    updated_by: input.created_by,
                    deleted_by: None,
                };
                let id = match store.insert_account(account) {
                    Ok(id) => id,
                    Err(e) => {
                        return Err(e);
                    },
                };
                let credential = Credential {
                    id: 0,
                    account_id: id,
                    provider: input.provider.clone(),
                    provider_subject: Some(input.provider_subject.clone()),
                    password_hash: None,
                    deleted_at: None,
                };
                match store.insert_credential(credential) {
                    Ok(_) => {
                        let last = store.accounts.len() - 1;
                        Ok(store.accounts[last].copy())
                    },
                    Err(e) => {
                        store.accounts.pop();
                        assert(store.accounts@ =~= before.accounts@);
                        Err(e)
                    },
                }
            },
        }
    }

    /// Finds or creates the account of a provider identity; a new account gets
    /// a fresh random `uid` and the current time.
    pub fn get_or_create_by_provider_subject(
        &self,
        store: &mut Store,
        input: &GetOrCreateByProviderSubjectInput,
    ) -> (r: Result<Account, StoreError>)
        requires
            old(store).wf(),
        ensures
            exists|uid: u128, now: i64| #[trigger] resolve_post(*old(store), *final(store), *input, uid, now, r),
    {
        let uid = random_uuid();
        let now = now_unix_seconds();
        self.get_or_create_by_provider_subject_at(store, input, uid, now)
    }

    /// Adds an account with the given `uid` at time `now`.
    pub fn create_at(&self, store: &mut Store, input: CreateAccountInput, uid: u128, now: i64) -> (r: Result<Account, StoreError>)
        requires
            old(store).wf(),
        ensures
            create_post(*old(store), *final(store), input, uid, now, r),
    {
        let account = Account {
            id: 0,
            uid,
            account_type: input.account_type,
            username: input.username,
            email: input.email,
            phone: input.phone,
            created_at: now,
            updated_at: now,
            deleted_at: None,
            created_by: input.created_by,
            updated_by: input.created_by,
            deleted_by: None,
        };
        store.insert_account(account)?;
        let last = store.accounts.len() - 1;
        Ok(store.accounts[last].copy())
    }

    /// Adds an account under a fresh random `uid`, now.
    pub fn create(&self, store: &mut Store, input: CreateAccountInput) -> (r: Result<Account, StoreError>)
        requires
            old(store).wf(),
        ensures
            exists|uid: u128, now: i64| #[trigger] create_post(*old(store), *final(store), input, uid, now, r),
    {
        let uid = random_uuid();
        let now = now_unix_seconds();
        self.create_at(store, input, uid, now)
    }

    /// Changes the given fields of the live account `uid` at time `now`;
    /// `Ok(None)` when there is no such account, `Conflict` when the change
    /// would clash with another account.
    pub fn update_at(&self, store: &mut Store, uid: u128, input: UpdateAccountInput, now: i64) -> (r: Result<Option<Account>, StoreError>)
        requires
            old(store).wf(),
        ensures
            final(store).wf(),
            final(store).credentials == old(store).credentials,
            final(store).tokens == old(store).tokens,
            update_post(*old(store), *final(store), uid, input, now, r),
    {
        let i = match store.find_by_uid(uid) {
            Some(i) => i,
            None => {
                return Ok(None);
            },
        };
        proof {
            lemma_first_index_spec(store.accounts@, has_uid(uid));
        }
        let mut a = store.accounts[i].copy();
        if let Some(username) = input.username {
            a.username = Some(username);
        }
        if let Some(email) = input.email {
            a.email = Some(email);
        }
        if let Some(phone) = input.phone {
            a.phone = Some(phone);
        }
        a.updated_by = input.updated_by;
        a.updated_at = now;
        if store.account_clashes_except(&a, i) {
            return Err(StoreError::Conflict);
        }
        let result = a.copy();
        store.replace_account(i, a);
        Ok(Some(result))
    }

    /// Soft-deletes the live account `uid` at time `now`, recording who did it;
    /// `None` when there is no such account.
    pub fn delete_at(&self, store: &mut Store, uid: u128, deleted_by: Option<u128>, now: i64) -> (r: Option<Account>)
        requires
            old(store).wf(),
        ensures
            final(store).wf(),
            final(store).credentials == old(store).credentials,
            final(store).tokens == old(store).tokens,
            delete_post(*old(store), *final(store), uid, deleted_by, now, r),
    {
        let i = match store.find_by_uid(uid) {
            Some(i) => i,
            None => {
                return None;
            },
        };
        proof {
            lemma_first_index_spec(store.accounts@, has_uid(uid));
        }
        let mut a = store.accounts[i].copy();
        let actor: u128 = match deleted_by {
            Some(x) => x,
            None => match a.updated_by {
                Some(x) => x,
                None => match a.created_by {
                    Some(x) => x,
                    None => 0,
                },
            },
        };
        proof {
            assert forall|j: int| 0 <= j < store.accounts@.len() && j != i implies !accounts_clash(
                #[trigger] store.accounts@[j],
                soft_deleted(store.accounts@[i as int], deleted_by, now),
            ) by {
                assert(!accounts_clash(store.accounts@[j], store.accounts@[i as int]));
            }
        }
        a.deleted_at = Some(now);
        a.deleted_by = Some(actor);
        a.updated_by = Some(actor);
        a.updated_at = now;
        let result = a.copy();
        store.replace_account(i, a);
        Some(result)
    }

    /// Changes the given fields of the live account `uid`, now.
    pub fn update(&self, store: &mut Store, uid: u128, input: UpdateAccountInput) -> (r: Result<Option<Account>, StoreError>)
        requires
            old(store).wf(),
        ensures
            final(store).wf(),
            final(store).credentials == old(store).credentials,
            final(store).tokens == old(store).tokens,
            exists|now: i64| #[trigger] update_post(*old(store), *final(store), uid, input, now, r),
    {
        let now = now_unix_seconds();
        self.update_at(store, uid, input, now)
    }

    /// Soft-deletes the live account `uid`, now.
    pub fn delete(&self, store: &mut Store, uid: u128, deleted_by: Option<u128>) -> (r: Option<Account>)
        requires
            old(store).wf(),
        ensures
            final(store).wf(),
            final(store).credentials == old(store).credentials,
            final(store).tokens == old(store).tokens,
            exists|now: i64| #[trigger] delete_post(*old(store), *final(store), uid, deleted_by, now, r),
    {
        let now = now_unix_seconds();
        self.delete_at(store, uid, deleted_by, now)
    }
}

} // verus!
