use vstd::prelude::*;
use vstd::utf8::encode_utf8;

use crate::error::{AuthError, ErrorCode};
use crate::password::{
    INVALID_CREDENTIALS_MESSAGE, MAX_ARGON2_PASSWORD_BYTES, argon2_accepts, hash_password, meets_password_policy, normalize_email, normalize_username,
    normalized_email, normalized_username, validate_password, verify_password,
};
use crate::random::{now_unix_seconds, random_session_id, random_uuid};
use crate::search::{first_index, lemma_first_index_spec};
use crate::session::{SessionStore, created, session_key};
use crate::store::{
    Account, Credential, Store, MAX_ROWS, account_live, active_of_type, credential_live, has_email,
    has_username, lower_is, of_account_and_provider, text_is,
};
use crate::text::{contains_char, lower_of, to_lowercase, trim, trimmed};
use crate::verification::{
    TOKEN_TYPE_VERIFY_EMAIL, VerificationServiceImpl, expiry, is_fresh_secret, issue_succeeds, issued_tokens,
};
use crate::accounts::same_tables;

verus! {

/// The provider name of password credentials.
pub const PROVIDER_PASSWORD: &'static str = "password";

/// The wording of a login refused for an unverified email.
pub const EMAIL_NOT_VERIFIED_MESSAGE: &'static str = "email verification required";

/// The kind of account that registration creates.
pub const ACCOUNT_TYPE_USER: &'static str = "user";

/// A registered account, with the plaintext of its verification token (given
/// out once) and when that token expires.
#[derive(Debug)]
pub struct RegisterOutput {
    pub account: Account,
    pub verify_token: String,
    pub verify_expires_at: i64,
}

/// A logged-in account and its new session id.
#[derive(Debug)]
pub struct LoginOutput {
    pub account: Account,
    pub session_id: String,
}

/// The register and login use cases.
#[derive(Debug)]
pub struct AuthServiceImpl {
    pub verification: VerificationServiceImpl,
}

pub open spec fn opt_view(o: Option<&str>) -> Option<Seq<char>> {
    match o {
        Some(s) => Some(s@),
        None => None,
    }
}

pub open spec fn opt_string_view(o: Option<String>) -> Option<Seq<char>> {
    match o {
        Some(s) => Some(s@),
        None => None,
    }
}

/// `x` holds the text `y`, or both hold nothing.
pub open spec fn text_matches(x: Option<String>, y: Option<Seq<char>>) -> bool {
    match y {
        Some(v) => text_is(x, v),
        None => x is None,
    }
}

/// The normalized email and username of a registration, or the first
/// validation error: email, then username, then password.
pub open spec fn registration_input(
    email: Seq<char>,
    username: Option<Seq<char>>,
    password: Seq<char>,
) -> Result<(Seq<char>, Option<Seq<char>>), ErrorCode> {
    match normalized_email(email) {
        None => Err(ErrorCode::InvalidEmail),
        Some(e) => {
            let nu = match username {
                Some(u) => match normalized_username(u) {
                    Some(v) => Ok(Some(v)),
                    None => Err(ErrorCode::InvalidUsername),
                },
                None => Ok(None),
            };
            match nu {
                Err(c) => Err(c),
                Ok(nu) => if meets_password_policy(password) {
                    Ok((e, nu))
                } else {
                    Err(ErrorCode::InvalidPassword)
                },
            }
        },
    }
}

/// The registration checks against the store: valid input, then a free email,
/// then a free username.
pub open spec fn registration_check(
    s: Store,
    email: Seq<char>,
    username: Option<Seq<char>>,
    password: Seq<char>,
) -> Result<(Seq<char>, Option<Seq<char>>), ErrorCode> {
    match registration_input(email, username, password) {
        Err(c) => Err(c),
        Ok((e, nu)) => if first_index(s.accounts@, has_email(e)) is Some {
            Err(ErrorCode::EmailTaken)
        } else if nu matches Some(u) && first_index(s.accounts@, has_username(u)) is Some {
            Err(ErrorCode::UsernameTaken)
        } else {
            Ok((e, nu))
        },
    }
}

/// The account row that registration stores.
pub open spec fn is_user_row(
    a: Account,
    id: i64,
    uid: u128,
    email: Seq<char>,
    username: Option<Seq<char>>,
    now: i64,
) -> bool {
    &&& a.id == id
    &&& a.uid == uid
    &&& a.account_type@ == ACCOUNT_TYPE_USER@
    &&& text_matches(a.username, username)
    &&& text_is(a.email, email)
    &&& a.phone is None
    &&& a.created_at == now
    &&& a.updated_at == now
    &&& a.deleted_at is None
    &&& a.created_by is None
    &&& a.updated_by is None
    &&& a.deleted_by is None
}

/// The password credential row that registration stores.
pub open spec fn is_password_row(
    c: Credential,
    id: i64,
    account_id: i64,
    email: Seq<char>,
    hash: Seq<char>,
) -> bool {
    &&& c.id == id
    &&& c.account_id == account_id
    &&& c.provider@ == PROVIDER_PASSWORD@
    &&& text_is(c.provider_subject, email)
    &&& text_is(c.password_hash, hash)
    &&& c.deleted_at is None
}

/// A stored account that a new user account with these values would clash with.
pub open spec fn clashes_with_user(
    r: Account,
    uid: u128,
    email: Seq<char>,
    username: Option<Seq<char>>,
) -> bool {
    r.uid == uid || (account_live(r) && (lower_is(r.email, email) || (username matches Some(u)
        && lower_is(r.username, u))))
}

/// A stored credential that a new password credential would clash with.
pub open spec fn clashes_with_password(r: Credential, account_id: i64, email: Seq<char>) -> bool {
    credential_live(r) && r.provider@ == PROVIDER_PASSWORD@ && (r.account_id == account_id
        || text_is(r.provider_subject, email))
}

/// Whether the store takes the account and credential of a registration.
pub open spec fn registration_insertable(
    s: Store,
    uid: u128,
    email: Seq<char>,
    username: Option<Seq<char>>,
) -> bool {
    let id = (s.accounts@.len() + 1) as i64;
    &&& s.accounts@.len() < MAX_ROWS
    &&& !exists|j: int|
        0 <= j < s.accounts@.len() && clashes_with_user(#[trigger] s.accounts@[j], uid, email, username)
    &&& s.credentials@.len() < MAX_ROWS
    &&& !exists|j: int|
        0 <= j < s.credentials@.len() && clashes_with_password(#[trigger] s.credentials@[j], id, email)
}

/// What storing a checked registration does: the account and its password
/// credential are added together or not at all (`db_error`); then a
/// verification token is issued for the account, whose failure is a
/// `db_error` too.
pub open spec fn register_post(
    ttl: u64,
    before: Store,
    after: Store,
    email: Seq<char>,
    username: Option<Seq<char>>,
    hash: Seq<char>,
    uid: u128,
    token: Seq<char>,
    now: i64,
    r: Result<RegisterOutput, AuthError>,
) -> bool {
    let id = (before.accounts@.len() + 1) as i64;
    &&& after.wf()
    &&& if registration_insertable(before, uid, email, username) {
        &&& after.accounts@.len() == before.accounts@.len() + 1
        &&& after.accounts@.drop_last() == before.accounts@
        &&& is_user_row(after.accounts@.last(), id, uid, email, username, now)
        &&& after.credentials@.len() == before.credentials@.len() + 1
        &&& after.credentials@.drop_last() == before.credentials@
        &&& is_password_row(
            after.credentials@.last(),
            (before.credentials@.len() + 1) as i64,
            id,
            email,
            hash,
        )
        &&& issued_tokens(ttl, before.tokens@, after.tokens@, id, token, now)
        &&& if issue_succeeds(before.tokens@, id, token, now) {
            &&& r matches Ok(o)
            &&& o.account == after.accounts@.last()
            &&& o.verify_token@ == token
            &&& o.verify_expires_at == expiry(now, ttl)
        } else {
            r matches Err(e) && e.code == ErrorCode::DbError
        }
    } else {
        &&& r matches Err(e) && e.code == ErrorCode::DbError
        &&& same_tables(before, after)
    }
}

/// The account that a login identifier names: by email when it holds an `@`,
/// else by username.
pub open spec fn login_account(s: Store, n: Seq<char>) -> Option<int> {
    if n.contains('@') {
        first_index(s.accounts@, has_email(n))
    } else {
        first_index(s.accounts@, has_username(n))
    }
}

/// The outcome of a login at time `now`: the row of the account, or the
/// error. Every failure to match an account, a credential or the password is
/// the same `invalid_credentials`.
pub open spec fn login_outcome(s: Store, identifier: Seq<char>, password: Seq<char>, now: i64) -> Result<
    int,
    ErrorCode,
> {
    let n = lower_of(trimmed(identifier));
    if n.len() == 0 {
        Err(ErrorCode::InvalidCredentials)
    } else {
        match login_account(s, n) {
            None => Err(ErrorCode::InvalidCredentials),
            Some(ai) => {
                let a = s.accounts@[ai];
                match first_index(s.credentials@, of_account_and_provider(a.id, PROVIDER_PASSWORD@)) {
                    None => Err(ErrorCode::InvalidCredentials),
                    Some(ci) => match s.credentials@[ci].password_hash {
                        None => Err(ErrorCode::InvalidCredentials),
                        Some(h) => if !argon2_accepts(h@, encode_utf8(password)) {
                            Err(ErrorCode::InvalidCredentials)
                        } else if first_index(
                            s.tokens@,
                            active_of_type(a.id, TOKEN_TYPE_VERIFY_EMAIL@, now),
                        ) is Some {
                            Err(ErrorCode::EmailNotVerified)
                        } else {
                            Ok(ai)
                        },
                    },
                }
            },
        }
    }
}

/// The wording of each login failure.
pub open spec fn login_error_message(c: ErrorCode) -> Seq<char> {
    if c == ErrorCode::EmailNotVerified {
        EMAIL_NOT_VERIFIED_MESSAGE@
    } else {
        INVALID_CREDENTIALS_MESSAGE@
    }
}

/// What a login with session id `session_id` at `now` does to the sessions
/// and returns.
pub open spec fn login_post(
    s: Store,
    before: SessionStore,
    after: SessionStore,
    identifier: Seq<char>,
    password: Seq<char>,
    session_id: Seq<char>,
    now: i64,
    r: Result<LoginOutput, AuthError>,
) -> bool {
    &&& after.wf()
    &&& after.ttl_seconds == before.ttl_seconds
    &&& after.key_prefix == before.key_prefix
    &&& match login_outcome(s, identifier, password, now) {
        Ok(ai) => {
            &&& r matches Ok(o)
            &&& o.account == s.accounts@[ai]
            &&& o.session_id@ == session_id
            &&& created(
                before.entries@,
                after.entries@,
                session_key(before.key_prefix@, session_id),
                s.accounts@[ai].uid,
                now,
                before.ttl_seconds,
            )
        },
        Err(c) => {
            &&& r matches Err(e) && e.code == c && e.message@ == login_error_message(c)
            &&& after.entries@ == before.entries@
        },
    }
}

impl AuthServiceImpl {
    pub fn new(verification: VerificationServiceImpl) -> (r: AuthServiceImpl)
        ensures
            r.verification == verification,
    {
        AuthServiceImpl { verification }
    }

    /// Fails with `email_taken` when a live account has this email.
    pub fn ensure_email_available(store: &Store, email: &str) -> (r: Result<(), AuthError>)
        ensures
            r is Ok <==> first_index(store.accounts@, has_email(email@)) is None,
            r matches Err(e) ==> e.code == ErrorCode::EmailTaken,
    {
        if store.find_by_email(email).is_some() {
            return Err(AuthError::new(ErrorCode::EmailTaken, "email already registered"));
        }
        Ok(())
    }

    /// Fails with `username_taken` when a live account has this username.
    pub fn ensure_username_available(store: &Store, username: &str) -> (r: Result<(), AuthError>)
        ensures
            r is Ok <==> first_index(store.accounts@, has_username(username@)) is None,
            r matches Err(e) ==> e.code == ErrorCode::UsernameTaken,
    {
        if store.find_by_username(username).is_some() {
            return Err(AuthError::new(ErrorCode::UsernameTaken, "username already registered"));
        }
        Ok(())
    }

    /// Validates and normalizes a registration and checks that its email and
    /// username are free.
    pub fn check_registration(
        store: &Store,
        email: &str,
        username: Option<&str>,
        password: &str,
    ) -> (r: Result<(String, Option<String>), AuthError>)
        ensures
            match registration_check(*store, email@, opt_view(username), password@) {
                Ok((e, nu)) => r matches Ok((re, rnu)) && re@ == e && text_matches(rnu, nu),
                Err(c) => r matches Err(err) && err.code == c,
            },
    {
        let email = normalize_email(email)?;
        let username = match username {
            Some(value) => Some(normalize_username(value)?),
            None => None,
        };
        validate_password(password)?;
        Self::ensure_email_available(store, email.as_str())?;
        match &username {
            Some(value) => {
                Self::ensure_username_available(store, value.as_str())?;
            },
            None => {},
        }
        Ok((email, username))
    }

    /// Stores a checked registration with the given password hash, account
    /// `uid`, verification `token` and time `now`.
    pub fn complete_registration_at(
        &self,
        store: &mut Store,
        email: &str,
        username: Option<String>,
        password_hash: &str,
        uid: u128,
        token: &str,
        now: i64,
    ) -> (r: Result<RegisterOutput, AuthError>)
        requires
            old(store).wf(),
        ensures
            register_post(
                self.verification.ttl_seconds,
                *old(store),
                *final(store),
                email@,
                opt_string_view(username),
                password_hash@,
                uid,
                token@,
                now,
                r,
            ),
    {
        let ghost before = *store;
        let ghost nu = opt_string_view(username);
        let account = Account {
            id: 0,
            uid,
            account_type: ACCOUNT_TYPE_USER.to_string(),
            username,
            email: Some(email.to_string()),
            phone: None,
            created_at: now,
            updated_at: now,
            deleted_at: None,
            created_by: None,
            updated_by: None,
            deleted_by: None,
        };
        proof {
            assert forall|j: int| 0 <= j < before.accounts@.len() implies
                #[trigger] crate::store::accounts_clash(before.accounts@[j], account)
                == clashes_with_user(before.accounts@[j], uid, email@, nu) by {}
        }
        let id = match store.insert_account(account) {
            Ok(id) => id,
            Err(_) => {
                return Err(AuthError::new(ErrorCode::DbError, "could not store the account"));
            },
        };
        let credential = Credential {
            id: 0,
            account_id: id,
            provider: PROVIDER_PASSWORD.to_string(),
            provider_subject: Some(email.to_string()),
            password_hash: Some(password_hash.to_string()),
            deleted_at: None,
        };
        proof {
            assert forall|j: int| 0 <= j < before.credentials@.len() implies
                #[trigger] crate::store::credentials_clash(before.credentials@[j], credential)
                == clashes_with_password(before.credentials@[j], id, email@) by {}
        }
        match store.insert_credential(credential) {
            Ok(_) => {},
            Err(_) => {
                store.accounts.pop();
                assert(store.accounts@ =~= before.accounts@);
                return Err(AuthError::new(ErrorCode::DbError, "could not store the credential"));
            },
        }
        let last = store.accounts.len() - 1;
        let account = store.accounts[last].copy();
        assert(store.accounts@.drop_last() == before.accounts@);
        assert(store.credentials@.drop_last() == before.credentials@);
        let issued = self.verification.create_email_verification_at(store, id, token, now);
        match issued {
            Ok(v) => Ok(
                RegisterOutput {
                    account,
                    verify_token: v.token,
                    verify_expires_at: v.expires_at,
                },
            ),
            Err(e) => Err(AuthError::new(e.code, "could not issue the verification token")),
        }
    }

    /// Registers an account with a password: the input is checked and
    /// normalized, the password hashed under a fresh salt, the account and its
    /// password credential stored together, and a verification token issued.
    pub fn register(
        &self,
        store: &mut Store,
        email: &str,
        username: Option<&str>,
        password: &str,
    ) -> (r: Result<RegisterOutput, AuthError>)
        requires
            old(store).wf(),
        ensures
            final(store).wf(),
            match registration_check(*old(store), email@, opt_view(username), password@) {
                Err(c) => r matches Err(e) && e.code == c && same_tables(*old(store), *final(store)),
                Ok((e, nu)) => (encode_utf8(password@).len() > MAX_ARGON2_PASSWORD_BYTES
                    && (r matches Err(err) && err.code == ErrorCode::PasswordHashFailed
                    && same_tables(*old(store), *final(store)))) || exists|
                    hash: Seq<char>,
                    uid: u128,
                    token: Seq<char>,
                    now: i64,
                |
                    argon2_accepts(hash, encode_utf8(password@)) && is_fresh_secret(token)
                        && #[trigger] register_post(
                        self.verification.ttl_seconds,
                        *old(store),
                        *final(store),
                        e,
                        nu,
                        hash,
                        uid,
                        token,
                        now,
                        r,
                    ),
            },
    {
        let (email_n, username_n) = Self::check_registration(store, email, username, password)?;
        let password_hash = hash_password(password)?;
        let uid = random_uuid();
        let token = VerificationServiceImpl::generate_token();
        let now = now_unix_seconds();
        self.complete_registration_at(
            store,
            email_n.as_str(),
            username_n,
            password_hash.as_str(),
            uid,
            token.as_str(),
            now,
        )
    }

    /// Logs in at time `now`, opening a session under `session_id` on success.
    pub fn login_at(
        &self,
        store: &Store,
        sessions: &mut SessionStore,
        identifier: &str,
        password: &str,
        session_id: &str,
        now: i64,
    ) -> (r: Result<LoginOutput, AuthError>)
        requires
            old(sessions).wf(),
        ensures
            login_post(*store, *old(sessions), *final(sessions), identifier@, password@, session_id@, now, r),
    {
        let trimmed_id = trim(identifier);
        let normalized = to_lowercase(trimmed_id.as_str());
        if normalized.as_str().is_empty() {
            return Err(AuthError::new(ErrorCode::InvalidCredentials, INVALID_CREDENTIALS_MESSAGE));
        }
        let found = if contains_char(normalized.as_str(), '@') {
            store.find_by_email(normalized.as_str())
        } else {
            store.find_by_username(normalized.as_str())
        };
        let ai = match found {
            Some(i) => i,
            None => {
                return Err(AuthError::new(ErrorCode::InvalidCredentials, INVALID_CREDENTIALS_MESSAGE));
            },
        };
        proof {
            lemma_first_index_spec(store.accounts@, has_email(normalized@));
            lemma_first_index_spec(store.accounts@, has_username(normalized@));
        }
        let account_id = store.accounts[ai].id;
        let ci = match store.find_by_account_and_provider(account_id, PROVIDER_PASSWORD) {
            Some(c) => c,
            None => {
                return Err(AuthError::new(ErrorCode::InvalidCredentials, INVALID_CREDENTIALS_MESSAGE));
            },
        };
        proof {
            lemma_first_index_spec(
                store.credentials@,
                of_account_and_provider(account_id, PROVIDER_PASSWORD@),
            );
        }
        let hash = match &store.credentials[ci].password_hash {
            Some(h) => h,
            None => {
                return Err(AuthError::new(ErrorCode::InvalidCredentials, INVALID_CREDENTIALS_MESSAGE));
            },
        };
        verify_password(hash.as_str(), password)?;
        let token_type = self.verification.email_verification_type();
        if store.find_active_by_account_and_type(account_id, token_type, now).is_some() {
            return Err(AuthError::new(ErrorCode::EmailNotVerified, EMAIL_NOT_VERIFIED_MESSAGE));
        }
        let sid = sessions.create_at(session_id, store.accounts[ai].uid, now);
        Ok(LoginOutput { account: store.accounts[ai].copy(), session_id: sid })
    }

    /// Logs in with an email or username and a password, opening a session
    /// under a fresh random id.
    pub fn login(
        &self,
        store: &Store,
        sessions: &mut SessionStore,
        identifier: &str,
        password: &str,
    ) -> (r: Result<LoginOutput, AuthError>)
        requires
            old(sessions).wf(),
        ensures
            exists|session_id: Seq<char>, now: i64|
                session_id.len() == 32 && #[trigger] login_post(
                    *store,
                    *old(sessions),
                    *final(sessions),
                    identifier@,
                    password@,
                    session_id,
                    now,
                    r,
                ),
    {
        let session_id = random_session_id();
        let now = now_unix_seconds();
        self.login_at(store, sessions, identifier, password, session_id.as_str(), now)
    }
}

} // verus!
