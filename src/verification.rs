use base64::Engine;
use sha2::Digest;
use vstd::prelude::*;
use vstd::utf8::encode_utf8;

use crate::error::{ErrorCode, VerificationError};
use crate::random::{now_unix_seconds, random_bytes};
use crate::text::all_lower_hex;
use crate::search::{first_index, lemma_first_index_spec};
use crate::store::{
    AuthorizationToken, Store, MAX_ROWS, active_of_type, active_with_hash, revoke_matching, revoked,
};

verus! {

/// The type tag of email-verification tokens.
pub const TOKEN_TYPE_VERIFY_EMAIL: &'static str = "auth:verify_email";

/// The number of random bytes in a verification secret.
pub const TOKEN_BYTES: usize = 32;

/// The SHA-256 digest of `data`, as 64 lower-case hex digits.
pub uninterp spec fn sha256_hex_of(data: Seq<u8>) -> Seq<char>;

/// The URL-safe base64 text of `data`, without padding.
pub uninterp spec fn base64_url_of(data: Seq<u8>) -> Seq<char>;

/// Relies on sha2's `Sha256::digest`, printed with `{:x}`: the lower-case hex
/// of the 32-byte digest.
#[verifier::external_body]
fn sha256_hex(data: &[u8]) -> (r: String)
    ensures
        r@ == sha256_hex_of(data@),
        r@.len() == 64,
        all_lower_hex(r@),
{
    format!("{:x}", sha2::Sha256::digest(data))
}

/// Relies on base64's `URL_SAFE_NO_PAD` engine `encode`, which panics only
/// when the encoded length overflows `usize`; without padding, `n` bytes take
/// `ceil(4n / 3)` characters.
#[verifier::external_body]
fn base64_url(data: &[u8]) -> (r: String)
    requires
        data@.len() <= 0x3fff_ffff,
    ensures
        r@ == base64_url_of(data@),
        r@.len() == (4 * data@.len() + 2) / 3,
{
    base64::engine::general_purpose::URL_SAFE_NO_PAD.encode(data)
}

/// A secret as `generate_token` makes it: the URL-safe base64, without
/// padding, of `TOKEN_BYTES` bytes.
pub open spec fn is_fresh_secret(token: Seq<char>) -> bool {
    &&& token.len() == 43
    &&& exists|b: Seq<u8>| b.len() == TOKEN_BYTES && token == #[trigger] base64_url_of(b)
}

/// The hash under which a plaintext token is stored.
pub open spec fn token_hash_of(token: Seq<char>) -> Seq<char> {
    sha256_hex_of(encode_utf8(token))
}

/// `now + ttl` seconds, held at the largest time there is.
pub open spec fn expiry(now: i64, ttl: u64) -> i64 {
    if now + ttl > i64::MAX {
        i64::MAX
    } else {
        (now + ttl) as i64
    }
}

/// The plaintext of a fresh verification token, and when it stops being valid.
#[derive(Debug)]
pub struct VerificationToken {
    pub token: String,
    pub expires_at: i64,
}

/// Issues and redeems single-use email-verification tokens.
#[derive(Debug)]
pub struct VerificationServiceImpl {
    pub ttl_seconds: u64,
}

/// The row that issuing `hash` for an account stores.
pub open spec fn is_issued_row(
    t: AuthorizationToken,
    id: int,
    account_id: i64,
    hash: Seq<char>,
    expires_at: i64,
) -> bool {
    &&& t.id == id
    &&& t.account_id == account_id
    &&& t.token_hash@ == hash
    &&& t.token_type@ == TOKEN_TYPE_VERIFY_EMAIL@
    &&& t.expires_at == Some(expires_at)
    &&& t.revoked_at is None
    &&& t.deleted_at is None
}

/// The tokens once the account's active verification tokens are revoked at `now`.
pub open spec fn superseded(ts: Seq<AuthorizationToken>, account_id: i64, now: i64) -> Seq<
    AuthorizationToken,
> {
    revoke_matching(ts, active_of_type(account_id, TOKEN_TYPE_VERIFY_EMAIL@, now), now)
}

/// Whether a new row with this hash can be added after the earlier tokens are
/// superseded.
pub open spec fn can_store(ts: Seq<AuthorizationToken>, hash: Seq<char>) -> bool {
    ts.len() < MAX_ROWS && !exists|j: int| 0 <= j < ts.len() && (#[trigger] ts[j]).token_hash@ == hash
}

/// Whether issuing `token` for `account_id` at `now` stores it.
pub open spec fn issue_succeeds(ts: Seq<AuthorizationToken>, account_id: i64, token: Seq<char>, now: i64) -> bool {
    can_store(superseded(ts, account_id, now), token_hash_of(token))
}

/// The tokens after issuing `token` for `account_id` at `now`: the account's
/// active verification tokens are revoked, then the new token's hash is
/// stored with its expiry, if the table takes it.
pub open spec fn issued_tokens(
    ttl: u64,
    before: Seq<AuthorizationToken>,
    after: Seq<AuthorizationToken>,
    account_id: i64,
    token: Seq<char>,
    now: i64,
) -> bool {
    let revoked_ts = superseded(before, account_id, now);
    if issue_succeeds(before, account_id, token, now) {
        &&& after.len() == revoked_ts.len() + 1
        &&& after.drop_last() == revoked_ts
        &&& is_issued_row(
            after.last(),
            (revoked_ts.len() + 1) as int,
            account_id,
            token_hash_of(token),
            expiry(now, ttl),
        )
    } else {
        after == revoked_ts
    }
}

/// What issuing `token` for `account_id` at `now` does; a refused insert is
/// a `db_error`.
pub open spec fn issue_post(
    ttl: u64,
    old_store: Store,
    new_store: Store,
    account_id: i64,
    token: Seq<char>,
    now: i64,
    r: Result<VerificationToken, VerificationError>,
) -> bool {
    &&& new_store.wf()
    &&& new_store.accounts == old_store.accounts
    &&& new_store.credentials == old_store.credentials
    &&& issued_tokens(ttl, old_store.tokens@, new_store.tokens@, account_id, token, now)
    &&& if issue_succeeds(old_store.tokens@, account_id, token, now) {
        r matches Ok(v) && v.token@ == token && v.expires_at == expiry(now, ttl)
    } else {
        r matches Err(e) && e.code == ErrorCode::DbError
    }
}

/// What redeeming `token` at `now` does: the first active token with its
/// hash, if it is a verification token, is revoked and its account returned;
/// anything else is `invalid_token` and changes nothing.
pub open spec fn redeem_post(
    old_store: Store,
    new_store: Store,
    token: Seq<char>,
    now: i64,
    r: Result<i64, VerificationError>,
) -> bool {
    &&& new_store.wf()
    &&& new_store.accounts == old_store.accounts
    &&& new_store.credentials == old_store.credentials
    &&& match first_index(old_store.tokens@, active_with_hash(token_hash_of(token), now)) {
        Some(i) => if old_store.tokens@[i].token_type@ == TOKEN_TYPE_VERIFY_EMAIL@ {
            &&& r == Ok::<i64, VerificationError>(old_store.tokens@[i].account_id)
            &&& new_store.tokens@ == old_store.tokens@.update(i, revoked(old_store.tokens@[i], now))
        } else {
            &&& r matches Err(e) && e.code == ErrorCode::InvalidToken
            &&& new_store.tokens@ == old_store.tokens@
        },
        None => {
            &&& r matches Err(e) && e.code == ErrorCode::InvalidToken
            &&& new_store.tokens@ == old_store.tokens@
        },
    }
}

impl VerificationServiceImpl {
    pub fn new(ttl_seconds: u64) -> (r: VerificationServiceImpl)
        ensures
            r.ttl_seconds == ttl_seconds,
    {
        VerificationServiceImpl { ttl_seconds }
    }

    /// A fresh secret: `TOKEN_BYTES` random bytes in URL-safe base64, 43
    /// characters.
    pub fn generate_token() -> (r: String)
        ensures
            is_fresh_secret(r@),
    {
        let bytes = random_bytes(TOKEN_BYTES);
        base64_url(bytes.as_slice())
    }

    /// The stored hash of a plaintext token.
    pub fn hash_token(token: &str) -> (r: String)
        ensures
            r@ == token_hash_of(token@),
            r@.len() == 64,
            all_lower_hex(r@),
    {
        sha256_hex(token.as_bytes())
    }

    /// The type tag that email verification uses.
    pub fn email_verification_type(&self) -> (r: &'static str)
        ensures
            r@ == TOKEN_TYPE_VERIFY_EMAIL@,
    {
        TOKEN_TYPE_VERIFY_EMAIL
    }

    /// Issues the given plaintext `token` for `account_id` at time `now`.
    pub fn create_email_verification_at(
        &self,
        store: &mut Store,
        account_id: i64,
        token: &str,
        now: i64,
    ) -> (r: Result<VerificationToken, VerificationError>)
        requires
            old(store).wf(),
        ensures
            issue_post(self.ttl_seconds, *old(store), *final(store), account_id, token@, now, r),
    {
        let token_hash = Self::hash_token(token);
        let sum: i128 = now as i128 + self.ttl_seconds as i128;
        let expires_at: i64 = if sum > i64::MAX as i128 {
            i64::MAX
        } else {
            sum as i64
        };
        store.revoke_active_of_type(account_id, TOKEN_TYPE_VERIFY_EMAIL, now);
        let ghost revoked_ts = store.tokens@;
        let row = AuthorizationToken {
            id: 0,
            account_id,
            token_hash,
            token_type: TOKEN_TYPE_VERIFY_EMAIL.to_string(),
            expires_at: Some(expires_at),
            revoked_at: None,
            deleted_at: None,
        };
        match store.insert_token(row) {
            Ok(_) => {
                assert(store.tokens@.drop_last() =~= revoked_ts);
                Ok(VerificationToken { token: token.to_string(), expires_at })
            },
            Err(_) => Err(VerificationError::new(ErrorCode::DbError, "could not store the token")),
        }
    }

    /// Issues a fresh random token for `account_id`, revoking its earlier
    /// active verification tokens. The plaintext is returned once and never
    /// stored.
    pub fn create_email_verification(&self, store: &mut Store, account_id: i64) -> (r: Result<
        VerificationToken,
        VerificationError,
    >)
        requires
            old(store).wf(),
        ensures
            exists|token: Seq<char>, now: i64|
                is_fresh_secret(token) && #[trigger] issue_post(
                    self.ttl_seconds,
                    *old(store),
                    *final(store),
                    account_id,
                    token,
                    now,
                    r,
                ),
    {
        let token = Self::generate_token();
        let now = now_unix_seconds();
        self.create_email_verification_at(store, account_id, token.as_str(), now)
    }

    /// Redeems a plaintext token at time `now`.
    pub fn verify_email_token_at(&self, store: &mut Store, token: &str, now: i64) -> (r: Result<
        i64,
        VerificationError,
    >)
        requires
            old(store).wf(),
        ensures
            redeem_post(*old(store), *final(store), token@, now, r),
    {
        let token_hash = Self::hash_token(token);
        let found = store.find_active_by_token_hash(token_hash.as_str(), now);
        match found {
            None => Err(VerificationError::new(ErrorCode::InvalidToken, "verification token is invalid")),
            Some(i) => {
                proof {
                    lemma_first_index_spec(store.tokens@, active_with_hash(token_hash@, now));
                }
                if !crate::store::str_eq(store.tokens[i].token_type.as_str(), TOKEN_TYPE_VERIFY_EMAIL) {
                    return Err(
                        VerificationError::new(
                            ErrorCode::InvalidToken,
                            "verification token type mismatch",
                        ),
                    );
                }
                let account_id = store.tokens[i].account_id;
                store.revoke_at(i, now);
                Ok(account_id)
            },
        }
    }

    /// Redeems a plaintext token now: single use, so a second redemption of
    /// the same token fails.
    pub fn verify_email_token(&self, store: &mut Store, token: &str) -> (r: Result<
        i64,
        VerificationError,
    >)
        requires
            old(store).wf(),
        ensures
            exists|now: i64| redeem_post(*old(store), *final(store), token@, now, r),
    {
        let now = now_unix_seconds();
        self.verify_email_token_at(store, token, now)
    }
}

} // verus!
