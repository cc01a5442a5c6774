//! Properties that hold across calls, proved from the contracts of the
//! operations they speak of.

use vstd::prelude::*;

use crate::auth::{
    PROVIDER_PASSWORD, RegisterOutput, clashes_with_password, login_account, login_outcome,
    register_post, registration_check, registration_input,
};
use crate::error::AuthError;
use crate::password::{argon2_accepts, hash_result, normalized_email, verify_result};
use crate::store::{active_of_type, has_email, of_account_and_provider};
use crate::text::{lower_of, trimmed};
use vstd::utf8::encode_utf8;
use crate::accounts::{GetOrCreateByProviderSubjectInput, delete_post, resolve_post, same_tables};
use crate::error::{ErrorCode, VerificationError};
use crate::search::{first_index, lemma_first_index_absent, lemma_first_index_found, lemma_first_index_spec};
use crate::session::{SessionEntry, created, keys_unique, session_at, with_key, without_key};
use crate::store::{Account, Store, StoreError, active_with_hash, has_id, has_uid, of_provider_subject};
use crate::verification::{
    VerificationToken, expiry, issue_post, issue_succeeds, redeem_post, superseded, token_hash_of,
    TOKEN_TYPE_VERIFY_EMAIL,
};

verus! {

/// Once a token has been redeemed, no active token carries its hash.
proof fn lemma_redeemed_is_spent(
    s0: Store,
    s1: Store,
    token: Seq<char>,
    now1: i64,
    now2: i64,
    r1: Result<i64, VerificationError>,
)
    requires
        s0.wf(),
        redeem_post(s0, s1, token, now1, r1),
        r1 is Ok,
    ensures
        first_index(s1.tokens@, active_with_hash(token_hash_of(token), now2)) is None,
{
    let h = token_hash_of(token);
    lemma_first_index_spec(s0.tokens@, active_with_hash(h, now1));
    let i = first_index(s0.tokens@, active_with_hash(h, now1))->0;
    assert forall|j: int| 0 <= j < s1.tokens@.len() implies !active_with_hash(h, now2)(
        #[trigger] s1.tokens@[j],
    ) by {
        if j != i {
            if j < i {
                assert(s0.tokens@[j].token_hash@ != s0.tokens@[i].token_hash@);
            } else {
                assert(s0.tokens@[i].token_hash@ != s0.tokens@[j].token_hash@);
            }
        }
    }
    lemma_first_index_absent(s1.tokens@, active_with_hash(h, now2));
}

/// A freshly issued token is redeemed once, for the account it was issued
/// to, while it has not expired; a second redemption of the same plaintext
/// fails with `invalid_token`.
pub proof fn law_token_single_use(
    ttl: u64,
    s0: Store,
    s1: Store,
    s2: Store,
    s3: Store,
    account_id: i64,
    token: Seq<char>,
    issued_at: i64,
    now1: i64,
    now2: i64,
    ri: Result<VerificationToken, VerificationError>,
    r1: Result<i64, VerificationError>,
    r2: Result<i64, VerificationError>,
)
    requires
        s0.wf(),
        issue_post(ttl, s0, s1, account_id, token, issued_at, ri),
        ri is Ok,
        now1 < expiry(issued_at, ttl),
        redeem_post(s1, s2, token, now1, r1),
        redeem_post(s2, s3, token, now2, r2),
    ensures
        r1 == Ok::<i64, VerificationError>(account_id),
        r2 matches Err(e) && e.code == ErrorCode::InvalidToken,
{
    let h = token_hash_of(token);
    let rev = superseded(s0.tokens@, account_id, issued_at);
    let last = rev.len() as int;
    assert(s1.tokens@[last] == s1.tokens@.last());
    assert forall|j: int| 0 <= j < last implies !active_with_hash(h, now1)(#[trigger] s1.tokens@[j]) by {
        assert(s1.tokens@[j] == s1.tokens@.drop_last()[j]);
        assert(rev[j].token_hash@ != h);
    }
    lemma_first_index_found(s1.tokens@, active_with_hash(h, now1), last);
    lemma_redeemed_is_spent(s1, s2, token, now1, now2, r1);
}

/// Issuing a second verification token for an account revokes the first:
/// from the moment of the second issue on, the first plaintext fails
/// redemption with `invalid_token`.
pub proof fn law_reissue_revokes(
    ttl: u64,
    s0: Store,
    s1: Store,
    s2: Store,
    s3: Store,
    account_id: i64,
    first: Seq<char>,
    second: Seq<char>,
    t1: i64,
    t2: i64,
    now: i64,
    r1: Result<VerificationToken, VerificationError>,
    r2: Result<VerificationToken, VerificationError>,
    r3: Result<i64, VerificationError>,
)
    requires
        s0.wf(),
        issue_post(ttl, s0, s1, account_id, first, t1, r1),
        r1 is Ok,
        issue_post(ttl, s1, s2, account_id, second, t2, r2),
        r2 is Ok,
        t2 <= now,
        redeem_post(s2, s3, first, now, r3),
    ensures
        r3 matches Err(e) && e.code == ErrorCode::InvalidToken,
{
    let h1 = token_hash_of(first);
    let h2 = token_hash_of(second);
    let rev1 = superseded(s0.tokens@, account_id, t1);
    let k = rev1.len() as int;
    assert(s1.tokens@[k] == s1.tokens@.last());
    let rev2 = superseded(s1.tokens@, account_id, t2);
    assert forall|j: int| 0 <= j < s2.tokens@.len() implies !active_with_hash(h1, now)(
        #[trigger] s2.tokens@[j],
    ) by {
        if j < rev2.len() {
            assert(s2.tokens@[j] == s2.tokens@.drop_last()[j]);
            if j < k {
                assert(s1.tokens@[j] == s1.tokens@.drop_last()[j]);
                assert(rev1[j].token_hash@ != h1);
            }
        } else {
            assert(s2.tokens@[j] == s2.tokens@.last());
            if h2 == h1 {
                assert(rev2[k].token_hash@ == h2);
            }
        }
    }
    lemma_first_index_absent(s2.tokens@, active_with_hash(h1, now));
}

/// A deleted session reads as absent, exactly as a session id that was never
/// stored.
pub proof fn law_session_deleted(es: Seq<SessionEntry>, key: Seq<char>, other: Seq<char>, now: i64)
    requires
        keys_unique(es),
        forall|j: int| 0 <= j < es.len() ==> (#[trigger] es[j]).key@ != other,
    ensures
        session_at(without_key(es, key), key, now) is None,
        session_at(es, other, now) is None,
{
    lemma_first_index_spec(es, with_key(key));
    let w = without_key(es, key);
    match first_index(es, with_key(key)) {
        Some(i) => {
            assert forall|j: int| 0 <= j < w.len() implies !with_key(key)(#[trigger] w[j]) by {
                if j < i {
                    assert(w[j] == es[j]);
                } else {
                    assert(w[j] == es[j + 1]);
                }
            }
            lemma_first_index_absent(w, with_key(key));
        },
        None => {},
    }
    lemma_first_index_absent(es, with_key(other));
}

/// A session reads as present until its time to live has passed, and as
/// absent from then on.
pub proof fn law_session_expires(
    before: Seq<SessionEntry>,
    after: Seq<SessionEntry>,
    key: Seq<char>,
    account_uid: u128,
    created_at: i64,
    ttl: u64,
    now: i64,
)
    requires
        keys_unique(before),
        created(before, after, key, account_uid, created_at, ttl),
    ensures
        now < expiry(created_at, ttl) ==> session_at(after, key, now) == Some(
            crate::session::SessionData { account_uid, created_at },
        ),
        now >= expiry(created_at, ttl) ==> session_at(after, key, now) is None,
{
    let rest = without_key(before, key);
    lemma_first_index_spec(before, with_key(key));
    let last = rest.len() as int;
    assert(after[last] == after.last());
    assert forall|j: int| 0 <= j < last implies !with_key(key)(#[trigger] after[j]) by {
        assert(after[j] == after.drop_last()[j]);
        match first_index(before, with_key(key)) {
            Some(i) => {
                if j < i {
                    assert(rest[j] == before[j]);
                } else {
                    assert(rest[j] == before[j + 1]);
                }
            },
            None => {},
        }
    }
    lemma_first_index_found(after, with_key(key), last);
}

/// Resolving one provider identity twice gives the same account, and the
/// second resolution changes nothing: one identity never makes two accounts.
/// Resolutions take the store by exclusive borrow, so concurrent callers are
/// serialized and each later one is such a second resolution.
pub proof fn law_resolve_idempotent(
    s0: Store,
    s1: Store,
    s2: Store,
    input: GetOrCreateByProviderSubjectInput,
    uid1: u128,
    uid2: u128,
    t1: i64,
    t2: i64,
    r1: Result<Account, StoreError>,
    r2: Result<Account, StoreError>,
)
    requires
        s0.wf(),
        resolve_post(s0, s1, input, uid1, t1, r1),
        r1 is Ok,
        resolve_post(s1, s2, input, uid2, t2, r2),
    ensures
        r2 == r1,
        same_tables(s1, s2),
        s1.accounts@.len() <= s0.accounts@.len() + 1,
{
    let p = of_provider_subject(input.provider@, input.provider_subject@);
    lemma_first_index_spec(s0.credentials@, p);
    match first_index(s0.credentials@, p) {
        Some(ci) => {
            assert(s1.credentials@ == s0.credentials@);
            assert(s1.accounts@ == s0.accounts@);
        },
        None => {
            let last = s0.credentials@.len() as int;
            assert(s1.credentials@[last] == s1.credentials@.last());
            assert forall|j: int| 0 <= j < last implies !p(#[trigger] s1.credentials@[j]) by {
                assert(s1.credentials@[j] == s0.credentials@[j]);
            }
            lemma_first_index_found(s1.credentials@, p, last);
            let id = (s0.accounts@.len() + 1) as i64;
            let ai = s0.accounts@.len() as int;
            assert(s1.accounts@[ai] == s1.accounts@.last());
            assert forall|j: int| 0 <= j < ai implies !has_id(id)(#[trigger] s1.accounts@[j]) by {
                assert(s1.accounts@[j].id == j + 1);
            }
            lemma_first_index_found(s1.accounts@, has_id(id), ai);
        },
    }
}

/// After a registration, a second registration whose email normalizes to
/// the same address fails with `email_taken`, whatever its case or spacing.
pub proof fn law_email_taken(
    ttl: u64,
    s0: Store,
    s1: Store,
    email: Seq<char>,
    username: Option<Seq<char>>,
    password: Seq<char>,
    hash: Seq<char>,
    uid: u128,
    token: Seq<char>,
    now: i64,
    r: Result<RegisterOutput, AuthError>,
    email2: Seq<char>,
    username2: Option<Seq<char>>,
    password2: Seq<char>,
)
    requires
        s0.wf(),
        registration_check(s0, email, username, password) is Ok,
        register_post(
            ttl,
            s0,
            s1,
            registration_check(s0, email, username, password)->Ok_0.0,
            registration_check(s0, email, username, password)->Ok_0.1,
            hash,
            uid,
            token,
            now,
            r,
        ),
        r is Ok,
        normalized_email(email2) == normalized_email(email),
        registration_input(email2, username2, password2) is Ok,
    ensures
        registration_check(s1, email2, username2, password2) == Err::<
            (Seq<char>, Option<Seq<char>>),
            ErrorCode,
        >(ErrorCode::EmailTaken),
{
    let e = registration_check(s0, email, username, password)->Ok_0.0;
    let last = s0.accounts@.len() as int;
    assert(s1.accounts@[last] == s1.accounts@.last());
    lemma_first_index_spec(s1.accounts@, has_email(e));
    assert(has_email(e)(s1.accounts@[last]));
}

/// Facts about the state right after a successful registration: the login
/// identifier finds the new account, its password credential comes first, and
/// it holds the registered hash.
proof fn lemma_registered(
    ttl: u64,
    s0: Store,
    s1: Store,
    email: Seq<char>,
    username: Option<Seq<char>>,
    password: Seq<char>,
    hash: Seq<char>,
    uid: u128,
    token: Seq<char>,
    now: i64,
    r: Result<RegisterOutput, AuthError>,
)
    requires
        s0.wf(),
        registration_check(s0, email, username, password) is Ok,
        register_post(
            ttl,
            s0,
            s1,
            registration_check(s0, email, username, password)->Ok_0.0,
            registration_check(s0, email, username, password)->Ok_0.1,
            hash,
            uid,
            token,
            now,
            r,
        ),
        r is Ok,
    ensures
        ({
            let ai = s0.accounts@.len() as int;
            let id = (s0.accounts@.len() + 1) as i64;
            &&& lower_of(trimmed(email)).len() > 0
            &&& login_account(s1, lower_of(trimmed(email))) == Some(ai)
            &&& s1.accounts@[ai].id == id
            &&& first_index(s1.credentials@, of_account_and_provider(id, PROVIDER_PASSWORD@))
                == Some(s0.credentials@.len() as int)
            &&& s1.credentials@[s0.credentials@.len() as int].password_hash matches Some(h) && h@
                == hash
            &&& issue_succeeds(s0.tokens@, id, token, now)
        }),
{
    let e = registration_check(s0, email, username, password)->Ok_0.0;
    assert(normalized_email(email) == Some(e));
    let ai = s0.accounts@.len() as int;
    let id = (s0.accounts@.len() + 1) as i64;
    assert(s1.accounts@[ai] == s1.accounts@.last());
    lemma_first_index_spec(s0.accounts@, has_email(e));
    assert forall|j: int| 0 <= j < ai implies !has_email(e)(#[trigger] s1.accounts@[j]) by {
        assert(s1.accounts@[j] == s0.accounts@[j]);
    }
    lemma_first_index_found(s1.accounts@, has_email(e), ai);
    let ci = s0.credentials@.len() as int;
    let pc = of_account_and_provider(id, PROVIDER_PASSWORD@);
    assert(s1.credentials@[ci] == s1.credentials@.last());
    assert forall|j: int| 0 <= j < ci implies !pc(#[trigger] s1.credentials@[j]) by {
        assert(s1.credentials@[j] == s0.credentials@[j]);
        assert(!clashes_with_password(s0.credentials@[j], id, e));
    }
    lemma_first_index_found(s1.credentials@, pc, ci);
}

/// Login with the right password is refused with `email_not_verified` while
/// the registration's verification token is pending (issued and not yet
/// expired); once the token is redeemed before it expires, the same login,
/// made after the registration, succeeds for the registered account.
pub proof fn law_login_after_verification(
    ttl: u64,
    s0: Store,
    s1: Store,
    s2: Store,
    email: Seq<char>,
    username: Option<Seq<char>>,
    password: Seq<char>,
    hash: Seq<char>,
    uid: u128,
    token: Seq<char>,
    registered_at: i64,
    r: Result<RegisterOutput, AuthError>,
    now1: i64,
    now2: i64,
    now3: i64,
    rv: Result<i64, VerificationError>,
)
    requires
        s0.wf(),
        registration_check(s0, email, username, password) is Ok,
        argon2_accepts(hash, encode_utf8(password)),
        register_post(
            ttl,
            s0,
            s1,
            registration_check(s0, email, username, password)->Ok_0.0,
            registration_check(s0, email, username, password)->Ok_0.1,
            hash,
            uid,
            token,
            registered_at,
            r,
        ),
        r is Ok,
        now1 < expiry(registered_at, ttl),
        now2 < expiry(registered_at, ttl),
        redeem_post(s1, s2, token, now2, rv),
        registered_at <= now3,
    ensures
        login_outcome(s1, email, password, now1) == Err::<int, ErrorCode>(ErrorCode::EmailNotVerified),
        rv == Ok::<i64, VerificationError>((s0.accounts@.len() + 1) as i64),
        login_outcome(s2, email, password, now3) == Ok::<int, ErrorCode>(s0.accounts@.len() as int),
{
    lemma_registered(ttl, s0, s1, email, username, password, hash, uid, token, registered_at, r);
    let id = (s0.accounts@.len() + 1) as i64;
    let rev = superseded(s0.tokens@, id, registered_at);
    let last = rev.len() as int;
    let h = token_hash_of(token);
    assert(s1.tokens@[last] == s1.tokens@.last());
    let pt1 = active_of_type(id, TOKEN_TYPE_VERIFY_EMAIL@, now1);
    lemma_first_index_spec(s1.tokens@, pt1);
    assert(pt1(s1.tokens@[last]));
    assert forall|j: int| 0 <= j < last implies !active_with_hash(h, now2)(#[trigger] s1.tokens@[j]) by {
        assert(s1.tokens@[j] == s1.tokens@.drop_last()[j]);
        assert(rev[j].token_hash@ != h);
    }
    lemma_first_index_found(s1.tokens@, active_with_hash(h, now2), last);
    let pt3 = active_of_type(id, TOKEN_TYPE_VERIFY_EMAIL@, now3);
    assert forall|j: int| 0 <= j < s2.tokens@.len() implies !pt3(#[trigger] s2.tokens@[j]) by {
        if j < last {
            assert(s2.tokens@[j] == s1.tokens@[j]);
            assert(s1.tokens@[j] == s1.tokens@.drop_last()[j]);
            assert(rev[j] == (if active_of_type(id, TOKEN_TYPE_VERIFY_EMAIL@, registered_at)(s0.tokens@[j]) {
                crate::store::revoked(s0.tokens@[j], registered_at)
            } else {
                s0.tokens@[j]
            }));
        }
    }
    lemma_first_index_absent(s2.tokens@, pt3);
}

/// A hash made of a password verifies against that same password.
pub proof fn law_hash_then_verify(
    password: Seq<char>,
    hashed: Result<String, AuthError>,
    checked: Result<(), AuthError>,
)
    requires
        hash_result(password, hashed),
        hashed is Ok,
        verify_result(hashed->Ok_0@, password, checked),
    ensures
        checked is Ok,
{
}

/// When a live credential links the provider identity to a live account,
/// resolving the identity returns that account and adds nothing.
pub proof fn law_resolve_finds_linked_account(
    s0: Store,
    s1: Store,
    input: GetOrCreateByProviderSubjectInput,
    uid: u128,
    now: i64,
    r: Result<Account, StoreError>,
    ci: int,
    ai: int,
)
    requires
        s0.wf(),
        0 <= ci < s0.credentials@.len(),
        of_provider_subject(input.provider@, input.provider_subject@)(s0.credentials@[ci]),
        0 <= ai < s0.accounts@.len(),
        has_id(s0.credentials@[ci].account_id)(s0.accounts@[ai]),
        resolve_post(s0, s1, input, uid, now, r),
    ensures
        r == Ok::<Account, StoreError>(s0.accounts@[ai]),
        same_tables(s0, s1),
{
    let p = of_provider_subject(input.provider@, input.provider_subject@);
    lemma_first_index_spec(s0.credentials@, p);
    let k = first_index(s0.credentials@, p)->0;
    if k != ci {
        assert(crate::store::credentials_clash(s0.credentials@[k], s0.credentials@[ci]));
    }
    let id = s0.credentials@[ci].account_id;
    assert(s0.accounts@[ai].id == ai + 1);
    assert forall|j: int| 0 <= j < ai implies !has_id(id)(#[trigger] s0.accounts@[j]) by {
        assert(s0.accounts@[j].id == j + 1);
    }
    lemma_first_index_found(s0.accounts@, has_id(id), ai);
}

/// After an account is soft-deleted, no live account has its `uid`: a lookup
/// by `uid` finds nothing.
pub proof fn law_deleted_account_is_gone(
    s0: Store,
    s1: Store,
    uid: u128,
    deleted_by: Option<u128>,
    now: i64,
    r: Option<Account>,
)
    requires
        s0.wf(),
        delete_post(s0, s1, uid, deleted_by, now, r),
    ensures
        first_index(s1.accounts@, has_uid(uid)) is None,
{
    lemma_first_index_spec(s0.accounts@, has_uid(uid));
    match first_index(s0.accounts@, has_uid(uid)) {
        Some(i) => {
            assert forall|j: int| 0 <= j < s1.accounts@.len() implies !has_uid(uid)(
                #[trigger] s1.accounts@[j],
            ) by {
                if j != i {
                    assert(s1.accounts@[j] == s0.accounts@[j]);
                    assert(!crate::store::accounts_clash(s0.accounts@[j], s0.accounts@[i]));
                }
            }
        },
        None => {},
    }
    lemma_first_index_absent(s1.accounts@, has_uid(uid));
}

} // verus!
