use auth_core::accounts::{AccountsServiceImpl, GetOrCreateByProviderSubjectInput};
use auth_core::error::ErrorCode;
use auth_core::session::{SessionData, SessionStore};
use auth_core::store::{Account, Store, StoreError};
use auth_core::verification::VerificationServiceImpl;

fn account(uid: u128, email: &str) -> Account {
    Account {
        id: 0,
        uid,
        account_type: "user".to_string(),
        username: None,
        email: Some(email.to_string()),
        phone: None,
        created_at: 0,
        updated_at: 0,
        deleted_at: None,
        created_by: None,
        updated_by: None,
        deleted_by: None,
    }
}

#[test]
fn redeem_twice_fails() {
    let v = VerificationServiceImpl::new(60);
    let mut store = Store::new();
    v.create_email_verification_at(&mut store, 5, "plain", 100).unwrap();
    assert_eq!(v.verify_email_token_at(&mut store, "plain", 120).unwrap(), 5);
    let second = v.verify_email_token_at(&mut store, "plain", 121).unwrap_err();
    assert_eq!(second.code, ErrorCode::InvalidToken);
    assert_eq!(second.code.as_str(), "invalid_token");
}

#[test]
fn reissue_revokes_first() {
    let v = VerificationServiceImpl::new(60);
    let mut store = Store::new();
    v.create_email_verification_at(&mut store, 5, "first", 100).unwrap();
    v.create_email_verification_at(&mut store, 5, "second", 110).unwrap();
    assert_eq!(store.tokens[0].revoked_at, Some(110));
    let e = v.verify_email_token_at(&mut store, "first", 111).unwrap_err();
    assert_eq!(e.code, ErrorCode::InvalidToken);
    assert_eq!(v.verify_email_token_at(&mut store, "second", 111).unwrap(), 5);
}

#[test]
fn token_expires() {
    let v = VerificationServiceImpl::new(60);
    let mut store = Store::new();
    let t = v.create_email_verification_at(&mut store, 9, "tok", 100).unwrap();
    assert_eq!(t.expires_at, 160);
    assert_eq!(t.token, "tok");
    let e = v.verify_email_token_at(&mut store, "tok", 160).unwrap_err();
    assert_eq!(e.code, ErrorCode::InvalidToken);
    assert_eq!(v.verify_email_token_at(&mut store, "tok", 159).unwrap(), 9);
}

#[test]
fn expiry_saturates() {
    let v = VerificationServiceImpl::new(u64::MAX);
    let mut store = Store::new();
    let t = v.create_email_verification_at(&mut store, 1, "x", 10).unwrap();
    assert_eq!(t.expires_at, i64::MAX);
}

#[test]
fn same_token_hash_is_refused() {
    let v = VerificationServiceImpl::new(60);
    let mut store = Store::new();
    v.create_email_verification_at(&mut store, 1, "dup", 0).unwrap();
    let e = v.create_email_verification_at(&mut store, 2, "dup", 0).unwrap_err();
    assert_eq!(e.code, ErrorCode::DbError);
}

#[test]
fn other_token_type_is_invalid() {
    let v = VerificationServiceImpl::new(60);
    let mut store = Store::new();
    v.create_email_verification_at(&mut store, 1, "abc", 0).unwrap();
    store.tokens[0].token_type = "auth:reset".to_string();
    let e = v.verify_email_token_at(&mut store, "abc", 1).unwrap_err();
    assert_eq!(e.code, ErrorCode::InvalidToken);
    assert!(store.tokens[0].revoked_at.is_none());
}

#[test]
fn hash_token_is_sha256_hex() {
    assert_eq!(
        VerificationServiceImpl::hash_token("abc"),
        "ba7816bf8f01cfea414140de5dae2223b00361a396177a9cb410ff61f20015ad"
    );
}

#[test]
fn generated_token_is_url_safe_base64_of_32_bytes() {
    let t = VerificationServiceImpl::generate_token();
    assert_eq!(t.len(), 43);
    assert!(t.chars().all(|c| c.is_ascii_alphanumeric() || c == '-' || c == '_'));
    assert_ne!(t, VerificationServiceImpl::generate_token());
}

#[test]
fn session_get_after_delete_is_absent() {
    let mut s = SessionStore::new(30, "p".to_string());
    s.create_at("abc", 42, 1000);
    assert_eq!(
        s.get_at("abc", 1001),
        Some(SessionData { account_uid: 42, created_at: 1000 })
    );
    s.delete("abc");
    assert_eq!(s.get_at("abc", 1001), None);
    assert_eq!(s.get_at("never", 1001), None);
    s.delete("abc");
    assert!(s.entries.is_empty());
}

#[test]
fn session_expires_after_ttl() {
    let mut s = SessionStore::new(30, "p".to_string());
    s.create_at("abc", 42, 1000);
    assert!(s.get_at("abc", 1029).is_some());
    assert!(s.get_at("abc", 1030).is_none());
    assert_eq!(s.key("abc"), "p:session:abc");
}

#[test]
fn session_create_replaces_same_id() {
    let mut s = SessionStore::new(30, "p".to_string());
    s.create_at("abc", 1, 0);
    s.create_at("abc", 2, 5);
    assert_eq!(s.entries.len(), 1);
    assert_eq!(s.get_at("abc", 6).unwrap().account_uid, 2);
}

#[test]
fn session_create_now_is_readable() {
    let mut s = SessionStore::new(3600, "p".to_string());
    let id = s.create(7);
    assert_eq!(id.len(), 32);
    assert_eq!(s.get(&id).unwrap().account_uid, 7);
}

fn github_input() -> GetOrCreateByProviderSubjectInput {
    GetOrCreateByProviderSubjectInput {
        provider: "github".to_string(),
        provider_subject: "test-1".to_string(),
        account_type: "user".to_string(),
        username: Some("gh_test_1".to_string()),
        email: None,
        created_by: None,
    }
}

#[test]
fn get_or_create_by_provider_subject_uses_transaction() {
    let svc = AccountsServiceImpl::new();
    let mut store = Store::new();
    let input = github_input();
    let first = svc.get_or_create_by_provider_subject(&mut store, &input).unwrap();
    let second = svc.get_or_create_by_provider_subject(&mut store, &input).unwrap();
    assert_eq!(first.id, second.id);
    assert_eq!(first.uid, second.uid);
    assert_eq!(store.accounts.len(), 1);
    assert_eq!(store.credentials.len(), 1);
    assert_eq!(store.credentials[0].provider_subject.as_deref(), Some("test-1"));
    assert!(store.credentials[0].password_hash.is_none());
}

#[test]
fn orphaned_credential_is_not_found() {
    let svc = AccountsServiceImpl::new();
    let mut store = Store::new();
    let input = github_input();
    svc.get_or_create_by_provider_subject_at(&mut store, &input, 1, 0).unwrap();
    store.accounts[0].deleted_at = Some(5);
    let e = svc.get_or_create_by_provider_subject_at(&mut store, &input, 2, 6).unwrap_err();
    assert_eq!(
        e,
        StoreError::NotFound("account not found for credential github:test-1".to_string())
    );
}

#[test]
fn resolve_rolls_back_on_clash() {
    let svc = AccountsServiceImpl::new();
    let mut store = Store::new();
    store.insert_account(account(9, "x@example.com")).unwrap();
    let e = svc
        .get_or_create_by_provider_subject_at(&mut store, &github_input(), 9, 0)
        .unwrap_err();
    assert_eq!(e, StoreError::Conflict);
    assert_eq!(store.accounts.len(), 1);
    assert_eq!(store.credentials.len(), 0);
}

#[test]
fn store_lookups() {
    let mut store = Store::new();
    assert_eq!(store.insert_account(account(1, "a@x")).unwrap(), 1);
    assert_eq!(store.insert_account(account(2, "b@x")).unwrap(), 2);
    assert_eq!(store.insert_account(account(3, "a@x")), Err(StoreError::Conflict));
    assert_eq!(store.find_by_email("b@x"), Some(1));
    assert_eq!(store.find_by_uid(1), Some(0));
    assert_eq!(store.find_by_id(2), Some(1));
    assert_eq!(store.find_by_id(3), None);
    store.accounts[0].deleted_at = Some(1);
    assert_eq!(store.find_by_email("a@x"), None);
    assert_eq!(store.insert_account(account(4, "a@x")).unwrap(), 3);
}

#[test]
fn account_rows_must_pass_checks() {
    let mut store = Store::new();
    let mut a = account(1, "a@x");
    a.account_type = "alien".to_string();
    assert_eq!(store.insert_account(a), Err(StoreError::Invalid));
    let mut b = account(2, "b@x");
    b.deleted_at = Some(3);
    assert_eq!(store.insert_account(b), Err(StoreError::Invalid));
    let mut c = account(3, "c@x");
    c.account_type = "robot".to_string();
    assert_eq!(store.insert_account(c), Ok(1));
    let svc = AccountsServiceImpl::new();
    let mut input = github_input();
    input.account_type = "bogus".to_string();
    assert_eq!(
        svc.get_or_create_by_provider_subject_at(&mut store, &input, 4, 0).unwrap_err(),
        StoreError::Invalid
    );
    assert_eq!(store.credentials.len(), 0);
}

#[test]
fn lookups_ignore_letter_case() {
    let mut store = Store::new();
    store.insert_account(account(1, "New@X.com")).unwrap();
    assert_eq!(store.find_by_email("new@x.com"), Some(0));
    assert_eq!(store.insert_account(account(2, "NEW@x.COM")), Err(StoreError::Conflict));
    let auth = auth_core::auth::AuthServiceImpl::new(VerificationServiceImpl::new(60));
    let e = auth.register(&mut store, "new@x.com", None, "Abcdef1!").unwrap_err();
    assert_eq!(e.code, ErrorCode::EmailTaken);
}

#[test]
fn session_ids_are_lower_hex() {
    let mut s = SessionStore::new(60, "p".to_string());
    let id = s.create(1);
    assert!(id.chars().all(|c| c.is_ascii_digit() || ('a'..='f').contains(&c)));
}

#[test]
fn hash_token_is_lower_hex() {
    let h = VerificationServiceImpl::hash_token("token");
    assert_eq!(h.len(), 64);
    assert!(h.chars().all(|c| c.is_ascii_digit() || ('a'..='f').contains(&c)));
}
