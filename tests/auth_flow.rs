use auth_core::api::{current_account, current_account_at, MeResponse};
use auth_core::auth::AuthServiceImpl;
use auth_core::error::ErrorCode;
use auth_core::session::SessionStore;
use auth_core::store::Store;
use auth_core::verification::VerificationServiceImpl;

fn service() -> AuthServiceImpl {
    AuthServiceImpl::new(VerificationServiceImpl::new(3600))
}

fn sessions() -> SessionStore {
    SessionStore::new(3600, "auth-api".to_string())
}

#[test]
fn smoke_auth_flow() {
    let auth = service();
    let mut store = Store::new();
    let mut sessions = sessions();

    let registered = auth
        .register(&mut store, "new@example.com", None, "Abcdef1!")
        .expect("register");
    assert_eq!(registered.account.email.as_deref(), Some("new@example.com"));
    let response = auth_core::api::RegisterResponse::from_output(&registered);
    assert!(response.verification_required);
    assert_eq!(response.email, "new@example.com");

    let err = auth
        .login(&store, &mut sessions, "new@example.com", "Abcdef1!")
        .unwrap_err();
    assert_eq!(err.code, ErrorCode::EmailNotVerified);
    assert_eq!(err.code.as_str(), "email_not_verified");

    let account_id = auth
        .verification
        .verify_email_token(&mut store, &registered.verify_token)
        .expect("verify");
    assert_eq!(account_id, registered.account.id);

    let login = auth
        .login(&store, &mut sessions, "new@example.com", "Abcdef1!")
        .expect("login");
    assert_eq!(login.session_id.len(), 32);

    let me = current_account(&store, &sessions, &login.session_id).expect("me");
    let me = MeResponse::from_account(&me);
    assert_eq!(me.email.as_deref(), Some("new@example.com"));

    sessions.delete(&login.session_id);
    assert!(current_account(&store, &sessions, &login.session_id).is_none());
}

#[test]
fn register_same_email_in_other_case_is_taken() {
    let auth = service();
    let mut store = Store::new();
    auth.register(&mut store, "new@example.com", None, "Abcdef1!")
        .expect("first");
    let err = auth
        .register(&mut store, "  New@Example.com ", None, "Abcdef1!")
        .unwrap_err();
    assert_eq!(err.code, ErrorCode::EmailTaken);
    assert_eq!(store.accounts.len(), 1);
}

#[test]
fn register_username_taken() {
    let auth = service();
    let mut store = Store::new();
    auth.register(&mut store, "a@example.com", Some("Alice"), "Abcdef1!")
        .expect("first");
    let err = auth
        .register(&mut store, "b@example.com", Some(" alice "), "Abcdef1!")
        .unwrap_err();
    assert_eq!(err.code, ErrorCode::UsernameTaken);
}

#[test]
fn register_validation_errors_in_order() {
    let auth = service();
    let mut store = Store::new();
    let e = auth.register(&mut store, "no-at-sign", Some(""), "x").unwrap_err();
    assert_eq!(e.code, ErrorCode::InvalidEmail);
    let e = auth.register(&mut store, "a@b.c", Some("   "), "x").unwrap_err();
    assert_eq!(e.code, ErrorCode::InvalidUsername);
    let e = auth.register(&mut store, "a@b.c", None, "short1!").unwrap_err();
    assert_eq!(e.code, ErrorCode::InvalidPassword);
    assert_eq!(store.accounts.len(), 0);
}

#[test]
fn register_stores_normalized_rows() {
    let auth = service();
    let mut store = Store::new();
    let out = auth
        .register(&mut store, " Mixed@Case.ORG ", Some(" Bob "), "Abcdef1!")
        .expect("register");
    assert_eq!(out.account.email.as_deref(), Some("mixed@case.org"));
    assert_eq!(out.account.username.as_deref(), Some("bob"));
    assert_eq!(out.account.account_type, "user");
    assert_eq!(store.credentials.len(), 1);
    let cred = &store.credentials[0];
    assert_eq!(cred.provider, "password");
    assert_eq!(cred.provider_subject.as_deref(), Some("mixed@case.org"));
    assert!(cred.password_hash.as_deref().unwrap().starts_with("$argon2id$"));
    assert_eq!(store.tokens.len(), 1);
    assert_eq!(store.tokens[0].token_type, "auth:verify_email");
    assert_ne!(store.tokens[0].token_hash, out.verify_token);
}

#[test]
fn login_by_username_after_verification() {
    let auth = service();
    let mut store = Store::new();
    let mut sessions = sessions();
    let out = auth
        .register(&mut store, "u@example.com", Some("User1"), "Abcdef1!")
        .unwrap();
    auth.verification
        .verify_email_token(&mut store, &out.verify_token)
        .unwrap();
    let login = auth
        .login(&store, &mut sessions, " USER1 ", "Abcdef1!")
        .expect("login");
    assert_eq!(login.account.id, out.account.id);
    assert_eq!(sessions.entries.len(), 1);
}

#[test]
fn login_failures_are_uniform() {
    let auth = service();
    let mut store = Store::new();
    let mut sessions = sessions();
    let out = auth
        .register(&mut store, "w@example.com", None, "Abcdef1!")
        .unwrap();
    auth.verification
        .verify_email_token(&mut store, &out.verify_token)
        .unwrap();
    let wrong = auth
        .login(&store, &mut sessions, "w@example.com", "Abcdef1?")
        .unwrap_err();
    let unknown = auth
        .login(&store, &mut sessions, "nobody@example.com", "Abcdef1!")
        .unwrap_err();
    let empty = auth.login(&store, &mut sessions, "   ", "Abcdef1!").unwrap_err();
    assert_eq!(wrong.code, ErrorCode::InvalidCredentials);
    assert_eq!(unknown.code, ErrorCode::InvalidCredentials);
    assert_eq!(empty.code, ErrorCode::InvalidCredentials);
    assert_eq!(wrong.message, "invalid credentials");
    assert_eq!(unknown.message, "invalid credentials");
    assert_eq!(empty.message, "invalid credentials");
    assert_eq!(sessions.entries.len(), 0);
}

#[test]
fn login_with_unparsable_hash_is_invalid_credentials() {
    let auth = service();
    let mut store = Store::new();
    let mut sessions = sessions();
    let out = auth
        .complete_registration_at(&mut store, "t@example.com", None, "$argon2id$bogus", 7, "tok", 1000)
        .unwrap();
    assert_eq!(out.verify_expires_at, 4600);
    let pending = auth
        .login_at(&store, &mut sessions, "t@example.com", "whatever", "sid", 2000)
        .unwrap_err();
    // the stored hash does not parse, so the password check fails first
    assert_eq!(pending.code, ErrorCode::InvalidCredentials);
}

#[test]
fn login_before_and_after_verification_at_fixed_times() {
    let auth = service();
    let mut store = Store::new();
    let mut sessions = sessions();
    let hash = auth_core::password::hash_password("Abcdef1!").unwrap();
    let out = auth
        .complete_registration_at(&mut store, "v@example.com", None, &hash, 1, "tok", 1000)
        .unwrap();
    assert_eq!(out.account.uid, 1);
    let early = auth
        .login_at(&store, &mut sessions, "v@example.com", "Abcdef1!", "sid", 1500)
        .unwrap_err();
    assert_eq!(early.code, ErrorCode::EmailNotVerified);
    assert!(sessions.entries.is_empty());
    assert_eq!(
        auth.verification.verify_email_token_at(&mut store, "tok", 1600).unwrap(),
        out.account.id
    );
    let ok = auth
        .login_at(&store, &mut sessions, "V@Example.com ", "Abcdef1!", "sid", 1700)
        .unwrap();
    assert_eq!(ok.session_id, "sid");
    assert_eq!(sessions.get_at("sid", 1701).unwrap().account_uid, 1);
    assert_eq!(sessions.get_at("sid", 1701).unwrap().created_at, 1700);
}

#[test]
fn pending_token_stops_blocking_once_expired() {
    let auth = service();
    let mut store = Store::new();
    let mut sessions = sessions();
    let hash = auth_core::password::hash_password("Abcdef1!").unwrap();
    auth.complete_registration_at(&mut store, "x@example.com", None, &hash, 2, "tok", 1000)
        .unwrap();
    assert!(auth
        .login_at(&store, &mut sessions, "x@example.com", "Abcdef1!", "s", 4600)
        .is_ok());
}

#[test]
fn current_account_needs_a_live_session_and_account() {
    let auth = service();
    let mut store = Store::new();
    let mut sessions = sessions();
    let hash = auth_core::password::hash_password("Abcdef1!").unwrap();
    let out = auth
        .complete_registration_at(&mut store, "c@example.com", None, &hash, 9, "tok", 0)
        .unwrap();
    auth.verification.verify_email_token_at(&mut store, "tok", 1).unwrap();
    auth.login_at(&store, &mut sessions, "c@example.com", "Abcdef1!", "sid", 10)
        .unwrap();
    assert_eq!(current_account_at(&store, &sessions, "sid", 11).unwrap().id, out.account.id);
    assert!(current_account_at(&store, &sessions, "sid", 3610).is_none());
    assert!(current_account_at(&store, &sessions, "other", 11).is_none());
    store.accounts[0].deleted_at = Some(12);
    store.accounts[0].deleted_by = Some(0);
    assert!(current_account_at(&store, &sessions, "sid", 13).is_none());
}
