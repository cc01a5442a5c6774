use vstd::prelude::*;

use crate::accounts::GetOrCreateByProviderSubjectInput;
use crate::auth::{ACCOUNT_TYPE_USER, LoginOutput, RegisterOutput};
use crate::config::Config;
use crate::email::{url_encode, url_encoded_of};
use crate::random::now_unix_seconds;
use crate::error::ErrorCode;
use crate::search::first_index;
use crate::session::{SessionStore, session_at, session_key};
use crate::store::{Account, Store, clone_text, has_uid};
use crate::text::contains_char;

verus! {

/// The lower-case hex digit of a value below 16.
pub open spec fn lower_hex_char(d: u128) -> char {
    if d < 10 {
        (48 + d) as char
    } else {
        (87 + d) as char
    }
}

/// Hex digit `k` of a 128-bit value, counted from the most significant.
pub open spec fn nibble(u: u128, k: int) -> u128 {
    (u >> ((4 * (31 - k)) as u128)) & 0xf
}

/// The hyphenated text of a UUID value: its 32 lower-case hex digits, most
/// significant first, in groups of 8-4-4-4-12.
pub open spec fn uuid_text_of(u: u128) -> Seq<char> {
    Seq::new(
        36,
        |i: int|
            if i == 8 || i == 13 || i == 18 || i == 23 {
                '-'
            } else {
                let hyphens_before: int = if i < 8 {
                    0
                } else if i < 13 {
                    1
                } else if i < 18 {
                    2
                } else if i < 23 {
                    3
                } else {
                    4
                };
                lower_hex_char(nibble(u, i - hyphens_before))
            },
    )
}

/// The RFC 3339 text of a Unix time in seconds, in UTC.
pub uninterp spec fn rfc3339_of(t: i64) -> Seq<char>;

/// The decimal digits of a number, without leading zeros.
pub open spec fn decimal_text(n: nat) -> Seq<char>
    decreases n,
{
    if n < 10 {
        seq![(48 + n) as char]
    } else {
        decimal_text(n / 10).push((48 + n % 10) as char)
    }
}

pub open spec fn decimal_of(n: u64) -> Seq<char> {
    decimal_text(n as nat)
}

/// Relies on uuid's `Uuid::from_u128(u).hyphenated().to_string()`: the
/// big-endian bytes of the value in lower-case hex, grouped 8-4-4-4-12.
#[verifier::external_body]
pub(crate) fn uuid_text(u: u128) -> (r: String)
    ensures
        r@ == uuid_text_of(u),
{
    uuid::Uuid::from_u128(u).hyphenated().to_string()
}

/// Relies on chrono's `DateTime::from_timestamp(t, 0)`, which has no value
/// outside the dates it can represent, and `to_rfc3339`.
#[verifier::external_body]
pub(crate) fn rfc3339(t: i64) -> (r: Option<String>)
    ensures
        r matches Some(s) ==> s@ == rfc3339_of(t),
{
    match chrono::DateTime::from_timestamp(t, 0) {
        Some(d) => Some(d.to_rfc3339()),
        None => None,
    }
}

/// Relies on `u64::to_string`: the decimal digits of the number.
#[verifier::external_body]
pub(crate) fn decimal(n: u64) -> (r: String)
    ensures
        r@ == decimal_of(n),
{
    n.to_string()
}

/// An error body: the machine-readable code and a message.
#[derive(Debug)]
pub struct ErrorResponse {
    pub code: String,
    pub message: String,
}

#[derive(Debug)]
pub struct RegisterRequest {
    pub email: String,
    pub username: Option<String>,
    pub password: String,
}

#[derive(Debug)]
pub struct RegisterResponse {
    pub account_uid: String,
    pub email: String,
    pub username: Option<String>,
    pub verification_required: bool,
    pub verification_expires_at: Option<String>,
}

#[derive(Debug)]
pub struct LoginRequest {
    pub identifier: String,
    pub password: String,
}

#[derive(Debug)]
pub struct LoginResponse {
    pub account_uid: String,
    pub username: Option<String>,
    pub email: Option<String>,
}

#[derive(Debug)]
pub struct VerifyEmailRequest {
    pub token: String,
}

#[derive(Debug)]
pub struct VerifyEmailResponse {
    pub status: String,
}

/// The account behind a session.
#[derive(Debug)]
pub struct MeResponse {
    pub account_uid: String,
    pub username: Option<String>,
    pub email: Option<String>,
}

#[derive(Debug)]
pub struct Health {
    pub status: String,
}

/// The query of the OAuth callback.
#[derive(Debug)]
pub struct GithubCallbackQuery {
    pub code: Option<String>,
    pub error: Option<String>,
    pub error_description: Option<String>,
}

#[derive(Debug)]
pub struct GithubAuthResponse {
    pub account_uid: String,
    pub username: Option<String>,
    pub email: Option<String>,
    pub provider_subject: String,
}

/// The OAuth settings that the GitHub flow needs, all present.
#[derive(Debug)]
pub struct GithubOAuthConfig {
    pub client_id: String,
    pub client_secret: String,
    pub redirect_url: String,
    pub authorize_url: String,
    pub token_url: String,
    pub api_base: String,
}

/// The provider name of GitHub identities.
pub const PROVIDER_GITHUB: &'static str = "github";

impl ErrorResponse {
    pub fn new(code: ErrorCode, message: &str) -> (r: ErrorResponse)
        ensures
            r.code@ == crate::error::code_text(code),
            r.message@ == message@,
    {
        ErrorResponse { code: code.as_str().to_string(), message: message.to_string() }
    }
}

impl Health {
    pub fn ok() -> (r: Health)
        ensures
            r.status@ == "ok"@,
    {
        Health { status: "ok".to_string() }
    }
}

impl VerifyEmailResponse {
    pub fn ok() -> (r: VerifyEmailResponse)
        ensures
            r.status@ == "ok"@,
    {
        VerifyEmailResponse { status: "ok".to_string() }
    }
}

impl RegisterResponse {
    /// What a registration shows: the new account, and that its email awaits
    /// verification.
    pub fn from_output(output: &RegisterOutput) -> (r: RegisterResponse)
        ensures
            r.account_uid@ == uuid_text_of(output.account.uid),
            r.email@ == match output.account.email {
                Some(e) => e@,
                None => Seq::<char>::empty(),
            },
            r.username == output.account.username,
            r.verification_required,
            r.verification_expires_at matches Some(t) ==> t@ == rfc3339_of(output.verify_expires_at),
    {
        RegisterResponse {
            account_uid: uuid_text(output.account.uid),
            email: match &output.account.email {
                Some(e) => e.clone(),
                None => String::new(),
            },
            username: clone_text(&output.account.username),
            verification_required: true,
            verification_expires_at: rfc3339(output.verify_expires_at),
        }
    }
}

impl LoginResponse {
    pub fn from_output(output: &LoginOutput) -> (r: LoginResponse)
        ensures
            r.account_uid@ == uuid_text_of(output.account.uid),
            r.username == output.account.username,
            r.email == output.account.email,
    {
        LoginResponse {
            account_uid: uuid_text(output.account.uid),
            username: clone_text(&output.account.username),
            email: clone_text(&output.account.email),
        }
    }
}

impl MeResponse {
    pub fn from_account(account: &Account) -> (r: MeResponse)
        ensures
            r.account_uid@ == uuid_text_of(account.uid),
            r.username == account.username,
            r.email == account.email,
    {
        MeResponse {
            account_uid: uuid_text(account.uid),
            username: clone_text(&account.username),
            email: clone_text(&account.email),
        }
    }
}

impl GithubAuthResponse {
    /// What a GitHub login shows: the account and the provider identity.
    pub fn new(account: &Account, provider_subject: &str) -> (r: GithubAuthResponse)
        ensures
            r.account_uid@ == uuid_text_of(account.uid),
            r.username == account.username,
            r.email == account.email,
            r.provider_subject@ == provider_subject@,
    {
        GithubAuthResponse {
            account_uid: uuid_text(account.uid),
            username: clone_text(&account.username),
            email: clone_text(&account.email),
            provider_subject: provider_subject.to_string(),
        }
    }
}

/// The live account that session `session_id` belongs to at time `now`.
pub open spec fn account_of_session(store: Store, sessions: SessionStore, session_id: Seq<char>, now: i64) -> Option<int> {
    match session_at(sessions.entries@, session_key(sessions.key_prefix@, session_id), now) {
        Some(d) => first_index(store.accounts@, has_uid(d.account_uid)),
        None => None,
    }
}

/// The account behind a session at time `now`; a missing or expired session,
/// or an account no longer live, gives `None`.
pub fn current_account_at(store: &Store, sessions: &SessionStore, session_id: &str, now: i64) -> (r: Option<Account>)
    ensures
        match account_of_session(*store, *sessions, session_id@, now) {
            Some(i) => r == Some(store.accounts@[i]),
            None => r is None,
        },
{
    let data = sessions.get_at(session_id, now)?;
    match store.find_by_uid(data.account_uid) {
        Some(i) => Some(store.accounts[i].copy()),
        None => None,
    }
}

/// The account behind a session now.
pub fn current_account(store: &Store, sessions: &SessionStore, session_id: &str) -> (r: Option<Account>)
    ensures
        exists|now: i64|
            match #[trigger] account_of_session(*store, *sessions, session_id@, now) {
                Some(i) => r == Some(store.accounts@[i]),
                None => r is None,
            },
{
    let now = now_unix_seconds();
    current_account_at(store, sessions, session_id, now)
}

/// The GitHub OAuth settings, or the message naming the first one missing.
pub fn github_config(cfg: &Config) -> (r: Result<GithubOAuthConfig, String>)
    ensures
        r is Ok <==> (cfg.github_client_id is Some && cfg.github_client_secret is Some
            && cfg.github_redirect_url is Some),
        r matches Ok(g) ==> {
            &&& cfg.github_client_id == Some(g.client_id)
            &&& cfg.github_client_secret == Some(g.client_secret)
            &&& cfg.github_redirect_url == Some(g.redirect_url)
            &&& g.authorize_url == cfg.github_authorize_url
            &&& g.token_url == cfg.github_token_url
            &&& g.api_base == cfg.github_api_base
        },
{
    let client_id = match &cfg.github_client_id {
        Some(v) => v.clone(),
        None => {
            return Err("AUTH_GITHUB_CLIENT_ID is not set".to_string());
        },
    };
    let client_secret = match &cfg.github_client_secret {
        Some(v) => v.clone(),
        None => {
            return Err("AUTH_GITHUB_CLIENT_SECRET is not set".to_string());
        },
    };
    let redirect_url = match &cfg.github_redirect_url {
        Some(v) => v.clone(),
        None => {
            return Err("AUTH_GITHUB_REDIRECT_URL is not set".to_string());
        },
    };
    Ok(
        GithubOAuthConfig {
            client_id,
            client_secret,
            redirect_url,
            authorize_url: cfg.github_authorize_url.clone(),
            token_url: cfg.github_token_url.clone(),
            api_base: cfg.github_api_base.clone(),
        },
    )
}

/// The URL that starts the GitHub login: the authorize URL with the client id,
/// the redirect URL and the scopes as query parameters.
pub fn github_authorize_redirect(config: &GithubOAuthConfig) -> (r: String)
    ensures
        r@ == config.authorize_url@ + (if config.authorize_url@.contains('?') {
            "&"@
        } else {
            "?"@
        }) + "client_id="@ + url_encoded_of(config.client_id@) + "&redirect_uri="@
            + url_encoded_of(config.redirect_url@) + "&scope=read:user%20user:email"@,
{
    let mut url = config.authorize_url.clone();
    if contains_char(config.authorize_url.as_str(), '?') {
        url.append("&");
    } else {
        url.append("?");
    }
    url.append("client_id=");
    url.append(url_encode(config.client_id.as_str()).as_str());
    url.append("&redirect_uri=");
    url.append(url_encode(config.redirect_url.as_str()).as_str());
    url.append("&scope=read:user%20user:email");
    url
}

/// The authorization code of an OAuth callback, or the message for a refused
/// or incomplete callback.
pub fn github_callback_code(query: &GithubCallbackQuery) -> (r: Result<String, String>)
    ensures
        query.error is Some ==> (r matches Err(m) && m@.len() > 0),
        query.error is None ==> match query.code {
            Some(c) => r == Ok::<String, String>(c),
            None => r matches Err(m) && m@ == "missing code"@,
        },
{
    if let Some(error) = &query.error {
        let mut message = "github oauth error: ".to_string();
        message.append(error.as_str());
        if let Some(desc) = &query.error_description {
            message.append(" (");
            message.append(desc.as_str());
            message.append(")");
        }
        proof {
            reveal_strlit("github oauth error: ");
        }
        return Err(message);
    }
    match &query.code {
        Some(c) => Ok(c.clone()),
        None => Err("missing code".to_string()),
    }
}

/// The identity that a GitHub user id resolves as: provider `github`, the id
/// in decimal as subject, a user account with no username or email.
pub fn github_identity(user_id: u64) -> (r: GetOrCreateByProviderSubjectInput)
    ensures
        r.provider@ == PROVIDER_GITHUB@,
        r.provider_subject@ == decimal_of(user_id),
        r.account_type@ == ACCOUNT_TYPE_USER@,
        r.username is None,
        r.email is None,
        r.created_by is None,
{
    GetOrCreateByProviderSubjectInput {
        provider: PROVIDER_GITHUB.to_string(),
        provider_subject: decimal(user_id),
        account_type: ACCOUNT_TYPE_USER.to_string(),
        username: None,
        email: None,
        created_by: None,
    }
}

} // verus!
