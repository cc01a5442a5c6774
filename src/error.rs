use vstd::prelude::*;

verus! {

/// The machine-readable code that every error of this library carries.
#[derive(Debug, Clone, Copy, PartialEq, Eq, Structural)]
pub enum ErrorCode {
    InvalidEmail,
    InvalidUsername,
    InvalidPassword,
    EmailTaken,
    UsernameTaken,
    PasswordHashFailed,
    InvalidCredentials,
    EmailNotVerified,
    InvalidToken,
    DbError,
    SessionError,
}

/// The text of each code.
pub open spec fn code_text(c: ErrorCode) -> Seq<char> {
    match c {
        ErrorCode::InvalidEmail => "invalid_email"@,
        ErrorCode::InvalidUsername => "invalid_username"@,
        ErrorCode::InvalidPassword => "invalid_password"@,
        ErrorCode::EmailTaken => "email_taken"@,
        ErrorCode::UsernameTaken => "username_taken"@,
        ErrorCode::PasswordHashFailed => "password_hash_failed"@,
        ErrorCode::InvalidCredentials => "invalid_credentials"@,
        ErrorCode::EmailNotVerified => "email_not_verified"@,
        ErrorCode::InvalidToken => "invalid_token"@,
        ErrorCode::DbError => "db_error"@,
        ErrorCode::SessionError => "session_error"@,
    }
}

impl ErrorCode {
    /// The code as it is shown to callers.
    pub fn as_str(&self) -> (r: &'static str)
        ensures
            r@ == code_text(*self),
    {
        match self {
            ErrorCode::InvalidEmail => "invalid_email",
            ErrorCode::InvalidUsername => "invalid_username",
            ErrorCode::InvalidPassword => "invalid_password",
            ErrorCode::EmailTaken => "email_taken",
            ErrorCode::UsernameTaken => "username_taken",
            ErrorCode::PasswordHashFailed => "password_hash_failed",
            ErrorCode::InvalidCredentials => "invalid_credentials",
            ErrorCode::EmailNotVerified => "email_not_verified",
            ErrorCode::InvalidToken => "invalid_token",
            ErrorCode::DbError => "db_error",
            ErrorCode::SessionError => "session_error",
        }
    }
}

/// An error of the register and login use cases: a code and a message for people.
#[derive(Debug)]
pub struct AuthError {
    pub code: ErrorCode,
    pub message: String,
}

impl AuthError {
    pub fn new(code: ErrorCode, message: &str) -> (r: AuthError)
        ensures
            r.code == code,
            r.message@ == message@,
    {
        AuthError { code, message: message.to_string() }
    }
}

/// An error of issuing or redeeming a verification token.
#[derive(Debug)]
pub struct VerificationError {
    pub code: ErrorCode,
    pub message: String,
}

impl VerificationError {
    pub fn new(code: ErrorCode, message: &str) -> (r: VerificationError)
        ensures
            r.code == code,
            r.message@ == message@,
    {
        VerificationError { code, message: message.to_string() }
    }
}

} // verus!
