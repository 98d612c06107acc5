//! The failures that the engine reports.

use vstd::prelude::*;

verus! {

/// Why an operation of the session service was refused.
#[derive(Clone, Copy, Debug, PartialEq, Eq, Structural)]
pub enum AuthError {
    /// No account has this email, or the password is wrong.
    InvalidCredentials,
    /// The email already belongs to an account.
    DuplicateEmail,
    /// The email is not an address.
    InvalidEmail,
    /// The password is too short.
    WeakPassword,
    /// The token is not hexadecimal, is too short, or its signature is wrong.
    TokenMalformed,
    /// The token's lifetime is over.
    TokenExpired,
    /// The token was issued before the user's last logout.
    TokenRevoked,
    /// The token names a user that the store does not hold.
    UnknownUser,
    /// The method is none of the supported ones.
    UnsupportedMfaMethod,
    /// No challenge was set up for this user and method.
    NoActiveChallenge,
    /// The challenge's lifetime is over.
    MfaExpired,
    /// The code is not the challenge's code.
    MfaCodeMismatch,
    /// The challenge was already answered correctly.
    MfaAlreadyConsumed,
    /// The provider is not registered.
    UnsupportedOAuthProvider,
    /// A collaborator that the caller runs for the engine has failed.
    UpstreamUnavailable,
}

/// Why the credential store refused.
#[derive(Clone, Copy, Debug, PartialEq, Eq, Structural)]
pub enum CredentialError {
    /// The email already belongs to an account.
    DuplicateEmail,
    /// The email is not an address.
    InvalidEmail,
    /// The password is too short.
    WeakPassword,
    /// No account has this email.
    NotFound,
    /// The password is not the account's.
    BadPassword,
}

/// A failure to authenticate: wrong credentials, or a token that is not
/// accepted. Clients are told of all of them in the same words.
pub open spec fn is_authentication_failure(e: AuthError) -> bool {
    ||| e == AuthError::InvalidCredentials
    ||| e == AuthError::TokenMalformed
    ||| e == AuthError::TokenExpired
    ||| e == AuthError::TokenRevoked
    ||| e == AuthError::UnknownUser
}

/// The HTTP status that answers a failure: 401 for a failure to
/// authenticate, 404 for an unknown provider, 409 for a taken email, 503 for
/// a collaborator that is down, 400 for the rest.
pub open spec fn status_of(e: AuthError) -> u16 {
    if is_authentication_failure(e) {
        401
    } else if e == AuthError::UnsupportedOAuthProvider {
        404
    } else if e == AuthError::DuplicateEmail {
        409
    } else if e == AuthError::UpstreamUnavailable {
        503
    } else {
        400
    }
}

/// What a client is told of a failure.
pub open spec fn message_of(e: AuthError) -> Seq<char> {
    if is_authentication_failure(e) {
        "authentication failed"@
    } else {
        match e {
            AuthError::DuplicateEmail => "email already registered"@,
            AuthError::InvalidEmail => "invalid email"@,
            AuthError::WeakPassword => "password too weak"@,
            AuthError::UnsupportedMfaMethod => "unsupported MFA method"@,
            AuthError::NoActiveChallenge => "no active MFA challenge"@,
            AuthError::MfaExpired => "MFA challenge expired"@,
            AuthError::MfaCodeMismatch => "MFA code mismatch"@,
            AuthError::MfaAlreadyConsumed => "MFA challenge already consumed"@,
            AuthError::UnsupportedOAuthProvider => "unsupported OAuth provider"@,
            _ => "service unavailable"@,
        }
    }
}

impl AuthError {
    /// The HTTP status that answers this failure.
    pub fn status_code(&self) -> (status: u16)
        ensures
            status == status_of(*self),
    {
        match self {
            AuthError::InvalidCredentials
            | AuthError::TokenMalformed
            | AuthError::TokenExpired
            | AuthError::TokenRevoked
            | AuthError::UnknownUser => 401,
            AuthError::UnsupportedOAuthProvider => 404,
            AuthError::DuplicateEmail => 409,
            AuthError::UpstreamUnavailable => 503,
            _ => 400,
        }
    }

    /// What a client is told of this failure. Failures to authenticate share
    /// one message, so that it does not show which check has failed.
    pub fn client_message(&self) -> (message: &'static str)
        ensures
            message@ == message_of(*self),
    {
        match self {
            AuthError::InvalidCredentials
            | AuthError::TokenMalformed
            | AuthError::TokenExpired
            | AuthError::TokenRevoked
            | AuthError::UnknownUser => "authentication failed",
            AuthError::DuplicateEmail => "email already registered",
            AuthError::InvalidEmail => "invalid email",
            AuthError::WeakPassword => "password too weak",
            AuthError::UnsupportedMfaMethod => "unsupported MFA method",
            AuthError::NoActiveChallenge => "no active MFA challenge",
            AuthError::MfaExpired => "MFA challenge expired",
            AuthError::MfaCodeMismatch => "MFA code mismatch",
            AuthError::MfaAlreadyConsumed => "MFA challenge already consumed",
            AuthError::UnsupportedOAuthProvider => "unsupported OAuth provider",
            AuthError::UpstreamUnavailable => "service unavailable",
        }
    }
}

/// What the service reports for a failure of the store. That an account is
/// missing and that a password is wrong are reported alike.
pub open spec fn auth_error_of(e: CredentialError) -> AuthError {
    match e {
        CredentialError::DuplicateEmail => AuthError::DuplicateEmail,
        CredentialError::InvalidEmail => AuthError::InvalidEmail,
        CredentialError::WeakPassword => AuthError::WeakPassword,
        CredentialError::NotFound => AuthError::InvalidCredentials,
        CredentialError::BadPassword => AuthError::InvalidCredentials,
    }
}

/// What the service reports for a failure of the store.
pub fn to_auth_error(e: CredentialError) -> (r: AuthError)
    ensures
        r == auth_error_of(e),
{
    match e {
        CredentialError::DuplicateEmail => AuthError::DuplicateEmail,
        CredentialError::InvalidEmail => AuthError::InvalidEmail,
        CredentialError::WeakPassword => AuthError::WeakPassword,
        CredentialError::NotFound => AuthError::InvalidCredentials,
        CredentialError::BadPassword => AuthError::InvalidCredentials,
    }
}

} // verus!
