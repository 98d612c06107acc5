//! The session service: registration, login, token verification, logout,
//! the multi-factor flows and the redirect to an outside provider, composed
//! from the store, the issuer and the challenge engine.

use vstd::prelude::*;
use vstd::utf8::encode_utf8;

use crate::credentials::{
    create_outcome, created, new_account, store_wf, verify_outcome, CredentialStore, StoreView,
};
use crate::error::{auth_error_of, to_auth_error, AuthError};
use crate::mfa::{
    after_setup, after_verify, payload_view, setup_result, verify_result, MfaChallengeEngine,
    MfaPayload, MfaPayloadView, MfaView,
};
use crate::oauth::{
    oauth_redirect, providers_view, redirect_url, text_view, OAuthProvider, ProviderView,
};
use crate::token::{
    issued_claims, resolve_token, revoked, token_text, validate_token, ClaimsView, IssuerView,
    TokenIssuer,
};
use crate::types::{
    auth_view, text_of, user_view, AuthResponse, AuthView, Profile, ProfileView, RegisterRequest,
    User, UserView,
};

verus! {

/// What a service is made from. It is built once, when the process starts,
/// and handed to the service.
#[derive(Debug)]
pub struct ServiceConfig {
    /// The key that signs tokens.
    pub signing_key: Vec<u8>,
    /// The lifetime of a token, in seconds.
    pub token_ttl: u64,
    /// The lifetime of a challenge, in seconds.
    pub challenge_ttl: u64,
    /// The rounds of PBKDF2 for the passwords of new accounts.
    pub hash_rounds: u32,
    /// The providers that users may sign in with.
    pub providers: Vec<OAuthProvider>,
}

/// The model of an [`AuthSessionService`].
pub struct ServiceView {
    pub store: StoreView,
    pub issuer: IssuerView,
    pub mfa: MfaView,
    pub providers: Seq<ProviderView>,
}

/// The store is well formed, and only users with an account have moved to a
/// later revocation epoch.
pub open spec fn service_wf(sv: ServiceView) -> bool {
    &&& store_wf(sv.store)
    &&& forall|u: u64| #[trigger] sv.issuer.epochs.contains_key(u) ==> u < sv.store.accounts.len()
}

/// The service that `config` makes: no account, no logout, no challenge.
pub open spec fn initial(
    signing_key: Seq<u8>,
    token_ttl: u64,
    challenge_ttl: u64,
    hash_rounds: u32,
    providers: Seq<ProviderView>,
) -> ServiceView {
    ServiceView {
        store: StoreView { accounts: Seq::empty(), rounds: hash_rounds },
        issuer: IssuerView { key: signing_key, ttl: token_ttl, epochs: Map::empty() },
        mfa: MfaView {
            ttl: challenge_ttl,
            totp: Map::empty(),
            sms: Map::empty(),
            email: Map::empty(),
        },
        providers,
    }
}

/// The profile of a user who registers: the names, without role or tenant.
pub open spec fn registered_profile(
    first_name: Option<Seq<char>>,
    last_name: Option<Seq<char>>,
) -> ProfileView {
    ProfileView { first_name, last_name, role: None, tenant_id: None }
}

/// What `register` returns: the store's refusal, or the new user with a
/// token issued to it at `now`.
pub open spec fn register_result(
    sv: ServiceView,
    email: Seq<char>,
    password: Seq<char>,
    first_name: Option<Seq<char>>,
    last_name: Option<Seq<char>>,
    salt: Seq<u8>,
    now: u64,
) -> Result<AuthView, AuthError> {
    match create_outcome(sv.store, email, password) {
        Err(e) => Err(auth_error_of(e)),
        Ok(_) => {
            let user = new_account(
                sv.store,
                email,
                password,
                registered_profile(first_name, last_name),
                salt,
            ).user;
            Ok(
                AuthView {
                    token: token_text(
                        sv.issuer.key,
                        issued_claims(sv.issuer, sv.store.accounts.len() as u64, user, now),
                    ),
                    user,
                },
            )
        },
    }
}

/// The service after `register`: one more account, or no change at all.
pub open spec fn after_register(
    sv: ServiceView,
    email: Seq<char>,
    password: Seq<char>,
    first_name: Option<Seq<char>>,
    last_name: Option<Seq<char>>,
    salt: Seq<u8>,
) -> ServiceView {
    match create_outcome(sv.store, email, password) {
        Err(_) => sv,
        Ok(_) => ServiceView {
            store: created(
                sv.store,
                email,
                password,
                registered_profile(first_name, last_name),
                salt,
            ),
            issuer: sv.issuer,
            mfa: sv.mfa,
            providers: sv.providers,
        },
    }
}

/// What `login` returns: one failure for every reason, or the user with a
/// token issued to it at `now`.
pub open spec fn login_result(sv: ServiceView, email: Seq<char>, password: Seq<char>, now: u64) -> Result<
    AuthView,
    AuthError,
> {
    match verify_outcome(sv.store, email, password) {
        Err(_) => Err(AuthError::InvalidCredentials),
        Ok(i) => Ok(
            AuthView {
                token: token_text(
                    sv.issuer.key,
                    issued_claims(sv.issuer, i as u64, sv.store.accounts[i].user, now),
                ),
                user: sv.store.accounts[i].user,
            },
        ),
    }
}

/// What `verify_token` returns.
pub open spec fn verify_token_result(sv: ServiceView, token: Seq<u8>, now: u64) -> Result<
    UserView,
    AuthError,
> {
    validate_token(sv.issuer, sv.store, token, now)
}

/// What `logout` returns: the verdict on the token.
pub open spec fn logout_result(sv: ServiceView, token: Seq<u8>, now: u64) -> Result<(), AuthError> {
    match resolve_token(sv.issuer, sv.store, token, now) {
        Err(e) => Err(e),
        Ok(_) => Ok(()),
    }
}

/// The service after `logout`: the token's user is in the next epoch, or
/// nothing has changed.
pub open spec fn after_logout(sv: ServiceView, token: Seq<u8>, now: u64) -> ServiceView {
    match resolve_token(sv.issuer, sv.store, token, now) {
        Err(_) => sv,
        Ok(c) => ServiceView {
            store: sv.store,
            issuer: revoked(sv.issuer, c.user),
            mfa: sv.mfa,
            providers: sv.providers,
        },
    }
}

/// What `setup_mfa` returns: the verdict on the token, then what the engine
/// answers for the token's user.
pub open spec fn setup_mfa_result(
    sv: ServiceView,
    token: Seq<u8>,
    method: Seq<char>,
    secret: Seq<u8>,
    now: u64,
) -> Result<MfaPayloadView, AuthError> {
    match resolve_token(sv.issuer, sv.store, token, now) {
        Err(e) => Err(e),
        Ok(c) => setup_result(
            sv.mfa,
            sv.store.accounts[c.user as int].user.email,
            method,
            secret,
            now,
        ),
    }
}

/// The service after `setup_mfa`.
pub open spec fn after_setup_mfa(
    sv: ServiceView,
    token: Seq<u8>,
    method: Seq<char>,
    secret: Seq<u8>,
    now: u64,
) -> ServiceView {
    match resolve_token(sv.issuer, sv.store, token, now) {
        Err(_) => sv,
        Ok(c) => ServiceView {
            store: sv.store,
            issuer: sv.issuer,
            mfa: after_setup(sv.mfa, c.user, method, secret, now),
            providers: sv.providers,
        },
    }
}

/// What `verify_mfa` returns: the verdict on the token, then what the
/// engine answers for the token's user.
pub open spec fn verify_mfa_result(
    sv: ServiceView,
    token: Seq<u8>,
    code: Seq<u8>,
    method: Seq<char>,
    now: u64,
) -> Result<(), AuthError> {
    match resolve_token(sv.issuer, sv.store, token, now) {
        Err(e) => Err(e),
        Ok(c) => verify_result(sv.mfa, c.user, code, method, now),
    }
}

/// The service after `verify_mfa`.
pub open spec fn after_verify_mfa(
    sv: ServiceView,
    token: Seq<u8>,
    code: Seq<u8>,
    method: Seq<char>,
    now: u64,
) -> ServiceView {
    match resolve_token(sv.issuer, sv.store, token, now) {
        Err(_) => sv,
        Ok(c) => ServiceView {
            store: sv.store,
            issuer: sv.issuer,
            mfa: after_verify(sv.mfa, c.user, code, method, now),
            providers: sv.providers,
        },
    }
}

/// The service that clients talk to. It owns the store, the issuer and the
/// challenge engine; the caller hands in the time, and the salts and
/// secrets that it has drawn at random.
pub struct AuthSessionService {
    store: CredentialStore,
    issuer: TokenIssuer,
    mfa: MfaChallengeEngine,
    providers: Vec<OAuthProvider>,
}

impl View for AuthSessionService {
    type V = ServiceView;

    closed spec fn view(&self) -> ServiceView {
        ServiceView {
            store: self.store@,
            issuer: self.issuer@,
            mfa: self.mfa@,
            providers: providers_view(self.providers@),
        }
    }
}

impl AuthSessionService {
    /// The service's invariant, over its model.
    pub open spec fn wf(&self) -> bool {
        service_wf(self@)
    }

    /// A service without accounts.
    pub fn new(config: ServiceConfig) -> (service: AuthSessionService)
        ensures
            service.wf(),
            service@ == initial(
                config.signing_key@,
                config.token_ttl,
                config.challenge_ttl,
                config.hash_rounds,
                providers_view(config.providers@),
            ),
    {
        AuthSessionService {
            store: CredentialStore::new(config.hash_rounds),
            issuer: TokenIssuer::new(config.signing_key, config.token_ttl),
            mfa: MfaChallengeEngine::new(config.challenge_ttl),
            providers: config.providers,
        }
    }

    /// The number of accounts.
    pub fn user_count(&self) -> (n: usize)
        ensures
            n == self@.store.accounts.len(),
    {
        self.store.len()
    }

    /// The user that a token stands for, with its number.
    fn identify(&self, token: &str, now: u64) -> (who: Result<(u64, User), AuthError>)
        ensures
            match who {
                Ok((number, user)) => {
                    &&& resolve_token(self@.issuer, self@.store, encode_utf8(token@), now) is Ok
                    &&& resolve_token(self@.issuer, self@.store, encode_utf8(token@), now)->Ok_0.user
                        == number
                    &&& number < self@.store.accounts.len()
                    &&& user@ == self@.store.accounts[number as int].user
                },
                Err(e) => resolve_token(self@.issuer, self@.store, encode_utf8(token@), now) == Err::<
                    ClaimsView,
                    AuthError,
                >(e),
            },
    {
        match self.issuer.check(token, now) {
            Err(e) => Err(e),
            Ok(c) => {
                match self.store.user(c.user) {
                    Some(user) => Ok((c.user, user)),
                    None => Err(AuthError::UnknownUser),
                }
            },
        }
    }

    /// Creates an account and issues its first token. `salt` is what the
    /// caller has drawn at random for the password's hash. A refused
    /// registration leaves the service as it was.
    pub fn register(&mut self, request: RegisterRequest, salt: Vec<u8>, now: u64) -> (answer: Result<
        AuthResponse,
        AuthError,
    >)
        requires
            old(self).wf(),
        ensures
            final(self).wf(),
            auth_view(answer) == register_result(
                old(self)@,
                request.email@,
                request.password@,
                text_of(request.first_name),
                text_of(request.last_name),
                salt@,
                now,
            ),
            final(self)@ == after_register(
                old(self)@,
                request.email@,
                request.password@,
                text_of(request.first_name),
                text_of(request.last_name),
                salt@,
            ),
    {
        let number = self.store.len() as u64;
        let profile = Profile {
            first_name: request.first_name,
            last_name: request.last_name,
            role: None,
            tenant_id: None,
        };
        match self.store.create(request.email.as_str(), request.password.as_str(), profile, salt) {
            Err(e) => Err(to_auth_error(e)),
            Ok(user) => {
                let token = self.issuer.issue(number, &user, now);
                Ok(AuthResponse { token, user })
            },
        }
    }

    /// Checks the credentials and issues a token. Whether the account is
    /// missing or the password is wrong, the failure is the same.
    pub fn login(&self, email: &str, password: &str, now: u64) -> (answer: Result<
        AuthResponse,
        AuthError,
    >)
        requires
            self.wf(),
        ensures
            auth_view(answer) == login_result(self@, email@, password@, now),
    {
        match self.store.authenticate(email, password) {
            Err(_) => Err(AuthError::InvalidCredentials),
            Ok((number, user)) => {
                let token = self.issuer.issue(number, &user, now);
                Ok(AuthResponse { token, user })
            },
        }
    }

    /// The user that a token stands for at `now`.
    pub fn verify_token(&self, token: &str, now: u64) -> (user: Result<User, AuthError>)
        ensures
            user_view(user) == verify_token_result(self@, encode_utf8(token@), now),
    {
        self.issuer.validate(&self.store, token, now)
    }

    /// Ends every session of the token's user: all tokens issued to the user
    /// so far are revoked at once. A second logout with the same token
    /// fails with `TokenRevoked`, which means that the user is logged out.
    pub fn logout(&mut self, token: &str, now: u64) -> (done: Result<(), AuthError>)
        requires
            old(self).wf(),
        ensures
            final(self).wf(),
            done == logout_result(old(self)@, encode_utf8(token@), now),
            final(self)@ == after_logout(old(self)@, encode_utf8(token@), now),
    {
        match self.issuer.resolve(&self.store, token, now) {
            Err(e) => Err(e),
            Ok(c) => {
                self.issuer.revoke_all(c.user);
                Ok(())
            },
        }
    }

    /// Sets up a challenge for the token's user. The user is taken from the
    /// token, never from the caller. `secret` is what the caller has drawn
    /// at random; with `sms` and `email` the caller sends it to the user.
    pub fn setup_mfa(&mut self, token: &str, method: &str, secret: Vec<u8>, now: u64) -> (payload:
        Result<MfaPayload, AuthError>)
        requires
            old(self).wf(),
        ensures
            final(self).wf(),
            payload_view(payload) == setup_mfa_result(
                old(self)@,
                encode_utf8(token@),
                method@,
                secret@,
                now,
            ),
            final(self)@ == after_setup_mfa(old(self)@, encode_utf8(token@), method@, secret@, now),
    {
        match self.identify(token, now) {
            Err(e) => Err(e),
            Ok((number, user)) => self.mfa.setup(number, user.email.as_str(), method, secret, now),
        }
    }

    /// Presents a code for the challenge of the token's user.
    pub fn verify_mfa(&mut self, token: &str, code: &str, method: &str, now: u64) -> (done: Result<
        (),
        AuthError,
    >)
        requires
            old(self).wf(),
        ensures
            final(self).wf(),
            done == verify_mfa_result(
                old(self)@,
                encode_utf8(token@),
                encode_utf8(code@),
                method@,
                now,
            ),
            final(self)@ == after_verify_mfa(
                old(self)@,
                encode_utf8(token@),
                encode_utf8(code@),
                method@,
                now,
            ),
    {
        match self.issuer.resolve(&self.store, token, now) {
            Err(e) => Err(e),
            Ok(c) => self.mfa.verify(c.user, code, method, now),
        }
    }

    /// The URL that sends a user to `provider` and back to `redirect_uri`,
    /// which is percent-encoded. Nothing is sent.
    pub fn oauth_redirect_url(&self, provider: &str, redirect_uri: &str) -> (url: Result<
        String,
        AuthError,
    >)
        ensures
            text_view(url) == redirect_url(self@.providers, provider@, redirect_uri@),
    {
        oauth_redirect(&self.providers, provider, redirect_uri)
    }
}

} // verus!
