//! What holds of the service across several calls, proved from the
//! contracts of its operations.

use vstd::prelude::*;
use vstd::utf8::encode_utf8;

use crate::client::trim_trailing;
use crate::credentials::{
    account_wf, email_key, lemma_created_wf, store_wf, valid_email, verify_outcome, StoreView,
};
use crate::crypto::percent_encode;
use crate::encoding::{ascii_text, hex_decode, lemma_decimal_injective};
use crate::error::AuthError;
use crate::mfa::{
    after_purge, after_setup, after_verify, is_spent, method_named, state_at, verify_result,
    ChallengeState, MfaView,
};
use crate::oauth::{is_query_safe, lemma_percent_encode_safe};
use crate::session::{
    after_logout, after_register, after_verify_mfa, login_result, logout_result,
    register_result, registered_profile, service_wf, verify_mfa_result, verify_token_result,
    ServiceView,
};
use crate::token::{
    check_token, claims_fit, deadline, issued_claims, lemma_token_round_trip, parse_token,
    resolve_token, signature_matches, ClaimsView,
};
use crate::types::{AuthView, UserView};

verus! {

/// Who registers can log in with the same credentials, and the token of the
/// login is accepted for as long as it lives, as is the token of the
/// registration.
pub proof fn law_register_then_login(
    sv: ServiceView,
    email: Seq<char>,
    password: Seq<char>,
    first_name: Option<Seq<char>>,
    last_name: Option<Seq<char>>,
    salt: Seq<u8>,
    t_register: u64,
    t_login: u64,
    t_verify: u64,
)
    requires
        service_wf(sv),
        sv.store.accounts.len() < u64::MAX,
        register_result(sv, email, password, first_name, last_name, salt, t_register) is Ok,
    ensures
        ({
            let after = after_register(sv, email, password, first_name, last_name, salt);
            let registered = register_result(
                sv,
                email,
                password,
                first_name,
                last_name,
                salt,
                t_register,
            )->Ok_0;
            let login = login_result(after, email, password, t_login);
            &&& service_wf(after)
            &&& login is Ok
            &&& login->Ok_0.user == registered.user
            &&& t_verify < deadline(t_login, sv.issuer.ttl) ==> verify_token_result(
                after,
                encode_utf8(login->Ok_0.token),
                t_verify,
            ) == Ok::<UserView, AuthError>(registered.user)
            &&& t_verify < deadline(t_register, sv.issuer.ttl) ==> verify_token_result(
                after,
                encode_utf8(registered.token),
                t_verify,
            ) == Ok::<UserView, AuthError>(registered.user)
        }),
{
    let profile = registered_profile(first_name, last_name);
    let after = after_register(sv, email, password, first_name, last_name, salt);
    let n = sv.store.accounts.len();
    lemma_created_wf(sv.store, email, password, profile, salt);
    assert(!sv.issuer.epochs.contains_key(n as u64));
    let user = after.store.accounts[n as int].user;
    assert(user.role is None && user.tenant_id is None);
    lemma_token_round_trip(sv.issuer.key, issued_claims(sv.issuer, n as u64, user, t_login));
    lemma_token_round_trip(sv.issuer.key, issued_claims(sv.issuer, n as u64, user, t_register));
}

/// The token of a login is accepted until its deadline, for every account
/// whose revocation counter has not reached its last value. That the
/// user's tenant and role can be written into the token holds of every text
/// in memory.
pub proof fn law_login_token_accepted(
    sv: ServiceView,
    email: Seq<char>,
    password: Seq<char>,
    t_login: u64,
    t_verify: u64,
)
    requires
        service_wf(sv),
        login_result(sv, email, password, t_login) is Ok,
        sv.issuer.epoch_of(verify_outcome(sv.store, email, password)->Ok_0 as u64) < u64::MAX,
        claims_fit(
            issued_claims(
                sv.issuer,
                verify_outcome(sv.store, email, password)->Ok_0 as u64,
                login_result(sv, email, password, t_login)->Ok_0.user,
                t_login,
            ),
        ),
        t_verify < deadline(t_login, sv.issuer.ttl),
    ensures
        verify_token_result(
            sv,
            encode_utf8(login_result(sv, email, password, t_login)->Ok_0.token),
            t_verify,
        ) == Ok::<UserView, AuthError>(login_result(sv, email, password, t_login)->Ok_0.user),
{
    let i = verify_outcome(sv.store, email, password)->Ok_0;
    let user = sv.store.accounts[i].user;
    lemma_token_round_trip(sv.issuer.key, issued_claims(sv.issuer, i as u64, user, t_login));
}

/// After a logout the token is refused, also while its lifetime lasts: as
/// revoked until its deadline, as expired from then on. A second logout
/// with it fails in the same way.
pub proof fn law_logout_revokes(sv: ServiceView, token: Seq<u8>, t_logout: u64, t_later: u64)
    requires
        service_wf(sv),
        logout_result(sv, token, t_logout) is Ok,
    ensures
        ({
            let after = after_logout(sv, token, t_logout);
            let claims = parse_token(sv.issuer.key, token)->0;
            let refusal = if t_later >= claims.expires_at {
                AuthError::TokenExpired
            } else {
                AuthError::TokenRevoked
            };
            &&& service_wf(after)
            &&& verify_token_result(after, token, t_later) == Err::<UserView, AuthError>(refusal)
            &&& logout_result(after, token, t_later) == Err::<(), AuthError>(refusal)
        }),
{
}

/// A logout revokes every token of the user: whatever token named the same
/// user and was accepted before the logout is refused after it.
pub proof fn law_logout_revokes_all(
    sv: ServiceView,
    token: Seq<u8>,
    other: Seq<u8>,
    t_logout: u64,
    t_before: u64,
    t_later: u64,
)
    requires
        service_wf(sv),
        logout_result(sv, token, t_logout) is Ok,
        verify_token_result(sv, other, t_before) is Ok,
        parse_token(sv.issuer.key, other)->0.user == parse_token(sv.issuer.key, token)->0.user,
    ensures
        verify_token_result(after_logout(sv, token, t_logout), other, t_later) is Err,
{
}

/// A logout leaves the tokens of every other user as they were.
pub proof fn law_logout_spares_others(
    sv: ServiceView,
    token: Seq<u8>,
    other: Seq<u8>,
    t_logout: u64,
    t_later: u64,
)
    requires
        service_wf(sv),
        logout_result(sv, token, t_logout) is Ok,
        parse_token(sv.issuer.key, other) is Some,
        parse_token(sv.issuer.key, other)->0.user != parse_token(sv.issuer.key, token)->0.user,
    ensures
        verify_token_result(after_logout(sv, token, t_logout), other, t_later)
            == verify_token_result(sv, other, t_later),
{
}

/// A challenge is consumed once: after the right code has succeeded, the
/// same code fails as already consumed, at any later time.
pub proof fn law_challenge_consumed_once(
    v: MfaView,
    user: u64,
    code: Seq<u8>,
    method: Seq<char>,
    t_first: u64,
    t_second: u64,
)
    requires
        verify_result(v, user, code, method, t_first) is Ok,
    ensures
        verify_result(after_verify(v, user, code, method, t_first), user, code, method, t_second)
            == Err::<(), AuthError>(AuthError::MfaAlreadyConsumed),
{
}

/// Of two calls of the service that present the right code with a token
/// that holds at both times, the first succeeds and the second fails as
/// already consumed.
pub proof fn law_verify_mfa_once(
    sv: ServiceView,
    token: Seq<u8>,
    code: Seq<u8>,
    method: Seq<char>,
    t_first: u64,
    t_second: u64,
)
    requires
        service_wf(sv),
        verify_mfa_result(sv, token, code, method, t_first) is Ok,
        resolve_token(sv.issuer, sv.store, token, t_second) is Ok,
    ensures
        verify_mfa_result(
            after_verify_mfa(sv, token, code, method, t_first),
            token,
            code,
            method,
            t_second,
        ) == Err::<(), AuthError>(AuthError::MfaAlreadyConsumed),
{
}

/// A purge never touches a pending challenge, and after the purge of a
/// spent one every code fails for want of a challenge.
pub proof fn law_purge_drops_only_spent(
    v: MfaView,
    user: u64,
    code: Seq<u8>,
    method: Seq<char>,
    t_purge: u64,
    t_verify: u64,
)
    requires
        method_named(method) is Some,
    ensures
        ({
            let m = method_named(method)->0;
            let after = after_purge(v, user, m, t_purge);
            &&& state_at(v.challenge(user, m), t_purge) == ChallengeState::Pending ==> after == v
            &&& is_spent(v.challenge(user, m), t_purge) ==> verify_result(
                after,
                user,
                code,
                method,
                t_verify,
            ) == Err::<(), AuthError>(AuthError::NoActiveChallenge)
        }),
{
}

/// A wrong code, a late code and a repeated code change nothing: after a
/// failed verification the engine is as it was.
pub proof fn law_failed_verify_changes_nothing(
    v: MfaView,
    user: u64,
    code: Seq<u8>,
    method: Seq<char>,
    now: u64,
)
    requires
        verify_result(v, user, code, method, now) is Err,
    ensures
        after_verify(v, user, code, method, now) == v,
{
}

/// A second setup for the same user and method invalidates the code of the
/// first: where the two secrets differ, the first one is refused, as a
/// mismatch until the second challenge's deadline and as expired from then
/// on, and the second challenge stays pending.
pub proof fn law_setup_supersedes(
    v: MfaView,
    user: u64,
    method: Seq<char>,
    first: Seq<u8>,
    second: Seq<u8>,
    t_first: u64,
    t_second: u64,
    t_verify: u64,
)
    requires
        method_named(method) is Some,
        first != second,
    ensures
        ({
            let once = after_setup(v, user, method, first, t_first);
            let twice = after_setup(once, user, method, second, t_second);
            let refusal = if t_verify >= deadline(t_second, v.ttl) {
                AuthError::MfaExpired
            } else {
                AuthError::MfaCodeMismatch
            };
            &&& verify_result(twice, user, first, method, t_verify) == Err::<(), AuthError>(refusal)
            &&& after_verify(twice, user, first, method, t_verify) == twice
            &&& t_verify < deadline(t_second, v.ttl) ==> verify_result(
                twice,
                user,
                second,
                method,
                t_verify,
            ) is Ok
        }),
{
}

/// An email registers once: after a registration, a second one with the
/// same email, in whatever case, fails as a duplicate and changes nothing.
pub proof fn law_duplicate_email(
    sv: ServiceView,
    email: Seq<char>,
    password: Seq<char>,
    first_name: Option<Seq<char>>,
    last_name: Option<Seq<char>>,
    salt: Seq<u8>,
    t_first: u64,
    again: Seq<char>,
    password2: Seq<char>,
    first_name2: Option<Seq<char>>,
    last_name2: Option<Seq<char>>,
    salt2: Seq<u8>,
    t_second: u64,
)
    requires
        service_wf(sv),
        sv.store.accounts.len() < u64::MAX,
        register_result(sv, email, password, first_name, last_name, salt, t_first) is Ok,
        valid_email(again),
        email_key(again) == email_key(email),
    ensures
        ({
            let after = after_register(sv, email, password, first_name, last_name, salt);
            &&& register_result(after, again, password2, first_name2, last_name2, salt2, t_second)
                == Err::<AuthView, AuthError>(AuthError::DuplicateEmail)
            &&& after_register(after, again, password2, first_name2, last_name2, salt2) == after
        }),
{
    lemma_created_wf(sv.store, email, password, registered_profile(first_name, last_name), salt);
}

/// A refused registration leaves no trace: the service is as it was.
pub proof fn law_failed_register_changes_nothing(
    sv: ServiceView,
    email: Seq<char>,
    password: Seq<char>,
    first_name: Option<Seq<char>>,
    last_name: Option<Seq<char>>,
    salt: Seq<u8>,
    now: u64,
)
    requires
        register_result(sv, email, password, first_name, last_name, salt, now) is Err,
    ensures
        after_register(sv, email, password, first_name, last_name, salt) == sv,
{
}

/// A token whose signature does not match its claims is refused as
/// malformed, at any time and whatever the claims say; so is what is no
/// hexadecimal text.
pub proof fn law_tampered_token_refused(sv: ServiceView, token: Seq<u8>, now: u64)
    requires
        hex_decode(token) is None || !signature_matches(sv.issuer.key, hex_decode(token)->0),
    ensures
        check_token(sv.issuer, token, now) == Err::<ClaimsView, AuthError>(
            AuthError::TokenMalformed,
        ),
        verify_token_result(sv, token, now) == Err::<UserView, AuthError>(
            AuthError::TokenMalformed,
        ),
{
}

/// Only a token with a matching signature is ever accepted.
pub proof fn law_accepted_token_is_signed(sv: ServiceView, token: Seq<u8>, now: u64)
    requires
        verify_token_result(sv, token, now) is Ok,
    ensures
        hex_decode(token) is Some,
        signature_matches(sv.issuer.key, hex_decode(token)->0),
{
}

/// No two accounts of a store have one identifier.
pub proof fn law_identifiers_unique(s: StoreView, i: int, j: int)
    requires
        store_wf(s),
        0 <= i < s.accounts.len(),
        0 <= j < s.accounts.len(),
        s.accounts[i].user.id == s.accounts[j].user.id,
    ensures
        i == j,
{
    assert(account_wf(s.accounts[i], i));
    assert(account_wf(s.accounts[j], j));
    lemma_decimal_injective(i as nat, j as nat);
}

/// A client's domain starts the address it was made from and does not end
/// in a slash.
pub proof fn law_domain_is_trimmed(s: Seq<char>)
    ensures
        trim_trailing(s, '/').is_prefix_of(s),
        trim_trailing(s, '/').len() == 0 || trim_trailing(s, '/').last() != '/',
    decreases s.len(),
{
    if s.len() > 0 && s.last() == '/' {
        law_domain_is_trimmed(s.drop_last());
        let t = trim_trailing(s.drop_last(), '/');
        assert(t =~= s.drop_last().subrange(0, t.len() as int));
        assert(t =~= s.subrange(0, t.len() as int));
    } else {
        assert(s =~= s.subrange(0, s.len() as int));
    }
}

/// The redirect address is fully percent-encoded in the query: each of its
/// characters is an ASCII letter, a digit, or one of `-`, `.`, `_`, `~`, `%`.
pub proof fn law_redirect_query_encoded(redirect_uri: Seq<char>)
    ensures
        ({
            let encoded = ascii_text(percent_encode(encode_utf8(redirect_uri)));
            forall|i: int|
                0 <= i < encoded.len() ==> is_query_safe((#[trigger] encoded[i]) as u8)
        }),
{
    let bytes = percent_encode(encode_utf8(redirect_uri));
    lemma_percent_encode_safe(encode_utf8(redirect_uri));
    let encoded = ascii_text(bytes);
    assert forall|i: int| 0 <= i < encoded.len() implies is_query_safe(
        (#[trigger] encoded[i]) as u8,
    ) by {
        assert(is_query_safe(bytes[i]));
        assert(bytes[i] < 128);
        assert(encoded[i] as u8 == bytes[i]);
    }
}

} // verus!
