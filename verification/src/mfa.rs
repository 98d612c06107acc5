//! The challenge protocol of multi-factor authentication.
//!
//! For each user and method there is at most one challenge. It is pending
//! from its setup until it is answered correctly or its lifetime is over; a
//! new setup replaces it.

use std::collections::HashMap;
use vstd::prelude::*;
use vstd::slice::slice_to_vec;
use vstd::string::StringExecFns;
use vstd::utf8::encode_utf8;

use crate::encoding::{constant_time_eq, same_text};
use crate::error::AuthError;
use crate::token::{deadline, deadline_after};

verus! {

broadcast use vstd::std_specs::hash::group_hash_axioms;

/// A way to deliver or compute the second factor.
#[derive(Clone, Copy, Debug, PartialEq, Eq, Structural)]
pub enum MfaMethod {
    /// Codes computed by an authenticator from a shared secret.
    Totp,
    /// A code sent as a text message.
    Sms,
    /// A code sent by email.
    Email,
}

/// The method that a name stands for: `totp`, `sms` or `email`.
pub open spec fn method_named(name: Seq<char>) -> Option<MfaMethod> {
    if name == seq!['t', 'o', 't', 'p'] {
        Some(MfaMethod::Totp)
    } else if name == seq!['s', 'm', 's'] {
        Some(MfaMethod::Sms)
    } else if name == seq!['e', 'm', 'a', 'i', 'l'] {
        Some(MfaMethod::Email)
    } else {
        None
    }
}

/// The model of a challenge.
pub struct ChallengeView {
    /// What the user has to present.
    pub secret: Seq<u8>,
    /// When the challenge was set up.
    pub created_at: u64,
    /// The first second at which the challenge no longer holds.
    pub expires_at: u64,
    /// Whether the challenge was answered correctly.
    pub consumed: bool,
}

/// Where a user and method stand.
#[derive(Clone, Copy, Debug, PartialEq, Eq, Structural)]
pub enum ChallengeState {
    /// No challenge was set up.
    NoChallenge,
    /// A challenge waits for its answer.
    Pending,
    /// The challenge was answered correctly.
    Consumed,
    /// The challenge's lifetime ended before a correct answer.
    Expired,
}

/// The state of a slot at `now`. Expiry is judged when asked, never swept.
pub open spec fn state_at(slot: Option<ChallengeView>, now: u64) -> ChallengeState {
    match slot {
        None => ChallengeState::NoChallenge,
        Some(c) => {
            if c.consumed {
                ChallengeState::Consumed
            } else if now >= c.expires_at {
                ChallengeState::Expired
            } else {
                ChallengeState::Pending
            }
        },
    }
}

/// The answer to `code` presented at `now`: success only for the secret of a
/// pending challenge.
pub open spec fn answer(slot: Option<ChallengeView>, code: Seq<u8>, now: u64) -> Result<
    (),
    AuthError,
> {
    match state_at(slot, now) {
        ChallengeState::NoChallenge => Err(AuthError::NoActiveChallenge),
        ChallengeState::Consumed => Err(AuthError::MfaAlreadyConsumed),
        ChallengeState::Expired => Err(AuthError::MfaExpired),
        ChallengeState::Pending => {
            if code == slot->0.secret {
                Ok(())
            } else {
                Err(AuthError::MfaCodeMismatch)
            }
        },
    }
}

/// The challenge at `user`, if there is one.
pub open spec fn lookup(table: Map<u64, ChallengeView>, user: u64) -> Option<ChallengeView> {
    if table.contains_key(user) {
        Some(table[user])
    } else {
        None
    }
}

/// The challenge after a correct answer.
pub open spec fn consumed(c: ChallengeView) -> ChallengeView {
    ChallengeView {
        secret: c.secret,
        created_at: c.created_at,
        expires_at: c.expires_at,
        consumed: true,
    }
}

/// A method's table after `code` was presented for `user`: the challenge is
/// consumed by a correct answer, and nothing changes otherwise.
pub open spec fn answered(table: Map<u64, ChallengeView>, user: u64, code: Seq<u8>, now: u64) -> Map<
    u64,
    ChallengeView,
> {
    if answer(lookup(table, user), code, now) is Ok {
        table.insert(user, consumed(table[user]))
    } else {
        table
    }
}

/// A slot that holds nothing of use any more: its challenge was consumed or
/// has expired.
pub open spec fn is_spent(slot: Option<ChallengeView>, now: u64) -> bool {
    state_at(slot, now) == ChallengeState::Consumed || state_at(slot, now)
        == ChallengeState::Expired
}

/// The challenge that a setup at `now` makes.
pub open spec fn fresh(secret: Seq<u8>, now: u64, ttl: u64) -> ChallengeView {
    ChallengeView { secret, created_at: now, expires_at: deadline(now, ttl), consumed: false }
}

/// The model of a [`MfaChallengeEngine`]: the lifetime of a challenge and
/// one table per method.
pub struct MfaView {
    pub ttl: u64,
    pub totp: Map<u64, ChallengeView>,
    pub sms: Map<u64, ChallengeView>,
    pub email: Map<u64, ChallengeView>,
}

impl MfaView {
    /// The table of a method.
    pub open spec fn table(self, method: MfaMethod) -> Map<u64, ChallengeView> {
        match method {
            MfaMethod::Totp => self.totp,
            MfaMethod::Sms => self.sms,
            MfaMethod::Email => self.email,
        }
    }

    /// The same engine with another table for `method`.
    pub open spec fn with_table(self, method: MfaMethod, table: Map<u64, ChallengeView>) -> MfaView {
        match method {
            MfaMethod::Totp => MfaView { ttl: self.ttl, totp: table, sms: self.sms, email: self.email },
            MfaMethod::Sms => MfaView { ttl: self.ttl, totp: self.totp, sms: table, email: self.email },
            MfaMethod::Email => MfaView { ttl: self.ttl, totp: self.totp, sms: self.sms, email: table },
        }
    }

    /// The challenge of a user and method, if there is one.
    pub open spec fn challenge(self, user: u64, method: MfaMethod) -> Option<ChallengeView> {
        lookup(self.table(method), user)
    }
}

/// What a setup hands back.
#[derive(Debug)]
pub enum MfaPayload {
    /// For `totp`: what an authenticator needs to enrol.
    Provisioning { secret: Vec<u8>, account: String, expires_at: u64 },
    /// For `sms` and `email`: the code goes to the user out of band.
    Dispatched { method: MfaMethod, expires_at: u64 },
}

/// The model of a [`MfaPayload`].
pub enum MfaPayloadView {
    Provisioning { secret: Seq<u8>, account: Seq<char>, expires_at: u64 },
    Dispatched { method: MfaMethod, expires_at: u64 },
}

impl View for MfaPayload {
    type V = MfaPayloadView;

    open spec fn view(&self) -> MfaPayloadView {
        match self {
            MfaPayload::Provisioning { secret, account, expires_at } => MfaPayloadView::Provisioning {
                secret: secret@,
                account: account@,
                expires_at: *expires_at,
            },
            MfaPayload::Dispatched { method, expires_at } => MfaPayloadView::Dispatched {
                method: *method,
                expires_at: *expires_at,
            },
        }
    }
}

/// The model of what a setup returns.
pub open spec fn payload_view(r: Result<MfaPayload, AuthError>) -> Result<MfaPayloadView, AuthError> {
    match r {
        Ok(p) => Ok(p@),
        Err(e) => Err(e),
    }
}

/// The payload of a setup: provisioning data for `totp`, a notice of
/// dispatch for the others.
pub open spec fn payload_for(
    method: MfaMethod,
    secret: Seq<u8>,
    account: Seq<char>,
    expires_at: u64,
) -> MfaPayloadView {
    match method {
        MfaMethod::Totp => MfaPayloadView::Provisioning { secret, account, expires_at },
        _ => MfaPayloadView::Dispatched { method, expires_at },
    }
}

/// What `setup` returns: it fails only for an unknown method.
pub open spec fn setup_result(
    v: MfaView,
    account: Seq<char>,
    method: Seq<char>,
    secret: Seq<u8>,
    now: u64,
) -> Result<MfaPayloadView, AuthError> {
    match method_named(method) {
        None => Err(AuthError::UnsupportedMfaMethod),
        Some(m) => Ok(payload_for(m, secret, account, deadline(now, v.ttl))),
    }
}

/// The engine after `setup`: the user's slot for the method holds a fresh
/// challenge, whatever it held before.
pub open spec fn after_setup(v: MfaView, user: u64, method: Seq<char>, secret: Seq<u8>, now: u64) -> MfaView {
    match method_named(method) {
        None => v,
        Some(m) => v.with_table(m, v.table(m).insert(user, fresh(secret, now, v.ttl))),
    }
}

/// What `verify` returns.
pub open spec fn verify_result(v: MfaView, user: u64, code: Seq<u8>, method: Seq<char>, now: u64) -> Result<
    (),
    AuthError,
> {
    match method_named(method) {
        None => Err(AuthError::UnsupportedMfaMethod),
        Some(m) => answer(v.challenge(user, m), code, now),
    }
}

/// The engine after `verify`.
pub open spec fn after_verify(v: MfaView, user: u64, code: Seq<u8>, method: Seq<char>, now: u64) -> MfaView {
    match method_named(method) {
        None => v,
        Some(m) => v.with_table(m, answered(v.table(m), user, code, now)),
    }
}

/// The engine after a purge of the user's slot for a method: a spent
/// challenge is dropped, and nothing else changes.
pub open spec fn after_purge(v: MfaView, user: u64, method: MfaMethod, now: u64) -> MfaView {
    if is_spent(v.challenge(user, method), now) {
        v.with_table(method, v.table(method).remove(user))
    } else {
        v
    }
}

/// Reads a method's name.
pub fn parse_method(name: &str) -> (method: Option<MfaMethod>)
    ensures
        method == method_named(name@),
{
    proof {
        reveal_strlit("totp");
        reveal_strlit("sms");
        reveal_strlit("email");
        assert("totp"@ =~= seq!['t', 'o', 't', 'p']);
        assert("sms"@ =~= seq!['s', 'm', 's']);
        assert("email"@ =~= seq!['e', 'm', 'a', 'i', 'l']);
    }
    if same_text(name, "totp") {
        Some(MfaMethod::Totp)
    } else if same_text(name, "sms") {
        Some(MfaMethod::Sms)
    } else if same_text(name, "email") {
        Some(MfaMethod::Email)
    } else {
        None
    }
}

struct Challenge {
    secret: Vec<u8>,
    created_at: u64,
    expires_at: u64,
    consumed: bool,
}

impl View for Challenge {
    type V = ChallengeView;

    closed spec fn view(&self) -> ChallengeView {
        ChallengeView {
            secret: self.secret@,
            created_at: self.created_at,
            expires_at: self.expires_at,
            consumed: self.consumed,
        }
    }
}

/// The model of one method's table.
spec fn table_view(m: Map<u64, Challenge>) -> Map<u64, ChallengeView> {
    Map::new(|k: u64| m.contains_key(k), |k: u64| m[k]@)
}

/// Judges `code` against the user's slot, without changing it.
fn probe(table: &HashMap<u64, Challenge>, user: u64, code: &[u8], now: u64) -> (r: Result<
    (),
    AuthError,
>)
    ensures
        r == answer(lookup(table_view(table@), user), code@, now),
{
    match table.get(&user) {
        None => Err(AuthError::NoActiveChallenge),
        Some(c) => {
            assert(lookup(table_view(table@), user) == Some(c@));
            if c.consumed {
                Err(AuthError::MfaAlreadyConsumed)
            } else if now >= c.expires_at {
                Err(AuthError::MfaExpired)
            } else if constant_time_eq(code, c.secret.as_slice()) {
                Ok(())
            } else {
                Err(AuthError::MfaCodeMismatch)
            }
        },
    }
}

/// Puts a fresh challenge into the user's slot.
fn table_setup(table: &mut HashMap<u64, Challenge>, user: u64, secret: Vec<u8>, now: u64, ttl: u64)
    ensures
        table_view(final(table)@) == table_view(old(table)@).insert(user, fresh(secret@, now, ttl)),
{
    let c = Challenge { secret, created_at: now, expires_at: deadline_after(now, ttl), consumed: false };
    let ghost added = c@;
    table.insert(user, c);
    assert(table_view(table@) =~= table_view(old(table)@).insert(user, added));
}

/// Judges `code` and consumes the challenge where it is the right one.
fn table_verify(table: &mut HashMap<u64, Challenge>, user: u64, code: &[u8], now: u64) -> (r: Result<
    (),
    AuthError,
>)
    ensures
        r == answer(lookup(table_view(old(table)@), user), code@, now),
        table_view(final(table)@) == answered(table_view(old(table)@), user, code@, now),
{
    let r = probe(table, user, code, now);
    match r {
        Ok(()) => {
            match table.remove(&user) {
                Some(c) => {
                    let ghost before = c@;
                    let done = Challenge {
                        secret: c.secret,
                        created_at: c.created_at,
                        expires_at: c.expires_at,
                        consumed: true,
                    };
                    table.insert(user, done);
                    assert(table_view(table@) =~= table_view(old(table)@).insert(
                        user,
                        consumed(before),
                    ));
                },
                None => {
                    assert(false);
                },
            }
        },
        Err(_) => {},
    }
    r
}

/// Drops the user's challenge if it is spent.
fn table_purge(table: &mut HashMap<u64, Challenge>, user: u64, now: u64) -> (dropped: bool)
    ensures
        dropped == is_spent(lookup(table_view(old(table)@), user), now),
        table_view(final(table)@) == if dropped {
            table_view(old(table)@).remove(user)
        } else {
            table_view(old(table)@)
        },
{
    let spent = match table.get(&user) {
        None => false,
        Some(c) => {
            assert(lookup(table_view(table@), user) == Some(c@));
            c.consumed || now >= c.expires_at
        },
    };
    if spent {
        table.remove(&user);
        assert(table_view(table@) =~= table_view(old(table)@).remove(user));
    }
    spent
}

/// The challenges of every user, with their lifetime.
pub struct MfaChallengeEngine {
    ttl: u64,
    totp: HashMap<u64, Challenge>,
    sms: HashMap<u64, Challenge>,
    email: HashMap<u64, Challenge>,
}

impl View for MfaChallengeEngine {
    type V = MfaView;

    closed spec fn view(&self) -> MfaView {
        MfaView {
            ttl: self.ttl,
            totp: table_view(self.totp@),
            sms: table_view(self.sms@),
            email: table_view(self.email@),
        }
    }
}

impl MfaChallengeEngine {
    /// An engine without challenges, whose challenges will hold for `ttl`
    /// seconds.
    pub fn new(ttl: u64) -> (engine: MfaChallengeEngine)
        ensures
            engine@ == (MfaView { ttl, totp: Map::empty(), sms: Map::empty(), email: Map::empty() }),
    {
        let engine = MfaChallengeEngine {
            ttl,
            totp: HashMap::new(),
            sms: HashMap::new(),
            email: HashMap::new(),
        };
        assert(table_view(engine.totp@) =~= Map::empty());
        assert(table_view(engine.sms@) =~= Map::empty());
        assert(table_view(engine.email@) =~= Map::empty());
        engine
    }

    /// Where the user stands with a method at `now`.
    pub fn state(&self, user: u64, method: MfaMethod, now: u64) -> (state: ChallengeState)
        ensures
            state == state_at(self@.challenge(user, method), now),
    {
        let slot = match method {
            MfaMethod::Totp => self.totp.get(&user),
            MfaMethod::Sms => self.sms.get(&user),
            MfaMethod::Email => self.email.get(&user),
        };
        match slot {
            None => ChallengeState::NoChallenge,
            Some(c) => {
                assert(self@.challenge(user, method) == Some(c@));
                if c.consumed {
                    ChallengeState::Consumed
                } else if now >= c.expires_at {
                    ChallengeState::Expired
                } else {
                    ChallengeState::Pending
                }
            },
        }
    }

    /// Sets up a challenge for `user` and the method named `method`, with
    /// the secret that the caller has drawn at random. A pending challenge
    /// for the same user and method is replaced, so that its code no longer
    /// counts. `account` labels the enrolment with `totp`.
    pub fn setup(&mut self, user: u64, account: &str, method: &str, secret: Vec<u8>, now: u64) -> (payload:
        Result<MfaPayload, AuthError>)
        ensures
            payload_view(payload) == setup_result(old(self)@, account@, method@, secret@, now),
            final(self)@ == after_setup(old(self)@, user, method@, secret@, now),
    {
        let expires_at = deadline_after(now, self.ttl);
        match parse_method(method) {
            None => Err(AuthError::UnsupportedMfaMethod),
            Some(MfaMethod::Totp) => {
                let shown = slice_to_vec(secret.as_slice());
                table_setup(&mut self.totp, user, secret, now, self.ttl);
                Ok(MfaPayload::Provisioning { secret: shown, account: String::from_str(account), expires_at })
            },
            Some(MfaMethod::Sms) => {
                table_setup(&mut self.sms, user, secret, now, self.ttl);
                Ok(MfaPayload::Dispatched { method: MfaMethod::Sms, expires_at })
            },
            Some(MfaMethod::Email) => {
                table_setup(&mut self.email, user, secret, now, self.ttl);
                Ok(MfaPayload::Dispatched { method: MfaMethod::Email, expires_at })
            },
        }
    }

    /// Drops the user's challenge for a method if it was consumed or has
    /// expired, and says whether it did. Nothing depends on this but the
    /// memory that spent challenges take.
    pub fn purge(&mut self, user: u64, method: MfaMethod, now: u64) -> (dropped: bool)
        ensures
            dropped == is_spent(old(self)@.challenge(user, method), now),
            final(self)@ == after_purge(old(self)@, user, method, now),
    {
        match method {
            MfaMethod::Totp => table_purge(&mut self.totp, user, now),
            MfaMethod::Sms => table_purge(&mut self.sms, user, now),
            MfaMethod::Email => table_purge(&mut self.email, user, now),
        }
    }

    /// Presents `code` for the user's challenge of the method named
    /// `method`. Only the secret of a pending challenge succeeds, and only
    /// once: success consumes the challenge. Every other outcome leaves the
    /// engine as it was. The code is compared byte by byte to the end.
    pub fn verify(&mut self, user: u64, code: &str, method: &str, now: u64) -> (r: Result<
        (),
        AuthError,
    >)
        ensures
            r == verify_result(old(self)@, user, encode_utf8(code@), method@, now),
            final(self)@ == after_verify(old(self)@, user, encode_utf8(code@), method@, now),
    {
        match parse_method(method) {
            None => Err(AuthError::UnsupportedMfaMethod),
            Some(MfaMethod::Totp) => table_verify(&mut self.totp, user, code.as_bytes(), now),
            Some(MfaMethod::Sms) => table_verify(&mut self.sms, user, code.as_bytes(), now),
            Some(MfaMethod::Email) => table_verify(&mut self.email, user, code.as_bytes(), now),
        }
    }
}

} // verus!
