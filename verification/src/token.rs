//! Bearer tokens: signed claims in hexadecimal, with a revocation epoch per
//! user.
//!
//! A token is self-describing. Its claims name the user, the user's tenant
//! and role, the revocation epoch under which it was issued, and its
//! deadline; the tag that follows them is their HMAC-SHA-256 under the
//! issuer's key.

use std::collections::HashMap;
use vstd::bytes::{
    lemma_auto_spec_u64_to_from_le_bytes, spec_u64_from_le_bytes, spec_u64_to_le_bytes,
    u64_from_le_bytes, u64_to_le_bytes,
};
use vstd::prelude::*;
use vstd::slice::{slice_subrange, slice_to_vec};
use vstd::utf8::encode_utf8;

use crate::credentials::{CredentialStore, StoreView};
use crate::crypto::{hmac_sha256, hmac_tag};
use crate::encoding::{
    ascii_text, constant_time_eq, from_hex, hex_decode, hex_encode, lemma_hex_encode_is_ascii,
    lemma_hex_round_trip, to_hex,
};
use crate::error::AuthError;
use crate::types::{user_view, User, UserView};

verus! {

broadcast use vstd::std_specs::hash::group_hash_axioms;

/// What a token says: whom it was issued to, under which revocation epoch of
/// that user, until when it holds, and the user's tenant and role at that
/// time, as the bytes of their text.
#[derive(Clone, Debug, PartialEq, Eq)]
pub struct Claims {
    /// The number of the user's account.
    pub user: u64,
    /// The user's revocation epoch when the token was issued.
    pub epoch: u64,
    /// The first second at which the token no longer holds.
    pub expires_at: u64,
    /// The user's tenant.
    pub tenant_id: Option<Vec<u8>>,
    /// The user's role.
    pub role: Option<Vec<u8>>,
}

/// The model of [`Claims`].
pub struct ClaimsView {
    pub user: u64,
    pub epoch: u64,
    pub expires_at: u64,
    pub tenant_id: Option<Seq<u8>>,
    pub role: Option<Seq<u8>>,
}

/// The model of optional bytes.
pub open spec fn bytes_view(b: Option<Vec<u8>>) -> Option<Seq<u8>> {
    match b {
        Some(v) => Some(v@),
        None => None,
    }
}

/// The stored bytes of an optional text.
pub open spec fn text_bytes(t: Option<Seq<char>>) -> Option<Seq<u8>> {
    match t {
        Some(s) => Some(encode_utf8(s)),
        None => None,
    }
}

impl View for Claims {
    type V = ClaimsView;

    open spec fn view(&self) -> ClaimsView {
        ClaimsView {
            user: self.user,
            epoch: self.epoch,
            expires_at: self.expires_at,
            tenant_id: bytes_view(self.tenant_id),
            role: bytes_view(self.role),
        }
    }
}

/// The model of a verdict that holds claims.
pub open spec fn claims_view(r: Result<Claims, AuthError>) -> Result<ClaimsView, AuthError> {
    match r {
        Ok(c) => Ok(c@),
        Err(e) => Err(e),
    }
}

/// The model of a [`TokenIssuer`].
pub struct IssuerView {
    /// The signing key.
    pub key: Seq<u8>,
    /// The lifetime of a token, in seconds.
    pub ttl: u64,
    /// The revocation epoch of each user that has logged out at least once.
    pub epochs: Map<u64, u64>,
}

impl IssuerView {
    /// The user's current revocation epoch: zero until the first logout.
    pub open spec fn epoch_of(self, user: u64) -> u64 {
        if self.epochs.contains_key(user) {
            self.epochs[user]
        } else {
            0
        }
    }
}

/// The number of bytes that the three numbers of the claims take.
pub const HEADER_LEN: usize = 24;

/// `now + ttl`, or the last second there is where that is beyond it.
pub open spec fn deadline(now: u64, ttl: u64) -> u64 {
    if now + ttl > u64::MAX {
        u64::MAX
    } else {
        (now + ttl) as u64
    }
}

/// The epoch after `epoch`. The counter stops at its last value, which no
/// accepted token carries.
pub open spec fn next_epoch(epoch: u64) -> u64 {
    if epoch < u64::MAX {
        (epoch + 1) as u64
    } else {
        u64::MAX
    }
}

/// An optional field as bytes: `0` for none; else `1`, the length as a
/// little-endian 64-bit number, and the bytes.
pub open spec fn field_bytes(field: Option<Seq<u8>>) -> Seq<u8> {
    match field {
        None => seq![0u8],
        Some(b) => seq![1u8] + spec_u64_to_le_bytes(b.len() as u64) + b,
    }
}

/// The field's length can be written in 64 bits.
pub open spec fn field_fits(field: Option<Seq<u8>>) -> bool {
    field matches Some(b) ==> b.len() <= u64::MAX
}

/// Claims whose fields can be written.
pub open spec fn claims_fit(c: ClaimsView) -> bool {
    field_fits(c.tenant_id) && field_fits(c.role)
}

/// Claims as bytes: three little-endian 64-bit numbers, then the tenant and
/// the role as optional fields.
pub open spec fn claims_bytes(c: ClaimsView) -> Seq<u8> {
    spec_u64_to_le_bytes(c.user) + spec_u64_to_le_bytes(c.epoch) + spec_u64_to_le_bytes(
        c.expires_at,
    ) + field_bytes(c.tenant_id) + field_bytes(c.role)
}

/// The optional field that starts at `at`, and where it ends.
pub open spec fn parse_field(bytes: Seq<u8>, at: int) -> Option<(Option<Seq<u8>>, int)> {
    if at < 0 || at >= bytes.len() {
        None
    } else if bytes[at] == 0 {
        Some((None, at + 1))
    } else if bytes[at] == 1 && at + 9 <= bytes.len() {
        let n = spec_u64_from_le_bytes(bytes.subrange(at + 1, at + 9));
        if at + 9 + n <= bytes.len() {
            Some((Some(bytes.subrange(at + 9, at + 9 + n)), at + 9 + n))
        } else {
            None
        }
    } else {
        None
    }
}

/// The claims that `raw` starts with, and where they end.
pub open spec fn parse_claims(raw: Seq<u8>) -> Option<(ClaimsView, int)> {
    if raw.len() < HEADER_LEN {
        None
    } else {
        match parse_field(raw, HEADER_LEN as int) {
            None => None,
            Some((tenant_id, at)) => match parse_field(raw, at) {
                None => None,
                Some((role, end)) => Some(
                    (
                        ClaimsView {
                            user: spec_u64_from_le_bytes(raw.subrange(0, 8)),
                            epoch: spec_u64_from_le_bytes(raw.subrange(8, 16)),
                            expires_at: spec_u64_from_le_bytes(raw.subrange(16, 24)),
                            tenant_id,
                            role,
                        },
                        end,
                    ),
                ),
            },
        }
    }
}

/// `raw` is claims followed by their tag under `key`.
pub open spec fn signature_matches(key: Seq<u8>, raw: Seq<u8>) -> bool {
    parse_claims(raw) matches Some((_, end)) && raw.subrange(end, raw.len() as int)
        == hmac_sha256(key, raw.subrange(0, end))
}

/// The claims followed by their tag under `key`.
pub open spec fn signed_claims(key: Seq<u8>, c: ClaimsView) -> Seq<u8> {
    claims_bytes(c) + hmac_sha256(key, claims_bytes(c))
}

/// The token for `c` under `key`: the signed claims in hexadecimal.
pub open spec fn token_text(key: Seq<u8>, c: ClaimsView) -> Seq<char> {
    ascii_text(hex_encode(signed_claims(key, c)))
}

/// The claims of the token stored as `text`, if `text` is hexadecimal, starts
/// with claims, and everything after the claims is their tag under `key`.
pub open spec fn parse_token(key: Seq<u8>, text: Seq<u8>) -> Option<ClaimsView> {
    match hex_decode(text) {
        Some(raw) => match parse_claims(raw) {
            Some((claims, _)) => {
                if signature_matches(key, raw) {
                    Some(claims)
                } else {
                    None
                }
            },
            None => None,
        },
        None => None,
    }
}

/// The claims of a token issued at `now` to the user with this number and
/// record.
pub open spec fn issued_claims(issuer: IssuerView, number: u64, user: UserView, now: u64) -> ClaimsView {
    ClaimsView {
        user: number,
        epoch: issuer.epoch_of(number),
        expires_at: deadline(now, issuer.ttl),
        tenant_id: text_bytes(user.tenant_id),
        role: text_bytes(user.role),
    }
}

/// The verdict on the token stored as `text` at `now`: malformed unless it
/// parses under the issuer's key; else expired from its deadline on; else
/// revoked unless its epoch is the user's current one and not the counter's
/// last value; else its claims.
pub open spec fn check_token(issuer: IssuerView, text: Seq<u8>, now: u64) -> Result<
    ClaimsView,
    AuthError,
> {
    match parse_token(issuer.key, text) {
        None => Err(AuthError::TokenMalformed),
        Some(c) => {
            if now >= c.expires_at {
                Err(AuthError::TokenExpired)
            } else if c.epoch != issuer.epoch_of(c.user) || c.epoch == u64::MAX {
                Err(AuthError::TokenRevoked)
            } else {
                Ok(c)
            }
        },
    }
}

/// The verdict on a token once its user is looked up: as `check_token`, and
/// an accepted token must name an account of the store.
pub open spec fn resolve_token(issuer: IssuerView, store: StoreView, text: Seq<u8>, now: u64) -> Result<
    ClaimsView,
    AuthError,
> {
    match check_token(issuer, text, now) {
        Err(e) => Err(e),
        Ok(c) => {
            if c.user < store.accounts.len() {
                Ok(c)
            } else {
                Err(AuthError::UnknownUser)
            }
        },
    }
}

/// The user that a token stands for.
pub open spec fn validate_token(issuer: IssuerView, store: StoreView, text: Seq<u8>, now: u64) -> Result<
    UserView,
    AuthError,
> {
    match resolve_token(issuer, store, text, now) {
        Err(e) => Err(e),
        Ok(c) => Ok(store.accounts[c.user as int].user),
    }
}

/// The issuer after every token of `user` has been revoked.
pub open spec fn revoked(issuer: IssuerView, user: u64) -> IssuerView {
    IssuerView {
        key: issuer.key,
        ttl: issuer.ttl,
        epochs: issuer.epochs.insert(user, next_epoch(issuer.epoch_of(user))),
    }
}

/// A field is read back from where it was written, whatever stands before
/// and after it.
pub proof fn lemma_field_round_trip(before: Seq<u8>, field: Option<Seq<u8>>, after: Seq<u8>)
    requires
        field_fits(field),
    ensures
        parse_field(before + field_bytes(field) + after, before.len() as int) == Some(
            (field, (before.len() + field_bytes(field).len()) as int),
        ),
{
    lemma_auto_spec_u64_to_from_le_bytes();
    let all = before + field_bytes(field) + after;
    let at = before.len() as int;
    match field {
        None => {
            assert(all[at] == 0u8);
        },
        Some(b) => {
            let len = spec_u64_to_le_bytes(b.len() as u64);
            assert(field_bytes(field).len() == 9 + b.len());
            assert(all[at] == 1u8);
            assert(all.subrange(at + 1, at + 9) =~= len);
            assert(spec_u64_from_le_bytes(len) == b.len());
            assert(all.subrange(at + 9, at + 9 + b.len()) =~= b);
        },
    }
}

/// Claims are read back from their bytes, whatever follows them.
pub proof fn lemma_claims_round_trip(c: ClaimsView, after: Seq<u8>)
    requires
        claims_fit(c),
    ensures
        parse_claims(claims_bytes(c) + after) == Some((c, claims_bytes(c).len() as int)),
        (claims_bytes(c) + after).subrange(0, claims_bytes(c).len() as int) == claims_bytes(c),
        (claims_bytes(c) + after).subrange(
            claims_bytes(c).len() as int,
            (claims_bytes(c) + after).len() as int,
        ) == after,
{
    lemma_auto_spec_u64_to_from_le_bytes();
    let header = spec_u64_to_le_bytes(c.user) + spec_u64_to_le_bytes(c.epoch)
        + spec_u64_to_le_bytes(c.expires_at);
    let tenant = field_bytes(c.tenant_id);
    let role = field_bytes(c.role);
    let all = claims_bytes(c) + after;
    assert(header.len() == HEADER_LEN);
    assert(all.subrange(0, 8) =~= spec_u64_to_le_bytes(c.user));
    assert(all.subrange(8, 16) =~= spec_u64_to_le_bytes(c.epoch));
    assert(all.subrange(16, 24) =~= spec_u64_to_le_bytes(c.expires_at));
    lemma_field_round_trip(header, c.tenant_id, role + after);
    assert(all =~= header + tenant + (role + after));
    lemma_field_round_trip(header + tenant, c.role, after);
    assert(all =~= (header + tenant) + role + after);
    assert(all.subrange(0, claims_bytes(c).len() as int) =~= claims_bytes(c));
    assert(all.subrange(claims_bytes(c).len() as int, all.len() as int) =~= after);
}

/// A token parses, under the key that signed it, to the claims it was made
/// from.
pub proof fn lemma_token_round_trip(key: Seq<u8>, c: ClaimsView)
    requires
        claims_fit(c),
    ensures
        parse_token(key, encode_utf8(token_text(key, c))) == Some(c),
{
    let raw = signed_claims(key, c);
    lemma_hex_encode_is_ascii(raw);
    lemma_hex_round_trip(raw);
    lemma_claims_round_trip(c, hmac_sha256(key, claims_bytes(c)));
}

/// Mints and judges bearer tokens. The issuer keeps no list of tokens, only
/// one counter per user.
pub struct TokenIssuer {
    key: Vec<u8>,
    ttl: u64,
    epochs: HashMap<u64, u64>,
}

impl View for TokenIssuer {
    type V = IssuerView;

    closed spec fn view(&self) -> IssuerView {
        IssuerView { key: self.key@, ttl: self.ttl, epochs: self.epochs@ }
    }
}

/// `now + ttl`, stopping at the last second.
pub fn deadline_after(now: u64, ttl: u64) -> (at: u64)
    ensures
        at == deadline(now, ttl),
{
    now.saturating_add(ttl)
}

/// The stored bytes of an optional text.
pub fn bytes_of(text: &Option<String>) -> (bytes: Option<Vec<u8>>)
    ensures
        bytes_view(bytes) == text_bytes(crate::types::text_of(*text)),
        field_fits(bytes_view(bytes)),
{
    match text {
        Some(t) => {
            let b = slice_to_vec(t.as_str().as_bytes());
            assert(b@.len() == b.len());
            Some(b)
        },
        None => None,
    }
}

/// Appends an optional field to `out`.
fn write_field(out: &mut Vec<u8>, field: &Option<Vec<u8>>)
    ensures
        final(out)@ == old(out)@ + field_bytes(bytes_view(*field)),
{
    match field {
        None => {
            out.push(0);
            assert(out@ =~= old(out)@ + seq![0u8]);
        },
        Some(b) => {
            out.push(1);
            let mut len = u64_to_le_bytes(b.len() as u64);
            out.append(&mut len);
            let mut copy = slice_to_vec(b.as_slice());
            out.append(&mut copy);
            assert(out@ =~= old(out)@ + (seq![1u8] + spec_u64_to_le_bytes(b@.len() as u64) + b@));
        },
    }
}

/// Claims as bytes.
pub fn encode_claims(c: &Claims) -> (bytes: Vec<u8>)
    ensures
        bytes@ == claims_bytes(c@),
{
    let mut bytes = u64_to_le_bytes(c.user);
    let mut epoch = u64_to_le_bytes(c.epoch);
    let mut expires_at = u64_to_le_bytes(c.expires_at);
    bytes.append(&mut epoch);
    bytes.append(&mut expires_at);
    write_field(&mut bytes, &c.tenant_id);
    write_field(&mut bytes, &c.role);
    bytes
}

/// Reads the optional field that starts at `at`.
fn read_field(bytes: &[u8], at: usize) -> (field: Option<(Option<Vec<u8>>, usize)>)
    ensures
        match field {
            Some((f, end)) => parse_field(bytes@, at as int) == Some((bytes_view(f), end as int)),
            None => parse_field(bytes@, at as int) is None,
        },
{
    if at >= bytes.len() {
        return None;
    }
    let flag = bytes[at];
    if flag == 0 {
        Some((None, at + 1))
    } else if flag == 1 {
        if bytes.len() - at < 9 {
            return None;
        }
        let n = u64_from_le_bytes(slice_subrange(bytes, at + 1, at + 9));
        let room: usize = bytes.len() - at - 9;
        if n > room as u64 {
            return None;
        }
        let start: usize = at + 9;
        let end: usize = start + n as usize;
        Some((Some(slice_to_vec(slice_subrange(bytes, start, end))), end))
    } else {
        None
    }
}

/// Reads the claims that `raw` starts with, and says where they end.
pub fn decode_claims(raw: &[u8]) -> (claims: Option<(Claims, usize)>)
    ensures
        match claims {
            Some((c, end)) => parse_claims(raw@) == Some((c@, end as int)) && end <= raw@.len(),
            None => parse_claims(raw@) is None,
        },
{
    if raw.len() < HEADER_LEN {
        return None;
    }
    let (tenant_id, at) = match read_field(raw, HEADER_LEN) {
        Some(f) => f,
        None => {
            return None;
        },
    };
    let (role, end) = match read_field(raw, at) {
        Some(f) => f,
        None => {
            return None;
        },
    };
    let c = Claims {
        user: u64_from_le_bytes(slice_subrange(raw, 0, 8)),
        epoch: u64_from_le_bytes(slice_subrange(raw, 8, 16)),
        expires_at: u64_from_le_bytes(slice_subrange(raw, 16, 24)),
        tenant_id,
        role,
    };
    Some((c, end))
}

/// The token for `c` under `key`.
pub fn sign_claims(key: &[u8], c: &Claims) -> (token: String)
    ensures
        token@ == token_text(key@, c@),
{
    let mut raw = encode_claims(c);
    let mut tag = hmac_tag(key, raw.as_slice());
    raw.append(&mut tag);
    to_hex(raw.as_slice())
}

/// Reads a token and checks its signature under `key`. The tags are
/// compared byte by byte to the end.
pub fn read_token(key: &[u8], token: &str) -> (claims: Option<Claims>)
    ensures
        bytes_claims(claims) == parse_token(key@, encode_utf8(token@)),
{
    match from_hex(token.as_bytes()) {
        None => None,
        Some(raw) => {
            match decode_claims(raw.as_slice()) {
                None => None,
                Some((c, end)) => {
                    let body = slice_subrange(raw.as_slice(), 0, end);
                    let tag = slice_subrange(raw.as_slice(), end, raw.len());
                    let expected = hmac_tag(key, body);
                    if constant_time_eq(tag, expected.as_slice()) {
                        Some(c)
                    } else {
                        None
                    }
                },
            }
        },
    }
}

/// The model of optional claims.
pub open spec fn bytes_claims(c: Option<Claims>) -> Option<ClaimsView> {
    match c {
        Some(c) => Some(c@),
        None => None,
    }
}

impl TokenIssuer {
    /// An issuer that signs with `key` and gives tokens `ttl` seconds. No
    /// user has logged out yet.
    pub fn new(key: Vec<u8>, ttl: u64) -> (issuer: TokenIssuer)
        ensures
            issuer@ == (IssuerView { key: key@, ttl, epochs: Map::empty() }),
    {
        TokenIssuer { key, ttl, epochs: HashMap::new() }
    }

    /// The user's current revocation epoch.
    pub fn current_epoch(&self, user: u64) -> (epoch: u64)
        ensures
            epoch == self@.epoch_of(user),
    {
        match self.epochs.get(&user) {
            Some(e) => *e,
            None => 0,
        }
    }

    /// A token for the user with this number and record. It binds the
    /// number, the user's tenant and role, the user's current epoch, and a
    /// deadline that is the issuer's lifetime after `now`.
    pub fn issue(&self, number: u64, user: &User, now: u64) -> (token: String)
        ensures
            token@ == token_text(self@.key, issued_claims(self@, number, user@, now)),
            claims_fit(issued_claims(self@, number, user@, now)),
    {
        let c = Claims {
            user: number,
            epoch: self.current_epoch(number),
            expires_at: deadline_after(now, self.ttl),
            tenant_id: bytes_of(&user.tenant_id),
            role: bytes_of(&user.role),
        };
        sign_claims(self.key.as_slice(), &c)
    }

    /// Judges a token at `now`, without asking whether its user exists.
    pub fn check(&self, token: &str, now: u64) -> (verdict: Result<Claims, AuthError>)
        ensures
            claims_view(verdict) == check_token(self@, encode_utf8(token@), now),
    {
        match read_token(self.key.as_slice(), token) {
            None => Err(AuthError::TokenMalformed),
            Some(c) => {
                if now >= c.expires_at {
                    Err(AuthError::TokenExpired)
                } else if c.epoch != self.current_epoch(c.user) || c.epoch == u64::MAX {
                    Err(AuthError::TokenRevoked)
                } else {
                    Ok(c)
                }
            },
        }
    }

    /// Judges a token at `now` and checks that its user has an account.
    pub fn resolve(&self, store: &CredentialStore, token: &str, now: u64) -> (verdict: Result<
        Claims,
        AuthError,
    >)
        ensures
            claims_view(verdict) == resolve_token(self@, store@, encode_utf8(token@), now),
    {
        match self.check(token, now) {
            Err(e) => Err(e),
            Ok(c) => {
                if c.user < store.len() as u64 {
                    Ok(c)
                } else {
                    Err(AuthError::UnknownUser)
                }
            },
        }
    }

    /// The user that a token stands for at `now`. A token is accepted if it
    /// is signed under the issuer's key, has not expired, carries the
    /// current epoch of its user, and names a user of the store.
    pub fn validate(&self, store: &CredentialStore, token: &str, now: u64) -> (user: Result<
        User,
        AuthError,
    >)
        ensures
            user_view(user) == validate_token(self@, store@, encode_utf8(token@), now),
    {
        match self.resolve(store, token, now) {
            Err(e) => Err(e),
            Ok(c) => {
                match store.user(c.user) {
                    Some(u) => Ok(u),
                    None => Err(AuthError::UnknownUser),
                }
            },
        }
    }

    /// Revokes every token issued to `user` so far, by moving the user to
    /// the next epoch.
    pub fn revoke_all(&mut self, user: u64)
        ensures
            final(self)@ == revoked(old(self)@, user),
    {
        let epoch = self.current_epoch(user);
        let next = if epoch < u64::MAX {
            epoch + 1
        } else {
            u64::MAX
        };
        self.epochs.insert(user, next);
    }
}

} // verus!
