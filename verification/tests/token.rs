use authflow::encoding::{from_hex, to_hex};
use authflow::token::{decode_claims, deadline_after, encode_claims, read_token, sign_claims};
use authflow::{AuthError, Claims, CredentialStore, Profile, TokenIssuer, User};
use hmac::{Hmac, Mac};
use sha2::Sha256;

const KEY: &[u8] = b"a key that only the service knows";

fn issuer(ttl: u64) -> TokenIssuer {
    TokenIssuer::new(KEY.to_vec(), ttl)
}

fn plain(user: u64, epoch: u64, expires_at: u64) -> Claims {
    Claims { user, epoch, expires_at, tenant_id: None, role: None }
}

fn user(number: u64, tenant_id: Option<&str>, role: Option<&str>) -> User {
    User {
        id: number.to_string(),
        email: format!("user{}@example.com", number),
        first_name: None,
        last_name: None,
        role: role.map(|s| s.to_string()),
        tenant_id: tenant_id.map(|s| s.to_string()),
    }
}

fn store_with(n: usize) -> CredentialStore {
    let mut store = CredentialStore::new(1);
    for i in 0..n {
        let email = format!("user{}@example.com", i);
        let profile = Profile { first_name: None, last_name: None, role: None, tenant_id: None };
        store.create(&email, "correct horse", profile, vec![i as u8]).unwrap();
    }
    store
}

fn flip(token: &str, at: usize) -> String {
    let mut bytes = token.as_bytes().to_vec();
    bytes[at] = if bytes[at] == b'0' { b'1' } else { b'0' };
    String::from_utf8(bytes).unwrap()
}

fn tag(key: &[u8], message: &[u8]) -> Vec<u8> {
    let mut mac = Hmac::<Sha256>::new_from_slice(key).unwrap();
    mac.update(message);
    mac.finalize().into_bytes().to_vec()
}

#[test]
fn deadline_adds_and_stops_at_the_last_second() {
    assert_eq!(deadline_after(100, 50), 150);
    assert_eq!(deadline_after(0, 0), 0);
    assert_eq!(deadline_after(u64::MAX - 5, 5), u64::MAX);
    assert_eq!(deadline_after(u64::MAX - 5, 6), u64::MAX);
    assert_eq!(deadline_after(u64::MAX, u64::MAX), u64::MAX);
}

#[test]
fn claims_without_tenant_and_role_take_26_bytes() {
    let c = plain(1, 0x0203, 0x0405_0607_0809_0a0b);
    let bytes = encode_claims(&c);
    assert_eq!(
        bytes,
        vec![1, 0, 0, 0, 0, 0, 0, 0, 3, 2, 0, 0, 0, 0, 0, 0, 0x0b, 0x0a, 9, 8, 7, 6, 5, 4, 0, 0]
    );
    assert_eq!(decode_claims(&bytes), Some((c, 26)));
}

#[test]
fn claims_write_tenant_and_role_with_their_length() {
    let c = Claims {
        user: 2,
        epoch: 0,
        expires_at: 9,
        tenant_id: Some(b"acme".to_vec()),
        role: Some(b"".to_vec()),
    };
    let bytes = encode_claims(&c);
    let mut expected = vec![2, 0, 0, 0, 0, 0, 0, 0, 0, 0, 0, 0, 0, 0, 0, 0, 9, 0, 0, 0, 0, 0, 0, 0];
    expected.extend_from_slice(&[1, 4, 0, 0, 0, 0, 0, 0, 0]);
    expected.extend_from_slice(b"acme");
    expected.extend_from_slice(&[1, 0, 0, 0, 0, 0, 0, 0, 0]);
    assert_eq!(bytes, expected);
    assert_eq!(decode_claims(&bytes), Some((c.clone(), bytes.len())));
    let mut longer = bytes.clone();
    longer.extend_from_slice(&[7, 7, 7]);
    assert_eq!(decode_claims(&longer), Some((c, bytes.len())));
    let only_role =
        Claims { user: 2, epoch: 0, expires_at: 9, tenant_id: None, role: Some(b"admin".to_vec()) };
    let bytes = encode_claims(&only_role);
    assert_eq!(bytes.len(), 24 + 1 + 9 + 5);
    assert_eq!(decode_claims(&bytes), Some((only_role, bytes.len())));
}

#[test]
fn claims_that_are_cut_or_misframed_do_not_parse() {
    let c = Claims {
        user: 2,
        epoch: 0,
        expires_at: 9,
        tenant_id: Some(b"acme".to_vec()),
        role: Some(b"admin".to_vec()),
    };
    let bytes = encode_claims(&c);
    for n in 0..bytes.len() {
        assert_eq!(decode_claims(&bytes[..n]), None);
    }
    let mut bad_flag = bytes.clone();
    bad_flag[24] = 2;
    assert_eq!(decode_claims(&bad_flag), None);
    let mut too_long = bytes.clone();
    too_long[25] = 200;
    assert_eq!(decode_claims(&too_long), None);
    let mut huge = bytes.clone();
    for b in &mut huge[25..33] {
        *b = 0xff;
    }
    assert_eq!(decode_claims(&huge), None);
}

#[test]
fn token_is_claims_and_their_hmac_in_hex() {
    let c = plain(7, 3, 1_700_000_000);
    let token = sign_claims(KEY, &c);
    assert_eq!(token.len(), 2 * (26 + 32));
    let raw = from_hex(token.as_bytes()).unwrap();
    assert_eq!(&raw[..26], encode_claims(&c).as_slice());
    assert_eq!(&raw[26..], tag(KEY, &raw[..26]).as_slice());
}

#[test]
fn tag_is_hmac_sha256_of_the_claims() {
    let token = sign_claims(b"key", &plain(0, 0, 0));
    assert_eq!(token, format!("{}{}", "0".repeat(52), to_hex(&tag(b"key", &[0u8; 26]))));
    let c = Claims { user: 1, epoch: 2, expires_at: 3, tenant_id: Some(b"t".to_vec()), role: None };
    let token = sign_claims(b"", &c);
    let body = encode_claims(&c);
    assert_eq!(token, format!("{}{}", to_hex(&body), to_hex(&tag(b"", &body))));
}

#[test]
fn read_token_gives_back_the_claims() {
    let c = Claims {
        user: 42,
        epoch: 9,
        expires_at: u64::MAX,
        tenant_id: Some("tenant é".as_bytes().to_vec()),
        role: Some(b"admin".to_vec()),
    };
    let token = sign_claims(KEY, &c);
    assert_eq!(read_token(KEY, &token), Some(c));
    assert_eq!(read_token(b"another key", &token), None);
}

#[test]
fn issue_binds_user_tenant_role_epoch_and_deadline() {
    let issuer = issuer(3600);
    let token = issuer.issue(5, &user(5, Some("acme"), Some("admin")), 1000);
    let expected = Claims {
        user: 5,
        epoch: 0,
        expires_at: 4600,
        tenant_id: Some(b"acme".to_vec()),
        role: Some(b"admin".to_vec()),
    };
    assert_eq!(issuer.check(&token, 1000), Ok(expected.clone()));
    assert_eq!(read_token(KEY, &token), Some(expected));
    let token = issuer.issue(6, &user(6, None, None), 1000);
    assert_eq!(issuer.check(&token, 1000), Ok(plain(6, 0, 4600)));
}

#[test]
fn token_holds_until_its_deadline() {
    let issuer = issuer(3600);
    let token = issuer.issue(5, &user(5, None, None), 1000);
    assert!(issuer.check(&token, 0).is_ok());
    assert!(issuer.check(&token, 4599).is_ok());
    assert_eq!(issuer.check(&token, 4600), Err(AuthError::TokenExpired));
    assert_eq!(issuer.check(&token, u64::MAX), Err(AuthError::TokenExpired));
}

#[test]
fn token_without_lifetime_is_expired_at_once() {
    let issuer = issuer(0);
    let token = issuer.issue(5, &user(5, None, None), 1000);
    assert_eq!(issuer.check(&token, 1000), Err(AuthError::TokenExpired));
    assert!(issuer.check(&token, 999).is_ok());
}

#[test]
fn tampered_payload_is_malformed() {
    let issuer = issuer(3600);
    let token = issuer.issue(5, &user(5, Some("acme"), Some("user")), 1000);
    let payload = token.len() - 64;
    for at in 0..payload {
        assert_eq!(issuer.check(&flip(&token, at), 1000), Err(AuthError::TokenMalformed));
    }
}

#[test]
fn tampered_signature_is_malformed() {
    let issuer = issuer(3600);
    let token = issuer.issue(5, &user(5, None, None), 1000);
    for at in 52..token.len() {
        assert_eq!(issuer.check(&flip(&token, at), 1000), Err(AuthError::TokenMalformed));
    }
}

#[test]
fn forged_claims_are_malformed() {
    let issuer = issuer(10);
    let token = issuer.issue(5, &user(5, None, Some("user")), 1000);
    let raw = from_hex(token.as_bytes()).unwrap();
    let signature = &raw[raw.len() - 32..];
    let later = Claims {
        user: 5,
        epoch: 0,
        expires_at: u64::MAX,
        tenant_id: None,
        role: Some(b"user".to_vec()),
    };
    let mut bytes = encode_claims(&later);
    bytes.extend_from_slice(signature);
    assert_eq!(issuer.check(&to_hex(&bytes), 2000), Err(AuthError::TokenMalformed));
    let admin =
        Claims { user: 5, epoch: 0, expires_at: 1010, tenant_id: None, role: Some(b"root".to_vec()) };
    let mut bytes = encode_claims(&admin);
    bytes.extend_from_slice(signature);
    assert_eq!(issuer.check(&to_hex(&bytes), 1000), Err(AuthError::TokenMalformed));
    assert_eq!(issuer.check(&token, 2000), Err(AuthError::TokenExpired));
    assert!(issuer.check(&token, 1000).is_ok());
}

#[test]
fn what_is_no_token_is_malformed() {
    let issuer = issuer(3600);
    let token = issuer.issue(5, &user(5, None, None), 1000);
    assert_eq!(issuer.check("", 0), Err(AuthError::TokenMalformed));
    assert_eq!(issuer.check("zz", 0), Err(AuthError::TokenMalformed));
    assert_eq!(issuer.check("00", 0), Err(AuthError::TokenMalformed));
    assert_eq!(issuer.check(&token[..token.len() - 2], 0), Err(AuthError::TokenMalformed));
    assert_eq!(issuer.check(&token[..52], 0), Err(AuthError::TokenMalformed));
    assert_eq!(issuer.check(&token[..51], 0), Err(AuthError::TokenMalformed));
    assert_eq!(issuer.check(&token[..48], 0), Err(AuthError::TokenMalformed));
    assert_eq!(issuer.check(&format!("{}00", token), 0), Err(AuthError::TokenMalformed));
    assert_eq!(issuer.check(&token.to_uppercase(), 0), Err(AuthError::TokenMalformed));
    assert_eq!(issuer.check("Bearer ünïcödé", 0), Err(AuthError::TokenMalformed));
}

#[test]
fn token_of_another_key_is_malformed() {
    let token = TokenIssuer::new(b"another key".to_vec(), 3600).issue(5, &user(5, None, None), 1000);
    assert_eq!(issuer(3600).check(&token, 1000), Err(AuthError::TokenMalformed));
}

#[test]
fn revoke_all_moves_the_user_to_the_next_epoch() {
    let mut issuer = issuer(3600);
    assert_eq!(issuer.current_epoch(5), 0);
    let old = issuer.issue(5, &user(5, None, None), 1000);
    let other = issuer.issue(6, &user(6, None, None), 1000);
    issuer.revoke_all(5);
    assert_eq!(issuer.current_epoch(5), 1);
    assert_eq!(issuer.current_epoch(6), 0);
    assert_eq!(issuer.check(&old, 1000), Err(AuthError::TokenRevoked));
    assert!(issuer.check(&other, 1000).is_ok());
    let new = issuer.issue(5, &user(5, None, None), 1000);
    assert_eq!(issuer.check(&new, 1000), Ok(plain(5, 1, 4600)));
    issuer.revoke_all(5);
    assert_eq!(issuer.current_epoch(5), 2);
    assert_eq!(issuer.check(&new, 1000), Err(AuthError::TokenRevoked));
    assert_eq!(issuer.check(&old, 1000), Err(AuthError::TokenRevoked));
}

#[test]
fn expiry_is_reported_before_revocation() {
    let mut issuer = issuer(10);
    let token = issuer.issue(5, &user(5, None, None), 1000);
    issuer.revoke_all(5);
    assert_eq!(issuer.check(&token, 1009), Err(AuthError::TokenRevoked));
    assert_eq!(issuer.check(&token, 1010), Err(AuthError::TokenExpired));
}

#[test]
fn token_of_the_last_epoch_is_never_accepted() {
    let issuer = issuer(3600);
    let token = sign_claims(KEY, &plain(5, u64::MAX, 5000));
    assert_eq!(issuer.check(&token, 1000), Err(AuthError::TokenRevoked));
    let future = sign_claims(KEY, &plain(5, 1, 5000));
    assert_eq!(issuer.check(&future, 1000), Err(AuthError::TokenRevoked));
    let current = sign_claims(KEY, &plain(5, 0, 5000));
    assert_eq!(issuer.check(&current, 1000), Ok(plain(5, 0, 5000)));
}

#[test]
fn validate_looks_the_user_up() {
    let issuer = issuer(3600);
    let store = store_with(2);
    let token = issuer.issue(1, &store.user(1).unwrap(), 1000);
    let user = issuer.validate(&store, &token, 1000).unwrap();
    assert_eq!(user.id, "1");
    assert_eq!(user.email, "user1@example.com");
    assert_eq!(issuer.resolve(&store, &token, 1000).unwrap().user, 1);
}

#[test]
fn validate_refuses_a_user_without_account() {
    let issuer = issuer(3600);
    let store = store_with(2);
    let token = issuer.issue(2, &user(2, None, None), 1000);
    assert!(issuer.check(&token, 1000).is_ok());
    assert_eq!(issuer.validate(&store, &token, 1000).err(), Some(AuthError::UnknownUser));
    assert_eq!(issuer.resolve(&store, &token, 1000), Err(AuthError::UnknownUser));
    assert_eq!(issuer.validate(&store, &token, 4600).err(), Some(AuthError::TokenExpired));
    assert_eq!(issuer.validate(&store, "junk", 1000).err(), Some(AuthError::TokenMalformed));
}
