use authflow::client::{bearer_header, bearer_token, login_request};
use authflow::middleware::{decide, token_of, UNAUTHORIZED};
use authflow::oauth::{find_provider, oauth_redirect};
use authflow::{
    AuthError, AuthFlowClient, AuthFlowMiddleware, Decision, Endpoint, MiddlewarePolicy,
    OAuthProvider, User,
};

fn user() -> User {
    User {
        id: "0".to_string(),
        email: "ada@example.com".to_string(),
        first_name: None,
        last_name: None,
        role: None,
        tenant_id: None,
    }
}

#[test]
fn new_drops_the_slashes_at_the_end_of_the_domain() {
    assert_eq!(AuthFlowClient::new("https://auth.example.com/", "id", "secret").domain(), "https://auth.example.com");
    assert_eq!(AuthFlowClient::new("https://auth.example.com///", "id", "secret").domain(), "https://auth.example.com");
    assert_eq!(AuthFlowClient::new("https://auth.example.com", "id", "secret").domain(), "https://auth.example.com");
    assert_eq!(AuthFlowClient::new("https://auth.example.com/a/", "id", "secret").domain(), "https://auth.example.com/a");
    assert_eq!(AuthFlowClient::new("///", "id", "secret").domain(), "");
    let client = AuthFlowClient::new("https://auth.example.com/", "id", "secret");
    assert_eq!(client.client_id(), "id");
    assert_eq!(client.client_secret(), "secret");
}

#[test]
fn urls_are_the_domain_and_the_path() {
    let client = AuthFlowClient::new("https://auth.example.com/", "id", "secret");
    assert_eq!(client.url(Endpoint::Register), "https://auth.example.com/api/auth/register");
    assert_eq!(client.url(Endpoint::Login), "https://auth.example.com/api/auth/login");
    assert_eq!(client.url(Endpoint::Me), "https://auth.example.com/api/auth/me");
    assert_eq!(client.url(Endpoint::MfaSetup), "https://auth.example.com/api/auth/mfa/setup");
    assert_eq!(client.url(Endpoint::MfaVerify), "https://auth.example.com/api/auth/mfa/verify");
    assert_eq!(client.url(Endpoint::Logout), "https://auth.example.com/api/auth/logout");
    assert_eq!(Endpoint::Me.path(), "/api/auth/me");
}

#[test]
fn get_oauth_url_percent_encodes_the_redirect() {
    let client = AuthFlowClient::new("https://auth.example.com/", "id", "secret");
    assert_eq!(
        client.get_oauth_url("github", "https://app.example.com/cb?x=1"),
        "https://auth.example.com/api/auth/oauth/github?redirect_uri=https%3A%2F%2Fapp.example.com%2Fcb%3Fx%3D1"
    );
    assert_eq!(
        client.get_oauth_url("google", "AZaz09-._~"),
        "https://auth.example.com/api/auth/oauth/google?redirect_uri=AZaz09-._~"
    );
    assert_eq!(
        client.get_oauth_url("google", " !\"#$%&'()*+,/:;=?@[]"),
        "https://auth.example.com/api/auth/oauth/google?redirect_uri=%20%21%22%23%24%25%26%27%28%29%2A%2B%2C%2F%3A%3B%3D%3F%40%5B%5D"
    );
    assert_eq!(
        client.get_oauth_url("google", "é\u{0}\u{7f}"),
        "https://auth.example.com/api/auth/oauth/google?redirect_uri=%C3%A9%00%7F"
    );
    assert_eq!(
        client.get_oauth_url("google", ""),
        "https://auth.example.com/api/auth/oauth/google?redirect_uri="
    );
}

#[test]
fn bearer_header_and_back() {
    assert_eq!(bearer_header("abc"), "Bearer abc");
    assert_eq!(bearer_token("Bearer abc"), Some("abc"));
    assert_eq!(bearer_token(&bearer_header("00ff")), Some("00ff"));
    assert_eq!(bearer_token("Bearer "), Some(""));
    assert_eq!(bearer_token("Bearer  abc"), Some(" abc"));
    assert_eq!(bearer_token("Bearer é"), Some("é"));
}

#[test]
fn other_headers_carry_no_token() {
    assert_eq!(bearer_token("Bearer"), None);
    assert_eq!(bearer_token("bearer abc"), None);
    assert_eq!(bearer_token("Basic dXNlcjpwYXNz"), None);
    assert_eq!(bearer_token(""), None);
    assert_eq!(bearer_token(" Bearer abc"), None);
    assert_eq!(bearer_token("Béarer abc"), None);
    assert_eq!(token_of(None), None);
    assert_eq!(token_of(Some("Basic dXNlcjpwYXNz")), None);
    assert_eq!(token_of(Some("Bearer abc")), Some("abc"));
}

#[test]
fn login_request_holds_the_credentials() {
    let request = login_request("ada@example.com", "correct horse");
    assert_eq!(request.email, "ada@example.com");
    assert_eq!(request.password, "correct horse");
}

#[test]
fn a_verified_user_is_always_attached() {
    for policy in [MiddlewarePolicy::Reject, MiddlewarePolicy::PassThrough] {
        match decide(policy, Some(user())) {
            Decision::Attach(u) => assert_eq!(u.email, "ada@example.com"),
            other => panic!("unexpected decision {:?}", other),
        }
    }
}

#[test]
fn without_a_user_the_policy_decides() {
    assert!(matches!(decide(MiddlewarePolicy::Reject, None), Decision::Deny));
    assert!(matches!(decide(MiddlewarePolicy::PassThrough, None), Decision::Anonymous));
    assert_eq!(UNAUTHORIZED, 401);
}

#[test]
fn middleware_hands_its_policy_to_the_wrapped_handler() {
    let middleware = AuthFlowMiddleware::new(MiddlewarePolicy::Reject);
    assert_eq!(middleware.get_policy(), MiddlewarePolicy::Reject);
    let wrapped = middleware.new_transform("handler");
    assert_eq!(*wrapped.service(), "handler");
    assert!(matches!(wrapped.decide(None), Decision::Deny));
    assert!(matches!(wrapped.decide(Some(user())), Decision::Attach(_)));
    let open = AuthFlowMiddleware::new(MiddlewarePolicy::PassThrough).new_transform(7u8);
    assert!(matches!(open.decide(None), Decision::Anonymous));
}

#[test]
fn failures_to_authenticate_look_alike() {
    let failures = [
        AuthError::InvalidCredentials,
        AuthError::TokenMalformed,
        AuthError::TokenExpired,
        AuthError::TokenRevoked,
        AuthError::UnknownUser,
    ];
    for e in failures {
        assert_eq!(e.status_code(), 401);
        assert_eq!(e.client_message(), "authentication failed");
    }
}

#[test]
fn other_failures_have_their_status_and_message() {
    assert_eq!(AuthError::DuplicateEmail.status_code(), 409);
    assert_eq!(AuthError::InvalidEmail.status_code(), 400);
    assert_eq!(AuthError::WeakPassword.status_code(), 400);
    assert_eq!(AuthError::UnsupportedMfaMethod.status_code(), 400);
    assert_eq!(AuthError::NoActiveChallenge.status_code(), 400);
    assert_eq!(AuthError::MfaExpired.status_code(), 400);
    assert_eq!(AuthError::MfaCodeMismatch.status_code(), 400);
    assert_eq!(AuthError::MfaAlreadyConsumed.status_code(), 400);
    assert_eq!(AuthError::UnsupportedOAuthProvider.status_code(), 404);
    assert_eq!(AuthError::UpstreamUnavailable.status_code(), 503);
    assert_eq!(AuthError::DuplicateEmail.client_message(), "email already registered");
    assert_eq!(AuthError::InvalidEmail.client_message(), "invalid email");
    assert_eq!(AuthError::WeakPassword.client_message(), "password too weak");
    assert_eq!(AuthError::UnsupportedMfaMethod.client_message(), "unsupported MFA method");
    assert_eq!(AuthError::NoActiveChallenge.client_message(), "no active MFA challenge");
    assert_eq!(AuthError::MfaExpired.client_message(), "MFA challenge expired");
    assert_eq!(AuthError::MfaCodeMismatch.client_message(), "MFA code mismatch");
    assert_eq!(AuthError::MfaAlreadyConsumed.client_message(), "MFA challenge already consumed");
    assert_eq!(AuthError::UnsupportedOAuthProvider.client_message(), "unsupported OAuth provider");
    assert_eq!(AuthError::UpstreamUnavailable.client_message(), "service unavailable");
}

#[test]
fn the_first_provider_of_a_name_is_found() {
    let providers = vec![
        OAuthProvider { name: "a".to_string(), authorize_url: "https://a.example/1".to_string() },
        OAuthProvider { name: "b".to_string(), authorize_url: "https://b.example".to_string() },
        OAuthProvider { name: "a".to_string(), authorize_url: "https://a.example/2".to_string() },
    ];
    assert_eq!(find_provider(&providers, "a"), Some(0));
    assert_eq!(find_provider(&providers, "b"), Some(1));
    assert_eq!(find_provider(&providers, "c"), None);
    assert_eq!(find_provider(&Vec::new(), "a"), None);
    assert_eq!(oauth_redirect(&providers, "a", "x y").unwrap(), "https://a.example/1?redirect_uri=x%20y");
    assert_eq!(
        oauth_redirect(&providers, "c", "x y").err(),
        Some(AuthError::UnsupportedOAuthProvider)
    );
}

#[test]
fn a_copy_of_a_user_holds_the_same_fields() {
    let ada = User {
        id: "12".to_string(),
        email: "ada@example.com".to_string(),
        first_name: Some("Ada".to_string()),
        last_name: None,
        role: Some("admin".to_string()),
        tenant_id: Some("acme".to_string()),
    };
    let copy = ada.clone();
    assert_eq!(copy.id, "12");
    assert_eq!(copy.email, "ada@example.com");
    assert_eq!(copy.first_name.as_deref(), Some("Ada"));
    assert_eq!(copy.last_name, None);
    assert_eq!(copy.role.as_deref(), Some("admin"));
    assert_eq!(copy.tenant_id.as_deref(), Some("acme"));
}
