//! The client's side of the protocol: where requests go and how they carry a
//! token.

use vstd::prelude::*;
use vstd::string::{StrSliceExecFns, StringExecFns};

use crate::crypto::percent_encode_text;
use crate::encoding::same_text;
use crate::oauth::redirect_query;
use crate::types::LoginRequest;

verus! {

/// `s` without the characters `c` at its end.
pub open spec fn trim_trailing(s: Seq<char>, c: char) -> Seq<char>
    decreases s.len(),
{
    if s.len() > 0 && s.last() == c {
        trim_trailing(s.drop_last(), c)
    } else {
        s
    }
}

/// Calls `str::trim_end_matches` of std with the character `c` as the
/// pattern. Its documentation says that every suffix that matches is taken
/// off, again and again; the contract says that of one character.
#[verifier::external_body]
fn trim_end_char<'a>(s: &'a str, c: char) -> (trimmed: &'a str)
    ensures
        trimmed@ == trim_trailing(s@, c),
{
    s.trim_end_matches(c)
}

/// The requests of the protocol.
#[derive(Clone, Copy, Debug, PartialEq, Eq, Structural)]
pub enum Endpoint {
    Register,
    Login,
    Me,
    MfaSetup,
    MfaVerify,
    Logout,
}

/// The path of a request.
pub open spec fn endpoint_path(endpoint: Endpoint) -> Seq<char> {
    match endpoint {
        Endpoint::Register => "/api/auth/register"@,
        Endpoint::Login => "/api/auth/login"@,
        Endpoint::Me => "/api/auth/me"@,
        Endpoint::MfaSetup => "/api/auth/mfa/setup"@,
        Endpoint::MfaVerify => "/api/auth/mfa/verify"@,
        Endpoint::Logout => "/api/auth/logout"@,
    }
}

impl Endpoint {
    /// The path of this request.
    pub fn path(&self) -> (path: &'static str)
        ensures
            path@ == endpoint_path(*self),
    {
        match self {
            Endpoint::Register => "/api/auth/register",
            Endpoint::Login => "/api/auth/login",
            Endpoint::Me => "/api/auth/me",
            Endpoint::MfaSetup => "/api/auth/mfa/setup",
            Endpoint::MfaVerify => "/api/auth/mfa/verify",
            Endpoint::Logout => "/api/auth/logout",
        }
    }
}

/// The value of the `Authorization` header that carries `token`.
pub fn bearer_header(token: &str) -> (header: String)
    ensures
        header@ == "Bearer "@ + token@,
{
    let mut header = String::from_str("Bearer ");
    header.append(token);
    header
}

/// The token that an `Authorization` header carries: what follows
/// `Bearer `, if the header starts with it.
pub fn bearer_token(header: &str) -> (token: Option<&str>)
    ensures
        match token {
            Some(t) => header@ == "Bearer "@ + t@,
            None => !"Bearer "@.is_prefix_of(header@),
        },
{
    proof {
        reveal_strlit("Bearer ");
    }
    let n: usize = header.unicode_len();
    if n < 7 {
        return None;
    }
    let head = header.substring_char(0, 7);
    if same_text(head, "Bearer ") {
        let rest = header.substring_char(7, n);
        assert(header@ =~= "Bearer "@ + rest@);
        Some(rest)
    } else {
        None
    }
}

/// The body of a login request.
pub fn login_request(email: &str, password: &str) -> (request: LoginRequest)
    ensures
        request.email@ == email@,
        request.password@ == password@,
{
    LoginRequest { email: String::from_str(email), password: String::from_str(password) }
}

/// Where a service lives and who the client is.
#[derive(Clone, Debug)]
pub struct AuthFlowClient {
    domain: String,
    client_id: String,
    client_secret: String,
}

/// The model of an [`AuthFlowClient`].
pub struct ClientView {
    /// The service's address, without a slash at its end.
    pub domain: Seq<char>,
    pub client_id: Seq<char>,
    pub client_secret: Seq<char>,
}

impl View for AuthFlowClient {
    type V = ClientView;

    closed spec fn view(&self) -> ClientView {
        ClientView {
            domain: self.domain@,
            client_id: self.client_id@,
            client_secret: self.client_secret@,
        }
    }
}

impl AuthFlowClient {
    /// A client of the service at `domain`. Slashes at the end of `domain`
    /// are dropped, so that paths can be appended.
    pub fn new(domain: &str, client_id: &str, client_secret: &str) -> (client: AuthFlowClient)
        ensures
            client@ == (ClientView {
                domain: trim_trailing(domain@, '/'),
                client_id: client_id@,
                client_secret: client_secret@,
            }),
    {
        AuthFlowClient {
            domain: String::from_str(trim_end_char(domain, '/')),
            client_id: String::from_str(client_id),
            client_secret: String::from_str(client_secret),
        }
    }

    /// The service's address.
    pub fn domain(&self) -> (domain: &str)
        ensures
            domain@ == self@.domain,
    {
        self.domain.as_str()
    }

    /// The client's identifier.
    pub fn client_id(&self) -> (id: &str)
        ensures
            id@ == self@.client_id,
    {
        self.client_id.as_str()
    }

    /// The client's secret.
    pub fn client_secret(&self) -> (secret: &str)
        ensures
            secret@ == self@.client_secret,
    {
        self.client_secret.as_str()
    }

    /// The address of a request.
    pub fn url(&self, endpoint: Endpoint) -> (url: String)
        ensures
            url@ == self@.domain + endpoint_path(endpoint),
    {
        let mut url = self.domain.clone();
        url.append(endpoint.path());
        url
    }

    /// The address that starts a sign-in with `provider`. `provider` is
    /// written as it is, and `redirect_uri` percent-encoded.
    pub fn get_oauth_url(&self, provider: &str, redirect_uri: &str) -> (url: String)
        ensures
            url@ == self@.domain + "/api/auth/oauth/"@ + provider@ + redirect_query(redirect_uri@),
    {
        let mut url = self.domain.clone();
        url.append("/api/auth/oauth/");
        url.append(provider);
        url.append("?redirect_uri=");
        let encoded = percent_encode_text(redirect_uri);
        url.append(encoded.as_str());
        assert(url@ =~= self@.domain + "/api/auth/oauth/"@ + provider@ + redirect_query(
            redirect_uri@,
        ));
        url
    }
}

} // verus!
