//! Redirect URLs for sign-in with an outside provider.

use vstd::prelude::*;
use vstd::string::StringExecFns;
use vstd::utf8::encode_utf8;

use crate::crypto::{
    is_unreserved, percent_encode, percent_encode_byte, percent_encode_text, upper_hex_digit,
};
use crate::encoding::{ascii_text, same_text};
use crate::error::AuthError;

verus! {

/// A provider that users may sign in with.
#[derive(Debug)]
pub struct OAuthProvider {
    /// The name that requests use.
    pub name: String,
    /// Where the provider takes authorization requests.
    pub authorize_url: String,
}

/// The model of an [`OAuthProvider`].
pub struct ProviderView {
    pub name: Seq<char>,
    pub authorize_url: Seq<char>,
}

impl View for OAuthProvider {
    type V = ProviderView;

    open spec fn view(&self) -> ProviderView {
        ProviderView { name: self.name@, authorize_url: self.authorize_url@ }
    }
}

/// The models of a list of providers.
pub open spec fn providers_view(providers: Seq<OAuthProvider>) -> Seq<ProviderView> {
    Seq::new(providers.len(), |i: int| providers[i]@)
}

/// Some provider has this name.
pub open spec fn has_provider(providers: Seq<ProviderView>, name: Seq<char>) -> bool {
    exists|i: int| 0 <= i < providers.len() && (#[trigger] providers[i]).name == name
}

/// Position `i` holds the first provider with this name.
pub open spec fn is_first_named(providers: Seq<ProviderView>, name: Seq<char>, i: int) -> bool {
    &&& 0 <= i < providers.len()
    &&& providers[i].name == name
    &&& forall|j: int| 0 <= j < i ==> (#[trigger] providers[j]).name != name
}

/// The position of the first provider with this name.
pub open spec fn provider_index(providers: Seq<ProviderView>, name: Seq<char>) -> int {
    choose|i: int| is_first_named(providers, name, i)
}

/// A byte that a percent-encoded text can hold: an unreserved one or `%`.
pub open spec fn is_query_safe(b: u8) -> bool {
    is_unreserved(b) || b == 37
}

/// The query that carries `redirect_uri`, percent-encoded.
pub open spec fn redirect_query(redirect_uri: Seq<char>) -> Seq<char> {
    "?redirect_uri="@ + ascii_text(percent_encode(encode_utf8(redirect_uri)))
}

/// The URL that sends a user to the provider: the provider's address and
/// the query. It fails for a name that no provider has.
pub open spec fn redirect_url(
    providers: Seq<ProviderView>,
    name: Seq<char>,
    redirect_uri: Seq<char>,
) -> Result<Seq<char>, AuthError> {
    if has_provider(providers, name) {
        Ok(providers[provider_index(providers, name)].authorize_url + redirect_query(redirect_uri))
    } else {
        Err(AuthError::UnsupportedOAuthProvider)
    }
}

/// The model of a result that holds a text.
pub open spec fn text_view<E>(r: Result<String, E>) -> Result<Seq<char>, E> {
    match r {
        Ok(s) => Ok(s@),
        Err(e) => Err(e),
    }
}

/// Percent-encoded bytes are unreserved bytes and `%` only: no `?`, `&`,
/// `=`, `/`, `#` or space is left of what was encoded.
pub proof fn lemma_percent_encode_safe(bytes: Seq<u8>)
    ensures
        forall|i: int|
            0 <= i < percent_encode(bytes).len() ==> is_query_safe(
                #[trigger] percent_encode(bytes)[i],
            ),
    decreases bytes.len(),
{
    if bytes.len() > 0 {
        lemma_percent_encode_safe(bytes.drop_first());
        let head = percent_encode_byte(bytes[0]);
        let b = bytes[0];
        assert(b / 16 < 16 && b % 16 < 16);
        assert(is_unreserved(upper_hex_digit(b / 16)));
        assert(is_unreserved(upper_hex_digit(b % 16)));
        assert forall|i: int| 0 <= i < head.len() implies is_query_safe(#[trigger] head[i]) by {}
        let tail = percent_encode(bytes.drop_first());
        let all = percent_encode(bytes);
        assert(all == head + tail);
        assert forall|i: int| 0 <= i < all.len() implies is_query_safe(#[trigger] all[i]) by {
            if i < head.len() {
                assert(all[i] == head[i]);
            } else {
                assert(all[i] == tail[i - head.len()]);
            }
        }
    }
}

/// The position of the first provider named `name`.
pub fn find_provider(providers: &Vec<OAuthProvider>, name: &str) -> (at: Option<usize>)
    ensures
        match at {
            Some(i) => is_first_named(providers_view(providers@), name@, i as int),
            None => !has_provider(providers_view(providers@), name@),
        },
{
    let mut i: usize = 0;
    while i < providers.len()
        invariant
            i <= providers.len(),
            forall|j: int| 0 <= j < i ==> (#[trigger] providers_view(providers@)[j]).name != name@,
        decreases providers.len() - i,
    {
        if same_text(providers[i].name.as_str(), name) {
            assert(providers_view(providers@)[i as int].name == name@);
            return Some(i);
        }
        i += 1;
    }
    None
}

/// The first position with a name is the one that `provider_index` means.
pub proof fn lemma_first_named_unique(providers: Seq<ProviderView>, name: Seq<char>, i: int)
    requires
        is_first_named(providers, name, i),
    ensures
        has_provider(providers, name),
        provider_index(providers, name) == i,
{
    let k = provider_index(providers, name);
    assert(is_first_named(providers, name, k));
    if k < i {
        assert(providers[k].name != name);
    } else if i < k {
        assert(providers[i].name != name);
    }
}

/// Builds the URL that sends a user to `provider` and back to
/// `redirect_uri`.
pub fn oauth_redirect(providers: &Vec<OAuthProvider>, provider: &str, redirect_uri: &str) -> (url:
    Result<String, AuthError>)
    ensures
        text_view(url) == redirect_url(providers_view(providers@), provider@, redirect_uri@),
{
    match find_provider(providers, provider) {
        None => Err(AuthError::UnsupportedOAuthProvider),
        Some(i) => {
            proof {
                lemma_first_named_unique(providers_view(providers@), provider@, i as int);
            }
            let mut url = providers[i].authorize_url.clone();
            url.append("?redirect_uri=");
            let encoded = percent_encode_text(redirect_uri);
            url.append(encoded.as_str());
            assert(url@ =~= providers_view(providers@)[i as int].authorize_url + redirect_query(
                redirect_uri@,
            ));
            Ok(url)
        },
    }
}

} // verus!
