use vstd::prelude::*;

use crate::strutil::{find_first, has_prefix, str_starts_with};

verus! {

/// Read-only gateway configuration, loaded and validated once at startup
/// and shared by every request.
#[derive(Clone)]
pub struct Config {
    /// Base URL of the identity provider, e.g. `https://idp.example.com`.
    pub cognito_domain: String,
    /// OAuth2 client id registered with the identity provider.
    pub cognito_client_id: String,
    /// OAuth2 client secret for the token exchange.
    pub cognito_client_secret: String,
    /// Public base URL of this gateway itself.
    pub server_domain: String,
    /// Base URL of the protected backend that requests are forwarded to.
    pub protected_website_url: String,
    /// TCP port the gateway listens on.
    pub port: u16,
    /// Origins allowed by the CORS layer; `*` means any origin.
    pub cors_allowed_origins: Vec<String>,
    /// True when another reverse proxy terminates TLS in front of this
    /// gateway, so protocol-transition rewrites must be applied.
    pub behind_proxy: bool,
}

/// A base URL this crate builds on by plain concatenation: an `http` or
/// `https` scheme and no query or fragment part. Checking that a
/// configured URL actually parses is a startup concern of the host
/// program; this predicate is what the contracts here need of it.
pub open spec fn is_base_url(s: Seq<char>) -> bool {
    &&& (has_prefix(s, "http://"@) || has_prefix(s, "https://"@))
    &&& forall|i: int| 0 <= i < s.len() ==> s[i] != '?' && s[i] != '#'
}

impl Config {
    /// The startup invariant: every configured URL is a plain `http(s)`
    /// base URL, so redirect targets and upstream URLs can be built by
    /// concatenation, and URLs and the client id are ASCII, as URLs and
    /// identifiers are.
    pub open spec fn wf(&self) -> bool {
        &&& is_base_url(self.cognito_domain@)
        &&& is_base_url(self.server_domain@)
        &&& is_base_url(self.protected_website_url@)
        &&& vstd::utf8::is_ascii_chars(self.cognito_domain@)
        &&& vstd::utf8::is_ascii_chars(self.cognito_client_id@)
        &&& vstd::utf8::is_ascii_chars(self.server_domain@)
        &&& vstd::utf8::is_ascii_chars(self.protected_website_url@)
    }

    /// Decides the startup invariant [`Config::wf`], so the host can
    /// refuse to start on a malformed configuration instead of ever
    /// reaching the functions that rely on it.
    pub fn validate(&self) -> (r: bool)
        ensures
            r == self.wf(),
    {
        check_base_url(self.cognito_domain.as_str()) && check_base_url(
            self.server_domain.as_str(),
        ) && check_base_url(self.protected_website_url.as_str()) && self.cognito_domain.is_ascii()
            && self.cognito_client_id.is_ascii() && self.server_domain.is_ascii()
            && self.protected_website_url.is_ascii()
    }
}

/// Decides [`is_base_url`] for one configured value.
fn check_base_url(s: &str) -> (r: bool)
    ensures
        r == is_base_url(s@),
{
    if !(str_starts_with(s, "http://") || str_starts_with(s, "https://")) {
        return false;
    }
    let len = s.unicode_len();
    let q = find_first(s, '?');
    let h = find_first(s, '#');
    proof {
        if q < len {
            assert(s@[q as int] == '?');
        }
        if h < len {
            assert(s@[h as int] == '#');
        }
    }
    q == len && h == len
}

} // verus!
