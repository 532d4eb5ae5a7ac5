use vstd::prelude::*;

use crate::config::Config;
use crate::cookies::{rewrite_set_cookie, rewritten_set_cookie};
use crate::errors::AppError;
use crate::headers::{
    forwarded_host, is_hop_header_str, is_https_request, spec_forwarded_host, spec_is_hop_header,
    spec_is_https_request, HeaderField,
};
use crate::strutil::{eq_ignore_case, has_prefix, str_eq_ignore_case, str_starts_with};

verus! {

/// The largest request body the proxy buffers before forwarding; anything
/// larger fails rather than streams.
pub const MAX_PROXY_BODY_BYTES: usize = 10 * 1024 * 1024;

/// A character allowed in an HTTP method token.
pub open spec fn is_token_char(c: char) -> bool {
    ||| ('0' <= c && c <= '9')
    ||| ('A' <= c && c <= 'Z')
    ||| ('a' <= c && c <= 'z')
    ||| c == '!' || c == '#' || c == '$' || c == '%' || c == '&' || c == '\'' || c == '*'
    ||| c == '+' || c == '-' || c == '.' || c == '^' || c == '_' || c == '`' || c == '|' || c == '~'
}

/// A well-formed HTTP method: a non-empty token.
pub open spec fn spec_is_valid_method(m: Seq<char>) -> bool {
    m.len() > 0 && forall|i: int| 0 <= i < m.len() ==> is_token_char(#[trigger] m[i])
}

/// Whether `m` is a well-formed HTTP method token.
pub fn is_valid_method(m: &str) -> (r: bool)
    ensures
        r == spec_is_valid_method(m@),
{
    let len = m.unicode_len();
    if len == 0 {
        return false;
    }
    let mut i: usize = 0;
    while i < len
        invariant
            len == m@.len(),
            i <= len,
            forall|j: int| 0 <= j < i ==> is_token_char(#[trigger] m@[j]),
        decreases len - i,
    {
        let c = m.get_char(i);
        let ok = ('0' <= c && c <= '9') || ('A' <= c && c <= 'Z') || ('a' <= c && c <= 'z')
            || c == '!' || c == '#' || c == '$' || c == '%' || c == '&' || c == '\'' || c == '*'
            || c == '+' || c == '-' || c == '.' || c == '^' || c == '_' || c == '`' || c == '|'
            || c == '~';
        if !ok {
            return false;
        }
        i += 1;
    }
    true
}

/// The upstream URL: the protected backend's base, the inbound path, and
/// the inbound query when there is one.
pub fn build_upstream_url(base: &str, path: &str, query: Option<&str>) -> (r: String)
    ensures
        r@ == base@ + path@ + (match query {
            Some(q) => "?"@ + q@,
            None => Seq::<char>::empty(),
        }),
{
    let mut out = String::from_str(base);
    out.append(path);
    match query {
        Some(q) => {
            out.append("?");
            out.append(q);
        },
        None => {},
    }
    out
}

/// Everything the host needs to issue the upstream request: the URL, the
/// client-protocol flag, which inbound headers to copy, and the
/// protocol-transition headers to add.
pub struct UpstreamRequestPlan {
    /// Upstream request URL.
    pub url: String,
    /// The inbound request reached the original client over HTTPS.
    pub is_https: bool,
    /// Indices of the inbound headers to forward, in order.
    pub kept: Vec<usize>,
    /// Headers to add after the copied ones.
    pub extra: Vec<(String, String)>,
}

/// The planning rules a built [`UpstreamRequestPlan`] obeys over the
/// inbound headers: the client-protocol flag is as the inbound headers
/// say; the kept indices are, in order, exactly the inbound headers that
/// are not hop-by-hop; and behind another proxy the two
/// protocol-transition headers are added, otherwise nothing is.
pub open spec fn spec_plan_wf(
    plan: UpstreamRequestPlan,
    behind_proxy: bool,
    headers: Seq<HeaderField>,
) -> bool {
    &&& plan.is_https == spec_is_https_request(behind_proxy, headers)
    &&& forall|k: int|
        0 <= k < plan.kept@.len() ==> #[trigger] plan.kept@[k] < headers.len()
            && !spec_is_hop_header(headers[plan.kept@[k] as int].name@)
    &&& forall|k1: int, k2: int|
        0 <= k1 < k2 < plan.kept@.len() ==> plan.kept@[k1] < plan.kept@[k2]
    &&& forall|j: int|
        0 <= j < headers.len() && !spec_is_hop_header(#[trigger] headers[j].name@)
            ==> exists|k: int| 0 <= k < plan.kept@.len() && plan.kept@[k] == j
    &&& behind_proxy ==> {
        &&& plan.extra@.len() == 2
        &&& plan.extra@[0].0@ == "x-forwarded-proto"@
        &&& plan.extra@[0].1@ == (if plan.is_https {
            "https"@
        } else {
            "http"@
        })
        &&& plan.extra@[1].0@ == "x-forwarded-host"@
        &&& plan.extra@[1].1@ == spec_forwarded_host(headers)
    }
    &&& !behind_proxy ==> plan.extra@.len() == 0
}

/// Plans the upstream request. Hop-by-hop headers are never among the
/// kept indices and every other inbound header is; behind another proxy,
/// `x-forwarded-proto` and `x-forwarded-host` are added. A malformed
/// method fails with `Internal` and plans nothing.
pub fn plan_upstream_request(
    config: &Config,
    method: &str,
    path: &str,
    query: Option<&str>,
    headers: &Vec<HeaderField>,
) -> (r: Result<UpstreamRequestPlan, AppError>)
    ensures
        match r {
            Ok(plan) => {
                &&& spec_is_valid_method(method@)
                &&& plan.url@ == config.protected_website_url@ + path@ + (match query {
                    Some(q) => "?"@ + q@,
                    None => Seq::<char>::empty(),
                })
                &&& spec_plan_wf(plan, config.behind_proxy, headers@)
            },
            Err(e) => {
                &&& !spec_is_valid_method(method@)
                &&& e matches AppError::Internal(m) && m@ == "Invalid method"@
            },
        },
{
    if !is_valid_method(method) {
        return Err(AppError::Internal(String::from_str("Invalid method")));
    }
    let url = build_upstream_url(config.protected_website_url.as_str(), path, query);
    let is_https = is_https_request(config.behind_proxy, headers);
    let n = headers.len();
    let mut kept: Vec<usize> = Vec::new();
    let mut i: usize = 0;
    while i < n
        invariant
            n == headers@.len(),
            i <= n,
            forall|k: int|
                0 <= k < kept@.len() ==> #[trigger] kept@[k] < i && !spec_is_hop_header(
                    headers@[kept@[k] as int].name@,
                ),
            forall|k1: int, k2: int| 0 <= k1 < k2 < kept@.len() ==> kept@[k1] < kept@[k2],
            forall|j: int|
                0 <= j < i && !spec_is_hop_header(#[trigger] headers@[j].name@) ==> exists|k: int|
                    0 <= k < kept@.len() && kept@[k] == j,
        decreases n - i,
    {
        let ghost prev = kept@;
        if !is_hop_header_str(headers[i].name.as_str()) {
            kept.push(i);
        }
        proof {
            assert forall|j: int|
                0 <= j < i + 1 && !spec_is_hop_header(headers@[j].name@) implies exists|k: int|
                0 <= k < kept@.len() && kept@[k] == j by {
                if j < i {
                    let k = choose|k: int| 0 <= k < prev.len() && prev[k] == j;
                    assert(kept@[k] == j);
                } else {
                    assert(kept@[kept@.len() - 1] == j);
                }
            }
        }
        i += 1;
    }
    let mut extra: Vec<(String, String)> = Vec::new();
    if config.behind_proxy {
        let proto = if is_https {
            String::from_str("https")
        } else {
            String::from_str("http")
        };
        extra.push((String::from_str("x-forwarded-proto"), proto));
        extra.push((String::from_str("x-forwarded-host"), forwarded_host(headers)));
    }
    Ok(UpstreamRequestPlan { url, is_https, kept, extra })
}

/// The replacement the protocol-transition rules make for one upstream
/// response header, or `None` when its value is forwarded untouched:
/// behind another proxy, a parseable `Set-Cookie` is rewritten (`Secure`
/// forced on an HTTPS client connection, `SameSite=Lax` always), and a
/// `Location` starting `http://` has its scheme lifted to `https://` when
/// the client connection was HTTPS.
pub open spec fn spec_response_replacement(
    h: HeaderField,
    behind_proxy: bool,
    is_https: bool,
) -> Option<Seq<char>> {
    if behind_proxy && eq_ignore_case(h.name@, "set-cookie"@) {
        match h.value {
            Some(v) => rewritten_set_cookie(v@, is_https),
            None => None,
        }
    } else if behind_proxy && eq_ignore_case(h.name@, "location"@) {
        match h.value {
            Some(v) => if is_https && has_prefix(v@, "http://"@) {
                Some("https://"@ + v@.subrange(7, v@.len() as int))
            } else {
                None
            },
            None => None,
        }
    } else {
        None
    }
}

/// Decides [`spec_response_replacement`] for one header.
pub fn response_header_replacement(h: &HeaderField, behind_proxy: bool, is_https: bool) -> (r:
    Option<String>)
    ensures
        match r {
            Some(s) => spec_response_replacement(*h, behind_proxy, is_https) == Some(s@),
            None => spec_response_replacement(*h, behind_proxy, is_https) is None,
        },
{
    if behind_proxy && str_eq_ignore_case(h.name.as_str(), "set-cookie") {
        match &h.value {
            Some(v) => rewrite_set_cookie(v.as_str(), is_https),
            None => None,
        }
    } else if behind_proxy && str_eq_ignore_case(h.name.as_str(), "location") {
        match &h.value {
            Some(v) => {
                proof {
                    reveal_strlit("http://");
                }
                if is_https && str_starts_with(v.as_str(), "http://") {
                    let len = v.as_str().unicode_len();
                    let mut out = String::from_str("https://");
                    out.append(v.as_str().substring_char(7, len));
                    Some(out)
                } else {
                    None
                }
            },
            None => None,
        }
    } else {
        None
    }
}

/// One forwarded response header: the inbound index and, where a rewrite
/// applies, the replacement text.
pub struct RewriteItem {
    pub index: usize,
    pub replacement: Option<String>,
}

/// The replacement field of an item matches the rules for its header.
pub open spec fn item_matches(
    h: HeaderField,
    behind_proxy: bool,
    is_https: bool,
    replacement: Option<String>,
) -> bool {
    match replacement {
        Some(s) => spec_response_replacement(h, behind_proxy, is_https) == Some(s@),
        None => spec_response_replacement(h, behind_proxy, is_https) is None,
    }
}

/// Plans the forwarded response headers: hop-by-hop headers are dropped,
/// every other header is forwarded in order, and the protocol-transition
/// rewrites of [`spec_response_replacement`] are applied.
pub fn rewrite_response_headers(
    headers: &Vec<HeaderField>,
    behind_proxy: bool,
    is_https: bool,
) -> (r: Vec<RewriteItem>)
    ensures
        forall|k: int|
            0 <= k < r@.len() ==> #[trigger] r@[k].index < headers@.len() && !spec_is_hop_header(
                headers@[r@[k].index as int].name@,
            ) && item_matches(
                headers@[r@[k].index as int],
                behind_proxy,
                is_https,
                r@[k].replacement,
            ),
        forall|k1: int, k2: int| 0 <= k1 < k2 < r@.len() ==> r@[k1].index < r@[k2].index,
        forall|j: int|
            0 <= j < headers@.len() && !spec_is_hop_header(#[trigger] headers@[j].name@)
                ==> exists|k: int| 0 <= k < r@.len() && r@[k].index == j,
{
    let n = headers.len();
    let mut out: Vec<RewriteItem> = Vec::new();
    let mut i: usize = 0;
    while i < n
        invariant
            n == headers@.len(),
            i <= n,
            forall|k: int|
                0 <= k < out@.len() ==> #[trigger] out@[k].index < i && !spec_is_hop_header(
                    headers@[out@[k].index as int].name@,
                ) && item_matches(
                    headers@[out@[k].index as int],
                    behind_proxy,
                    is_https,
                    out@[k].replacement,
                ),
            forall|k1: int, k2: int| 0 <= k1 < k2 < out@.len() ==> out@[k1].index < out@[k2].index,
            forall|j: int|
                0 <= j < i && !spec_is_hop_header(#[trigger] headers@[j].name@) ==> exists|k: int|
                    0 <= k < out@.len() && out@[k].index == j,
        decreases n - i,
    {
        let ghost prev = out@;
        if !is_hop_header_str(headers[i].name.as_str()) {
            let replacement = response_header_replacement(&headers[i], behind_proxy, is_https);
            out.push(RewriteItem { index: i, replacement });
        }
        proof {
            assert forall|j: int|
                0 <= j < i + 1 && !spec_is_hop_header(headers@[j].name@) implies exists|k: int|
                0 <= k < out@.len() && out@[k].index == j by {
                if j < i {
                    let k = choose|k: int| 0 <= k < prev.len() && prev[k].index == j;
                    assert(out@[k].index == j);
                } else {
                    assert(out@[out@.len() - 1].index == j);
                }
            }
        }
        i += 1;
    }
    out
}

} // verus!
