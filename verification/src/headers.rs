use vstd::prelude::*;

use crate::strutil::{eq_ignore_case, str_eq, str_eq_ignore_case};

verus! {

/// One header of a request or response. A value is `None` when it is not
/// representable as text; such a value is forwarded untouched but takes
/// part in no rewrite.
pub struct HeaderField {
    pub name: String,
    pub value: Option<String>,
}

/// Hop-by-hop headers: meaningful for one transport connection only, and
/// never forwarded across the proxy hop, compared without regard to case.
pub open spec fn spec_is_hop_header(name: Seq<char>) -> bool {
    ||| eq_ignore_case(name, "connection"@)
    ||| eq_ignore_case(name, "keep-alive"@)
    ||| eq_ignore_case(name, "proxy-authenticate"@)
    ||| eq_ignore_case(name, "proxy-authorization"@)
    ||| eq_ignore_case(name, "te"@)
    ||| eq_ignore_case(name, "trailer"@)
    ||| eq_ignore_case(name, "transfer-encoding"@)
    ||| eq_ignore_case(name, "upgrade"@)
}

/// Whether `name` is a hop-by-hop header.
pub fn is_hop_header_str(name: &str) -> (r: bool)
    ensures
        r == spec_is_hop_header(name@),
{
    str_eq_ignore_case(name, "connection") || str_eq_ignore_case(name, "keep-alive")
        || str_eq_ignore_case(name, "proxy-authenticate")
        || str_eq_ignore_case(name, "proxy-authorization") || str_eq_ignore_case(name, "te")
        || str_eq_ignore_case(name, "trailer") || str_eq_ignore_case(name, "transfer-encoding")
        || str_eq_ignore_case(name, "upgrade")
}

/// The first header named `name` (without regard to case), as a header
/// map lookup returns it.
pub open spec fn first_header(hs: Seq<HeaderField>, name: Seq<char>) -> Option<HeaderField>
    decreases hs.len(),
{
    if hs.len() == 0 {
        None
    } else if eq_ignore_case(hs[0].name@, name) {
        Some(hs[0])
    } else {
        first_header(hs.subrange(1, hs.len() as int), name)
    }
}

/// The request reached the original client over HTTPS: only believed when
/// this gateway sits behind another proxy and that proxy said so in
/// `x-forwarded-proto`.
pub open spec fn spec_is_https_request(behind_proxy: bool, hs: Seq<HeaderField>) -> bool {
    behind_proxy && match first_header(hs, "x-forwarded-proto"@) {
        Some(h) => match h.value {
            Some(v) => v@ == "https"@,
            None => false,
        },
        None => false,
    }
}

/// Decides [`spec_is_https_request`] over the inbound headers.
pub fn is_https_request(behind_proxy: bool, headers: &Vec<HeaderField>) -> (r: bool)
    ensures
        r == spec_is_https_request(behind_proxy, headers@),
{
    if !behind_proxy {
        return false;
    }
    let n = headers.len();
    let mut i: usize = 0;
    proof {
        assert(headers@.subrange(0, n as int) =~= headers@);
    }
    while i < n
        invariant
            behind_proxy,
            n == headers@.len(),
            i <= n,
            first_header(headers@, "x-forwarded-proto"@) == first_header(
                headers@.subrange(i as int, n as int),
                "x-forwarded-proto"@,
            ),
        decreases n - i,
    {
        proof {
            assert(headers@.subrange(i as int, n as int)[0] == headers@[i as int]);
            assert(headers@.subrange(i as int, n as int).subrange(
                1,
                (n - i) as int,
            ) =~= headers@.subrange(i + 1, n as int));
        }
        if str_eq_ignore_case(headers[i].name.as_str(), "x-forwarded-proto") {
            return match &headers[i].value {
                Some(v) => str_eq(v.as_str(), "https"),
                None => false,
            };
        }
        i += 1;
    }
    proof {
        assert(headers@.subrange(n as int, n as int).len() == 0);
    }
    false
}

/// The `host` value the iteration captures: for the last `host` header,
/// its text, with an untextual value read as empty; `None` when no `host`
/// header exists at all.
pub open spec fn host_capture(hs: Seq<HeaderField>) -> Option<Seq<char>>
    decreases hs.len(),
{
    if hs.len() == 0 {
        None
    } else if eq_ignore_case(hs[hs.len() - 1].name@, "host"@) {
        match hs[hs.len() - 1].value {
            Some(v) => Some(v@),
            None => Some(Seq::<char>::empty()),
        }
    } else {
        host_capture(hs.subrange(0, hs.len() - 1))
    }
}

/// The value the proxy reports as `x-forwarded-host`: the captured `host`
/// header, or empty when there is none.
pub open spec fn spec_forwarded_host(hs: Seq<HeaderField>) -> Seq<char> {
    match host_capture(hs) {
        Some(v) => v,
        None => Seq::<char>::empty(),
    }
}

/// The captured `host` header, per [`spec_forwarded_host`].
pub fn forwarded_host(headers: &Vec<HeaderField>) -> (r: String)
    ensures
        r@ == spec_forwarded_host(headers@),
{
    let n = headers.len();
    let mut found: Option<String> = None;
    let mut i: usize = 0;
    while i < n
        invariant
            n == headers@.len(),
            i <= n,
            match found {
                Some(v) => host_capture(headers@.subrange(0, i as int)) == Some(v@),
                None => host_capture(headers@.subrange(0, i as int)) is None,
            },
        decreases n - i,
    {
        proof {
            let pre = headers@.subrange(0, (i + 1) as int);
            assert(pre[pre.len() - 1] == headers@[i as int]);
            assert(pre.subrange(0, pre.len() - 1) =~= headers@.subrange(0, i as int));
        }
        if str_eq_ignore_case(headers[i].name.as_str(), "host") {
            found = Some(
                match &headers[i].value {
                    Some(v) => String::from_str(v.as_str()),
                    None => String::new(),
                },
            );
        }
        i += 1;
    }
    proof {
        assert(headers@.subrange(0, n as int) =~= headers@);
    }
    match found {
        Some(v) => v,
        None => String::new(),
    }
}

} // verus!
