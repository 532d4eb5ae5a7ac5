use vstd::prelude::*;

use crate::strutil::{first_index, str_eq, trim_bounds, trim_spaces};

verus! {

/// The `SameSite` attribute values this gateway emits.
#[derive(Clone, Copy, Debug, PartialEq, Eq, Structural)]
pub enum SameSite {
    Lax,
}

/// The session cookie this gateway issues: a fixed name, the access token
/// as value, and security attributes chosen for the connection.
pub struct SessionCookie {
    pub name: String,
    pub value: String,
    pub path: String,
    pub secure: bool,
    pub http_only: bool,
    pub same_site: SameSite,
}

/// The `Set-Cookie` serialization [`SessionCookie::serialize`] produces.
pub open spec fn spec_session_cookie(token: Seq<char>, secure: bool) -> Seq<char> {
    "authy_session="@ + token + "; Path=/; HttpOnly; SameSite=Lax"@ + if secure {
        "; Secure"@
    } else {
        Seq::<char>::empty()
    }
}

impl SessionCookie {
    pub fn name(&self) -> (r: &String)
        ensures
            r@ == self.name@,
    {
        &self.name
    }

    pub fn value(&self) -> (r: &String)
        ensures
            r@ == self.value@,
    {
        &self.value
    }

    pub fn path(&self) -> (r: &String)
        ensures
            r@ == self.path@,
    {
        &self.path
    }

    pub fn secure(&self) -> (r: Option<bool>)
        ensures
            r == Some(self.secure),
    {
        Some(self.secure)
    }

    pub fn http_only(&self) -> (r: Option<bool>)
        ensures
            r == Some(self.http_only),
    {
        Some(self.http_only)
    }

    pub fn same_site(&self) -> (r: Option<SameSite>)
        ensures
            r == Some(self.same_site),
    {
        Some(self.same_site)
    }

    /// What [`SessionCookie::serialize`] returns, as a function of the fields.
    pub open spec fn serialize_spec(&self) -> Seq<char> {
        self.name@ + "="@ + self.value@ + "; Path="@ + self.path@ + (if self.http_only {
            "; HttpOnly"@
        } else {
            Seq::<char>::empty()
        }) + "; SameSite=Lax"@ + (if self.secure {
            "; Secure"@
        } else {
            Seq::<char>::empty()
        })
    }

    /// The `Set-Cookie` header value for this cookie.
    pub fn serialize(&self) -> (r: String)
        ensures
            r@ == self.serialize_spec(),
    {
        let mut out = String::new();
        out.append(self.name.as_str());
        out.append("=");
        out.append(self.value.as_str());
        out.append("; Path=");
        out.append(self.path.as_str());
        if self.http_only {
            out.append("; HttpOnly");
        }
        out.append("; SameSite=Lax");
        if self.secure {
            out.append("; Secure");
        }
        out
    }
}

/// Builds the session cookie: name `authy_session`, the token as value,
/// path `/`, always `HttpOnly` and `SameSite=Lax`, and `Secure` exactly
/// when the client-facing connection is HTTPS.
pub fn create_session_cookie(token: &str, secure: bool) -> (c: SessionCookie)
    ensures
        c.name@ == "authy_session"@,
        c.value@ == token@,
        c.path@ == "/"@,
        c.secure == secure,
        c.http_only,
        c.same_site == SameSite::Lax,
        c.serialize_spec() == spec_session_cookie(token@, secure),
{
    let c = SessionCookie {
        name: String::from_str("authy_session"),
        value: String::from_str(token),
        path: String::from_str("/"),
        secure,
        http_only: true,
        same_site: SameSite::Lax,
    };
    proof {
        reveal_strlit("authy_session=");
        reveal_strlit("authy_session");
        reveal_strlit("=");
        reveal_strlit("/");
        reveal_strlit("; Path=");
        reveal_strlit("; HttpOnly");
        reveal_strlit("; SameSite=Lax");
        reveal_strlit("; Path=/; HttpOnly; SameSite=Lax");
        assert(c.serialize_spec() =~= spec_session_cookie(token@, secure));
    }
    c
}

/// The name/value pair of one `Cookie`-header segment: the segment is
/// trimmed, split at the first `=`, and both halves are trimmed; a segment
/// without `=` or with an empty name is no pair.
pub open spec fn cookie_pair(seg: Seq<char>) -> Option<(Seq<char>, Seq<char>)> {
    let t = trim_spaces(seg);
    let j = first_index(t, '=');
    if 0 <= j < t.len() && trim_spaces(t.subrange(0, j)).len() > 0 {
        Some((trim_spaces(t.subrange(0, j)), trim_spaces(t.subrange(j + 1, t.len() as int))))
    } else {
        None
    }
}

/// The value of `name` in one segment, if the segment is that cookie.
pub open spec fn segment_value(seg: Seq<char>, name: Seq<char>) -> Option<Seq<char>> {
    match cookie_pair(seg) {
        Some(p) => if p.0 == name {
            Some(p.1)
        } else {
            None
        },
        None => None,
    }
}

/// The value of the cookie `name` in a `Cookie` header: segments split on
/// `;`, the last occurrence of `name` winning, as a jar that is filled
/// left to right would have it.
pub open spec fn spec_cookie_lookup(s: Seq<char>, name: Seq<char>) -> Option<Seq<char>>
    decreases s.len(),
{
    let i = first_index(s, ';');
    if 0 <= i < s.len() {
        let rest = spec_cookie_lookup(s.subrange(i + 1, s.len() as int), name);
        if rest is Some {
            rest
        } else {
            segment_value(s.subrange(0, i), name)
        }
    } else {
        segment_value(s, name)
    }
}

/// Looks one cookie up in a `Cookie` header value.
pub fn cookie_lookup(s: &str, name: &str) -> (r: Option<String>)
    ensures
        match r {
            Some(v) => spec_cookie_lookup(s@, name@) == Some(v@),
            None => spec_cookie_lookup(s@, name@) is None,
        },
    decreases s@.len(),
{
    let len = s.unicode_len();
    let i = crate::strutil::find_first(s, ';');
    if i < len {
        let rest = cookie_lookup(s.substring_char(i + 1, len), name);
        if rest.is_some() {
            rest
        } else {
            segment_lookup(s.substring_char(0, i), name)
        }
    } else {
        segment_lookup(s, name)
    }
}

/// Round trip of the issued session token: a browser that stores the
/// cookie issued by [`create_session_cookie`] sends `authy_session=<value>`
/// back in its `Cookie` header, and looking the cookie up there returns the
/// token byte for byte. Tokens are cookie-safe: no `;` and no surrounding
/// spaces (a JWT's alphabet has neither).
pub proof fn lemma_session_cookie_round_trip(token: Seq<char>)
    requires
        forall|i: int| 0 <= i < token.len() ==> token[i] != ';',
        token.len() > 0 ==> token[0] != ' ' && token[token.len() - 1] != ' ',
    ensures
        spec_cookie_lookup("authy_session="@ + token, "authy_session"@) == Some(token),
{
    reveal_strlit("authy_session=");
    reveal_strlit("authy_session");
    let pre = "authy_session="@;
    let s = pre + token;
    assert(pre.len() == 14);
    crate::strutil::lemma_first_index(s, ';');
    assert forall|i: int| 0 <= i < s.len() implies s[i] != ';' by {
        if i < 14 {
        } else {
            assert(s[i] == token[i - 14]);
        }
    }
    assert(first_index(s, ';') == s.len());
    // The whole header is one segment; it has no surrounding spaces.
    crate::strutil::lemma_trim_spaces(s, 0, s.len() as int);
    assert(trim_spaces(s) == s.subrange(0, s.len() as int));
    assert(s.subrange(0, s.len() as int) =~= s);
    // The first `=` is the one the issuer wrote, at index 13.
    crate::strutil::lemma_first_index(s, '=');
    assert(s[13] == '=');
    let j = first_index(s, '=');
    if j < 13 {
        assert(s[j] == '=');
        assert(false);
    } else if j > 13 {
        assert(s[13] != '=');
        assert(false);
    }
    // The name before it is `authy_session`, already trimmed.
    let nameseg = s.subrange(0, 13);
    assert(nameseg =~= "authy_session"@);
    crate::strutil::lemma_trim_spaces(nameseg, 0, 13);
    assert(nameseg.subrange(0, 13) =~= nameseg);
    // The value after it is the token, already trimmed.
    let valseg = s.subrange(14, s.len() as int);
    assert(valseg =~= token);
    crate::strutil::lemma_trim_spaces(valseg, 0, valseg.len() as int);
    assert(valseg.subrange(0, valseg.len() as int) =~= valseg);
}

/// The value of `name` if this one segment is that cookie.
fn segment_lookup(seg: &str, name: &str) -> (r: Option<String>)
    ensures
        match r {
            Some(v) => segment_value(seg@, name@) == Some(v@),
            None => segment_value(seg@, name@) is None,
        },
{
    match segment_pair(seg) {
        Some((nm, value)) => if str_eq(nm.as_str(), name) {
            Some(value)
        } else {
            None
        },
        None => None,
    }
}

/// An attribute the proxy overrides rather than forwards: `Secure` and
/// any `SameSite` setting.
pub open spec fn attr_overridden(t: Seq<char>) -> bool {
    ||| crate::strutil::eq_ignore_case(t, "secure"@)
    ||| (t.len() >= 8 && crate::strutil::eq_ignore_case(t.subrange(0, 8), "samesite"@))
}

/// The serialization of the attributes a rewritten `Set-Cookie` keeps:
/// each `;`-separated segment of `s`, trimmed, prefixed with `; `, except
/// the overridden ones.
pub open spec fn kept_attrs(s: Seq<char>) -> Seq<char>
    decreases s.len(),
{
    let i = first_index(s, ';');
    let seg = if 0 <= i < s.len() {
        s.subrange(0, i)
    } else {
        s
    };
    let t = trim_spaces(seg);
    let here = if attr_overridden(t) {
        Seq::<char>::empty()
    } else {
        "; "@ + t
    };
    if 0 <= i < s.len() {
        here + kept_attrs(s.subrange(i + 1, s.len() as int))
    } else {
        here
    }
}

/// A backend `Set-Cookie` value after the protocol-transition rewrite:
/// name and value kept, attributes kept except `Secure` and `SameSite`,
/// then `Secure` appended when the client connection was HTTPS and
/// `SameSite=Lax` always. A value whose first segment is no `name=value`
/// pair is left alone (`None`).
pub open spec fn rewritten_set_cookie(v: Seq<char>, force_secure: bool) -> Option<Seq<char>> {
    let i = first_index(v, ';');
    let first = if 0 <= i < v.len() {
        v.subrange(0, i)
    } else {
        v
    };
    match cookie_pair(first) {
        Some(p) => {
            let attrs = if 0 <= i < v.len() {
                kept_attrs(v.subrange(i + 1, v.len() as int))
            } else {
                Seq::<char>::empty()
            };
            Some(
                p.0 + "="@ + p.1 + attrs + (if force_secure {
                    "; Secure"@
                } else {
                    Seq::<char>::empty()
                }) + "; SameSite=Lax"@,
            )
        },
        None => None,
    }
}

/// Serializes the attributes of a `Set-Cookie` tail that the rewrite keeps.
fn collect_kept_attrs(s: &str) -> (r: String)
    ensures
        r@ == kept_attrs(s@),
    decreases s@.len(),
{
    let len = s.unicode_len();
    let i = crate::strutil::find_first(s, ';');
    let seg = if i < len {
        s.substring_char(0, i)
    } else {
        s
    };
    let (lo, hi) = trim_bounds(seg);
    let t = seg.substring_char(lo, hi);
    let mut out = String::new();
    if !attr_is_overridden(t) {
        out.append("; ");
        out.append(t);
    }
    if i < len {
        let rest = collect_kept_attrs(s.substring_char(i + 1, len));
        out.append(rest.as_str());
    }
    out
}

/// Whether one trimmed attribute is overridden by the rewrite.
fn attr_is_overridden(t: &str) -> (r: bool)
    ensures
        r == attr_overridden(t@),
{
    if crate::strutil::str_eq_ignore_case(t, "secure") {
        return true;
    }
    let len = t.unicode_len();
    if len >= 8 {
        crate::strutil::str_eq_ignore_case(t.substring_char(0, 8), "samesite")
    } else {
        false
    }
}

/// Rewrites one backend `Set-Cookie` value for the protocol transition,
/// per [`rewritten_set_cookie`]; `None` when the value does not parse and
/// must be forwarded untouched.
pub fn rewrite_set_cookie(v: &str, force_secure: bool) -> (r: Option<String>)
    ensures
        match r {
            Some(out) => rewritten_set_cookie(v@, force_secure) == Some(out@),
            None => rewritten_set_cookie(v@, force_secure) is None,
        },
{
    let len = v.unicode_len();
    let i = crate::strutil::find_first(v, ';');
    let first = if i < len {
        v.substring_char(0, i)
    } else {
        v
    };
    let pair = segment_pair(first);
    match pair {
        Some((name, value)) => {
            let mut out = name;
            out.append("=");
            out.append(value.as_str());
            if i < len {
                let attrs = collect_kept_attrs(v.substring_char(i + 1, len));
                out.append(attrs.as_str());
            }
            if force_secure {
                out.append("; Secure");
            }
            out.append("; SameSite=Lax");
            Some(out)
        },
        None => None,
    }
}

/// The trimmed name/value pair of one segment, per [`cookie_pair`].
fn segment_pair(seg: &str) -> (r: Option<(String, String)>)
    ensures
        match r {
            Some(p) => cookie_pair(seg@) == Some((p.0@, p.1@)),
            None => cookie_pair(seg@) is None,
        },
{
    let (lo, hi) = trim_bounds(seg);
    let t = seg.substring_char(lo, hi);
    let tlen = hi - lo;
    let j = crate::strutil::find_first(t, '=');
    if j >= tlen {
        return None;
    }
    let left = t.substring_char(0, j);
    let (nlo, nhi) = trim_bounds(left);
    if nhi == nlo {
        return None;
    }
    let nm = left.substring_char(nlo, nhi);
    let right = t.substring_char(j + 1, tlen);
    let (vlo, vhi) = trim_bounds(right);
    Some((String::from_str(nm), String::from_str(right.substring_char(vlo, vhi))))
}

} // verus!
