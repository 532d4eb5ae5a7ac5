use vstd::prelude::*;

use crate::cookies::{cookie_lookup, spec_cookie_lookup};
use crate::encoding::b64_decoded;
use crate::errors::AppError;
use crate::strutil::{find_last, last_index, str_eq};

verus! {

/// The verified payload of a session token.
pub struct Claims {
    /// Subject: the authenticated principal.
    pub sub: String,
    /// Expiry, absolute epoch seconds.
    pub exp: u64,
    /// Issued-at, absolute epoch seconds.
    pub iat: u64,
    /// Issuer: must equal the configured identity-provider domain.
    pub iss: String,
    /// Audience: must equal the configured client id.
    pub aud: String,
}

/// A validated session: the verified claims attached to one request's
/// processing, never persisted server-side.
pub struct Session {
    pub claims: Claims,
}

/// One key of a fetched JWKS document. Fields are optional so that a
/// document with missing members fails closed during resolution.
pub struct JwkEntry {
    /// Key identifier.
    pub kid: Option<String>,
    /// RSA modulus, base64url.
    pub n: Option<String>,
    /// RSA public exponent, base64url.
    pub e: Option<String>,
}

/// A fetched JWKS document: its `keys` array, or `None` when the document
/// had no such array.
pub struct JwksDocument {
    pub keys: Option<Vec<JwkEntry>>,
}

/// What a compact JWT's unverified header says: whether its algorithm is
/// RS256, and its key id.
pub struct TokenHeader {
    pub alg_is_rs256: bool,
    pub kid: Option<String>,
}

/// What parsing a compact JWT's header segment yields: `None` when the
/// token is structurally invalid, else whether the algorithm is RS256 and
/// the key id. A function of the token text alone.
pub uninterp spec fn jwt_header_of(token: Seq<char>) -> Option<(bool, Option<Seq<char>>)>;

/// Both RSA public-key components decode as unpadded base64url: exactly
/// the condition under which a decoding key can be built from them.
pub open spec fn rsa_components_decode(n: Seq<char>, e: Seq<char>) -> bool {
    b64_decoded(n) is Some && b64_decoded(e) is Some
}

/// Whether `signature` is a valid RS256 signature over `message` under
/// the RSA public key `(n, e)`. A function of the four texts alone.
pub uninterp spec fn rs256_verifies(
    message: Seq<char>,
    signature: Seq<char>,
    n: Seq<char>,
    e: Seq<char>,
) -> bool;

/// The named top-level string member of a JSON document, `None` when the
/// document is no object or the member no string. A function of the
/// document and the name alone.
pub uninterp spec fn json_str_member(doc: Seq<u8>, key: Seq<char>) -> Option<Seq<char>>;

/// The named top-level member of a JSON document as an unsigned 64-bit
/// number, `None` when it is none. A function of the document and the
/// name alone.
pub uninterp spec fn json_u64_member(doc: Seq<u8>, key: Seq<char>) -> Option<u64>;

/// Relies on jsonwebtoken::decode_header: parses the header segment of a
/// compact JWT without verifying anything. Its source first splits the
/// token at its last two `.`, so a parsed header also means both dots are
/// there. The error text is jsonwebtoken's own.
#[verifier::external_body]
fn decode_token_header(token: &str) -> (r: Result<TokenHeader, String>)
    ensures
        match r {
            Ok(h) => {
                &&& jwt_header_of(token@) == Some(
                    (
                        h.alg_is_rs256,
                        match h.kid {
                            Some(k) => Some(k@),
                            None => None,
                        },
                    ),
                )
                &&& 1 <= last_index(token@, '.')
                &&& 0 <= last_index(token@.subrange(0, last_index(token@, '.')), '.')
            },
            Err(_) => jwt_header_of(token@) is None,
        },
{
    match jsonwebtoken::decode_header(token) {
        Ok(h) => Ok(
            TokenHeader {
                alg_is_rs256: matches!(h.alg, jsonwebtoken::Algorithm::RS256),
                kid: h.kid,
            },
        ),
        Err(e) => Err(e.to_string()),
    }
}

/// Relies on jsonwebtoken::DecodingKey::from_rsa_components, which
/// succeeds exactly when both component texts decode under base64's
/// URL_SAFE_NO_PAD engine — the coding [`b64_decoded`] states — and on
/// jsonwebtoken::crypto::verify with Algorithm::RS256, whose verdict is a
/// function of the four texts alone; a verify error (an undecodable
/// signature) counts as not verified. The error text is jsonwebtoken's
/// own. The verify call goes through jsonwebtoken's process-global crypto
/// provider: this crate pins the pure-Rust one and installs no other, and
/// a host that installed a nonconforming provider would void the claim.
#[verifier::external_body]
fn verify_rs256(message: &str, signature: &str, n: &str, e: &str) -> (r: Result<bool, String>)
    ensures
        match r {
            Ok(valid) => rsa_components_decode(n@, e@) && valid == rs256_verifies(
                message@,
                signature@,
                n@,
                e@,
            ),
            Err(_) => !rsa_components_decode(n@, e@),
        },
{
    match jsonwebtoken::DecodingKey::from_rsa_components(n, e) {
        Ok(key) => Ok(
            jsonwebtoken::crypto::verify(
                signature,
                message.as_bytes(),
                &key,
                jsonwebtoken::Algorithm::RS256,
            ).unwrap_or(false),
        ),
        Err(err) => Err(err.to_string()),
    }
}

/// Relies on serde_json::from_slice::<Value> and Value::get / Value::as_str:
/// reads one top-level string member of a JSON document.
#[verifier::external_body]
fn json_string_member(doc: &Vec<u8>, key: &str) -> (r: Option<String>)
    ensures
        match r {
            Some(v) => json_str_member(doc@, key@) == Some(v@),
            None => json_str_member(doc@, key@) is None,
        },
{
    match serde_json::from_slice::<serde_json::Value>(doc) {
        Ok(v) => v.get(key).and_then(|m| m.as_str()).map(|s| s.to_string()),
        Err(_) => None,
    }
}

/// Relies on serde_json::from_slice::<Value> and Value::get / Value::as_u64:
/// reads one top-level numeric member of a JSON document.
#[verifier::external_body]
fn json_number_member(doc: &Vec<u8>, key: &str) -> (r: Option<u64>)
    ensures
        match r {
            Some(v) => json_u64_member(doc@, key@) == Some(v),
            None => json_u64_member(doc@, key@) is None,
        },
{
    match serde_json::from_slice::<serde_json::Value>(doc) {
        Ok(v) => v.get(key).and_then(|m| m.as_u64()),
        Err(_) => None,
    }
}

/// The first key of the document whose `kid` is `kid`.
pub open spec fn find_jwk(keys: Seq<JwkEntry>, kid: Seq<char>) -> Option<JwkEntry>
    decreases keys.len(),
{
    if keys.len() == 0 {
        None
    } else if match keys[0].kid {
        Some(k) => k@ == kid,
        None => false,
    } {
        Some(keys[0])
    } else {
        find_jwk(keys.subrange(1, keys.len() as int), kid)
    }
}

/// Resolves the RSA components for a key id from a fetched JWKS document,
/// failing closed: no `keys` array is a malformed document, an absent key
/// id signals rotation or forgery, and a matched key without its RSA
/// members is malformed. The `Err` text is the message the validator
/// reports.
pub fn resolve_key(doc: &JwksDocument, kid: &str) -> (r: Result<(String, String), String>)
    ensures
        match doc.keys {
            None => r matches Err(m) && m@ == "Invalid JWKS format"@,
            Some(keys) => match find_jwk(keys@, kid@) {
                None => r matches Err(m) && m@ == "No matching key found"@,
                Some(entry) => {
                    if entry.n is Some && entry.e is Some {
                        r matches Ok(p) && match (entry.n, entry.e) {
                            (Some(n), Some(e)) => p.0@ == n@ && p.1@ == e@,
                            _ => false,
                        }
                    } else {
                        r matches Err(m) && m@ == "Invalid key format"@
                    }
                },
            },
        },
{
    let keys = match &doc.keys {
        Some(ks) => ks,
        None => {
            return Err(String::from_str("Invalid JWKS format"));
        },
    };
    let nkeys = keys.len();
    let mut i: usize = 0;
    proof {
        assert(keys@.subrange(0, nkeys as int) =~= keys@);
    }
    while i < nkeys
        invariant
            doc.keys == Some(*keys),
            nkeys == keys@.len(),
            i <= nkeys,
            find_jwk(keys@, kid@) == find_jwk(keys@.subrange(i as int, nkeys as int), kid@),
        decreases nkeys - i,
    {
        proof {
            assert(keys@.subrange(i as int, nkeys as int)[0] == keys@[i as int]);
            assert(keys@.subrange(i as int, nkeys as int).subrange(
                1,
                (nkeys - i) as int,
            ) =~= keys@.subrange(i + 1, nkeys as int));
        }
        let matched = match &keys[i].kid {
            Some(k) => str_eq(k.as_str(), kid),
            None => false,
        };
        if matched {
            let n = match &keys[i].n {
                Some(n) => n,
                None => {
                    return Err(String::from_str("Invalid key format"));
                },
            };
            let e = match &keys[i].e {
                Some(e) => e,
                None => {
                    return Err(String::from_str("Invalid key format"));
                },
            };
            return Ok((String::from_str(n.as_str()), String::from_str(e.as_str())));
        }
        i += 1;
    }
    proof {
        assert(keys@.subrange(nkeys as int, nkeys as int).len() == 0);
    }
    Err(String::from_str("No matching key found"))
}

/// `r` failed as `Unauthorized` with exactly this message, client IP and
/// path.
pub open spec fn is_unauthorized<T>(
    r: Result<T, AppError>,
    msg: Seq<char>,
    ip: Seq<char>,
    path: Seq<char>,
) -> bool {
    match r {
        Err(AppError::Unauthorized { message, client_ip, path: p }) => message@ == msg && client_ip@
            == ip && p@ == path,
        _ => false,
    }
}

/// Builds the `Unauthorized` failure for one request.
fn unauthorized(msg: &str, client_ip: &str, path: &str) -> (r: AppError)
    ensures
        r matches AppError::Unauthorized { message, client_ip: ip, path: p } && message@ == msg@
            && ip@ == client_ip@ && p@ == path@,
{
    AppError::Unauthorized {
        message: String::from_str(msg),
        client_ip: String::from_str(client_ip),
        path: String::from_str(path),
    }
}

/// The requester's IP for audit logging: the `x-forwarded-for` value when
/// present (a deployment behind a load balancer), else the transport
/// peer's address, else `unknown`.
pub fn client_ip_of(forwarded_for: Option<&str>, peer: Option<&str>) -> (r: String)
    ensures
        match forwarded_for {
            Some(x) => r@ == x@,
            None => match peer {
                Some(p) => r@ == p@,
                None => r@ == "unknown"@,
            },
        },
{
    match forwarded_for {
        Some(x) => String::from_str(x),
        None => match peer {
            Some(p) => String::from_str(p),
            None => String::from_str("unknown"),
        },
    }
}

/// The identity provider's published key-set URL.
pub fn jwks_url(provider_domain: &str) -> (r: String)
    ensures
        r@ == provider_domain@ + "/.well-known/jwks.json"@,
{
    let mut out = String::from_str(provider_domain);
    out.append("/.well-known/jwks.json");
    out
}

/// The session token of a request: the `authy_session` entry of its
/// `Cookie` header. A missing header or entry is the `Unauthorized`
/// rejection every protected request without a session gets.
pub fn extract_session_token(cookie_header: Option<&str>, client_ip: &str, path: &str) -> (r:
    Result<String, AppError>)
    ensures
        match cookie_header {
            Some(h) => match spec_cookie_lookup(h@, "authy_session"@) {
                Some(v) => r matches Ok(t) && t@ == v,
                None => is_unauthorized(r, "No session cookie found"@, client_ip@, path@),
            },
            None => is_unauthorized(r, "No session cookie found"@, client_ip@, path@),
        },
{
    match cookie_header {
        Some(h) => match cookie_lookup(h, "authy_session") {
            Some(t) => Ok(t),
            None => Err(unauthorized("No session cookie found", client_ip, path)),
        },
        None => Err(unauthorized("No session cookie found", client_ip, path)),
    }
}

/// The key id of a token's unverified header, so the caller can fail fast
/// before fetching the key set: a structurally invalid token or a header
/// without `kid` is rejected here.
pub fn token_key_id(token: &str, client_ip: &str, path: &str) -> (r: Result<String, AppError>)
    ensures
        match jwt_header_of(token@) {
            None => r matches Err(e) && e matches AppError::Unauthorized {
                message,
                client_ip: ip,
                path: p,
            } && crate::strutil::has_prefix(message@, "Invalid token header: "@) && ip@
                == client_ip@ && p@ == path@,
            Some((alg, kid_opt)) => match kid_opt {
                None => is_unauthorized(r, "No key ID in token"@, client_ip@, path@),
                Some(k) => r matches Ok(s) && s@ == k,
            },
        },
{
    match decode_token_header(token) {
        Ok(h) => match h.kid {
            Some(k) => Ok(k),
            None => Err(unauthorized("No key ID in token", client_ip, path)),
        },
        Err(detail) => {
            let mut msg = String::from_str("Invalid token header: ");
            msg.append(detail.as_str());
            proof {
                assert(("Invalid token header: "@ + detail@).subrange(
                    0,
                    "Invalid token header: "@.len() as int,
                ) =~= "Invalid token header: "@);
            }
            Err(AppError::Unauthorized {
                message: msg,
                client_ip: String::from_str(client_ip),
                path: String::from_str(path),
            })
        },
    }
}

/// The payload fields the validator checks, each `None` when the claim is
/// missing or of the wrong shape.
pub struct RawClaims {
    pub sub: Option<String>,
    pub exp: Option<u64>,
    pub iat: Option<u64>,
    pub iss: Option<String>,
    pub aud: Option<String>,
}

/// Reads the five registered claims out of a decoded token payload.
fn read_claims(payload: &Vec<u8>) -> (r: RawClaims)
    ensures
        match r.sub {
            Some(v) => json_str_member(payload@, "sub"@) == Some(v@),
            None => json_str_member(payload@, "sub"@) is None,
        },
        r.exp == json_u64_member(payload@, "exp"@),
        r.iat == json_u64_member(payload@, "iat"@),
        match r.iss {
            Some(v) => json_str_member(payload@, "iss"@) == Some(v@),
            None => json_str_member(payload@, "iss"@) is None,
        },
        match r.aud {
            Some(v) => json_str_member(payload@, "aud"@) == Some(v@),
            None => json_str_member(payload@, "aud"@) is None,
        },
{
    RawClaims {
        sub: json_string_member(payload, "sub"),
        exp: json_number_member(payload, "exp"),
        iat: json_number_member(payload, "iat"),
        iss: json_string_member(payload, "iss"),
        aud: json_string_member(payload, "aud"),
    }
}

/// The signature of a compact token, split at its last `.`, verifies
/// under the RSA key `(n, e)`.
pub open spec fn spec_signature_valid(token: Seq<char>, n: Seq<char>, e: Seq<char>) -> bool {
    let l = last_index(token, '.');
    l >= 0 && rs256_verifies(
        token.subrange(0, l),
        token.subrange(l + 1, token.len() as int),
        n,
        e,
    )
}

/// The payload segment of a compact token: between its last two `.`.
pub open spec fn spec_payload_segment(token: Seq<char>) -> Seq<char> {
    let l = last_index(token, '.');
    let m = token.subrange(0, l);
    let l2 = last_index(m, '.');
    m.subrange(l2 + 1, m.len() as int)
}

/// What the validator decides once a token's header parsed and a key id
/// was in it: an `Unauthorized` rejection with this message, a rejection
/// whose message only starts with `Invalid key components: ` (the key
/// error's own text follows), or a session over this decoded payload.
pub enum SessionVerdict {
    Reject(Seq<char>),
    RejectKeyComponents,
    Accept(Seq<u8>),
}

/// The validator's decision once the token's header parsed, a key id
/// `kid` is in it, and the key set was fetched. Every step of the state
/// machine short-circuits on first failure: key resolution, the RS256
/// pin, key construction, signature, payload decoding, then the claim
/// checks of [`spec_claims_error`].
pub open spec fn spec_validation_verdict(
    token: Seq<char>,
    alg_rs256: bool,
    kid: Seq<char>,
    keys: Option<Seq<JwkEntry>>,
    expected_iss: Seq<char>,
    expected_aud: Seq<char>,
    now: u64,
) -> SessionVerdict {
    match keys {
        None => SessionVerdict::Reject("Invalid JWKS format"@),
        Some(ks) => match find_jwk(ks, kid) {
            None => SessionVerdict::Reject("No matching key found"@),
            Some(entry) => match (entry.n, entry.e) {
                (Some(n), Some(e)) => if !alg_rs256 {
                    SessionVerdict::Reject("Invalid token: InvalidAlgorithm"@)
                } else if !rsa_components_decode(n@, e@) {
                    SessionVerdict::RejectKeyComponents
                } else if !spec_signature_valid(token, n@, e@) {
                    SessionVerdict::Reject("Invalid token: InvalidSignature"@)
                } else {
                    match b64_decoded(spec_payload_segment(token)) {
                        None => SessionVerdict::Reject("Invalid token: invalid payload encoding"@),
                        Some(payload) => match spec_claims_error(
                            payload,
                            expected_iss,
                            expected_aud,
                            now,
                        ) {
                            Some(msg) => SessionVerdict::Reject(msg),
                            None => SessionVerdict::Accept(payload),
                        },
                    }
                },
                _ => SessionVerdict::Reject("Invalid key format"@),
            },
        },
    }
}

/// The claims-stage rejection over a decoded payload, or `None` when the
/// claims pass: every registered claim present, audience then issuer
/// matching the configuration, and the expiry still in the future.
pub open spec fn spec_claims_error(
    payload: Seq<u8>,
    expected_iss: Seq<char>,
    expected_aud: Seq<char>,
    now: u64,
) -> Option<Seq<char>> {
    let sub = json_str_member(payload, "sub"@);
    let exp = json_u64_member(payload, "exp"@);
    let iat = json_u64_member(payload, "iat"@);
    let iss = json_str_member(payload, "iss"@);
    let aud = json_str_member(payload, "aud"@);
    if sub is None || exp is None || iat is None || iss is None || aud is None {
        Some("Invalid token: missing required claim"@)
    } else if aud != Some(expected_aud) {
        Some("Invalid token: InvalidAudience"@)
    } else if iss != Some(expected_iss) {
        Some("Invalid token: InvalidIssuer"@)
    } else if exp.unwrap() < now {
        Some("Token expired"@)
    } else {
        None
    }
}

/// Expiry is decided strictly against the given clock: a token whose
/// `exp` lies in the past is rejected as `Token expired` whenever the
/// claim checks are reached — that is, for every payload whose required
/// claims are present and whose audience and issuer match. (A token whose
/// signature does not verify never reaches this stage and is rejected as
/// an invalid token instead.)
pub proof fn lemma_expired_token_rejected(
    payload: Seq<u8>,
    expected_iss: Seq<char>,
    expected_aud: Seq<char>,
    now: u64,
)
    requires
        json_str_member(payload, "sub"@) is Some,
        json_u64_member(payload, "exp"@) is Some,
        json_u64_member(payload, "iat"@) is Some,
        json_str_member(payload, "iss"@) == Some(expected_iss),
        json_str_member(payload, "aud"@) == Some(expected_aud),
        json_u64_member(payload, "exp"@).unwrap() < now,
    ensures
        spec_claims_error(payload, expected_iss, expected_aud, now) == Some("Token expired"@),
{
}

/// The algorithm is hard-pinned to RS256: a token whose header names any
/// other algorithm is rejected as `Invalid token: InvalidAlgorithm`, even
/// though a usable key with its key id exists in the key set — key
/// resolution precedes the pin, and nothing downstream can overrule it.
pub proof fn lemma_algorithm_confusion_rejected(
    token: Seq<char>,
    kid: Seq<char>,
    keys: Seq<JwkEntry>,
    expected_iss: Seq<char>,
    expected_aud: Seq<char>,
    now: u64,
)
    requires
        find_jwk(keys, kid) matches Some(entry) && entry.n is Some && entry.e is Some,
    ensures
        spec_validation_verdict(token, false, kid, Some(keys), expected_iss, expected_aud, now)
            == SessionVerdict::Reject("Invalid token: InvalidAlgorithm"@),
{
}

/// A key set with no entry for the token's key id — a rotation race or a
/// forged token — always rejects with `No matching key found`, whatever
/// the token itself says.
pub proof fn lemma_unknown_key_id_rejected(
    token: Seq<char>,
    alg_rs256: bool,
    kid: Seq<char>,
    keys: Seq<JwkEntry>,
    expected_iss: Seq<char>,
    expected_aud: Seq<char>,
    now: u64,
)
    requires
        find_jwk(keys, kid) is None,
    ensures
        spec_validation_verdict(token, alg_rs256, kid, Some(keys), expected_iss, expected_aud, now)
            == SessionVerdict::Reject("No matching key found"@),
{
}

/// Validates a session token against the fetched key set: header decode,
/// key resolution, RS256-only signature verification, then the claim
/// checks of [`spec_claims_error`]. On success the session carries
/// exactly the token's claims; every failure is `Unauthorized` with the
/// requester's IP and path, and with the message the failing step names —
/// so, among much else, an expired but otherwise valid token is rejected
/// with `Token expired`, a token whose algorithm is not RS256 with
/// `Invalid token: InvalidAlgorithm`, and a token whose key id is not in
/// the key set with `No matching key found`.
pub fn validate_session(
    token: &str,
    jwks: &JwksDocument,
    expected_iss: &str,
    expected_aud: &str,
    now: u64,
    client_ip: &str,
    path: &str,
) -> (r: Result<Session, AppError>)
    ensures
        match jwt_header_of(token@) {
            None => r matches Err(e) && e matches AppError::Unauthorized {
                message,
                client_ip: ip,
                path: p,
            } && crate::strutil::has_prefix(message@, "Invalid token header: "@) && ip@
                == client_ip@ && p@ == path@,
            Some((alg_rs256, kid_opt)) => match kid_opt {
                None => is_unauthorized(r, "No key ID in token"@, client_ip@, path@),
                Some(kid) => {
                    let verdict = spec_validation_verdict(
                        token@,
                        alg_rs256,
                        kid,
                        match jwks.keys {
                            Some(ks) => Some(ks@),
                            None => None,
                        },
                        expected_iss@,
                        expected_aud@,
                        now,
                    );
                    match verdict {
                        SessionVerdict::Reject(msg) => is_unauthorized(r, msg, client_ip@, path@),
                        SessionVerdict::RejectKeyComponents => r matches Err(e) && e matches AppError::Unauthorized {
                            message,
                            client_ip: ip,
                            path: p,
                        } && crate::strutil::has_prefix(message@, "Invalid key components: "@)
                            && ip@ == client_ip@ && p@ == path@,
                        SessionVerdict::Accept(payload) => r matches Ok(s) && {
                            &&& Some(s.claims.sub@) == json_str_member(payload, "sub"@)
                            &&& Some(s.claims.exp) == json_u64_member(payload, "exp"@)
                            &&& Some(s.claims.iat) == json_u64_member(payload, "iat"@)
                            &&& s.claims.iss@ == expected_iss@
                            &&& s.claims.aud@ == expected_aud@
                        },
                    }
                },
            },
        },
{
    let header = match decode_token_header(token) {
        Ok(h) => h,
        Err(detail) => {
            let mut msg = String::from_str("Invalid token header: ");
            msg.append(detail.as_str());
            proof {
                assert(("Invalid token header: "@ + detail@).subrange(
                    0,
                    "Invalid token header: "@.len() as int,
                ) =~= "Invalid token header: "@);
            }
            return Err(AppError::Unauthorized {
                message: msg,
                client_ip: String::from_str(client_ip),
                path: String::from_str(path),
            });
        },
    };
    let kid = match header.kid {
        Some(k) => k,
        None => {
            return Err(unauthorized("No key ID in token", client_ip, path));
        },
    };
    let (n, e) = match resolve_key(jwks, kid.as_str()) {
        Ok(p) => p,
        Err(msg) => {
            return Err(unauthorized(msg.as_str(), client_ip, path));
        },
    };
    if !header.alg_is_rs256 {
        return Err(unauthorized("Invalid token: InvalidAlgorithm", client_ip, path));
    }
    let len = token.unicode_len();
    let l = match find_last(token, '.') {
        Some(l) => l,
        None => {
            proof {
                assert(false);
            }
            return Err(unauthorized("Invalid token: InvalidSignature", client_ip, path));
        },
    };
    let message = token.substring_char(0, l);
    let signature = token.substring_char(l + 1, len);
    let valid = match verify_rs256(message, signature, n.as_str(), e.as_str()) {
        Ok(v) => v,
        Err(detail) => {
            let mut msg = String::from_str("Invalid key components: ");
            msg.append(detail.as_str());
            proof {
                assert(("Invalid key components: "@ + detail@).subrange(
                    0,
                    "Invalid key components: "@.len() as int,
                ) =~= "Invalid key components: "@);
            }
            return Err(AppError::Unauthorized {
                message: msg,
                client_ip: String::from_str(client_ip),
                path: String::from_str(path),
            });
        },
    };
    if !valid {
        return Err(unauthorized("Invalid token: InvalidSignature", client_ip, path));
    }
    let l2 = match find_last(message, '.') {
        Some(l2) => l2,
        None => {
            proof {
                assert(false);
            }
            return Err(unauthorized("Invalid token: InvalidSignature", client_ip, path));
        },
    };
    let payload_text = message.substring_char(l2 + 1, l);
    let payload = match crate::encoding::b64url_decode(payload_text) {
        Some(p) => p,
        None => {
            return Err(unauthorized("Invalid token: invalid payload encoding", client_ip, path));
        },
    };
    let raw = read_claims(&payload);
    let sub = match raw.sub {
        Some(v) => v,
        None => {
            return Err(unauthorized("Invalid token: missing required claim", client_ip, path));
        },
    };
    let exp = match raw.exp {
        Some(v) => v,
        None => {
            return Err(unauthorized("Invalid token: missing required claim", client_ip, path));
        },
    };
    let iat = match raw.iat {
        Some(v) => v,
        None => {
            return Err(unauthorized("Invalid token: missing required claim", client_ip, path));
        },
    };
    let iss = match raw.iss {
        Some(v) => v,
        None => {
            return Err(unauthorized("Invalid token: missing required claim", client_ip, path));
        },
    };
    let aud = match raw.aud {
        Some(v) => v,
        None => {
            return Err(unauthorized("Invalid token: missing required claim", client_ip, path));
        },
    };
    if !str_eq(aud.as_str(), expected_aud) {
        return Err(unauthorized("Invalid token: InvalidAudience", client_ip, path));
    }
    if !str_eq(iss.as_str(), expected_iss) {
        return Err(unauthorized("Invalid token: InvalidIssuer", client_ip, path));
    }
    if exp < now {
        return Err(unauthorized("Token expired", client_ip, path));
    }
    Ok(Session { claims: Claims { sub, exp, iat, iss, aud } })
}

} // verus!
