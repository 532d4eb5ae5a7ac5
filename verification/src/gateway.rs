use vstd::prelude::*;

use crate::config::Config;
use crate::cookies::spec_cookie_lookup;
use crate::errors::AppError;
use crate::headers::HeaderField;
use crate::proxy::{plan_upstream_request, spec_is_valid_method, spec_plan_wf, UpstreamRequestPlan};
use crate::session::{
    extract_session_token, is_unauthorized, jwt_header_of, spec_validation_verdict,
    validate_session, JwksDocument, Session, SessionVerdict,
};

verus! {

/// Gates one protected request: the session is validated first — against
/// the configured provider domain as issuer and client id as audience —
/// and only with a session in hand is the upstream request planned. A
/// request without an `authy_session` cookie is rejected `Unauthorized`
/// and nothing is ever planned for the backend; any failure leaves the
/// backend untouched, since the plan only exists inside `Ok`. Success is
/// owed, too: a request whose cookie carries a token the validator
/// accepts, with a well-formed method, always gets its session and plan,
/// and every rejection carries the failing step's own message.
pub fn authorize_and_plan(
    config: &Config,
    cookie_header: Option<&str>,
    jwks: &JwksDocument,
    now: u64,
    client_ip: &str,
    method: &str,
    path: &str,
    query: Option<&str>,
    headers: &Vec<HeaderField>,
) -> (r: Result<(Session, UpstreamRequestPlan), AppError>)
    ensures
        match cookie_header {
            None => is_unauthorized(r, "No session cookie found"@, client_ip@, path@),
            Some(h) => match spec_cookie_lookup(h@, "authy_session"@) {
                None => is_unauthorized(r, "No session cookie found"@, client_ip@, path@),
                Some(tok) => match jwt_header_of(tok) {
                    None => r matches Err(e) && e matches AppError::Unauthorized {
                        message,
                        client_ip: ip,
                        path: p,
                    } && crate::strutil::has_prefix(message@, "Invalid token header: "@) && ip@
                        == client_ip@ && p@ == path@,
                    Some((alg, kid_opt)) => match kid_opt {
                        None => is_unauthorized(r, "No key ID in token"@, client_ip@, path@),
                        Some(kid) => match spec_validation_verdict(
                            tok,
                            alg,
                            kid,
                            match jwks.keys {
                                Some(ks) => Some(ks@),
                                None => None,
                            },
                            config.cognito_domain@,
                            config.cognito_client_id@,
                            now,
                        ) {
                            SessionVerdict::Reject(msg) => is_unauthorized(
                                r,
                                msg,
                                client_ip@,
                                path@,
                            ),
                            SessionVerdict::RejectKeyComponents => r matches Err(e) && e matches
                                AppError::Unauthorized {
                                message,
                                client_ip: ip,
                                path: p,
                            } && crate::strutil::has_prefix(message@, "Invalid key components: "@)
                                && ip@ == client_ip@ && p@ == path@,
                            SessionVerdict::Accept(_) => if spec_is_valid_method(method@) {
                                r is Ok
                            } else {
                                r matches Err(e) && e matches AppError::Internal(m) && m@
                                    == "Invalid method"@
                            },
                        },
                    },
                },
            },
        },
        r matches Ok(p) ==> (cookie_header matches Some(h) && spec_cookie_lookup(
            h@,
            "authy_session"@,
        ) matches Some(tok) && jwt_header_of(tok) matches Some((alg, kid_opt)) && kid_opt matches
            Some(kid) && spec_validation_verdict(
            tok,
            alg,
            kid,
            match jwks.keys {
                Some(ks) => Some(ks@),
                None => None,
            },
            config.cognito_domain@,
            config.cognito_client_id@,
            now,
        ) is Accept && spec_is_valid_method(method@) && p.1.url@ == config.protected_website_url@
            + path@ + (match query {
            Some(q) => "?"@ + q@,
            None => Seq::<char>::empty(),
        }) && spec_plan_wf(p.1, config.behind_proxy, headers@)),
        r matches Err(e) ==> (e matches AppError::Unauthorized { .. } || e matches
            AppError::Internal(_)),
{
    let token = match extract_session_token(cookie_header, client_ip, path) {
        Ok(t) => t,
        Err(e) => {
            return Err(e);
        },
    };
    let session = match validate_session(
        token.as_str(),
        jwks,
        config.cognito_domain.as_str(),
        config.cognito_client_id.as_str(),
        now,
        client_ip,
        path,
    ) {
        Ok(s) => s,
        Err(e) => {
            return Err(e);
        },
    };
    let plan = match plan_upstream_request(config, method, path, query, headers) {
        Ok(p) => p,
        Err(e) => {
            return Err(e);
        },
    };
    Ok((session, plan))
}

} // verus!
