use vstd::prelude::*;

use crate::config::Config;
use crate::cookies::{create_session_cookie, spec_session_cookie};
use crate::encoding::{form_encoded, form_urlencode};
use crate::errors::AppError;
use crate::strutil::{has_prefix, str_starts_with};

verus! {

/// The query parameters the identity provider sends to the callback.
pub struct AuthCallback {
    /// The single-use authorization code, when the provider granted one.
    pub code: Option<String>,
    /// The provider's error string, e.g. `access_denied`.
    pub error: Option<String>,
}

/// The identity provider's answer to a code exchange. Only the access
/// token outlives the callback, embedded in the session cookie.
pub struct TokenResponse {
    pub access_token: String,
    pub token_type: String,
    pub expires_in: u32,
    pub id_token: Option<String>,
}

/// The authorization URL a login redirects to: the provider's `/login`
/// with `client_id`, `response_type=code`, `scope=openid` and this
/// gateway's `/callback` as `redirect_uri`, the values form-urlencoded.
pub fn begin_login(config: &Config) -> (r: String)
    requires
        config.wf(),
    ensures
        r@ == config.cognito_domain@ + "/login?client_id="@ + form_encoded(
            config.cognito_client_id@,
        ) + "&response_type=code&scope=openid&redirect_uri="@ + form_encoded(
            config.server_domain@ + "/callback"@,
        ),
{
    let mut redirect_uri = String::from_str(config.server_domain.as_str());
    redirect_uri.append("/callback");
    proof {
        reveal_strlit("/callback");
    }
    let mut out = String::from_str(config.cognito_domain.as_str());
    out.append("/login?client_id=");
    out.append(form_urlencode(config.cognito_client_id.as_str()).as_str());
    out.append("&response_type=code&scope=openid&redirect_uri=");
    out.append(form_urlencode(redirect_uri.as_str()).as_str());
    out
}

/// The callback's decision on its query parameters: without a code the
/// flow failed (`No authorization code provided`, whatever else was
/// sent); with a code but also a provider error, that error is the
/// failure; with a code alone, the code is what the exchange consumes.
pub fn begin_callback(params: &AuthCallback) -> (r: Result<String, AppError>)
    ensures
        params.code is None ==> (r matches Err(e) && e matches AppError::Auth(m) && m@
            == "No authorization code provided"@),
        params.code is Some ==> match params.error {
            Some(err) => r matches Err(e) && e matches AppError::Auth(m) && m@ == err@,
            None => r matches Ok(code) && params.code matches Some(c) && code@ == c@,
        },
{
    let code = match &params.code {
        Some(c) => c,
        None => {
            return Err(AppError::Auth(String::from_str("No authorization code provided")));
        },
    };
    match &params.error {
        Some(err) => Err(AppError::Auth(String::from_str(err.as_str()))),
        None => Ok(String::from_str(code.as_str())),
    }
}

/// Everything the host needs to issue the token-exchange POST: the
/// provider's token endpoint, HTTP Basic credentials, and the
/// form-encoded body.
pub struct TokenRequestPlan {
    pub url: String,
    pub basic_user: String,
    pub basic_pass: String,
    pub form_body: String,
}

/// Plans the exchange of an authorization code for a token: a POST to
/// `<provider>/oauth2/token` under the client's Basic credentials whose
/// body carries the grant type, client id, code, and this gateway's
/// callback as `redirect_uri`.
pub fn build_token_request(config: &Config, code: &str) -> (r: TokenRequestPlan)
    requires
        config.wf(),
        vstd::utf8::is_ascii_chars(code@),
    ensures
        r.url@ == config.cognito_domain@ + "/oauth2/token"@,
        r.basic_user@ == config.cognito_client_id@,
        r.basic_pass@ == config.cognito_client_secret@,
        r.form_body@ == "grant_type=authorization_code&client_id="@ + form_encoded(
            config.cognito_client_id@,
        ) + "&code="@ + form_encoded(code@) + "&redirect_uri="@ + form_encoded(
            config.server_domain@ + "/callback"@,
        ),
{
    let mut url = String::from_str(config.cognito_domain.as_str());
    url.append("/oauth2/token");
    let mut redirect_uri = String::from_str(config.server_domain.as_str());
    redirect_uri.append("/callback");
    proof {
        reveal_strlit("/callback");
    }
    let mut body = String::from_str("grant_type=authorization_code&client_id=");
    body.append(form_urlencode(config.cognito_client_id.as_str()).as_str());
    body.append("&code=");
    body.append(form_urlencode(code).as_str());
    body.append("&redirect_uri=");
    body.append(form_urlencode(redirect_uri.as_str()).as_str());
    TokenRequestPlan {
        url,
        basic_user: String::from_str(config.cognito_client_id.as_str()),
        basic_pass: String::from_str(config.cognito_client_secret.as_str()),
        form_body: body,
    }
}

/// The exchange's outcome by status code: any non-2xx answer fails the
/// flow with the provider's own response body as the message.
pub fn interpret_exchange_status(status: u16, body: &str) -> (r: Result<(), AppError>)
    ensures
        200 <= status < 300 ==> r is Ok,
        !(200 <= status < 300) ==> (r matches Err(e) && e matches AppError::Auth(m) && m@
            == body@),
{
    if 200 <= status && status < 300 {
        Ok(())
    } else {
        Err(AppError::Auth(String::from_str(body)))
    }
}

/// The redirect that ends a successful login: 302 to the protected site,
/// with the session cookie issued over the fresh access token.
pub struct CallbackResponse {
    pub status: u16,
    pub location: String,
    pub set_cookie: String,
}

/// Builds the callback's response from a fresh token: a 302 to the
/// protected site whose `Set-Cookie` embeds the access token, `Secure`
/// exactly when this gateway's own domain is HTTPS.
pub fn finish_callback(config: &Config, token: &TokenResponse) -> (r: CallbackResponse)
    ensures
        r.status == 302,
        r.location@ == config.protected_website_url@,
        r.set_cookie@ == spec_session_cookie(
            token.access_token@,
            has_prefix(config.server_domain@, "https://"@),
        ),
{
    let secure = str_starts_with(config.server_domain.as_str(), "https://");
    let cookie = create_session_cookie(token.access_token.as_str(), secure);
    CallbackResponse {
        status: 302,
        location: String::from_str(config.protected_website_url.as_str()),
        set_cookie: cookie.serialize(),
    }
}

} // verus!
