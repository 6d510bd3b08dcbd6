use vstd::prelude::*;
use vstd::string::*;
use crate::errors::TransError;

verus! {

/// The login request body: the credentials, under the field names the
/// authentication endpoint expects.
pub struct IchigoLogin {
    pub email: String,
    pub password: String,
}

impl IchigoLogin {
    pub fn new(username: String, password: String) -> (r: Self)
        ensures
            r.email@ == username@,
            r.password@ == password@,
    {
        IchigoLogin { email: username, password }
    }
}

/// The token pair of a successful login response.
pub struct Tokens {
    pub access_token: String,
    pub refresh_token: String,
}

/// The token pair that the login response body yields, if any: the body must
/// parse as JSON holding an object `tokens` with string fields `accessToken`
/// and `refreshToken`. A function of the bytes alone.
pub uninterp spec fn login_tokens_of(body: Seq<u8>) -> Option<(Seq<char>, Seq<char>)>;

/// Relies on serde_json::from_slice::<Value>, Value::get and Value::as_str:
/// whether the bytes parse as such JSON, and which two strings the fields
/// hold, depend on the bytes alone.
#[verifier::external_body]
fn parse_login_tokens(body: &[u8]) -> (r: Option<Tokens>)
    ensures
        r is Some <==> login_tokens_of(body@) is Some,
        r matches Some(t) ==> login_tokens_of(body@) == Some(
            (t.access_token@, t.refresh_token@),
        ),
{
    let v: serde_json::Value = serde_json::from_slice(body).ok()?;
    let tokens = v.get("tokens")?;
    let access = tokens.get("accessToken")?.as_str()?;
    let refresh = tokens.get("refreshToken")?.as_str()?;
    Some(Tokens { access_token: access.to_string(), refresh_token: refresh.to_string() })
}

/// The session cookie composed from a token pair.
pub open spec fn spec_cookie(access: Seq<char>, refresh: Seq<char>) -> Seq<char> {
    "access_cookie="@ + access + "; refresh_token_cookie="@ + refresh
}

/// Combines the two tokens into the single session-cookie string that every
/// translate call carries; the tokens are never stored separately.
pub fn compose_cookie(tokens: &Tokens) -> (r: String)
    ensures
        r@ == spec_cookie(tokens.access_token@, tokens.refresh_token@),
{
    let mut s = String::from_str("access_cookie=");
    s.append(tokens.access_token.as_str());
    s.append("; refresh_token_cookie=");
    s.append(tokens.refresh_token.as_str());
    s
}

/// The login procedure's pure half: given the authentication endpoint's
/// response body, extract the token pair and compose the session cookie.
/// Fails with an authentication error exactly when the body does not yield a
/// token pair, in which case no session can be built.
pub fn get_ichigo_cookie(body: &[u8]) -> (r: Result<String, TransError>)
    ensures
        r is Ok <==> login_tokens_of(body@) is Some,
        r matches Ok(c) ==> c@ == spec_cookie(
            login_tokens_of(body@)->Some_0.0,
            login_tokens_of(body@)->Some_0.1,
        ),
        r matches Err(e) ==> e is Auth,
{
    match parse_login_tokens(body) {
        Some(tokens) => Ok(compose_cookie(&tokens)),
        None => Err(TransError::Auth(String::from_str("login response is missing tokens"))),
    }
}

} // verus!
