use vstd::prelude::*;
use crate::errors::TransError;
use crate::login::{get_ichigo_cookie, login_tokens_of, spec_cookie};

verus! {

/// The authenticated session: the credentials it was created from, the
/// device fingerprint and client instance identifier sent with every
/// translate request, and the session cookie obtained at login. A snapshot,
/// fixed for the lifetime of the translator; there is no re-authentication.
pub struct IchigoData {
    pub username: String,
    pub password: String,
    pub fingerprint: String,
    pub uuid: String,
    pub cookie: String,
}

/// A handle on a translation backend. Only the Ichigo backend is carried
/// out; the other variant is kept for callers but has no behavior.
pub enum Translator {
    Ichigo(IchigoData),
    MangaImageTranslator,
}

impl Translator {
    /// Builds the Ichigo session from the credentials and the authentication
    /// endpoint's response body. Construction succeeds exactly when the body
    /// yields a token pair; a malformed login response prevents construction
    /// entirely, so no translate call is possible afterwards.
    pub fn ichigo(
        username: String,
        password: String,
        uuid: String,
        fingerprint: String,
        login_body: &[u8],
    ) -> (r: Result<Translator, TransError>)
        ensures
            r is Ok <==> login_tokens_of(login_body@) is Some,
            r matches Ok(t) ==> (t matches Translator::Ichigo(d) && d.username@ == username@
                && d.password@ == password@ && d.fingerprint@ == fingerprint@ && d.uuid@ == uuid@
                && d.cookie@ == spec_cookie(
                login_tokens_of(login_body@)->Some_0.0,
                login_tokens_of(login_body@)->Some_0.1,
            )),
            r matches Err(e) ==> e is Auth,
    {
        match get_ichigo_cookie(login_body) {
            Ok(cookie) => Ok(
                Translator::Ichigo(IchigoData { username, password, fingerprint, uuid, cookie }),
            ),
            Err(e) => Err(e),
        }
    }
}

} // verus!
