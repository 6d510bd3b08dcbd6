use vstd::prelude::*;

verus! {

/// The standard base64 encoding (with padding) of the given bytes. A function
/// of the bytes alone.
pub uninterp spec fn b64_of(bytes: Seq<u8>) -> Seq<char>;

/// Relies on base64's STANDARD engine, Engine::encode: the encoding depends
/// on the input bytes alone, and the padded output holds four characters for
/// every three input bytes, rounded up. The length bound keeps the output
/// size computation from overflowing, on which the engine would panic.
#[verifier::external_body]
fn b64_encode(bytes: &[u8]) -> (r: String)
    requires
        bytes@.len() <= usize::MAX / 2,
    ensures
        r@ == b64_of(bytes@),
        r@.len() == 4 * ((bytes@.len() + 2) / 3),
{
    base64::Engine::encode(&base64::engine::general_purpose::STANDARD, bytes)
}

/// The outbound translation request: the device fingerprint, the client
/// instance identifier, and the base64-encoded image payloads, under the
/// field names the translate endpoint expects. Built fresh per job.
pub struct IchigoRequest {
    pub fingerprint: String,
    pub client_uuid: String,
    pub base64images: Vec<String>,
}

impl IchigoRequest {
    /// Assembles the request for one job from the source image's bytes and a
    /// snapshot of the session's fingerprint and client identifier: the one
    /// image, base64-encoded, as the single payload.
    pub fn new(image: &Vec<u8>, fingerprint: String, uuid: String) -> (r: Self)
        requires
            image@.len() <= usize::MAX / 2,
        ensures
            r.fingerprint@ == fingerprint@,
            r.client_uuid@ == uuid@,
            r.base64images@.len() == 1,
            r.base64images@[0]@ == b64_of(image@),
    {
        let encoded = b64_encode(image.as_slice());
        let mut images: Vec<String> = Vec::new();
        images.push(encoded);
        IchigoRequest { fingerprint, client_uuid: uuid, base64images: images }
    }
}

} // verus!
