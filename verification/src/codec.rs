//! Base64, as the `base64` crate computes it.

use vstd::prelude::*;

verus! {

/// The text that the crate's `STANDARD` engine writes for some bytes: the
/// standard alphabet, with padding.
pub uninterp spec fn base64_standard(bytes: Seq<u8>) -> Seq<char>;

/// The text that the crate's `URL_SAFE` engine writes for some bytes: the
/// URL-safe alphabet, with padding.
pub uninterp spec fn base64_url_safe(bytes: Seq<u8>) -> Seq<char>;

/// The bytes that the crate's `STANDARD` engine reads from a text: `None`
/// where it reports an error.
pub uninterp spec fn base64_standard_decoded(text: Seq<char>) -> Option<Seq<u8>>;

/// The view of optional bytes.
pub open spec fn bytes_opt_view(bytes: Option<Vec<u8>>) -> Option<Seq<u8>> {
    match bytes {
        Some(b) => Some(b@),
        None => None,
    }
}

/// `Engine::encode` of `base64::prelude::BASE64_STANDARD`. The contract only
/// gives the text its name. The call panics where the length of the text
/// overflows `usize`, which takes more bytes than a slice can hold.
#[verifier::external_body]
pub(crate) fn encode_standard(bytes: &[u8]) -> (text: String)
    ensures
        text@ == base64_standard(bytes@),
{
    base64::Engine::encode(&base64::prelude::BASE64_STANDARD, bytes)
}

/// `Engine::encode` of `base64::prelude::BASE64_URL_SAFE`. The contract only
/// gives the text its name. The call panics where the length of the text
/// overflows `usize`, which takes more bytes than a slice can hold.
#[verifier::external_body]
pub(crate) fn encode_url_safe(bytes: &[u8]) -> (text: String)
    ensures
        text@ == base64_url_safe(bytes@),
{
    base64::Engine::encode(&base64::prelude::BASE64_URL_SAFE, bytes)
}

/// `Engine::decode` of `base64::prelude::BASE64_STANDARD`, with its error
/// dropped. The contract only gives the outcome its name.
#[verifier::external_body]
pub(crate) fn decode_standard(text: &str) -> (bytes: Option<Vec<u8>>)
    ensures
        bytes_opt_view(bytes) == base64_standard_decoded(text@),
{
    base64::Engine::decode(&base64::prelude::BASE64_STANDARD, text).ok()
}

} // verus!
