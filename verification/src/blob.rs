//! Turning a finished byte buffer into a data URL for targets without a
//! native save dialog.

use vstd::prelude::*;

verus! {

/// What the standard padded base64 alphabet encodes a byte string to; a
/// function of the bytes alone.
pub uninterp spec fn base64_std_of(b: Seq<u8>) -> Seq<char>;

/// Relies on the `base64` crate's `STANDARD` engine: the standard
/// alphabet with padding, four output characters for every three input
/// bytes rounded up, determined by the bytes alone.
#[verifier::external_body]
fn base64_encode(data: &[u8]) -> (r: String)
    ensures
        r@ == base64_std_of(data@),
        r@.len() == 4 * ((data@.len() + 2) / 3),
{
    base64::Engine::encode(&base64::engine::general_purpose::STANDARD, data)
}

/// The data URL built for a buffer and its MIME type.
pub open spec fn spec_data_url(data: Seq<u8>, mime_type: Seq<char>) -> Seq<char> {
    "data:"@ + mime_type + ";base64,"@ + base64_std_of(data)
}

/// Wrap downloaded bytes in a data URL that an anchor element can serve
/// as a download link.
pub fn create_blob_url(data: &[u8], mime_type: &str) -> (r: Option<String>)
    ensures
        r is Some,
        r->Some_0@ == spec_data_url(data@, mime_type@),
{
    let mut url = String::from_str("data:");
    url.append(mime_type);
    url.append(";base64,");
    let encoded = base64_encode(data);
    url.append(encoded.as_str());
    Some(url)
}

} // verus!
