//! Data URLs: an SVG document as base64 text behind a fixed prefix.

use base64::Engine;
use vstd::prelude::*;
use vstd::string::StringExecFns;
use vstd::string::StringSliceAdditionalSpecFns;

verus! {

/// The text that the standard base64 alphabet, with padding, gives for a
/// sequence of bytes.
pub uninterp spec fn base64_standard(bytes: Seq<u8>) -> Seq<char>;

/// `Engine::encode` of the `base64` crate on its `STANDARD` engine. The text
/// depends on the bytes alone, and [`base64_standard`] is the name of it; no
/// more is claimed. The crate panics only where the length of the result
/// does not fit in `usize`, which no slice in memory reaches.
#[verifier::external_body]
fn encode_standard(bytes: &[u8]) -> (text: String)
    ensures
        text@ == base64_standard(bytes@),
{
    base64::engine::general_purpose::STANDARD.encode(bytes)
}

/// The data URL that carries the given base64 text of an SVG document.
pub open spec fn data_url(encoded: Seq<char>) -> Seq<char> {
    "data:image/svg+xml;base64,"@ + encoded
}

/// Puts the prefix of an SVG data URL before the base64 text.
pub fn data_url_of(encoded: &str) -> (url: String)
    ensures
        url@ == data_url(encoded@),
{
    let mut url = String::from_str("data:image/svg+xml;base64,");
    url.append(encoded);
    url
}

/// The data URL of an SVG document: the prefix, then the base64 text of the
/// document's UTF-8 bytes.
pub fn to_data_url(svg: &str) -> (url: String)
    ensures
        url@ == data_url(base64_standard(vstd::utf8::encode_utf8(svg@))),
{
    let encoded = encode_standard(svg.as_bytes());
    data_url_of(encoded.as_str())
}

} // verus!
