//! Byte-level encodings the service relies on: base64 (standard alphabet, padded)
//! and UTF-8.
use vstd::prelude::*;
use vstd::utf8::{decode_utf8, valid_utf8};

verus! {

/// The bytes the base64 text `text` denotes under the standard padded alphabet,
/// or `None` where the text is not such an encoding.
pub uninterp spec fn base64_decoded(text: Seq<char>) -> Option<Seq<u8>>;

/// The base64 text (standard alphabet, padded) of `bytes`.
pub uninterp spec fn base64_encoded(bytes: Seq<u8>) -> Seq<char>;

/// Relies on base64's `STANDARD.decode`: the decoded bytes, or an error where the
/// text is not canonical padded standard base64.
#[verifier::external_body]
pub(crate) fn decode_base64(text: &str) -> (r: Option<Vec<u8>>)
    ensures
        r matches Some(b) ==> base64_decoded(text@) == Some(b@),
        r is None ==> base64_decoded(text@) is None,
{
    base64::Engine::decode(&base64::engine::general_purpose::STANDARD, text).ok()
}

/// Relies on base64's `STANDARD.encode`: the padded standard base64 text of the bytes.
#[verifier::external_body]
pub(crate) fn encode_base64(bytes: &[u8]) -> (r: String)
    ensures
        r@ == base64_encoded(bytes@),
{
    base64::Engine::encode(&base64::engine::general_purpose::STANDARD, bytes)
}

/// Relies on `std::str::from_utf8`: succeeds exactly on well-formed UTF-8, and the
/// string then holds the characters the bytes encode.
#[verifier::external_body]
pub(crate) fn utf8_string(bytes: &[u8]) -> (r: Option<String>)
    ensures
        r is Some <==> valid_utf8(bytes@),
        r matches Some(s) ==> s@ == decode_utf8(bytes@),
{
    std::str::from_utf8(bytes).ok().map(str::to_owned)
}

/// The text that optionally decoded bytes hold: present when the bytes are
/// present and well-formed UTF-8.
pub open spec fn text_of_bytes(b: Option<Seq<u8>>) -> Option<Seq<char>> {
    match b {
        Some(x) => if valid_utf8(x) {
            Some(decode_utf8(x))
        } else {
            None
        },
        None => None,
    }
}

/// The byte sequence an optional buffer holds.
pub open spec fn bytes_view(o: Option<Vec<u8>>) -> Option<Seq<u8>> {
    match o {
        Some(b) => Some(b@),
        None => None,
    }
}

/// The text held by `decoded`, when it is present and well-formed UTF-8.
pub fn text_from_decoded(decoded: Option<Vec<u8>>) -> (r: Option<String>)
    ensures
        r matches Some(s) ==> text_of_bytes(bytes_view(decoded)) == Some(s@),
        r is None ==> text_of_bytes(bytes_view(decoded)) is None,
{
    match decoded {
        Some(b) => utf8_string(b.as_slice()),
        None => None,
    }
}

} // verus!
