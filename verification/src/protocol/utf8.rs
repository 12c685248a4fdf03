//! Text decoding used when parsing names and strings off the wire.

use vstd::prelude::*;

verus! {

/// `String::from_utf8`, as an `Option`: by its documentation it fails exactly when
/// the bytes are not valid UTF-8, and otherwise holds the text they encode.
#[verifier::external_body]
pub(crate) fn string_from_utf8(bytes: &[u8]) -> (r: Option<String>)
    ensures
        r is Some <==> vstd::utf8::valid_utf8(bytes@),
        r matches Some(s) ==> s@ == vstd::utf8::decode_utf8(bytes@),
{
    String::from_utf8(bytes.to_vec()).ok()
}

/// `format!("Invalid UTF-8: {}", e)` of the error `String::from_utf8` gives for
/// `bytes`. What the error's text says of where the bytes go wrong is left unsaid.
#[verifier::external_body]
pub(crate) fn utf8_error_message(bytes: &[u8]) -> (s: String)
    requires
        !vstd::utf8::valid_utf8(bytes@),
{
    match String::from_utf8(bytes.to_vec()) {
        Err(e) => format!("Invalid UTF-8: {}", e),
        Ok(_) => String::new(),
    }
}

/// `<str as PartialEq>::eq`: two strings are equal exactly when they hold the same text.
#[verifier::external_body]
pub(crate) fn str_eq(a: &str, b: &str) -> (r: bool)
    ensures
        r == (a@ == b@),
{
    a == b
}

/// The text of a name field: empty for an empty field, else the lossy decoding.
pub open spec fn lossy_text(bytes: Seq<u8>) -> Seq<char> {
    if bytes.len() == 0 {
        Seq::empty()
    } else {
        utf8_lossy(bytes)
    }
}

/// What `String::from_utf8_lossy` makes of a byte string.
pub uninterp spec fn utf8_lossy(bytes: Seq<u8>) -> Seq<char>;

/// `String::from_utf8_lossy`, made an owned `String`. Its result depends on the bytes
/// alone; its documentation gives that valid UTF-8 comes back decoded unchanged, and
/// every invalid sequence becomes U+FFFD, so the text is empty exactly when the
/// bytes are. What it makes of invalid input is not stated beyond that.
#[verifier::external_body]
pub(crate) fn string_from_utf8_lossy(bytes: &[u8]) -> (s: String)
    ensures
        s@ == utf8_lossy(bytes@),
        vstd::utf8::valid_utf8(bytes@) ==> s@ == vstd::utf8::decode_utf8(bytes@),
        s@.len() == 0 <==> bytes@.len() == 0,
{
    String::from_utf8_lossy(bytes).to_string()
}

} // verus!
