//! Bytes read as text.

use vstd::prelude::*;

verus! {

/// `bytes` read as UTF-8, with a replacement character for what is none.
pub uninterp spec fn utf8_lossy(bytes: Seq<u8>) -> Seq<char>;

/// `String::from_utf8_lossy`: bytes read as UTF-8, with a replacement character for
/// what is none.
#[verifier::external_body]
pub(crate) fn lossy_text(bytes: &[u8]) -> (r: String)
    ensures
        r@ == utf8_lossy(bytes@),
{
    String::from_utf8_lossy(bytes).into_owned()
}

/// Why `bytes` are no UTF-8.
pub uninterp spec fn utf8_fault(bytes: Seq<u8>) -> Seq<char>;

/// `String::from_utf8`, with the message of its error: the text whose UTF-8 encoding
/// `bytes` are, where they are one.
#[verifier::external_body]
pub(crate) fn strict_text(bytes: Vec<u8>) -> (r: Result<String, String>)
    ensures
        match r {
            Ok(text) => vstd::utf8::encode_utf8(text@) == bytes@,
            Err(message) => !vstd::utf8::valid_utf8(bytes@) && message@ == utf8_fault(bytes@),
        },
{
    String::from_utf8(bytes).map_err(|error| error.to_string())
}

} // verus!
