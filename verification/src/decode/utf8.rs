//! UTF-8 decoding of identifier bytes.

use vstd::prelude::*;
use vstd::utf8::{decode_utf8, valid_utf8};

verus! {

/// Every byte is an ASCII code point.
pub open spec fn is_ascii_bytes(b: Seq<u8>) -> bool {
    forall|i: int| 0 <= i < b.len() ==> #[trigger] b[i] < 128
}

/// The characters of ASCII bytes.
pub open spec fn ascii_chars(b: Seq<u8>) -> Seq<char> {
    b.map_values(|x: u8| x as char)
}

/// The text that `bytes` encode in UTF-8, or `None` when they are not valid UTF-8.
pub open spec fn utf8_decoded(bytes: Seq<u8>) -> Option<Seq<char>> {
    if valid_utf8(bytes) { Some(decode_utf8(bytes)) } else { None }
}

/// The text of `bytes` with each invalid UTF-8 sequence replaced by U+FFFD.
pub uninterp spec fn utf8_lossy(bytes: Seq<u8>) -> Seq<char>;

/// Why bytes failed to decode as UTF-8 (the fields of `std::str::Utf8Error`).
#[derive(Debug, Clone, Copy, PartialEq, Eq)]
pub struct Utf8Failure {
    /// Length of the longest valid prefix.
    pub valid_up_to: usize,
    /// Length of the invalid sequence, or `None` when the input ended inside a sequence.
    pub error_len: Option<u8>,
}

/// `std::str::from_utf8`, its error read into a [`Utf8Failure`]: claims that
/// it succeeds exactly on valid UTF-8, that the text it returns is what the
/// bytes encode and that ASCII input decodes to its own characters; on
/// failure, that `valid_up_to` is the longest prefix that decodes, and that
/// an invalid sequence of `error_len` bytes starts there inside the input.
#[verifier::external_body]
pub(crate) fn str_from_utf8(b: &[u8]) -> (r: Result<&str, Utf8Failure>)
    ensures
        (r is Ok) == valid_utf8(b@),
        r is Ok ==> r->Ok_0@ == decode_utf8(b@),
        is_ascii_bytes(b@) ==> r is Ok && r->Ok_0@ == ascii_chars(b@),
        r matches Err(f) ==> f.valid_up_to <= b@.len() && valid_utf8(b@.take(f.valid_up_to as int)),
        r matches Err(f) ==> forall|k: int|
            f.valid_up_to < k <= b@.len() ==> !valid_utf8(#[trigger] b@.take(k)),
        r matches Err(f) ==> (f.error_len matches Some(n) ==> 1 <= n && f.valid_up_to + n <= b@.len()),
{
    match std::str::from_utf8(b) {
        Ok(s) => Ok(s),
        Err(e) => Err(Utf8Failure { valid_up_to: e.valid_up_to(), error_len: e.error_len().map(|n| n as u8) }),
    }
}

/// `String::from_utf8_lossy(..).into_owned()`: claims the result is the named
/// lossy text, equals the strict decoding whenever that exists, holds the
/// replacement character U+FFFD (put for each invalid sequence) otherwise,
/// and is the bytes' own characters for ASCII input.
#[verifier::external_body]
pub(crate) fn string_from_utf8_lossy(b: &[u8]) -> (r: String)
    ensures
        r@ == utf8_lossy(b@),
        valid_utf8(b@) ==> r@ == decode_utf8(b@),
        !valid_utf8(b@) ==> r@.contains('\u{FFFD}'),
        is_ascii_bytes(b@) ==> r@ == ascii_chars(b@),
{
    String::from_utf8_lossy(b).into_owned()
}

} // verus!
