//! The encodings that requests and replies are written in: percent-encoding
//! of a path inside a URL, and base64 for the content of a file.

use base64::Engine;
use vstd::prelude::*;
use vstd::utf8::{decode_utf8, encode_utf8, valid_utf8};

verus! {

/// Whether the byte stands for itself inside a URL: an ASCII letter or digit,
/// or one of `-`, `.`, `_`, `~`.
pub open spec fn is_unreserved(b: u8) -> bool {
    ||| 0x30 <= b <= 0x39
    ||| 0x41 <= b <= 0x5a
    ||| 0x61 <= b <= 0x7a
    ||| b == 0x2d
    ||| b == 0x2e
    ||| b == 0x5f
    ||| b == 0x7e
}

/// The upper-case hexadecimal digit for `v`, which is below 16.
pub open spec fn hex_digit(v: u8) -> char {
    if v < 10 {
        (0x30 + v) as char
    } else {
        (0x41 + (v - 10)) as char
    }
}

/// How one byte is written inside a URL: as itself if it is unreserved, else
/// as `%` and its two hexadecimal digits.
pub open spec fn percent_encoded_byte(b: u8) -> Seq<char> {
    if is_unreserved(b) {
        seq![b as char]
    } else {
        seq!['%', hex_digit(b / 16), hex_digit(b % 16)]
    }
}

/// The percent-encoding of `bytes`: the encodings of its bytes, in order.
pub open spec fn percent_encoded(bytes: Seq<u8>) -> Seq<char> {
    bytes.map_values(|b: u8| percent_encoded_byte(b)).flatten()
}

/// How `s` is written as one segment of a URL: the percent-encoding of its
/// UTF-8 bytes.
pub open spec fn url_encoded(s: Seq<char>) -> Seq<char> {
    percent_encoded(encode_utf8(s))
}

/// `urlencoding::encode`: every byte of the UTF-8 form of `s` is kept if it is
/// an ASCII letter or digit or one of `-`, `.`, `_`, `~`, and otherwise
/// replaced by `%` and its two upper-case hexadecimal digits.
#[verifier::external_body]
pub(crate) fn url_encode(s: &str) -> (encoded: String)
    ensures
        encoded@ == url_encoded(s@),
{
    urlencoding::encode(s).into_owned()
}

/// The base64 form of `bytes` in the standard alphabet, with padding.
pub uninterp spec fn base64_standard(bytes: Seq<u8>) -> Seq<char>;

/// The bytes that `text` stands for in base64 (standard alphabet, canonical
/// padding), or nothing if it is no such encoding.
pub uninterp spec fn base64_standard_decoded(text: Seq<u8>) -> Option<Seq<u8>>;

/// Whether the length of the base64 form of `len` bytes fits the machine:
/// four characters for every three bytes, the last group padded.
pub open spec fn base64_fits(len: nat) -> bool {
    (len / 3) * 4 + (if len % 3 > 0 {
        4nat
    } else {
        0nat
    }) <= usize::MAX
}

/// `Engine::encode` of `base64::engine::general_purpose::STANDARD`: the result
/// is a function of the bytes alone. The call panics when the length of the
/// result cannot be held, which the precondition leaves out.
#[verifier::external_body]
pub(crate) fn base64_encode(content: &str) -> (encoded: String)
    requires
        base64_fits(encode_utf8(content@).len()),
    ensures
        encoded@ == base64_standard(encode_utf8(content@)),
{
    base64::engine::general_purpose::STANDARD.encode(content.as_bytes())
}

/// `base64::DecodeError`, why a text is no base64: carried, never looked into.
#[verifier::external_type_specification]
#[verifier::external_body]
pub struct ExDecodeError(base64::DecodeError);

/// `Engine::decode` of `base64::engine::general_purpose::STANDARD`: whether
/// the text is accepted, and the bytes it gives, depend on the text alone.
#[verifier::external_body]
pub(crate) fn base64_decode(text: &str) -> (decoded: Result<Vec<u8>, base64::DecodeError>)
    ensures
        match base64_standard_decoded(encode_utf8(text@)) {
            Some(bytes) => decoded is Ok && decoded->Ok_0@ == bytes,
            None => decoded is Err,
        },
{
    base64::engine::general_purpose::STANDARD.decode(text)
}

/// `std::string::FromUtf8Error`, why bytes are no text: carried, never
/// looked into.
#[verifier::external_type_specification]
#[verifier::external_body]
pub struct ExFromUtf8Error(std::string::FromUtf8Error);

/// `String::from_utf8`: succeeds exactly on valid UTF-8, and then gives the
/// text that the bytes encode.
#[verifier::external_body]
pub(crate) fn utf8_text(bytes: Vec<u8>) -> (text: Result<String, std::string::FromUtf8Error>)
    ensures
        text is Ok <==> valid_utf8(bytes@),
        text is Ok ==> text->Ok_0@ == decode_utf8(bytes@),
{
    String::from_utf8(bytes)
}

} // verus!
