use vstd::prelude::*;
use vstd::string::*;
use vstd::utf8::*;

verus! {

/// The standard padded base64 text that `base64::encode` writes for bytes.
pub uninterp spec fn base64_text(bytes: Seq<u8>) -> Seq<char>;

/// What `base64::decode` makes of a text: the bytes, or none where the text
/// is not base64.
pub uninterp spec fn base64_decoded(text: Seq<char>) -> Option<Seq<u8>>;

/// Whether `base64::encode` can size its output for `len` bytes of input.
pub open spec fn base64_encodable(len: nat) -> bool {
    (len / 3 + 1) * 4 <= usize::MAX
}

/// Calls `base64::encode`. The text depends on the bytes alone, and
/// `base64::decode` gives the bytes back from it. The call panics where the
/// length of its output does not fit `usize`, which `requires` leaves out.
#[verifier::external_body]
pub(crate) fn encode_base64(bytes: &[u8]) -> (r: String)
    requires
        base64_encodable(bytes@.len()),
    ensures
        r@ == base64_text(bytes@),
        base64_decoded(r@) == Some(bytes@),
{
    base64::encode(bytes)
}

/// Calls `base64::decode`. The outcome depends on the text alone. The call
/// panics where the text's length plus 7 does not fit `usize`, which
/// `requires` leaves out.
#[verifier::external_body]
pub(crate) fn decode_base64(text: &str) -> (r: Option<Vec<u8>>)
    requires
        text.spec_bytes().len() + 7 <= usize::MAX,
    ensures
        match r {
            Some(bytes) => base64_decoded(text@) == Some(bytes@),
            None => base64_decoded(text@) is None,
        },
{
    match base64::decode(text) {
        Ok(bytes) => Some(bytes),
        Err(_) => None,
    }
}

/// Calls `String::from_utf8`: the text that the bytes encode, or none where
/// they are not valid UTF-8.
#[verifier::external_body]
pub(crate) fn text_from_utf8(bytes: Vec<u8>) -> (r: Option<String>)
    ensures
        match r {
            Some(text) => valid_utf8(bytes@) && text@ == decode_utf8(bytes@),
            None => !valid_utf8(bytes@),
        },
{
    match String::from_utf8(bytes) {
        Ok(text) => Some(text),
        Err(_) => None,
    }
}

/// Whether a text of these characters can be written as base64.
pub open spec fn text_encodable(text: Seq<char>) -> bool {
    base64_encodable(encode_utf8(text).len())
}

/// The base64 text of a text's UTF-8 bytes.
pub open spec fn armored(text: Seq<char>) -> Seq<char> {
    base64_text(encode_utf8(text))
}

/// The text whose UTF-8 bytes a base64 text holds, if it holds any.
pub open spec fn unarmored(token: Seq<char>) -> Option<Seq<char>> {
    match base64_decoded(token) {
        Some(bytes) => if valid_utf8(bytes) {
            Some(decode_utf8(bytes))
        } else {
            None
        },
        None => None,
    }
}

/// Writes a text as the base64 of its UTF-8 bytes, unless it is too long for
/// the encoder. What comes out reads back as the text.
pub fn armor(text: &str) -> (r: Option<String>)
    ensures
        match r {
            Some(token) => text_encodable(text@) && token@ == armored(text@) && unarmored(token@)
                == Some(text@),
            None => !text_encodable(text@),
        },
{
    let bytes = text.as_bytes();
    if bytes.len() / 3 >= usize::MAX / 4 {
        return None;
    }
    proof {
        encode_utf8_valid_utf8(text@);
        encode_utf8_decode_utf8(text@);
    }
    Some(encode_base64(bytes))
}

/// Reads the text that a base64 token holds: none where the token is not
/// base64 or its bytes are not UTF-8.
pub fn unarmor(token: &str) -> (r: Option<String>)
    ensures
        match r {
            Some(text) => decodable_length(token@) && unarmored(token@) == Some(text@),
            None => !decodable_length(token@) || unarmored(token@) is None,
        },
{
    if token.as_bytes().len() > usize::MAX - 7 {
        return None;
    }
    match decode_base64(token) {
        Some(bytes) => text_from_utf8(bytes),
        None => None,
    }
}

/// Writes bytes as base64, unless they are too many for the encoder.
pub fn encode_bytes(bytes: &[u8]) -> (r: Option<String>)
    ensures
        match r {
            Some(text) => base64_encodable(bytes@.len()) && text@ == base64_text(bytes@)
                && base64_decoded(text@) == Some(bytes@),
            None => !base64_encodable(bytes@.len()),
        },
{
    if bytes.len() / 3 >= usize::MAX / 4 {
        return None;
    }
    Some(encode_base64(bytes))
}

/// Whether a text is short enough for the decoder to take.
pub open spec fn decodable_length(text: Seq<char>) -> bool {
    encode_utf8(text).len() + 7 <= usize::MAX
}

/// Reads the bytes that a base64 text holds: none where the text is not
/// base64, or too long for the decoder.
pub fn decode_bytes(text: &str) -> (r: Option<Vec<u8>>)
    ensures
        match r {
            Some(bytes) => decodable_length(text@) && base64_decoded(text@) == Some(bytes@),
            None => !decodable_length(text@) || base64_decoded(text@) is None,
        },
{
    if text.as_bytes().len() > usize::MAX - 7 {
        return None;
    }
    decode_base64(text)
}

} // verus!
