//! Transport descriptions as text that survives copy and paste.
//!
//! A peer's transport description is text with line breaks and quotes. On
//! its way through the rendezvous server, and where a user carries it by
//! hand, it travels as base64 of its UTF-8 bytes.
use base64::engine::general_purpose::STANDARD;
use base64::Engine;
use vstd::prelude::*;
use vstd::utf8::{decode_utf8, encode_utf8, valid_utf8};
use vstd::utf8::{encode_utf8_decode_utf8, encode_utf8_valid_utf8};

verus! {

/// The base64 text of `bytes`, in the standard alphabet, padded.
pub uninterp spec fn base64_text(bytes: Seq<u8>) -> Seq<char>;

/// The bytes that `text` is the base64 of, in the standard alphabet,
/// padded; `None` where it is no base64.
pub uninterp spec fn base64_bytes(text: Seq<char>) -> Option<Seq<u8>>;

/// Why a text is no encoded description.
#[derive(Debug, Clone, Copy, PartialEq, Eq, Structural)]
pub enum SignalError {
    /// The text is no base64.
    Base64,
    /// The bytes are no UTF-8.
    Utf8,
}

/// The lengths, in bytes, of the descriptions that can be encoded on this
/// machine: the encoded text, a third longer, must fit in memory.
pub open spec fn encodable_len(len: nat) -> bool {
    len < isize::MAX / 2
}

/// Encodes with `Engine::encode` of base64's `STANDARD` engine. The result
/// is the named text, and it decodes to the bytes it was made of.
#[verifier::external_body]
fn base64_encode(bytes: &[u8]) -> (r: String)
    requires
        encodable_len(bytes@.len()),
    ensures
        r@ == base64_text(bytes@),
        base64_bytes(r@) == Some(bytes@),
{
    STANDARD.encode(bytes)
}

/// Decodes with `Engine::decode` of base64's `STANDARD` engine. The result
/// is the named bytes, absent where the text is no base64.
#[verifier::external_body]
fn base64_decode(text: &str) -> (r: Option<Vec<u8>>)
    ensures
        r is Some <==> base64_bytes(text@) is Some,
        r matches Some(b) ==> base64_bytes(text@) == Some(b@),
{
    STANDARD.decode(text).ok()
}

/// What an encoded description decodes to.
pub open spec fn decoded(text: Seq<char>) -> Result<Seq<char>, SignalError> {
    match base64_bytes(text) {
        None => Err(SignalError::Base64),
        Some(bytes) => if valid_utf8(bytes) {
            Ok(decode_utf8(bytes))
        } else {
            Err(SignalError::Utf8)
        },
    }
}

/// Whether a description of this length in bytes can be encoded on this
/// machine.
pub fn can_encode(len: usize) -> (r: bool)
    ensures
        r == encodable_len(len as nat),
{
    len < isize::MAX as usize / 2
}

/// Encodes a description: the base64 of its UTF-8 bytes. The result decodes
/// to the description.
pub fn encode(b: &str) -> (r: String)
    requires
        encodable_len(encode_utf8(b@).len()),
    ensures
        r@ == base64_text(encode_utf8(b@)),
        decoded(r@) == Ok::<Seq<char>, SignalError>(b@),
{
    proof {
        encode_utf8_valid_utf8(b@);
        encode_utf8_decode_utf8(b@);
    }
    base64_encode(b.as_bytes())
}

/// Encodes a description where its length allows; `None` where it does not.
pub fn try_encode(b: &str) -> (r: Option<String>)
    ensures
        r is Some <==> encodable_len(encode_utf8(b@).len()),
        r matches Some(text) ==> text@ == base64_text(encode_utf8(b@)) && decoded(text@) == Ok::<
            Seq<char>,
            SignalError,
        >(b@),
{
    let bytes = b.as_bytes();
    if can_encode(bytes.len()) {
        Some(encode(b))
    } else {
        None
    }
}

/// Decodes a description.
pub fn decode(s: &str) -> (r: Result<String, SignalError>)
    ensures
        match decoded(s@) {
            Ok(text) => r matches Ok(t) && t@ == text,
            Err(e) => r matches Err(f) && f == e,
        },
{
    match base64_decode(s) {
        None => Err(SignalError::Base64),
        Some(bytes) => match crate::wire::text_from_utf8(bytes) {
            Some(text) => Ok(text),
            None => Err(SignalError::Utf8),
        },
    }
}

} // verus!
