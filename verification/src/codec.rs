use vstd::prelude::*;
use crate::errors::ApiError;

verus! {

/// The base-58 text that `bs58::encode` produces for a byte sequence.
/// The result is a function of the bytes alone; only the name is stated
/// here, and the trusted wrappers below relate it to `base58_bytes`.
pub uninterp spec fn base58_of(bytes: Seq<u8>) -> Seq<char>;

/// The outcome of `bs58::decode` on a piece of text: the decoded bytes,
/// or `None` where the text is not valid base-58.
pub uninterp spec fn base58_bytes(text: Seq<char>) -> Option<Seq<u8>>;

/// The base-64 text (standard alphabet, padded) that `base64`'s
/// `STANDARD` engine produces for a byte sequence.
pub uninterp spec fn base64_of(bytes: Seq<u8>) -> Seq<char>;

/// The outcome of the `STANDARD` engine's decode on a piece of text:
/// the decoded bytes, or `None` where the text is malformed.
pub uninterp spec fn base64_bytes(text: Seq<char>) -> Option<Seq<u8>>;

/// Relies on `bs58::encode`: a deterministic base-58 rendering of the
/// input bytes, empty exactly for empty input, which `bs58::decode`
/// maps back to the input.
#[verifier::external_body]
pub(crate) fn encode_base58(bytes: &Vec<u8>) -> (r: String)
    ensures
        r@ == base58_of(bytes@),
        base58_bytes(r@) == Some(bytes@),
        (r@.len() == 0) == (bytes@.len() == 0),
{
    bs58::encode(bytes.as_slice()).into_string()
}

/// Relies on `bs58::decode`: returns the decoded bytes, and fails
/// exactly on text that is not valid base-58.
#[verifier::external_body]
pub(crate) fn decode_base58(text: &str) -> (r: Result<Vec<u8>, ()>)
    ensures
        match r {
            Ok(v) => base58_bytes(text@) == Some(v@),
            Err(()) => base58_bytes(text@) is None,
        },
{
    match bs58::decode(text).into_vec() {
        Ok(v) => Ok(v),
        Err(_) => Err(()),
    }
}

/// Relies on the `STANDARD` engine's `encode`: a deterministic padded
/// base-64 rendering, four characters for every started group of three
/// bytes, which the same engine's `decode` maps back to the input.
#[verifier::external_body]
pub(crate) fn encode_base64(bytes: &Vec<u8>) -> (r: String)
    ensures
        r@ == base64_of(bytes@),
        base64_bytes(r@) == Some(bytes@),
        r@.len() == 4 * ((bytes@.len() + 2) / 3),
{
    base64::Engine::encode(&base64::engine::general_purpose::STANDARD, bytes.as_slice())
}

/// Relies on the `STANDARD` engine's `decode`: returns the decoded
/// bytes, and fails exactly on malformed base-64 text, malformed
/// padding included.
#[verifier::external_body]
pub(crate) fn decode_base64(text: &str) -> (r: Result<Vec<u8>, ()>)
    ensures
        match r {
            Ok(v) => base64_bytes(text@) == Some(v@),
            Err(()) => base64_bytes(text@) is None,
        },
{
    match base64::Engine::decode(&base64::engine::general_purpose::STANDARD, text) {
        Ok(v) => Ok(v),
        Err(_) => Err(()),
    }
}

/// Law: decoding the base-58 encoding of any byte sequence yields the
/// bytes back unchanged.
pub fn base58_round_trip(bytes: &Vec<u8>) -> (r: Vec<u8>)
    ensures
        r@ == bytes@,
{
    let text = encode_base58(bytes);
    match decode_base58(text.as_str()) {
        Ok(v) => v,
        Err(()) => {
            proof {
                assert(false);
            }
            Vec::new()
        },
    }
}

/// Law: decoding the base-64 encoding of any byte sequence yields the
/// bytes back unchanged.
pub fn base64_round_trip(bytes: &Vec<u8>) -> (r: Vec<u8>)
    ensures
        r@ == bytes@,
{
    let text = encode_base64(bytes);
    match decode_base64(text.as_str()) {
        Ok(v) => v,
        Err(()) => {
            proof {
                assert(false);
            }
            Vec::new()
        },
    }
}

/// Checks that a byte buffer has exactly the length a key or signature
/// role requires; any mismatch is a validation failure, never a silent
/// truncation or padding.
pub fn validate_length(bytes: &Vec<u8>, expected: usize) -> (r: Result<(), ApiError>)
    ensures
        r is Ok <==> bytes@.len() == expected,
        r is Err ==> r == Err::<(), ApiError>(ApiError::InvalidLength),
{
    if bytes.len() == expected {
        Ok(())
    } else {
        Err(ApiError::InvalidLength)
    }
}

} // verus!
