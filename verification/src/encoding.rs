//! Text encodings of byte strings: Base58 for keys and addresses, Base64 for
//! signatures and instruction payloads. The encodings themselves are computed
//! by the `bs58` and `base64` crates; this module gives their results a name
//! so that the rest of the library can state what it puts into a response.

use vstd::prelude::*;

verus! {

/// The Base58 text (Bitcoin alphabet, no checksum) that `bs58` writes for `bytes`.
pub uninterp spec fn base58_encode(bytes: Seq<u8>) -> Seq<char>;

/// The bytes that `bs58` reads from `text`, or `None` where it rejects the text.
pub uninterp spec fn base58_decode(text: Seq<char>) -> Option<Seq<u8>>;

/// The padded, standard-alphabet Base64 text that `base64` writes for `bytes`.
pub uninterp spec fn base64_encode(bytes: Seq<u8>) -> Seq<char>;

/// The bytes that `base64` reads from `text`, or `None` where it rejects the text.
pub uninterp spec fn base64_decode(text: Seq<char>) -> Option<Seq<u8>>;

/// Longest input the encoders are asked to handle: the length of the text they
/// produce must itself fit in a `usize`.
pub open spec fn encodable(bytes: Seq<u8>) -> bool {
    bytes.len() <= usize::MAX / 2
}

/// The error with which `bs58` rejects a text. Nothing is read from a value.
#[verifier::external_type_specification]
#[verifier::external_body]
pub struct ExBase58DecodeError(bs58::decode::Error);

/// The error with which `base64` rejects a text. Nothing is read from a value.
#[verifier::external_type_specification]
#[verifier::external_body]
pub struct ExBase64DecodeError(base64::DecodeError);

/// Calls `bs58::encode(..).into_string()`. Trusted: the text returned is the
/// Base58 encoding of `bytes`, a function of the bytes alone. The length bound
/// keeps the crate's buffer-size arithmetic from overflowing.
#[verifier::external_body]
pub(crate) fn encode_base58(bytes: &[u8]) -> (text: String)
    requires
        encodable(bytes@),
    ensures
        text@ == base58_encode(bytes@),
{
    bs58::encode(bytes).into_string()
}

/// Calls `bs58::decode(..).into_vec()`. Trusted: the outcome is a function of
/// the text alone; `Ok` carries the decoded bytes and `Err` means the text is
/// not Base58.
#[verifier::external_body]
pub(crate) fn decode_base58(text: &str) -> (decoded: Result<Vec<u8>, bs58::decode::Error>)
    ensures
        match decoded {
            Ok(bytes) => base58_decode(text@) == Some(bytes@),
            Err(_) => base58_decode(text@) is None,
        },
{
    bs58::decode(text).into_vec()
}

/// Calls `base64::encode`. Trusted: the text returned is the Base64 encoding
/// of `bytes`, a function of the bytes alone. The length bound keeps the
/// crate's buffer-size arithmetic from overflowing, on which it would panic.
#[verifier::external_body]
pub(crate) fn encode_base64(bytes: &[u8]) -> (text: String)
    requires
        encodable(bytes@),
    ensures
        text@ == base64_encode(bytes@),
{
    #[allow(deprecated)]
    base64::encode(bytes)
}

/// Calls `base64::decode`. Trusted: the outcome is a function of the text
/// alone; `Ok` carries the decoded bytes and `Err` means the text is not
/// canonical padded Base64.
#[verifier::external_body]
pub(crate) fn decode_base64(text: &str) -> (decoded: Result<Vec<u8>, base64::DecodeError>)
    ensures
        match decoded {
            Ok(bytes) => base64_decode(text@) == Some(bytes@),
            Err(_) => base64_decode(text@) is None,
        },
{
    #[allow(deprecated)]
    base64::decode(text)
}

} // verus!
