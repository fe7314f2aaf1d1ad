//! Generating a keypair and handing it out as Base58 text.

use crate::encoding::{base58_encode, encode_base58};
use crate::keys::{generate_signing_key, keypair_accepts, SigningKey};
use crate::response_types::{outcome, well_formed, ErrorResponse, SuccessResponse};
use vstd::prelude::*;

verus! {

/// A keypair: its public key, and all 64 of its bytes, each in Base58.
pub struct KeypairResponse {
    pub pubkey: String,
    pub secret: String,
}

/// What a `KeypairResponse` says.
pub struct KeypairView {
    pub pubkey: Seq<char>,
    pub secret: Seq<char>,
}

impl View for KeypairResponse {
    type V = KeypairView;

    open spec fn view(&self) -> KeypairView {
        KeypairView { pubkey: self.pubkey@, secret: self.secret@ }
    }
}

/// How the keypair of bytes `keypair` is handed out: the second half of the
/// bytes is its public key.
pub open spec fn keypair_text(keypair: Seq<u8>) -> KeypairView {
    KeypairView {
        pubkey: base58_encode(keypair.subrange(32, 64)),
        secret: base58_encode(keypair),
    }
}

/// Writes `key` out as Base58 text.
pub fn describe_keypair(key: &SigningKey) -> (response: KeypairResponse)
    ensures
        response@ == keypair_text(key@),
{
    let public = key.pubkey();
    KeypairResponse {
        pubkey: encode_base58(public.as_slice()),
        secret: encode_base58(key.to_bytes().as_slice()),
    }
}

/// Generates a new random keypair and answers with it as Base58 text.
///
/// Always succeeds. Which keypair comes back is left to chance; whichever it
/// is, the answer spells its bytes, and they are a keypair that
/// `validate_secret_key` accepts.
pub fn generate_keypair() -> (result: Result<SuccessResponse<KeypairResponse>, ErrorResponse>)
    ensures
        well_formed(result),
        exists|keypair: Seq<u8>|
            keypair_accepts(keypair) && outcome(result) == Ok::<_, Seq<char>>(
                keypair_text(keypair),
            ),
{
    let key = generate_signing_key();
    let response = describe_keypair(&key);
    assert(keypair_accepts(key@) && response@ == keypair_text(key@));
    Ok(SuccessResponse::new(response))
}

} // verus!
