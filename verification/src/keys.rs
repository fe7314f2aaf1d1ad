//! Ed25519 keys and signatures, held as plain byte strings.
//!
//! An address (public key) is 32 bytes, a signature 64 bytes, and a keypair
//! the 32 secret bytes followed by the 32 bytes of its public key. Parsing,
//! signing and verification are done by `solana_sdk`; what they return is
//! either stated outright or given a name below.

use crate::encoding::{base58_decode, decode_base58};
use crate::response_types::ErrorResponse;
use solana_sdk::pubkey::Pubkey;
use solana_sdk::signature::{Keypair, Signature};
use solana_sdk::signer::Signer;
use vstd::prelude::*;
use vstd::string::StringExecFns;

verus! {

/// Number of bytes in an address.
pub const PUBKEY_BYTES: usize = 32;

/// Number of bytes in a signature.
pub const SIGNATURE_BYTES: usize = 64;

/// Number of bytes in a keypair.
pub const KEYPAIR_BYTES: usize = 64;

/// Whether `solana_sdk` accepts `bytes` as a keypair: they are 64 bytes whose
/// second half is the public key that belongs to the first half.
pub uninterp spec fn keypair_accepts(bytes: Seq<u8>) -> bool;

/// The Ed25519 signature that the keypair `keypair` puts on `message`.
pub uninterp spec fn ed25519_signature(keypair: Seq<u8>, message: Seq<u8>) -> Seq<u8>;

/// Whether `signature` is a valid Ed25519 signature of `message` under the
/// public key `pubkey`, by the strict verification rules.
pub uninterp spec fn ed25519_verifies(signature: Seq<u8>, pubkey: Seq<u8>, message: Seq<u8>) -> bool;

/// Calls `Pubkey::try_from` on a byte slice. Trusted: it succeeds exactly on
/// slices of 32 bytes and keeps those bytes.
#[verifier::external_body]
pub(crate) fn pubkey_from_slice(bytes: &[u8]) -> (pubkey: Option<[u8; 32]>)
    ensures
        pubkey is Some <==> bytes@.len() == PUBKEY_BYTES,
        pubkey matches Some(key) ==> key@ == bytes@,
{
    match Pubkey::try_from(bytes) {
        Ok(key) => Some(key.to_bytes()),
        Err(_) => None,
    }
}

/// Calls `Signature::try_from` on a byte slice. Trusted: it succeeds exactly
/// on slices of 64 bytes and keeps those bytes.
#[verifier::external_body]
pub(crate) fn signature_from_slice(bytes: &[u8]) -> (signature: Option<[u8; 64]>)
    ensures
        signature is Some <==> bytes@.len() == SIGNATURE_BYTES,
        signature matches Some(sig) ==> sig@ == bytes@,
{
    match Signature::try_from(bytes) {
        Ok(sig) => Some(sig.into()),
        Err(_) => None,
    }
}

/// Calls `Signature::verify`. Trusted: the answer is a function of the three
/// byte strings alone. A public key that is no curve point verifies nothing.
#[verifier::external_body]
pub(crate) fn signature_verify(
    signature: &[u8; 64],
    pubkey: &[u8; 32],
    message: &[u8],
) -> (valid: bool)
    ensures
        valid == ed25519_verifies(signature@, pubkey@, message@),
{
    Signature::from(*signature).verify(pubkey, message)
}

/// Calls `Keypair::from_bytes` and, where it succeeds, `Signer::pubkey`.
/// Trusted: acceptance is a function of the bytes alone; accepted bytes are 64
/// long, and the public key of the keypair is their second half.
#[verifier::external_body]
pub(crate) fn keypair_pubkey(keypair: &[u8]) -> (pubkey: Option<[u8; 32]>)
    ensures
        pubkey is Some <==> keypair_accepts(keypair@),
        pubkey matches Some(key) ==> keypair@.len() == KEYPAIR_BYTES,
        pubkey matches Some(key) ==> key@ == keypair@.subrange(32, 64),
{
    match Keypair::from_bytes(keypair) {
        Ok(pair) => Some(pair.pubkey().to_bytes()),
        Err(_) => None,
    }
}

/// Calls `Keypair::from_bytes` and, where it succeeds, `Signer::sign_message`.
/// Trusted: Ed25519 signing is deterministic, so the signature is a function of
/// keypair and message alone.
#[verifier::external_body]
pub(crate) fn keypair_sign(keypair: &[u8], message: &[u8]) -> (signature: Option<[u8; 64]>)
    ensures
        signature is Some <==> keypair_accepts(keypair@),
        signature matches Some(sig) ==> sig@ == ed25519_signature(keypair@, message@),
{
    match Keypair::from_bytes(keypair) {
        Ok(pair) => Some(pair.sign_message(message).into()),
        Err(_) => None,
    }
}

/// Calls `Keypair::new` and `Keypair::to_bytes`. The keypair is drawn from the
/// operating system's random source, so nothing is said of which bytes come
/// back. Trusted: whatever they are, `Keypair::from_bytes` accepts them. The
/// call presumes that the operating system has a random source to read.
#[verifier::external_body]
pub(crate) fn fresh_keypair() -> (keypair: Vec<u8>)
    ensures
        keypair_accepts(keypair@),
{
    Keypair::new().to_bytes().to_vec()
}

/// Whether two addresses hold the same bytes.
pub fn same_address(left: &[u8; 32], right: &[u8; 32]) -> (same: bool)
    ensures
        same == (left@ == right@),
{
    let mut i: usize = 0;
    while i < 32
        invariant
            i <= 32,
            forall|j: int| 0 <= j < i ==> left@[j] == right@[j],
        decreases 32 - i,
    {
        if left[i] != right[i] {
            return false;
        }
        i += 1;
    }
    assert(left@ =~= right@);
    true
}

/// A keypair that `solana_sdk` has accepted.
pub struct SigningKey {
    bytes: Vec<u8>,
    public: [u8; 32],
}

impl View for SigningKey {
    type V = Seq<u8>;

    /// The 64 bytes of the keypair.
    closed spec fn view(&self) -> Seq<u8> {
        self.bytes@
    }
}

impl SigningKey {
    #[verifier::type_invariant]
    spec fn valid(self) -> bool {
        &&& keypair_accepts(self.bytes@)
        &&& self.bytes@.len() == KEYPAIR_BYTES
        &&& self.public@ == self.bytes@.subrange(32, 64)
    }

    /// Takes `bytes` as a keypair if `solana_sdk` accepts them.
    pub fn from_bytes(bytes: Vec<u8>) -> (key: Option<SigningKey>)
        ensures
            key is Some <==> keypair_accepts(bytes@),
            key matches Some(k) ==> k@ == bytes@,
    {
        match keypair_pubkey(bytes.as_slice()) {
            Some(public) => Some(SigningKey { bytes, public }),
            None => None,
        }
    }

    /// The keypair's bytes: secret half, then public half.
    pub fn to_bytes(&self) -> (bytes: &Vec<u8>)
        ensures
            bytes@ == self@,
            bytes@.len() == KEYPAIR_BYTES,
            keypair_accepts(bytes@),
    {
        proof {
            use_type_invariant(self);
        }
        &self.bytes
    }

    /// The address of this keypair: the second half of its bytes.
    pub fn pubkey(&self) -> (public: [u8; 32])
        ensures
            public@ == self@.subrange(32, 64),
    {
        proof {
            use_type_invariant(self);
        }
        self.public
    }

    /// Signs `message` with this keypair.
    pub fn sign_message(&self, message: &[u8]) -> (signature: [u8; 64])
        ensures
            signature@ == ed25519_signature(self@, message@),
    {
        proof {
            use_type_invariant(self);
        }
        match keypair_sign(self.bytes.as_slice(), message) {
            Some(signature) => signature,
            None => unreached(),
        }
    }
}

/// Whether `key` is Base58 text for exactly 32 bytes.
pub open spec fn is_pubkey_text(key: Seq<char>) -> bool {
    base58_decode(key) matches Some(bytes) && bytes.len() == PUBKEY_BYTES
}

/// The address that the text given for `field_name` spells, or why the text
/// is refused: it must be Base58 and decode to exactly 32 bytes.
pub open spec fn parse_pubkey(key: Seq<char>, field_name: Seq<char>) -> Result<
    Seq<u8>,
    Seq<char>,
> {
    match base58_decode(key) {
        None => Err("Invalid base58 encoding for "@ + field_name),
        Some(bytes) => if bytes.len() == PUBKEY_BYTES {
            Ok(bytes)
        } else {
            Err("Invalid public key format for "@ + field_name)
        },
    }
}

/// A text is refused as an address, whatever the field, exactly when it is not
/// Base58 for 32 bytes.
pub proof fn lemma_pubkey_accepted_iff_well_formed(key: Seq<char>, field_name: Seq<char>)
    ensures
        parse_pubkey(key, field_name) is Ok <==> is_pubkey_text(key),
        parse_pubkey(key, field_name) matches Ok(bytes) ==> base58_decode(key) == Some(bytes),
{
}

/// Reads the address given for `field_name` from its Base58 text. The text is
/// refused if it is not Base58 or does not decode to exactly 32 bytes; the
/// error names the field.
pub fn validate_pubkey(key: &str, field_name: &str) -> (result: Result<[u8; 32], ErrorResponse>)
    ensures
        match result {
            Ok(pubkey) => parse_pubkey(key@, field_name@) == Ok::<Seq<u8>, Seq<char>>(pubkey@),
            Err(error) => !error.success && parse_pubkey(key@, field_name@) == Err::<
                Seq<u8>,
                Seq<char>,
            >(error.error@),
        },
{
    match decode_base58(key) {
        Ok(bytes) => match pubkey_from_slice(bytes.as_slice()) {
            Some(pubkey) => Ok(pubkey),
            None => {
                let text = String::from_str("Invalid public key format for ").concat(field_name);
                Err(ErrorResponse::new(text.as_str()))
            },
        },
        Err(_) => {
            let text = String::from_str("Invalid base58 encoding for ").concat(field_name);
            Err(ErrorResponse::new(text.as_str()))
        },
    }
}

/// Draws a new random keypair.
pub fn generate_signing_key() -> (key: SigningKey)
    ensures
        keypair_accepts(key@),
{
    match SigningKey::from_bytes(fresh_keypair()) {
        Some(key) => key,
        None => unreached(),
    }
}

} // verus!
