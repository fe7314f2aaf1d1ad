//! Signing a message with a keypair and checking a signature against a public
//! key. Keys travel as Base58 text, signatures as Base64 text, and a message
//! is signed as its UTF-8 bytes.

use crate::encoding::{
    base58_decode, base58_encode, base64_decode, base64_encode, decode_base58, decode_base64,
    encode_base58, encode_base64,
};
use crate::keys::{
    ed25519_signature, ed25519_verifies, keypair_accepts, pubkey_from_slice, signature_from_slice,
    signature_verify, SigningKey, PUBKEY_BYTES, SIGNATURE_BYTES,
};
use crate::response_types::{outcome, well_formed, ErrorResponse, SuccessResponse};
use vstd::prelude::*;
use vstd::utf8::encode_utf8;

verus! {

/// A message to sign and the Base58 keypair to sign it with.
pub struct SignMessageRequest {
    pub message: String,
    pub secret: String,
}

/// A message, a Base64 signature and the Base58 public key to check it under.
pub struct VerifyMessageRequest {
    pub message: String,
    pub signature: String,
    pub pubkey: String,
}

/// The signature in Base64, the signer's public key in Base58 and the message.
pub struct SignMessageResponse {
    pub signature: String,
    pub public_key: String,
    pub message: String,
}

/// Whether the signature holds, with the message and public key as given.
pub struct VerifyMessageResponse {
    pub valid: bool,
    pub message: String,
    pub pubkey: String,
}

/// What a `SignMessageResponse` says.
pub struct SignMessageView {
    pub signature: Seq<char>,
    pub public_key: Seq<char>,
    pub message: Seq<char>,
}

/// What a `VerifyMessageResponse` says.
pub struct VerifyMessageView {
    pub valid: bool,
    pub message: Seq<char>,
    pub pubkey: Seq<char>,
}

impl View for SignMessageResponse {
    type V = SignMessageView;

    open spec fn view(&self) -> SignMessageView {
        SignMessageView {
            signature: self.signature@,
            public_key: self.public_key@,
            message: self.message@,
        }
    }
}

impl View for VerifyMessageResponse {
    type V = VerifyMessageView;

    open spec fn view(&self) -> VerifyMessageView {
        VerifyMessageView { valid: self.valid, message: self.message@, pubkey: self.pubkey@ }
    }
}

/// The keypair that `secret` spells, or why it is refused.
pub open spec fn parse_secret_key(secret: Seq<char>) -> Result<Seq<u8>, Seq<char>> {
    match base58_decode(secret) {
        None => Err("Invalid base58 encoding for secret key"@),
        Some(bytes) => if keypair_accepts(bytes) {
            Ok(bytes)
        } else {
            Err("Invalid secret key format"@)
        },
    }
}

/// The signature that `signature` spells, or why it is refused.
pub open spec fn parse_signature(signature: Seq<char>) -> Result<Seq<u8>, Seq<char>> {
    match base64_decode(signature) {
        None => Err("Invalid base64 encoding for signature"@),
        Some(bytes) => if bytes.len() == SIGNATURE_BYTES {
            Ok(bytes)
        } else {
            Err("Invalid signature format"@)
        },
    }
}

/// The public key that `pubkey` spells, or why it is refused.
pub open spec fn parse_public_key(pubkey: Seq<char>) -> Result<Seq<u8>, Seq<char>> {
    match base58_decode(pubkey) {
        None => Err("Invalid base58 encoding for public key"@),
        Some(bytes) => if bytes.len() == PUBKEY_BYTES {
            Ok(bytes)
        } else {
            Err("Invalid public key format"@)
        },
    }
}

/// What signing answers: the first failed check, or the signed message.
pub open spec fn sign_message_spec(request: SignMessageRequest) -> Result<
    SignMessageView,
    Seq<char>,
> {
    if request.message@.len() == 0 || request.secret@.len() == 0 {
        Err("Missing required fields"@)
    } else {
        match parse_secret_key(request.secret@) {
            Err(text) => Err(text),
            Ok(keypair) => Ok(
                SignMessageView {
                    signature: base64_encode(
                        ed25519_signature(keypair, encode_utf8(request.message@)),
                    ),
                    public_key: base58_encode(keypair.subrange(32, 64)),
                    message: request.message@,
                },
            ),
        }
    }
}

/// What verification answers: the first failed check, or the verdict.
pub open spec fn verify_message_spec(request: VerifyMessageRequest) -> Result<
    VerifyMessageView,
    Seq<char>,
> {
    if request.message@.len() == 0 || request.signature@.len() == 0 || request.pubkey@.len()
        == 0 {
        Err("Missing required fields"@)
    } else {
        match parse_signature(request.signature@) {
            Err(text) => Err(text),
            Ok(signature) => match parse_public_key(request.pubkey@) {
                Err(text) => Err(text),
                Ok(pubkey) => Ok(
                    VerifyMessageView {
                        valid: ed25519_verifies(signature, pubkey, encode_utf8(request.message@)),
                        message: request.message@,
                        pubkey: request.pubkey@,
                    },
                ),
            },
        }
    }
}

/// Signing succeeds exactly when neither field is empty and the secret is
/// Base58 for a keypair: a malformed secret is refused.
pub proof fn lemma_sign_message_succeeds_iff_valid(request: SignMessageRequest)
    ensures
        sign_message_spec(request) is Ok <==> {
            &&& request.message@.len() > 0
            &&& request.secret@.len() > 0
            &&& base58_decode(request.secret@) matches Some(bytes) && keypair_accepts(bytes)
        },
{
}

/// Verification answers with a verdict exactly when no field is empty, the
/// signature is Base64 for 64 bytes and the public key is Base58 for 32
/// bytes: a malformed signature or key is refused rather than judged invalid.
pub proof fn lemma_verify_message_succeeds_iff_valid(request: VerifyMessageRequest)
    ensures
        verify_message_spec(request) is Ok <==> {
            &&& request.message@.len() > 0
            &&& request.signature@.len() > 0
            &&& request.pubkey@.len() > 0
            &&& base64_decode(request.signature@) matches Some(bytes) && bytes.len()
                == SIGNATURE_BYTES
            &&& base58_decode(request.pubkey@) matches Some(bytes) && bytes.len() == PUBKEY_BYTES
        },
{
}

/// A successful answer hands the request's message back unchanged, and
/// verification the public key too.
pub proof fn lemma_message_is_echoed(sign: SignMessageRequest, verify: VerifyMessageRequest)
    ensures
        sign_message_spec(sign) matches Ok(signed) ==> signed.message == sign.message@,
        verify_message_spec(verify) matches Ok(verdict) ==> verdict.message == verify.message@
            && verdict.pubkey == verify.pubkey@,
{
}

/// Reads a keypair from its Base58 text.
pub fn validate_secret_key(secret: &str) -> (result: Result<SigningKey, ErrorResponse>)
    ensures
        match result {
            Ok(key) => parse_secret_key(secret@) == Ok::<Seq<u8>, Seq<char>>(key@),
            Err(error) => !error.success && parse_secret_key(secret@) == Err::<
                Seq<u8>,
                Seq<char>,
            >(error.error@),
        },
{
    match decode_base58(secret) {
        Ok(bytes) => match SigningKey::from_bytes(bytes) {
            Some(key) => Ok(key),
            None => Err(ErrorResponse::new("Invalid secret key format")),
        },
        Err(_) => Err(ErrorResponse::new("Invalid base58 encoding for secret key")),
    }
}

/// Refuses the empty message.
pub fn validate_message(message: &str) -> (result: Result<(), ErrorResponse>)
    ensures
        result is Ok <==> message@.len() > 0,
        result matches Err(error) ==> error.says("Message cannot be empty"@),
{
    if message.is_empty() {
        return Err(ErrorResponse::new("Message cannot be empty"));
    }
    Ok(())
}

/// Reads a signature from its Base64 text.
pub fn validate_signature(signature: &str) -> (result: Result<[u8; 64], ErrorResponse>)
    ensures
        match result {
            Ok(bytes) => parse_signature(signature@) == Ok::<Seq<u8>, Seq<char>>(bytes@),
            Err(error) => !error.success && parse_signature(signature@) == Err::<
                Seq<u8>,
                Seq<char>,
            >(error.error@),
        },
{
    match decode_base64(signature) {
        Ok(bytes) => match signature_from_slice(bytes.as_slice()) {
            Some(sig) => Ok(sig),
            None => Err(ErrorResponse::new("Invalid signature format")),
        },
        Err(_) => Err(ErrorResponse::new("Invalid base64 encoding for signature")),
    }
}

/// Reads a public key from its Base58 text.
pub fn validate_pubkey(pubkey: &str) -> (result: Result<[u8; 32], ErrorResponse>)
    ensures
        match result {
            Ok(bytes) => parse_public_key(pubkey@) == Ok::<Seq<u8>, Seq<char>>(bytes@),
            Err(error) => !error.success && parse_public_key(pubkey@) == Err::<
                Seq<u8>,
                Seq<char>,
            >(error.error@),
        },
{
    match decode_base58(pubkey) {
        Ok(bytes) => match pubkey_from_slice(bytes.as_slice()) {
            Some(key) => Ok(key),
            None => Err(ErrorResponse::new("Invalid public key format")),
        },
        Err(_) => Err(ErrorResponse::new("Invalid base58 encoding for public key")),
    }
}

/// Signs the request's message, as UTF-8 bytes, with the request's keypair.
///
/// Answers with the signature in Base64, the keypair's public key in Base58
/// and the message. Refuses a request with an empty field, a secret that is
/// not Base58, and bytes that are no keypair.
pub fn sign_message(request: SignMessageRequest) -> (result: Result<
    SuccessResponse<SignMessageResponse>,
    ErrorResponse,
>)
    ensures
        well_formed(result),
        outcome(result) == sign_message_spec(request),
{
    if request.message.as_str().is_empty() || request.secret.as_str().is_empty() {
        return Err(ErrorResponse::new("Missing required fields"));
    }
    match validate_message(request.message.as_str()) {
        Err(error) => {
            return Err(error);
        },
        Ok(_) => {},
    }
    let keypair = match validate_secret_key(request.secret.as_str()) {
        Err(error) => {
            return Err(error);
        },
        Ok(keypair) => keypair,
    };

    let signature = keypair.sign_message(request.message.as_str().as_bytes());
    let public_key = keypair.pubkey();

    let response = SignMessageResponse {
        signature: encode_base64(signature.as_slice()),
        public_key: encode_base58(public_key.as_slice()),
        message: request.message,
    };
    Ok(SuccessResponse::new(response))
}

/// Checks the request's signature over the request's message, as UTF-8 bytes,
/// under the request's public key.
///
/// Answers with the verdict, the message and the public key. Refuses a request
/// with an empty field, a signature that is not Base64 for 64 bytes, and a
/// public key that is not Base58 for 32 bytes.
pub fn verify_message(request: VerifyMessageRequest) -> (result: Result<
    SuccessResponse<VerifyMessageResponse>,
    ErrorResponse,
>)
    ensures
        well_formed(result),
        outcome(result) == verify_message_spec(request),
{
    if request.message.as_str().is_empty() || request.signature.as_str().is_empty()
        || request.pubkey.as_str().is_empty() {
        return Err(ErrorResponse::new("Missing required fields"));
    }
    match validate_message(request.message.as_str()) {
        Err(error) => {
            return Err(error);
        },
        Ok(_) => {},
    }
    let signature = match validate_signature(request.signature.as_str()) {
        Err(error) => {
            return Err(error);
        },
        Ok(signature) => signature,
    };
    let pubkey = match validate_pubkey(request.pubkey.as_str()) {
        Err(error) => {
            return Err(error);
        },
        Ok(pubkey) => pubkey,
    };

    let valid = signature_verify(&signature, &pubkey, request.message.as_str().as_bytes());

    let response = VerifyMessageResponse {
        valid,
        message: request.message,
        pubkey: request.pubkey,
    };
    Ok(SuccessResponse::new(response))
}

} // verus!
