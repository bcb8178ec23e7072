//! The cryptographic primitives the chain is built on, provided by OpenSSL.
//!
//! Nothing in this module is proved: each function calls into OpenSSL and its
//! contract records what OpenSSL is relied upon to do. Keys, signatures and
//! digests cross this boundary as plain bytes.

use crate::error::{SignerError, VerifierError};
use openssl::error::ErrorStack;
use openssl::pkey::{Id, PKey};
use openssl::sign::{Signer, Verifier};
use vstd::prelude::*;

verus! {

/// The error type of OpenSSL, carried through as an opaque value.
#[verifier::external_type_specification]
#[verifier::external_body]
pub struct ExErrorStack(ErrorStack);

/// The SHA-256 digest of `data`.
pub uninterp spec fn sha256(data: Seq<u8>) -> Seq<u8>;

/// The raw Ed25519 public key that belongs to the raw private key `private`.
pub uninterp spec fn ed25519_public(private: Seq<u8>) -> Seq<u8>;

/// The Ed25519 signature of `message` under the raw private key `private`.
pub uninterp spec fn ed25519_signature(private: Seq<u8>, message: Seq<u8>) -> Seq<u8>;

/// Whether `signature` is an Ed25519 signature of `message` that the raw
/// public key `public` accepts.
pub uninterp spec fn ed25519_valid(public: Seq<u8>, signature: Seq<u8>, message: Seq<u8>) -> bool;

/// Renders `stack` with the `Display` of `ErrorStack`. Nothing is said of
/// the text.
#[verifier::external_body]
pub(crate) fn error_text(stack: &ErrorStack) -> (text: String) {
    format!("{}", stack)
}

/// Calls `openssl::sha::sha256`: the result is the SHA-256 digest of `data`.
#[verifier::external_body]
pub(crate) fn sha256_digest(data: &[u8]) -> (digest: [u8; 32])
    ensures
        digest@ == sha256(data@),
{
    openssl::sha::sha256(data)
}

/// Calls `PKey::generate_ed25519` and exports the new key with
/// `raw_private_key`. The key is random, so nothing is said of its bytes.
#[verifier::external_body]
pub(crate) fn ed25519_generate() -> (res: Result<Vec<u8>, ErrorStack>) {
    PKey::generate_ed25519()?.raw_private_key()
}

/// Imports `private` with `PKey::private_key_from_raw_bytes` and exports its
/// public half with `raw_public_key`: on success the result is the public key
/// of `private`.
#[verifier::external_body]
pub(crate) fn ed25519_derive_public(private: &[u8]) -> (res: Result<Vec<u8>, ErrorStack>)
    ensures
        res matches Ok(public) ==> public@ == ed25519_public(private@),
{
    PKey::private_key_from_raw_bytes(private, Id::ED25519)?.raw_public_key()
}

/// Imports `private` with `PKey::private_key_from_raw_bytes`, sets up
/// `Signer::new_without_digest` and signs `message` with `sign_oneshot`.
///
/// Ed25519 signing is deterministic and its signatures are 64 bytes long, so
/// on success the result is the signature of `message` under `private`. It
/// is relied upon that this signature is accepted by the public key of
/// `private`, as OpenSSL documents of a `Verifier` with the corresponding
/// public key. A failure of the import or of the set-up is reported as
/// `Create`, one of the signing as `Update`.
#[verifier::external_body]
pub(crate) fn ed25519_sign(private: &[u8], message: &[u8]) -> (res: Result<[u8; 64], SignerError>)
    ensures
        res matches Ok(signature) ==> {
            &&& signature@ == ed25519_signature(private@, message@)
            &&& ed25519_valid(ed25519_public(private@), signature@, message@)
        },
{
    let key = PKey::private_key_from_raw_bytes(private, Id::ED25519).map_err(SignerError::Create)?;
    let mut signer = Signer::new_without_digest(&key).map_err(SignerError::Create)?;
    let mut signature = [0u8; 64];
    signer.sign_oneshot(&mut signature, message).map_err(SignerError::Update)?;
    Ok(signature)
}

/// Imports `public` with `PKey::public_key_from_raw_bytes`, sets up
/// `Verifier::new_without_digest` and checks `signature` against `message`
/// with `verify_oneshot`: on success the result says whether `public` accepts
/// the signature. A failure of the import or of the set-up is reported as
/// `Create`, one of the check as `Execute`.
#[verifier::external_body]
pub(crate) fn ed25519_verify(public: &[u8], signature: &[u8], message: &[u8]) -> (res: Result<
    bool,
    VerifierError,
>)
    ensures
        res matches Ok(valid) ==> valid == ed25519_valid(public@, signature@, message@),
{
    let key = PKey::public_key_from_raw_bytes(public, Id::ED25519).map_err(VerifierError::Create)?;
    let mut verifier = Verifier::new_without_digest(&key).map_err(VerifierError::Create)?;
    verifier.verify_oneshot(signature, message).map_err(VerifierError::Execute)
}

} // verus!
