//! Ed25519 keys, held as their raw bytes.
//!
//! A key is not checked when it is taken in: bytes that are no key are found
//! out when the key is used, and the use then fails.

use crate::crypto::{ed25519_derive_public, ed25519_public};
use crate::error::Error;
use vstd::prelude::*;
use vstd::slice::slice_to_vec;

verus! {

/// The public half of an Ed25519 key pair: enough to check signatures.
#[derive(Debug)]
pub struct PublicKey {
    raw: Vec<u8>,
}

/// An Ed25519 key pair, held as its raw private key, from which the public
/// half can be derived.
#[derive(Debug)]
pub struct KeyPair {
    raw: Vec<u8>,
}

impl View for PublicKey {
    type V = Seq<u8>;

    /// The raw bytes of the public key.
    closed spec fn view(&self) -> Seq<u8> {
        self.raw@
    }
}

impl View for KeyPair {
    type V = Seq<u8>;

    /// The raw bytes of the private key.
    closed spec fn view(&self) -> Seq<u8> {
        self.raw@
    }
}

impl Clone for PublicKey {
    fn clone(&self) -> (key: PublicKey)
        ensures
            key@ == self@,
    {
        PublicKey { raw: slice_to_vec(self.raw.as_slice()) }
    }
}

impl Clone for KeyPair {
    fn clone(&self) -> (keys: KeyPair)
        ensures
            keys@ == self@,
    {
        KeyPair { raw: slice_to_vec(self.raw.as_slice()) }
    }
}

impl PublicKey {
    /// Takes `raw` as the bytes of a public key.
    pub fn from_raw(raw: Vec<u8>) -> (key: PublicKey)
        ensures
            key@ == raw@,
    {
        PublicKey { raw }
    }

    /// The raw bytes of the key.
    pub fn as_bytes(&self) -> (bytes: &[u8])
        ensures
            bytes@ == self@,
    {
        self.raw.as_slice()
    }
}

impl KeyPair {
    /// Takes `raw` as the bytes of a private key.
    pub fn from_raw(raw: Vec<u8>) -> (keys: KeyPair)
        ensures
            keys@ == raw@,
    {
        KeyPair { raw }
    }

    /// The raw bytes of the private key.
    pub fn as_bytes(&self) -> (bytes: &[u8])
        ensures
            bytes@ == self@,
    {
        self.raw.as_slice()
    }

    /// Derives the public half of the pair.
    ///
    /// Fails with [`Error::KeyPublic`] if OpenSSL cannot derive it.
    pub fn public_key(&self) -> (res: Result<PublicKey, Error>)
        ensures
            match res {
                Ok(public) => public@ == ed25519_public(self@),
                Err(e) => e is KeyPublic,
            },
    {
        match ed25519_derive_public(self.raw.as_slice()) {
            Ok(raw) => Ok(PublicKey { raw }),
            Err(stack) => Err(Error::KeyPublic(stack)),
        }
    }
}

} // verus!
