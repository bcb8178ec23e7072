//! The hash that links a block to its predecessor.

use crate::block::Block;
use crate::crypto::{
    ed25519_generate, ed25519_public, ed25519_sign, ed25519_signature, ed25519_valid,
    ed25519_verify, sha256, sha256_digest,
};
use crate::error::Error;
use crate::key::{KeyPair, PublicKey};
use crate::DEFAULT_GENESIS;
use vstd::prelude::*;

verus! {

/// The link of a block: 32 bytes that bind the block's signature and the
/// digest of its data to the link of the block before it.
#[derive(Debug)]
pub struct Hash([u8; 32]);

impl View for Hash {
    type V = Seq<u8>;

    /// The 32 bytes of the hash.
    closed spec fn view(&self) -> Seq<u8> {
        self.0@
    }
}

/// The link after `previous` of a block with the given signature and digest
/// of its data: the SHA-256 digest of the three, one after the other.
pub open spec fn link(previous: Seq<u8>, signature: Seq<u8>, digest: Seq<u8>) -> Seq<u8> {
    sha256(previous + signature + digest)
}

/// Whether `hash` holds as the link after `previous` of `data` signed with
/// `signature`, for a verifier that knows the key `public`: the key accepts
/// the signature over the digest of the data, and `hash` is the link of
/// `previous`, the signature and that digest.
pub open spec fn link_verifies(
    hash: Seq<u8>,
    previous: Seq<u8>,
    signature: Seq<u8>,
    data: Seq<u8>,
    public: Seq<u8>,
) -> bool {
    &&& ed25519_valid(public, signature, sha256(data))
    &&& hash == link(previous, signature, sha256(data))
}

/// Whether `hash` and `signature` are what the holder of the key pair
/// `private` makes of `data` after `previous`: the signature is the pair's
/// signature of the digest of the data, the pair's public half accepts it,
/// and `hash` is the link of `previous`, the signature and that digest.
pub open spec fn link_signed(
    hash: Seq<u8>,
    previous: Seq<u8>,
    signature: Seq<u8>,
    data: Seq<u8>,
    private: Seq<u8>,
) -> bool {
    &&& signature == ed25519_signature(private, sha256(data))
    &&& link_verifies(hash, previous, signature, data, ed25519_public(private))
}

/// The bytes that are hashed into a link: `previous`, then `signature`, then
/// `digest`.
pub fn link_preimage(previous: &Hash, signature: &[u8], digest: &[u8; 32]) -> (bytes: Vec<u8>)
    ensures
        bytes@ == previous@ + signature@ + digest@,
{
    let mut bytes: Vec<u8> = Vec::new();
    bytes.extend_from_slice(previous.0.as_slice());
    bytes.extend_from_slice(signature);
    bytes.extend_from_slice(digest.as_slice());
    bytes
}

/// Computes the link after `previous` of a signature and a digest.
pub fn hash_triplet(previous: &Hash, signature: &[u8], digest: &[u8; 32]) -> (bytes: [u8; 32])
    ensures
        bytes@ == link(previous@, signature@, digest@),
{
    let preimage = link_preimage(previous, signature, digest);
    sha256_digest(preimage.as_slice())
}

/// Generates the key pair of a new block.
///
/// Fails with [`Error::KeyGen`] if OpenSSL cannot provide one.
pub fn gen_keypair() -> (res: Result<KeyPair, Error>)
    ensures
        res matches Err(e) ==> e is KeyGen,
{
    match ed25519_generate() {
        Ok(raw) => Ok(KeyPair::from_raw(raw)),
        Err(stack) => Err(Error::KeyGen(stack)),
    }
}

impl Hash {
    /// Length of an Ed25519 signature in bytes.
    pub const SIG_LEN: usize = 64;

    /// The 32 bytes of the hash.
    pub fn as_bytes(&self) -> (bytes: &[u8; 32])
        ensures
            bytes@ == self@,
    {
        &self.0
    }

    /// Makes the hash of a new block that follows `previous` and holds
    /// `data`: generates a fresh key pair, signs the digest of the data with
    /// it and links the signature and the digest to `previous`. Returns the
    /// hash, the signature and the key pair.
    ///
    /// Fails with [`Error::KeyGen`] if no key pair can be generated and with
    /// [`Error::Signer`] if the digest cannot be signed.
    pub fn new(previous: &Hash, data: &[u8]) -> (res: Result<(Hash, [u8; 64], KeyPair), Error>)
        ensures
            match res {
                Ok((hash, signature, keys)) => link_signed(
                    hash@,
                    previous@,
                    signature@,
                    data@,
                    keys@,
                ),
                Err(e) => e is KeyGen || e is Signer,
            },
    {
        let keys = gen_keypair()?;
        Hash::new_existing_keypair(previous, data, keys)
    }

    /// Checks this hash as the link after `previous` of `data` signed with
    /// `signature`, under the key `public_key`.
    ///
    /// The signature is checked first, against the digest of the data; if the
    /// key rejects it the answer is `false`. Otherwise the link of `previous`,
    /// the signature and the digest is computed anew and compared with this
    /// hash byte for byte.
    ///
    /// Fails with [`Error::Verifier`] if the signature cannot be checked.
    pub fn verify(
        &self,
        previous: &Hash,
        signature: &[u8],
        data: &[u8],
        public_key: &PublicKey,
    ) -> (res: Result<bool, Error>)
        ensures
            match res {
                Ok(verified) => verified == link_verifies(
                    self@,
                    previous@,
                    signature@,
                    data@,
                    public_key@,
                ),
                Err(e) => e is Verifier,
            },
    {
        let digest = sha256_digest(data);
        match ed25519_verify(public_key.as_bytes(), signature, digest.as_slice()) {
            Ok(true) => {
                let expected = hash_triplet(previous, signature, &digest);
                Ok(*self == Hash(expected))
            },
            Ok(false) => Ok(false),
            Err(e) => Err(Error::Verifier(e)),
        }
    }

    /// Makes the hash of a new block as [`Hash::new`] does, with the key pair
    /// `keys` in place of a fresh one.
    ///
    /// Fails with [`Error::Signer`] if the digest cannot be signed.
    pub fn new_existing_keypair(previous: &Hash, data: &[u8], keys: KeyPair) -> (res: Result<
        (Hash, [u8; 64], KeyPair),
        Error,
    >)
        ensures
            match res {
                Ok((hash, signature, pair)) => {
                    &&& pair == keys
                    &&& link_signed(hash@, previous@, signature@, data@, keys@)
                },
                Err(e) => e is Signer,
            },
    {
        let digest = sha256_digest(data);
        match ed25519_sign(keys.as_bytes(), digest.as_slice()) {
            Ok(signature) => {
                let hash = Hash(hash_triplet(previous, signature.as_slice(), &digest));
                Ok((hash, signature, keys))
            },
            Err(e) => Err(Error::Signer(e)),
        }
    }
}

/// Compares two runs of bytes, byte for byte.
pub(crate) fn same_bytes(left: &[u8], right: &[u8]) -> (same: bool)
    ensures
        same == (left@ == right@),
{
    if left.len() != right.len() {
        return false;
    }
    let mut i: usize = 0;
    while i < left.len()
        invariant
            i <= left.len(),
            left.len() == right.len(),
            forall|j: int| 0 <= j < i ==> left@[j] == right@[j],
        decreases left.len() - i,
    {
        if left[i] != right[i] {
            return false;
        }
        i += 1;
    }
    assert(left@ =~= right@);
    true
}

impl Clone for Hash {
    fn clone(&self) -> (hash: Hash)
        ensures
            hash@ == self@,
    {
        Hash(self.0)
    }
}

impl PartialEq for Hash {
    /// Two hashes are equal when their bytes are.
    fn eq(&self, other: &Self) -> (same: bool) {
        same_bytes(self.0.as_slice(), other.0.as_slice())
    }
}

impl Eq for Hash {

}

impl vstd::std_specs::cmp::PartialEqSpecImpl for Hash {
    open spec fn obeys_eq_spec() -> bool {
        true
    }

    open spec fn eq_spec(&self, other: &Self) -> bool {
        self@ == other@
    }
}

impl From<[u8; 32]> for Hash {
    /// Takes 32 bytes as a hash.
    fn from(inner: [u8; 32]) -> (hash: Hash)
        ensures
            hash@ == inner@,
    {
        Hash(inner)
    }
}

impl vstd::std_specs::convert::FromSpecImpl<[u8; 32]> for Hash {
    open spec fn obeys_from_spec() -> bool {
        true
    }

    closed spec fn from_spec(inner: [u8; 32]) -> Hash {
        Hash(inner)
    }
}

impl From<Block> for Hash {
    /// The hash of a block.
    fn from(block: Block) -> (hash: Hash) {
        block.hash
    }
}

impl vstd::std_specs::convert::FromSpecImpl<Block> for Hash {
    open spec fn obeys_from_spec() -> bool {
        true
    }

    open spec fn from_spec(block: Block) -> Hash {
        block.hash
    }
}

impl<'a> From<&'a Block> for &'a Hash {
    /// The hash of a block.
    fn from(block: &'a Block) -> (hash: &'a Hash) {
        &block.hash
    }
}

impl<'a> vstd::std_specs::convert::FromSpecImpl<&'a Block> for &'a Hash {
    open spec fn obeys_from_spec() -> bool {
        true
    }

    open spec fn from_spec(block: &'a Block) -> &'a Hash {
        &block.hash
    }
}

impl Default for Hash {
    /// The genesis hash.
    fn default() -> (hash: Hash)
        ensures
            hash@ == DEFAULT_GENESIS@,
    {
        Hash(DEFAULT_GENESIS)
    }
}

} // verus!
