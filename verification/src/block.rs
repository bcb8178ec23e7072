//! Blocks, the data they hold and the keys they are owned by.

use crate::crypto::{ed25519_public, sha256, sha256_digest};
use crate::error::Error;
use crate::hash::{link_signed, link_verifies, same_bytes};
use crate::key::{KeyPair, PublicKey};
use crate::DEFAULT_GENESIS;
use vstd::prelude::*;
use vstd::slice::slice_to_vec;

verus! {

/// The data of a block together with its SHA-256 digest.
#[derive(Debug)]
pub struct BlockData {
    /// The data itself.
    pub inner: Vec<u8>,
    /// The digest of the data, as computed when the value was made.
    pub hash: [u8; 32],
}

/// What a [`BlockData`] holds.
pub struct BlockDataView {
    pub inner: Seq<u8>,
    pub hash: Seq<u8>,
}

impl View for BlockData {
    type V = BlockDataView;

    open spec fn view(&self) -> BlockDataView {
        BlockDataView { inner: self.inner@, hash: self.hash@ }
    }
}

/// What the data of the genesis block holds: no data, and the genesis hash
/// in place of a digest.
pub open spec fn genesis_data() -> BlockDataView {
    BlockDataView { inner: Seq::empty(), hash: DEFAULT_GENESIS@ }
}

impl BlockData {
    /// Takes `data` and computes its digest.
    pub fn new(data: Vec<u8>) -> (res: Result<BlockData, Error>)
        ensures
            res matches Ok(block_data) && block_data@ == (BlockDataView {
                inner: data@,
                hash: sha256(data@),
            }),
    {
        let hash = sha256_digest(data.as_slice());
        Ok(BlockData { inner: data, hash })
    }
}

impl Clone for BlockData {
    fn clone(&self) -> (block_data: BlockData)
        ensures
            block_data@ == self@,
    {
        BlockData { inner: slice_to_vec(self.inner.as_slice()), hash: self.hash }
    }
}

impl PartialEq for BlockData {
    /// Two values are equal when they hold the same data and the same
    /// digest.
    fn eq(&self, other: &Self) -> (same: bool) {
        same_bytes(self.inner.as_slice(), other.inner.as_slice()) && same_bytes(
            self.hash.as_slice(),
            other.hash.as_slice(),
        )
    }
}

impl Eq for BlockData {

}

impl vstd::std_specs::cmp::PartialEqSpecImpl for BlockData {
    open spec fn obeys_eq_spec() -> bool {
        true
    }

    open spec fn eq_spec(&self, other: &Self) -> bool {
        self@ == other@
    }
}

impl From<BlockData> for Vec<u8> {
    /// The data itself.
    fn from(block_data: BlockData) -> (inner: Vec<u8>) {
        block_data.inner
    }
}

impl vstd::std_specs::convert::FromSpecImpl<BlockData> for Vec<u8> {
    open spec fn obeys_from_spec() -> bool {
        true
    }

    open spec fn from_spec(block_data: BlockData) -> Vec<u8> {
        block_data.inner
    }
}

impl<'a> From<&'a BlockData> for &'a [u8] {
    /// The data itself.
    fn from(block_data: &'a BlockData) -> (inner: &'a [u8])
        ensures
            inner@ == block_data.inner@,
    {
        let inner = block_data.inner.as_slice();
        proof {
            let chosen = choose|bytes: &'a [u8]| #[trigger] bytes@ == block_data.inner@;
            assert(chosen@ == inner@);
            assert(inner =~= chosen);
        }
        inner
    }
}

impl<'a> vstd::std_specs::convert::FromSpecImpl<&'a BlockData> for &'a [u8] {
    open spec fn obeys_from_spec() -> bool {
        true
    }

    open spec fn from_spec(block_data: &'a BlockData) -> &'a [u8] {
        choose|bytes: &'a [u8]| #[trigger] bytes@ == block_data.inner@
    }
}

impl From<BlockData> for [u8; 32] {
    /// The digest stored with the data.
    fn from(block_data: BlockData) -> (hash: [u8; 32]) {
        block_data.hash
    }
}

impl vstd::std_specs::convert::FromSpecImpl<BlockData> for [u8; 32] {
    open spec fn obeys_from_spec() -> bool {
        true
    }

    open spec fn from_spec(block_data: BlockData) -> [u8; 32] {
        block_data.hash
    }
}

impl From<&BlockData> for [u8; 32] {
    /// The digest stored with the data.
    fn from(block_data: &BlockData) -> (hash: [u8; 32]) {
        block_data.hash
    }
}

impl vstd::std_specs::convert::FromSpecImpl<&BlockData> for [u8; 32] {
    open spec fn obeys_from_spec() -> bool {
        true
    }

    open spec fn from_spec(block_data: &BlockData) -> [u8; 32] {
        block_data.hash
    }
}

impl Default for BlockData {
    /// The data of the genesis block.
    fn default() -> (block_data: BlockData)
        ensures
            block_data@ == genesis_data(),
    {
        BlockData { inner: Vec::new(), hash: DEFAULT_GENESIS }
    }
}

/// Who owns a block, and with it the key material that is held for it.
#[derive(Debug)]
pub enum Ownership {
    /// The genesis block is owned by nobody and holds no key.
    Genesis,
    /// Externally owned: the block was made elsewhere, and only its public
    /// key is held.
    Them(PublicKey),
    /// Self-owned: the block was made here, and its whole key pair is held.
    Us(KeyPair),
}

/// What an [`Ownership`] holds: the raw bytes of its key, if it has one.
pub enum OwnershipView {
    Genesis,
    Them(Seq<u8>),
    Us(Seq<u8>),
}

impl View for Ownership {
    type V = OwnershipView;

    open spec fn view(&self) -> OwnershipView {
        match self {
            Ownership::Genesis => OwnershipView::Genesis,
            Ownership::Them(public) => OwnershipView::Them(public@),
            Ownership::Us(keys) => OwnershipView::Us(keys@),
        }
    }
}

impl OwnershipView {
    /// The raw public key under which signatures of the owner are checked,
    /// if there is an owner.
    pub open spec fn public(self) -> Option<Seq<u8>> {
        match self {
            OwnershipView::Genesis => None,
            OwnershipView::Them(public) => Some(public),
            OwnershipView::Us(private) => Some(ed25519_public(private)),
        }
    }
}

impl Ownership {
    /// The raw public key of the owner.
    ///
    /// Fails with [`Error::GenesisIsNotKey`] for the genesis ownership, and
    /// with [`Error::KeyPublic`] if the public half of a key pair cannot be
    /// derived. It never fails where only a public key is held.
    pub fn to_raw_public(&self) -> (res: Result<Vec<u8>, Error>)
        ensures
            match res {
                Ok(raw) => self@.public() == Some(raw@),
                Err(e) => if self@ is Genesis {
                    e is GenesisIsNotKey
                } else {
                    self@ is Us && e is KeyPublic
                },
            },
    {
        match self {
            Ownership::Genesis => Err(Error::GenesisIsNotKey),
            Ownership::Them(public) => Ok(slice_to_vec(public.as_bytes())),
            Ownership::Us(keys) => {
                let public = keys.public_key()?;
                Ok(slice_to_vec(public.as_bytes()))
            },
        }
    }
}

impl Clone for Ownership {
    fn clone(&self) -> (ownership: Ownership)
        ensures
            ownership@ == self@,
    {
        match self {
            Ownership::Genesis => Ownership::Genesis,
            Ownership::Them(public) => Ownership::Them(public.clone()),
            Ownership::Us(keys) => Ownership::Us(keys.clone()),
        }
    }
}

impl From<PublicKey> for Ownership {
    /// A block of which only the public key is known is theirs.
    fn from(public: PublicKey) -> (ownership: Ownership) {
        Ownership::Them(public)
    }
}

impl vstd::std_specs::convert::FromSpecImpl<PublicKey> for Ownership {
    open spec fn obeys_from_spec() -> bool {
        true
    }

    open spec fn from_spec(public: PublicKey) -> Ownership {
        Ownership::Them(public)
    }
}

impl From<KeyPair> for Ownership {
    /// A block of which the key pair is known is ours.
    fn from(keys: KeyPair) -> (ownership: Ownership) {
        Ownership::Us(keys)
    }
}

impl vstd::std_specs::convert::FromSpecImpl<KeyPair> for Ownership {
    open spec fn obeys_from_spec() -> bool {
        true
    }

    open spec fn from_spec(keys: KeyPair) -> Ownership {
        Ownership::Us(keys)
    }
}

/// One block of a chain.
#[derive(Debug)]
pub struct Block {
    /// The link of this block to the one before it.
    pub hash: crate::hash::Hash,
    /// Who owns the block.
    pub ownership: Ownership,
    /// The owner's signature of the digest of the data.
    pub signature: [u8; 64],
    /// The data of the block.
    pub data: BlockData,
}

/// What a [`Block`] holds.
pub struct BlockView {
    pub hash: Seq<u8>,
    pub ownership: OwnershipView,
    pub signature: Seq<u8>,
    pub data: BlockDataView,
}

impl View for Block {
    type V = BlockView;

    open spec fn view(&self) -> BlockView {
        BlockView {
            hash: self.hash@,
            ownership: self.ownership@,
            signature: self.signature@,
            data: self.data@,
        }
    }
}

/// What the genesis block holds: the genesis hash, no owner, a signature of
/// 64 zero bytes and the genesis data.
pub open spec fn genesis_block() -> BlockView {
    BlockView {
        hash: DEFAULT_GENESIS@,
        ownership: OwnershipView::Genesis,
        signature: Seq::new(64, |i: int| 0u8),
        data: genesis_data(),
    }
}

impl BlockView {
    /// Whether the block verifies as the successor of a block with the hash
    /// `previous`: it has an owner, the owner's public key accepts the
    /// signature over the digest of the data as it is now, and the hash is
    /// the link of `previous`, the signature and that digest. The digest
    /// stored with the data plays no part.
    pub open spec fn verifies_after(self, previous: Seq<u8>) -> bool {
        match self.ownership.public() {
            Some(public) => link_verifies(
                self.hash,
                previous,
                self.signature,
                self.data.inner,
                public,
            ),
            None => false,
        }
    }

    /// Whether the block is one that [`Block::new`] makes of `data` after a
    /// block with the hash `previous`: it holds the data and its digest, it
    /// is owned by a key pair, and its signature and hash are what that pair
    /// makes of the data after `previous`.
    pub open spec fn made_after(self, previous: Seq<u8>, data: Seq<u8>) -> bool {
        &&& self.data == BlockDataView { inner: data, hash: sha256(data) }
        &&& self.ownership matches OwnershipView::Us(private)
        &&& link_signed(self.hash, previous, self.signature, data, private)
    }
}

impl Block {
    /// Makes the block that follows a block with the hash `previous_hash`
    /// and holds `data`, owned by a fresh key pair.
    ///
    /// Fails with [`Error::KeyGen`] if no key pair can be generated and with
    /// [`Error::Signer`] if the data cannot be signed.
    pub fn new(previous_hash: &crate::hash::Hash, data: Vec<u8>) -> (res: Result<Block, Error>)
        ensures
            match res {
                Ok(block) => block@.made_after(previous_hash@, data@),
                Err(e) => e is KeyGen || e is Signer,
            },
    {
        let data = match BlockData::new(data) {
            Ok(data) => data,
            Err(e) => { return Err(e); },
        };
        let (hash, signature, keys) = crate::hash::Hash::new(previous_hash, data.inner.as_slice())?;
        Ok(Block { hash, ownership: Ownership::Us(keys), signature, data })
    }

    /// Verifies this block as the successor of a block with the hash
    /// `previous_hash`.
    ///
    /// Fails with [`Error::GenesisIsNotKey`] if, and only if, the block has
    /// the genesis ownership; with [`Error::KeyPublic`] if the public half of
    /// its key pair cannot be derived; and with [`Error::Verifier`] if the
    /// signature cannot be checked.
    pub fn verify(&self, previous_hash: &crate::hash::Hash) -> (res: Result<bool, Error>)
        ensures
            self@.ownership is Genesis <==> res matches Err(Error::GenesisIsNotKey),
            match res {
                Ok(verified) => verified == self@.verifies_after(previous_hash@),
                Err(e) => self@.fails_with(e),
            },
    {
        match &self.ownership {
            Ownership::Them(public) => self.hash.verify(
                previous_hash,
                self.signature.as_slice(),
                self.data.inner.as_slice(),
                public,
            ),
            Ownership::Us(keys) => {
                let public = keys.public_key()?;
                self.hash.verify(
                    previous_hash,
                    self.signature.as_slice(),
                    self.data.inner.as_slice(),
                    &public,
                )
            },
            Ownership::Genesis => Err(Error::GenesisIsNotKey),
        }
    }
}

impl BlockView {
    /// Whether verifying the block can fail with `e`: a genesis block fails
    /// with [`Error::GenesisIsNotKey`] and nothing else; a block of theirs
    /// with an error of the verifier; a block of ours with that, or with
    /// [`Error::KeyPublic`].
    pub open spec fn fails_with(self, e: Error) -> bool {
        match self.ownership {
            OwnershipView::Genesis => e is GenesisIsNotKey,
            OwnershipView::Them(_) => e is Verifier,
            OwnershipView::Us(_) => e is Verifier || e is KeyPublic,
        }
    }
}

impl Clone for Block {
    fn clone(&self) -> (block: Block)
        ensures
            block@ == self@,
    {
        Block {
            hash: self.hash.clone(),
            ownership: self.ownership.clone(),
            signature: self.signature,
            data: self.data.clone(),
        }
    }
}

impl Default for Block {
    /// The genesis block.
    fn default() -> (block: Block)
        ensures
            block@ == genesis_block(),
    {
        let block = Block {
            hash: crate::hash::Hash::default(),
            ownership: Ownership::Genesis,
            signature: [0u8; 64],
            data: BlockData::default(),
        };
        assert(block@.signature =~= genesis_block().signature);
        block
    }
}

} // verus!
