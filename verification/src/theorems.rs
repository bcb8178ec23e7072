//! Theorems about blocks and chains as they are made, and about what
//! becomes of them when their contents are changed.
//!
//! SHA-256 maps unboundedly many inputs to 32 bytes, so two inputs with one
//! digest exist, though none is known. The theorems on changed data and
//! signatures therefore hold for the changes that SHA-256 tells apart from
//! what was there before, which [`sha256_distinguishes`] says of two inputs.

use crate::block::{genesis_block, BlockDataView, BlockView};
use crate::chain::{breaks_at, extended_by, linked, linked_upto};
use crate::crypto::sha256;
use crate::error::Error;
use vstd::prelude::*;

verus! {

/// Whether SHA-256 tells `a` and `b` apart: if they differ, so do their
/// digests.
pub open spec fn sha256_distinguishes(a: Seq<u8>, b: Seq<u8>) -> bool {
    a != b ==> sha256(a) != sha256(b)
}

/// The block `block` with `data` in place of its data; the digest stored
/// with the data stays as it was.
pub open spec fn with_data(block: BlockView, data: Seq<u8>) -> BlockView {
    BlockView { data: BlockDataView { inner: data, hash: block.data.hash }, ..block }
}

/// The block `block` with `signature` in place of its signature.
pub open spec fn with_signature(block: BlockView, signature: Seq<u8>) -> BlockView {
    BlockView { signature, ..block }
}

/// The block `block` with `hash` in place of its hash.
pub open spec fn with_hash(block: BlockView, hash: Seq<u8>) -> BlockView {
    BlockView { hash, ..block }
}

/// Two runs of bytes that start alike and end alike are equal only if they
/// are alike in the middle too.
proof fn lemma_middle_differs(head: Seq<u8>, a: Seq<u8>, b: Seq<u8>, tail: Seq<u8>)
    requires
        a != b,
    ensures
        head + a + tail != head + b + tail,
{
    if head + a + tail == head + b + tail {
        assert((head + a + tail).len() == (head + b + tail).len());
        assert(a.len() == b.len());
        assert forall|i: int| 0 <= i < a.len() implies a[i] == b[i] by {
            assert((head + a + tail)[head.len() + i] == a[i]);
            assert((head + b + tail)[head.len() + i] == b[i]);
        }
        assert(a =~= b);
    }
}

/// The genesis block is never verified: whatever block it is held against, it
/// does not verify after it, and verifying it fails with
/// [`Error::GenesisIsNotKey`] and with no other error.
pub proof fn lemma_genesis_is_not_key(previous: Seq<u8>, e: Error)
    ensures
        genesis_block().ownership is Genesis,
        !genesis_block().verifies_after(previous),
        genesis_block().fails_with(e) <==> e is GenesisIsNotKey,
{
}

/// A block verifies as the successor of the block that it was made after,
/// under the key pair that it was made with.
pub proof fn lemma_made_block_verifies(block: BlockView, previous: Seq<u8>, data: Seq<u8>)
    requires
        block.made_after(previous, data),
    ensures
        block.verifies_after(previous),
{
}

/// A block that verifies no longer does once its data is changed, provided
/// that SHA-256 tells the new data apart from the old, and the bytes hashed
/// into the link of the new data apart from those of the old.
pub proof fn lemma_changed_data_fails(block: BlockView, previous: Seq<u8>, data: Seq<u8>)
    requires
        block.verifies_after(previous),
        data != block.data.inner,
        sha256_distinguishes(data, block.data.inner),
        sha256_distinguishes(
            previous + block.signature + sha256(data),
            previous + block.signature + sha256(block.data.inner),
        ),
    ensures
        !with_data(block, data).verifies_after(previous),
{
    lemma_middle_differs(
        previous + block.signature,
        sha256(data),
        sha256(block.data.inner),
        Seq::empty(),
    );
    assert(previous + block.signature + sha256(data) + Seq::<u8>::empty() =~= previous
        + block.signature + sha256(data));
    assert(previous + block.signature + sha256(block.data.inner) + Seq::<u8>::empty() =~= previous
        + block.signature + sha256(block.data.inner));
}

/// A block that verifies no longer does once its signature is changed,
/// provided that SHA-256 tells the bytes hashed into the link of the new
/// signature apart from those of the old.
pub proof fn lemma_changed_signature_fails(
    block: BlockView,
    previous: Seq<u8>,
    signature: Seq<u8>,
)
    requires
        block.verifies_after(previous),
        signature != block.signature,
        sha256_distinguishes(
            previous + signature + sha256(block.data.inner),
            previous + block.signature + sha256(block.data.inner),
        ),
    ensures
        !with_signature(block, signature).verifies_after(previous),
{
    lemma_middle_differs(previous, signature, block.signature, sha256(block.data.inner));
}

/// A block that verifies no longer does once its hash is changed.
pub proof fn lemma_changed_hash_fails(block: BlockView, previous: Seq<u8>, hash: Seq<u8>)
    requires
        block.verifies_after(previous),
        hash != block.hash,
    ensures
        !with_hash(block, hash).verifies_after(previous),
{
}

/// Appending blocks that are each made after the block before it keeps a
/// linked chain linked.
pub proof fn lemma_extended_chain_linked(
    before: Seq<BlockView>,
    after: Seq<BlockView>,
    data: Seq<Seq<u8>>,
    count: int,
)
    requires
        before.len() >= 1,
        linked(before),
        extended_by(before, after, data, count),
    ensures
        linked(after),
{
    assert forall|i: int| 1 <= i < after.len() implies (#[trigger] after[i]).verifies_after(
        after[i - 1].hash,
    ) by {
        if i < before.len() {
            assert(after.take(before.len() as int)[i] == after[i]);
            assert(after.take(before.len() as int)[i - 1] == after[i - 1]);
            assert(before[i].verifies_after(before[i - 1].hash));
        } else {
            lemma_made_block_verifies(after[i], after[i - 1].hash, data[i - before.len()]);
        }
    }
}

/// A chain that grew from the genesis block by pushes alone is linked.
pub proof fn lemma_pushed_chain_linked(blocks: Seq<BlockView>, data: Seq<Seq<u8>>)
    requires
        extended_by(seq![genesis_block()], blocks, data, data.len() as int),
    ensures
        linked(blocks),
{
    lemma_extended_chain_linked(seq![genesis_block()], blocks, data, data.len() as int);
}

/// In a chain there is at most one first block that does not verify, and
/// where there is one, the chain is not linked.
pub proof fn lemma_break_is_unique(blocks: Seq<BlockView>, at: int, other: int)
    requires
        breaks_at(blocks, at),
    ensures
        !linked(blocks),
        breaks_at(blocks, other) ==> other == at,
{
    if breaks_at(blocks, other) {
        if other < at {
            assert(blocks[other].verifies_after(blocks[other - 1].hash));
        } else if at < other {
            assert(blocks[at].verifies_after(blocks[at - 1].hash));
        }
    }
}

/// Changing the hash of a block of a linked chain breaks the chain at that
/// block and not before: the blocks before it verify as they did, and the
/// one with the changed hash is the first that does not.
pub proof fn lemma_corrupted_hash_breaks_at(blocks: Seq<BlockView>, at: int, hash: Seq<u8>)
    requires
        linked(blocks),
        1 <= at < blocks.len(),
        hash != blocks[at].hash,
    ensures
        breaks_at(blocks.update(at, with_hash(blocks[at], hash)), at),
        !linked(blocks.update(at, with_hash(blocks[at], hash))),
{
    let changed = blocks.update(at, with_hash(blocks[at], hash));
    assert forall|i: int| 1 <= i < at implies (#[trigger] changed[i]).verifies_after(
        changed[i - 1].hash,
    ) by {
        assert(blocks[i].verifies_after(blocks[i - 1].hash));
    }
    assert(blocks[at].verifies_after(blocks[at - 1].hash));
    lemma_changed_hash_fails(blocks[at], blocks[at - 1].hash, hash);
    lemma_break_is_unique(changed, at, at);
}

} // verus!
