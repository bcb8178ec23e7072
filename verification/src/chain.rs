//! The chain: a sequence of blocks that starts at the genesis block.

use crate::block::{genesis_block, Block, BlockView};
use crate::error::Error;
use crate::theorems::lemma_extended_chain_linked;
use vstd::prelude::*;
use vstd::slice::slice_to_vec;

verus! {

/// A chain of blocks. It is never empty: its first block is the genesis
/// block, and blocks are only ever appended after it.
#[derive(Debug)]
pub struct Chain(Vec<Block>);

impl View for Chain {
    type V = Seq<BlockView>;

    /// The blocks of the chain, oldest first.
    closed spec fn view(&self) -> Seq<BlockView> {
        self.0@.map_values(|block: Block| block@)
    }
}

/// Whether every block of `blocks` from the second up to, and without, the
/// one at `upto` verifies as the successor of the block before it.
pub open spec fn linked_upto(blocks: Seq<BlockView>, upto: int) -> bool {
    forall|i: int| 1 <= i < upto ==> (#[trigger] blocks[i]).verifies_after(blocks[i - 1].hash)
}

/// Whether every block of `blocks` but the first verifies as the successor
/// of the block before it.
pub open spec fn linked(blocks: Seq<BlockView>) -> bool {
    linked_upto(blocks, blocks.len() as int)
}

/// Whether the block at `at` is the first of `blocks` that does not verify
/// as the successor of the block before it.
pub open spec fn breaks_at(blocks: Seq<BlockView>, at: int) -> bool {
    &&& 1 <= at < blocks.len()
    &&& linked_upto(blocks, at)
    &&& !blocks[at].verifies_after(blocks[at - 1].hash)
}

/// The contents of each of `items`.
pub open spec fn contents(items: Seq<Vec<u8>>) -> Seq<Seq<u8>> {
    items.map_values(|item: Vec<u8>| item@)
}

/// Whether `after` is `before` with `count` blocks appended, of which each
/// was made, in order, of the next item of `data` after the block before it.
pub open spec fn extended_by(
    before: Seq<BlockView>,
    after: Seq<BlockView>,
    data: Seq<Seq<u8>>,
    count: int,
) -> bool {
    &&& 0 <= count <= data.len()
    &&& after.len() == before.len() + count
    &&& after.take(before.len() as int) == before
    &&& forall|i: int|
        before.len() <= i < after.len() ==> (#[trigger] after[i]).made_after(
            after[i - 1].hash,
            data[i - before.len()],
        )
}

impl Chain {
    /// Whether the chain is well formed: it holds at least one block, and
    /// its first block is the genesis block. Every chain that this module
    /// hands out is well formed.
    pub open spec fn wf(&self) -> bool {
        self@.len() >= 1 && self@[0] == genesis_block()
    }

    /// The number of blocks, the genesis block included.
    pub fn len(&self) -> (len: usize)
        ensures
            len == self@.len(),
    {
        self.0.len()
    }

    /// The block at `index`, counted from the genesis block at 0, if the
    /// chain is that long.
    pub fn get(&self, index: usize) -> (block: Option<&Block>)
        ensures
            match block {
                Some(block) => index < self@.len() && block@ == self@[index as int],
                None => index >= self@.len(),
            },
    {
        if index < self.0.len() {
            Some(&self.0[index])
        } else {
            None
        }
    }

    /// Verifies the chain: each block from the second on is verified as the
    /// successor of the block before it, in order, and the walk stops at the
    /// first block that does not verify or cannot be verified.
    ///
    /// The answer is `true` if every block verifies, which a chain of the
    /// genesis block alone always does, and `false` if the first block that
    /// does not verify has an owner. The walk fails with the error of
    /// [`Block::verify`] on the first block that cannot be verified.
    pub fn verify(&self) -> (res: Result<bool, Error>)
        ensures
            res matches Ok(verified) ==> verified == linked(self@),
            match res {
                Ok(true) => linked(self@),
                Ok(false) => exists|at: int|
                    breaks_at(self@, at) && !(self@[at].ownership is Genesis),
                Err(e) => exists|at: int|
                    1 <= at < self@.len() && linked_upto(self@, at)
                        && (#[trigger] self@[at]).fails_with(e),
            },
            self@.len() <= 1 ==> res matches Ok(true),
    {
        let mut i: usize = 1;
        while i < self.0.len()
            invariant
                1 <= i,
                linked_upto(self@, i as int),
            decreases self.0.len() - i,
        {
            match self.0[i].verify(&self.0[i - 1].hash) {
                Ok(true) => {},
                Ok(false) => {
                    assert(breaks_at(self@, i as int) && !(self@[i as int].ownership is Genesis));
                    assert(!linked(self@));
                    return Ok(false);
                },
                Err(e) => {
                    assert(self@[i as int].fails_with(e));
                    return Err(e);
                },
            }
            i += 1;
        }
        Ok(true)
    }

    /// Makes a block of `data` that follows the newest block and appends it.
    /// Returns the chain, so that calls can be strung together. A chain that
    /// was linked stays linked.
    ///
    /// Fails, leaving the chain as it was, with [`Error::KeyGen`] if no key
    /// pair can be generated and with [`Error::Signer`] if the data cannot be
    /// signed.
    pub fn push(&mut self, data: Vec<u8>) -> (res: Result<&mut Self, Error>)
        requires
            old(self).wf(),
        ensures
            match res {
                Ok(chain) => {
                    &&& *final(chain) == *final(self)
                    &&& chain.wf()
                    &&& chain@.len() == old(self)@.len() + 1
                    &&& chain@.drop_last() == old(self)@
                    &&& chain@.last().made_after(old(self)@.last().hash, data@)
                    &&& linked(old(self)@) ==> linked(chain@)
                },
                Err(e) => *final(self) == *old(self) && (e is KeyGen || e is Signer),
            },
    {
        let block = match Block::new(&self.0[self.0.len() - 1].hash, data) {
            Ok(block) => block,
            Err(e) => { return Err(e); },
        };
        self.0.push(block);
        proof {
            assert(self@.drop_last() =~= old(self)@);
            assert(self@.take(old(self)@.len() as int) =~= old(self)@);
            if linked(old(self)@) {
                lemma_extended_chain_linked(old(self)@, self@, seq![data@], 1);
            }
        }
        Ok(self)
    }

    /// Makes a block of each item of `data_iter`, in order, as [`Chain::push`]
    /// does, and appends it. Returns the chain, so that calls can be strung
    /// together.
    ///
    /// Stops at the first item of which no block can be made and fails with
    /// the error of that item; the blocks of the items before it stay in the
    /// chain.
    pub fn extend(&mut self, data_iter: Vec<Vec<u8>>) -> (res: Result<&mut Self, Error>)
        requires
            old(self).wf(),
        ensures
            match res {
                Ok(chain) => {
                    &&& *final(chain) == *final(self)
                    &&& chain.wf()
                    &&& extended_by(
                        old(self)@,
                        chain@,
                        contents(data_iter@),
                        data_iter@.len() as int,
                    )
                    &&& linked(old(self)@) ==> linked(chain@)
                },
                Err(e) => {
                    &&& final(self).wf()
                    &&& linked(old(self)@) ==> linked(final(self)@)
                    &&& e is KeyGen || e is Signer
                    &&& exists|count: int|
                        count < data_iter@.len() && #[trigger] extended_by(
                            old(self)@,
                            final(self)@,
                            contents(data_iter@),
                            count,
                        )
                },
            },
    {
        let ghost data = contents(data_iter@);
        let mut i: usize = 0;
        assert(self@.take(self@.len() as int) =~= self@);
        while i < data_iter.len()
            invariant
                i <= data_iter.len(),
                self.wf(),
                data == contents(data_iter@),
                extended_by(old(self)@, self@, data, i as int),
            decreases data_iter.len() - i,
        {
            let ghost before = self@;
            let item = slice_to_vec(data_iter[i].as_slice());
            match self.push(item) {
                Ok(_) => {},
                Err(e) => {
                    proof {
                        if linked(old(self)@) {
                            lemma_extended_chain_linked(old(self)@, self@, data, i as int);
                        }
                    }
                    return Err(e);
                },
            }
            proof {
                assert(self@.take(old(self)@.len() as int) =~= before.take(
                    old(self)@.len() as int,
                ));
                assert forall|j: int| old(self)@.len() <= j < self@.len() implies (
                #[trigger] self@[j]).made_after(self@[j - 1].hash, data[j - old(self)@.len()]) by {
                    if j < before.len() {
                        assert(self@[j] == before[j]);
                        assert(self@[j - 1] == before[j - 1]);
                    }
                }
            }
            i += 1;
        }
        proof {
            if linked(old(self)@) {
                lemma_extended_chain_linked(old(self)@, self@, data, i as int);
            }
        }
        Ok(self)
    }

    /// Appends `block` as it is, without checking it.
    pub fn push_ext(&mut self, block: Block) -> (chain: &mut Self)
        requires
            old(self).wf(),
        ensures
            *final(chain) == *final(self),
            chain.wf(),
            chain@ == old(self)@.push(block@),
    {
        self.0.push(block);
        assert(self@ =~= old(self)@.push(block@));
        self
    }

    /// Appends `blocks` as they are, in order, without checking them.
    pub fn extend_ext(&mut self, blocks: Vec<Block>) -> (chain: &mut Self)
        requires
            old(self).wf(),
        ensures
            *final(chain) == *final(self),
            chain.wf(),
            chain@ == old(self)@ + blocks@.map_values(|block: Block| block@),
    {
        let mut rest = blocks;
        self.0.append(&mut rest);
        assert(self@ =~= old(self)@ + blocks@.map_values(|block: Block| block@));
        self
    }

    /// Removes every block but the genesis block. The storage of the chain
    /// is kept.
    pub fn clear(&mut self)
        requires
            old(self).wf(),
        ensures
            final(self)@ == seq![genesis_block()],
    {
        self.0.truncate(1);
        assert(self@ =~= seq![genesis_block()]);
    }
}

impl Clone for Chain {
    fn clone(&self) -> (chain: Chain)
        ensures
            chain@ == self@,
    {
        let mut blocks: Vec<Block> = Vec::new();
        let mut i: usize = 0;
        while i < self.0.len()
            invariant
                i <= self.0.len(),
                blocks@.len() == i,
                forall|j: int| 0 <= j < i ==> blocks@[j]@ == self.0@[j]@,
            decreases self.0.len() - i,
        {
            blocks.push(self.0[i].clone());
            i += 1;
        }
        let chain = Chain(blocks);
        assert(chain@ =~= self@);
        chain
    }
}

impl Default for Chain {
    /// The chain that holds the genesis block and nothing else.
    fn default() -> (chain: Chain)
        ensures
            chain@ == seq![genesis_block()],
    {
        let mut blocks: Vec<Block> = Vec::new();
        blocks.push(Block::default());
        let chain = Chain(blocks);
        assert(chain@ =~= seq![genesis_block()]);
        chain
    }
}

} // verus!
