use onft::block::{Block, Ownership};
use onft::chain::Chain;
use onft::error::Error;
use onft::key::PublicKey;

/// Blocks made of `items`, one after the other, starting after the genesis
/// block.
fn blocks_of(items: &[&[u8]]) -> Vec<Block> {
    let mut blocks: Vec<Block> = Vec::new();
    let mut previous = onft::hash::Hash::default();
    for item in items {
        let block = Block::new(&previous, item.to_vec()).unwrap();
        previous = block.hash.clone();
        blocks.push(block);
    }
    blocks
}

#[test]
fn default_chain_holds_the_genesis_block_alone() {
    let chain = Chain::default();
    assert_eq!(chain.len(), 1);
    let genesis = chain.get(0).unwrap();
    assert_eq!(genesis.hash, onft::hash::Hash::default());
    assert!(matches!(genesis.ownership, Ownership::Genesis));
    assert_eq!(genesis.signature, [0u8; 64]);
    assert!(genesis.data.inner.is_empty());
    assert!(chain.get(1).is_none());
}

#[test]
fn default_chain_verifies() {
    assert!(matches!(Chain::default().verify(), Ok(true)));
}

#[test]
fn hello_world_scenario() {
    let mut chain = Chain::default();
    chain.push("Hello, world!".into()).unwrap();
    assert_eq!(chain.len(), 2);
    assert!(matches!(chain.verify(), Ok(true)));

    let mut block = chain.get(1).unwrap().clone();
    block.data.inner = "Hello, world?".into();
    let mut changed = Chain::default();
    changed.push_ext(block);
    assert_eq!(changed.len(), 2);
    assert!(matches!(changed.verify(), Ok(false)));
}

#[test]
fn push_appends_a_block_after_the_newest() {
    let mut chain = Chain::default();
    chain.push(b"first".to_vec()).unwrap();
    chain.push(b"second".to_vec()).unwrap();
    assert_eq!(chain.len(), 3);
    let first = chain.get(1).unwrap();
    let second = chain.get(2).unwrap();
    assert_eq!(first.data.inner, b"first".to_vec());
    assert_eq!(second.data.inner, b"second".to_vec());
    assert!(matches!(first.verify(&chain.get(0).unwrap().hash), Ok(true)));
    assert!(matches!(second.verify(&first.hash), Ok(true)));
    assert!(matches!(second.verify(&chain.get(0).unwrap().hash), Ok(false)));
}

#[test]
fn pushes_can_be_strung_together() {
    let mut chain = Chain::default();
    chain
        .push(b"a".to_vec())
        .unwrap()
        .push(b"b".to_vec())
        .unwrap()
        .push(b"c".to_vec())
        .unwrap();
    assert_eq!(chain.len(), 4);
    assert!(matches!(chain.verify(), Ok(true)));
}

#[test]
fn pushed_chain_verifies() {
    let mut chain = Chain::default();
    for n in 0..10u8 {
        chain.push(vec![n; n as usize]).unwrap();
        assert_eq!(chain.len(), n as usize + 2);
        assert!(matches!(chain.verify(), Ok(true)));
    }
}

#[test]
fn extend_pushes_each_item_in_order() {
    let mut chain = Chain::default();
    chain
        .extend(vec![
            "Hello".as_bytes().to_vec(),
            "world".as_bytes().to_vec(),
            "multiple".as_bytes().to_vec(),
            "data".as_bytes().to_vec(),
        ])
        .unwrap();
    assert_eq!(chain.len(), 5);
    assert_eq!(chain.get(1).unwrap().data.inner, b"Hello".to_vec());
    assert_eq!(chain.get(2).unwrap().data.inner, b"world".to_vec());
    assert_eq!(chain.get(3).unwrap().data.inner, b"multiple".to_vec());
    assert_eq!(chain.get(4).unwrap().data.inner, b"data".to_vec());
    assert!(matches!(chain.verify(), Ok(true)));
}

#[test]
fn extend_with_nothing_changes_nothing() {
    let mut chain = Chain::default();
    chain.push(b"one".to_vec()).unwrap();
    chain.extend(Vec::new()).unwrap();
    assert_eq!(chain.len(), 2);
    assert!(matches!(chain.verify(), Ok(true)));
}

#[test]
fn extend_after_push() {
    let mut chain = Chain::default();
    chain
        .push(b"one".to_vec())
        .unwrap()
        .extend(vec![b"two".to_vec(), b"three".to_vec()])
        .unwrap()
        .push(b"four".to_vec())
        .unwrap();
    assert_eq!(chain.len(), 5);
    assert!(matches!(chain.verify(), Ok(true)));
}

#[test]
fn corrupted_hash_breaks_the_chain_at_that_block() {
    let items: [&[u8]; 5] = [b"d1", b"d2", b"d3", b"d4", b"d5"];
    let blocks = blocks_of(&items);
    let mut intact = Chain::default();
    intact.extend_ext(blocks.clone());
    assert_eq!(intact.len(), 6);
    assert!(matches!(intact.verify(), Ok(true)));

    for at in 0..blocks.len() {
        let mut corrupted = blocks.clone();
        let mut bytes = [0u8; 32];
        bytes[at] = 1;
        corrupted[at].hash = onft::hash::Hash::from(bytes);
        let mut chain = Chain::default();
        chain.extend_ext(corrupted);
        assert!(matches!(chain.verify(), Ok(false)));

        // The blocks before the corrupted one verify as they did, and the
        // chain up to it is intact.
        for before in 1..=at {
            let block = chain.get(before).unwrap();
            let previous = chain.get(before - 1).unwrap();
            assert!(matches!(block.verify(&previous.hash), Ok(true)));
        }
        let block = chain.get(at + 1).unwrap();
        let previous = chain.get(at).unwrap();
        assert!(matches!(block.verify(&previous.hash), Ok(false)));
        let mut upto = Chain::default();
        upto.extend_ext(blocks[..at].to_vec());
        assert!(matches!(upto.verify(), Ok(true)));
    }
}

#[test]
fn verify_stops_at_the_first_block_that_fails() {
    let items: [&[u8]; 3] = [b"d1", b"d2", b"d3"];
    let mut blocks = blocks_of(&items);
    // The second block no longer verifies; the third cannot be verified at
    // all, which is not found out.
    blocks[1].data.inner.push(0);
    blocks[2].ownership = Ownership::Them(PublicKey::from_raw(vec![1, 2, 3]));
    let mut chain = Chain::default();
    chain.extend_ext(blocks);
    assert!(matches!(chain.verify(), Ok(false)));
}

#[test]
fn verify_fails_on_a_block_that_cannot_be_verified() {
    let items: [&[u8]; 3] = [b"d1", b"d2", b"d3"];
    let mut blocks = blocks_of(&items);
    blocks[1].ownership = Ownership::Them(PublicKey::from_raw(vec![1, 2, 3]));
    blocks[2].data.inner.push(0);
    let mut chain = Chain::default();
    chain.extend_ext(blocks);
    assert!(matches!(chain.verify(), Err(Error::Verifier(_))));
}

#[test]
fn verify_fails_on_a_second_genesis_block() {
    let mut chain = Chain::default();
    chain.push(b"one".to_vec()).unwrap();
    chain.push_ext(Block::default());
    assert_eq!(chain.len(), 3);
    assert!(matches!(chain.verify(), Err(Error::GenesisIsNotKey)));
}

#[test]
fn push_ext_appends_the_block_as_it_is() {
    let block = Block::new(&onft::hash::Hash::from([3; 32]), b"elsewhere".to_vec()).unwrap();
    let mut chain = Chain::default();
    chain.push_ext(block.clone()).push_ext(block.clone());
    assert_eq!(chain.len(), 3);
    assert_eq!(chain.get(1).unwrap().hash, block.hash);
    assert_eq!(chain.get(2).unwrap().hash, block.hash);
    assert!(matches!(chain.verify(), Ok(false)));
}

#[test]
fn extend_ext_appends_the_blocks_in_order() {
    let items: [&[u8]; 3] = [b"d1", b"d2", b"d3"];
    let blocks = blocks_of(&items);
    let mut chain = Chain::default();
    chain.push(b"zero".to_vec()).unwrap();
    chain.extend_ext(blocks.clone());
    assert_eq!(chain.len(), 5);
    for (at, block) in blocks.iter().enumerate() {
        assert_eq!(chain.get(at + 2).unwrap().hash, block.hash);
    }
    // The first of the blocks was made after the genesis block, not after
    // the block that it now follows.
    assert!(matches!(chain.verify(), Ok(false)));
}

#[test]
fn clear_restores_the_genesis_block_alone() {
    let mut chain = Chain::default();
    chain.clear();
    assert_eq!(chain.len(), 1);

    chain.extend(vec![b"a".to_vec(), b"b".to_vec(), b"c".to_vec()]).unwrap();
    chain.push_ext(Block::default());
    assert_eq!(chain.len(), 5);
    chain.clear();
    assert_eq!(chain.len(), 1);
    let genesis = chain.get(0).unwrap();
    assert_eq!(genesis.hash, onft::hash::Hash::default());
    assert!(matches!(genesis.ownership, Ownership::Genesis));
    assert!(matches!(chain.verify(), Ok(true)));

    chain.push(b"again".to_vec()).unwrap();
    assert_eq!(chain.len(), 2);
    assert!(matches!(chain.verify(), Ok(true)));
}

#[test]
fn cloned_chain_is_the_same_chain() {
    let mut chain = Chain::default();
    chain.extend(vec![b"a".to_vec(), b"b".to_vec()]).unwrap();
    let mut copy = chain.clone();
    assert_eq!(copy.len(), 3);
    for at in 0..3 {
        assert_eq!(copy.get(at).unwrap().hash, chain.get(at).unwrap().hash);
    }
    assert!(matches!(copy.verify(), Ok(true)));
    copy.clear();
    assert_eq!(chain.len(), 3);
}
