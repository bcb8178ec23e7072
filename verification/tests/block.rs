use onft::block::{Block, BlockData, Ownership};
use onft::error::Error;
use onft::key::{KeyPair, PublicKey};

const SHA256_ABC: [u8; 32] = [
    186, 120, 22, 191, 143, 1, 207, 234, 65, 65, 64, 222, 93, 174, 34, 35, 176, 3, 97, 163, 150,
    23, 122, 156, 180, 16, 255, 97, 242, 0, 21, 173,
];

const SHA256_EMPTY: [u8; 32] = [
    227, 176, 196, 66, 152, 252, 28, 20, 154, 251, 244, 200, 153, 111, 185, 36, 39, 174, 65, 228,
    100, 155, 147, 76, 164, 149, 153, 27, 120, 82, 184, 85,
];

const PRIVATE: [u8; 32] = [
    157, 97, 177, 157, 239, 253, 90, 96, 186, 132, 74, 244, 146, 236, 44, 196, 68, 73, 197, 105,
    123, 50, 105, 25, 112, 59, 172, 3, 28, 174, 127, 96,
];

const PUBLIC: [u8; 32] = [
    215, 90, 152, 1, 130, 177, 10, 183, 213, 75, 254, 211, 201, 100, 7, 58, 14, 225, 114, 243, 218,
    166, 35, 37, 175, 2, 26, 104, 247, 7, 81, 26,
];

#[test]
fn block_data_holds_the_digest_of_its_data() {
    let data = BlockData::new(b"abc".to_vec()).unwrap();
    assert_eq!(data.inner, b"abc".to_vec());
    assert_eq!(data.hash, SHA256_ABC);
}

#[test]
fn block_data_of_nothing() {
    let data = BlockData::new(Vec::new()).unwrap();
    assert!(data.inner.is_empty());
    assert_eq!(data.hash, SHA256_EMPTY);
}

#[test]
fn default_block_data_is_the_genesis_data() {
    let data = BlockData::default();
    assert!(data.inner.is_empty());
    assert_eq!(data.hash, onft::DEFAULT_GENESIS);
}

#[test]
fn block_data_compares_data_and_digest() {
    let data = BlockData::new(b"abc".to_vec()).unwrap();
    assert_eq!(data, data.clone());
    assert_ne!(data, BlockData::new(b"abd".to_vec()).unwrap());
    assert_ne!(data, BlockData::new(b"ab".to_vec()).unwrap());
    let mut other = data.clone();
    other.hash[0] ^= 1;
    assert_ne!(data, other);
}

#[test]
fn block_data_converts_into_its_parts() {
    let data = BlockData::new(b"abc".to_vec()).unwrap();
    let digest: [u8; 32] = (&data).into();
    assert_eq!(digest, SHA256_ABC);
    let bytes: &[u8] = (&data).into();
    assert_eq!(bytes, &b"abc"[..]);
    let digest: [u8; 32] = data.clone().into();
    assert_eq!(digest, SHA256_ABC);
    let inner: Vec<u8> = data.into();
    assert_eq!(inner, b"abc".to_vec());
}

#[test]
fn default_block_is_the_genesis_block() {
    let block = Block::default();
    assert_eq!(block.hash, onft::hash::Hash::default());
    assert!(matches!(block.ownership, Ownership::Genesis));
    assert_eq!(block.signature, [0u8; 64]);
    assert_eq!(block.data, BlockData::default());
}

#[test]
fn new_block_verifies_after_its_predecessor() {
    let genesis = Block::default();
    for data in [&b"a"[..], &b"Hello, world!"[..], &[255u8; 300][..], &b""[..]] {
        let block = Block::new(&genesis.hash, data.to_vec()).unwrap();
        assert_eq!(block.data.inner, data.to_vec());
        assert!(matches!(block.ownership, Ownership::Us(_)));
        assert!(matches!(block.verify(&genesis.hash), Ok(true)));
    }
}

#[test]
fn new_block_follows_any_block() {
    let first = Block::new(&onft::hash::Hash::default(), b"first".to_vec()).unwrap();
    let second = Block::new(&first.hash, b"second".to_vec()).unwrap();
    assert!(matches!(second.verify(&first.hash), Ok(true)));
    assert!(matches!(second.verify(&onft::hash::Hash::default()), Ok(false)));
    assert_ne!(first.hash, second.hash);
}

#[test]
fn new_blocks_of_the_same_data_differ() {
    let genesis = onft::hash::Hash::default();
    let first = Block::new(&genesis, b"same".to_vec()).unwrap();
    let second = Block::new(&genesis, b"same".to_vec()).unwrap();
    assert_ne!(first.signature, second.signature);
    assert_ne!(first.hash, second.hash);
}

#[test]
fn new_block_holds_the_digest_of_its_data() {
    let block = Block::new(&onft::hash::Hash::default(), b"abc".to_vec()).unwrap();
    assert_eq!(block.data.hash, SHA256_ABC);
}

#[test]
fn any_changed_byte_of_data_fails() {
    let genesis = onft::hash::Hash::default();
    let block = Block::new(&genesis, b"Hello, world!".to_vec()).unwrap();
    for at in 0..block.data.inner.len() {
        let mut changed = block.clone();
        changed.data.inner[at] ^= 1;
        assert!(matches!(changed.verify(&genesis), Ok(false)));
    }
    let mut longer = block.clone();
    longer.data.inner.push(0);
    assert!(matches!(longer.verify(&genesis), Ok(false)));
    let mut shorter = block.clone();
    shorter.data.inner.pop();
    assert!(matches!(shorter.verify(&genesis), Ok(false)));
    assert!(matches!(block.verify(&genesis), Ok(true)));
}

#[test]
fn stored_digest_plays_no_part_in_verification() {
    let genesis = onft::hash::Hash::default();
    let mut block = Block::new(&genesis, b"Hello, world!".to_vec()).unwrap();
    block.data.hash = [0; 32];
    assert!(matches!(block.verify(&genesis), Ok(true)));
}

#[test]
fn any_changed_byte_of_signature_fails() {
    let genesis = onft::hash::Hash::default();
    let block = Block::new(&genesis, b"Hello, world!".to_vec()).unwrap();
    for at in 0..64 {
        let mut changed = block.clone();
        changed.signature[at] ^= 1;
        assert!(matches!(changed.verify(&genesis), Ok(false)));
    }
}

#[test]
fn any_changed_byte_of_hash_fails() {
    let genesis = onft::hash::Hash::default();
    let block = Block::new(&genesis, b"Hello, world!".to_vec()).unwrap();
    let (hash, _, _) = onft::hash::Hash::new(&genesis, b"other").unwrap();
    let mut changed = block.clone();
    changed.hash = hash;
    assert!(matches!(changed.verify(&genesis), Ok(false)));
}

#[test]
fn genesis_block_is_not_key() {
    let block = Block::default();
    assert!(matches!(
        block.verify(&onft::hash::Hash::default()),
        Err(Error::GenesisIsNotKey)
    ));
    assert!(matches!(
        block.verify(&onft::hash::Hash::from([1; 32])),
        Err(Error::GenesisIsNotKey)
    ));
    let other = Block::new(&block.hash, b"data".to_vec()).unwrap();
    assert!(matches!(block.verify(&other.hash), Err(Error::GenesisIsNotKey)));
}

#[test]
fn block_with_genesis_ownership_is_not_key() {
    let genesis = onft::hash::Hash::default();
    let mut block = Block::new(&genesis, b"data".to_vec()).unwrap();
    block.ownership = Ownership::Genesis;
    assert!(matches!(block.verify(&genesis), Err(Error::GenesisIsNotKey)));
}

#[test]
fn block_verifies_under_its_public_key_alone() {
    let genesis = onft::hash::Hash::default();
    let mut block = Block::new(&genesis, b"handed on".to_vec()).unwrap();
    let public = block.ownership.to_raw_public().unwrap();
    block.ownership = Ownership::Them(PublicKey::from_raw(public));
    assert!(matches!(block.verify(&genesis), Ok(true)));
    block.data.inner[0] ^= 1;
    assert!(matches!(block.verify(&genesis), Ok(false)));
}

#[test]
fn block_under_another_key_fails() {
    let genesis = onft::hash::Hash::default();
    let mut block = Block::new(&genesis, b"data".to_vec()).unwrap();
    block.ownership = Ownership::Us(onft::hash::gen_keypair().unwrap());
    assert!(matches!(block.verify(&genesis), Ok(false)));
    block.ownership = Ownership::Them(PublicKey::from_raw(PUBLIC.to_vec()));
    assert!(matches!(block.verify(&genesis), Ok(false)));
}

#[test]
fn block_with_a_malformed_key_cannot_be_verified() {
    let genesis = onft::hash::Hash::default();
    let mut block = Block::new(&genesis, b"data".to_vec()).unwrap();
    block.ownership = Ownership::Them(PublicKey::from_raw(vec![1, 2, 3]));
    assert!(matches!(block.verify(&genesis), Err(Error::Verifier(_))));
    block.ownership = Ownership::Us(KeyPair::from_raw(vec![1, 2, 3]));
    assert!(matches!(block.verify(&genesis), Err(Error::KeyPublic(_))));
}

#[test]
fn raw_public_key_of_each_ownership() {
    assert!(matches!(
        Ownership::Genesis.to_raw_public(),
        Err(Error::GenesisIsNotKey)
    ));
    let theirs = Ownership::Them(PublicKey::from_raw(PUBLIC.to_vec()));
    assert_eq!(theirs.to_raw_public().unwrap(), PUBLIC.to_vec());
    let ours = Ownership::Us(KeyPair::from_raw(PRIVATE.to_vec()));
    assert_eq!(ours.to_raw_public().unwrap(), PUBLIC.to_vec());
    let malformed = Ownership::Us(KeyPair::from_raw(vec![0; 5]));
    assert!(matches!(malformed.to_raw_public(), Err(Error::KeyPublic(_))));
    let unchecked = Ownership::Them(PublicKey::from_raw(vec![0; 5]));
    assert_eq!(unchecked.to_raw_public().unwrap(), vec![0; 5]);
}

#[test]
fn ownership_from_keys() {
    let ours: Ownership = KeyPair::from_raw(PRIVATE.to_vec()).into();
    assert!(matches!(ours, Ownership::Us(_)));
    let theirs: Ownership = PublicKey::from_raw(PUBLIC.to_vec()).into();
    assert!(matches!(theirs, Ownership::Them(_)));
    assert_eq!(theirs.clone().to_raw_public().unwrap(), PUBLIC.to_vec());
    assert_eq!(ours.clone().to_raw_public().unwrap(), PUBLIC.to_vec());
    assert!(matches!(Ownership::Genesis.clone(), Ownership::Genesis));
}

#[test]
fn hash_of_a_block() {
    let block = Block::new(&onft::hash::Hash::default(), b"data".to_vec()).unwrap();
    let expected = block.hash.clone();
    let by_ref: &onft::hash::Hash = (&block).into();
    assert_eq!(*by_ref, expected);
    let owned: onft::hash::Hash = block.into();
    assert_eq!(owned, expected);
}

#[test]
fn cloned_block_is_the_same_block() {
    let genesis = onft::hash::Hash::default();
    let block = Block::new(&genesis, b"data".to_vec()).unwrap();
    let copy = block.clone();
    assert_eq!(copy.hash, block.hash);
    assert_eq!(copy.signature, block.signature);
    assert_eq!(copy.data, block.data);
    assert_eq!(
        copy.ownership.to_raw_public().unwrap(),
        block.ownership.to_raw_public().unwrap()
    );
    assert!(matches!(copy.verify(&genesis), Ok(true)));
}
