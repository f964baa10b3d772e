use arbitrary_wrappers::ArbitraryBaseField;
use arbitrary_wrappers::ArbitraryKeyPair;
use arbitrary_wrappers::ArbitraryMerkleTree;
use arbitrary_wrappers::ArbitraryNullifier;
use arbitrary_wrappers::ArbitraryReceiverMemo;
use arbitrary_wrappers::ArbitraryRecordOpening;
use arbitrary_wrappers::ArbitraryUserAddress;
use arbitrary_wrappers::ArbitraryUserKeyPair;
use arbitrary_wrappers::ByteStream;
use arbitrary_wrappers::FromByteStream;
use arbitrary_wrappers::FreezeFlag;
use arbitrary_wrappers::GenerationError;
use arbitrary_wrappers::Seed;
use arbitrary_wrappers::SEED_BYTES;
use arbitrary_wrappers::wrappers::MEMO_BYTES;
use arbitrary_wrappers::wrappers::MERKLE_TREE_BYTES;
use arbitrary_wrappers::wrappers::MERKLE_TREE_DEPTH;
use arbitrary_wrappers::wrappers::MERKLE_TREE_LEAVES;
use arbitrary_wrappers::wrappers::RECORD_OPENING_BYTES;
use rand_chacha::rand_core::RngCore;

fn counting_bytes(len: usize) -> Vec<u8> {
    (0..len).map(|i| (i % 251) as u8).collect()
}

#[test]
fn nullifier_determinism() {
    let bytes = counting_bytes(100);
    let mut s1 = ByteStream::new(bytes.clone());
    let mut s2 = ByteStream::new(bytes);
    let w1 = ArbitraryNullifier::construct_from_stream(&mut s1).unwrap();
    let w2 = ArbitraryNullifier::construct_from_stream(&mut s2).unwrap();
    assert_eq!(w1, w2);
    assert_eq!(s1.remaining(), s2.remaining());
}

#[test]
fn nullifier_consumes_seed_prefix() {
    let bytes = counting_bytes(40);
    let mut s = ByteStream::new(bytes.clone());
    let w = ArbitraryNullifier::construct_from_stream(&mut s).unwrap();
    assert_eq!(w.seed().as_bytes(), &bytes[..SEED_BYTES]);
    assert_eq!(s.remaining(), 40 - SEED_BYTES);
}

#[test]
fn nullifier_exhaustion() {
    let mut s = ByteStream::new(counting_bytes(SEED_BYTES - 1));
    let before = s.remaining();
    let r = ArbitraryNullifier::construct_from_stream(&mut s);
    assert_eq!(r, Err(GenerationError::Exhausted));
    assert_eq!(s.remaining(), before);
}

#[test]
fn nullifier_wrap_unwrap_round_trip() {
    let mut s = ByteStream::new(counting_bytes(SEED_BYTES));
    let w = ArbitraryNullifier::construct_from_stream(&mut s).unwrap();
    let unwrapped = w.clone().unwrap();
    let rewrapped = ArbitraryNullifier::wrap(unwrapped.clone());
    assert_eq!(rewrapped, w);
    assert_eq!(rewrapped.unwrap(), unwrapped);
}

#[test]
fn nullifier_wrap_external_seed() {
    let seed = Seed::from_bytes(vec![7u8; SEED_BYTES]);
    let w = ArbitraryNullifier::wrap(seed.clone());
    assert_eq!(w.unwrap(), seed);
}

#[test]
fn sub_generator_is_deterministic() {
    let seed = Seed::from_bytes(vec![9u8; SEED_BYTES]);
    let mut g1 = seed.sub_generator();
    let mut g2 = seed.sub_generator();
    for _ in 0..8 {
        assert_eq!(g1.next_u64(), g2.next_u64());
    }
}

#[test]
fn sub_generator_depends_on_seed() {
    let mut a = Seed::from_bytes(vec![0u8; SEED_BYTES]).sub_generator();
    let mut b = Seed::from_bytes(vec![1u8; SEED_BYTES]).sub_generator();
    let first: Vec<u64> = (0..4).map(|_| a.next_u64()).collect();
    let second: Vec<u64> = (0..4).map(|_| b.next_u64()).collect();
    assert_ne!(first, second);
}

#[test]
fn base_field_determinism() {
    let bytes = counting_bytes(SEED_BYTES);
    let mut s1 = ByteStream::new(bytes.clone());
    let mut s2 = ByteStream::new(bytes);
    let w1 = ArbitraryBaseField::construct_from_stream(&mut s1).unwrap();
    let w2 = ArbitraryBaseField::construct_from_stream(&mut s2).unwrap();
    assert_eq!(w1, w2);
}

#[test]
fn base_field_exhaustion_on_empty() {
    let mut s = ByteStream::new(Vec::new());
    assert_eq!(
        ArbitraryBaseField::construct_from_stream(&mut s),
        Err(GenerationError::Exhausted)
    );
}

#[test]
fn record_opening_even_selector_is_frozen() {
    let mut bytes = vec![3u8; SEED_BYTES];
    bytes.push(0x02);
    let mut s = ByteStream::new(bytes);
    let w = ArbitraryRecordOpening::construct_from_stream(&mut s).unwrap();
    assert_eq!(w.flag(), FreezeFlag::Frozen);
    assert_eq!(s.remaining(), 0);
}

#[test]
fn record_opening_odd_selector_is_unfrozen() {
    let mut bytes = vec![3u8; SEED_BYTES];
    bytes.push(0x05);
    let mut s = ByteStream::new(bytes);
    let w = ArbitraryRecordOpening::construct_from_stream(&mut s).unwrap();
    assert_eq!(w.flag(), FreezeFlag::Unfrozen);
}

#[test]
fn record_opening_missing_selector_byte_is_exhausted() {
    let mut s = ByteStream::new(vec![3u8; SEED_BYTES]);
    let before = s.remaining();
    let r = ArbitraryRecordOpening::construct_from_stream(&mut s);
    assert_eq!(r, Err(GenerationError::Exhausted));
    assert_eq!(s.remaining(), before);
}

#[test]
fn record_opening_zero_stream_scenario() {
    // A stream of 32 zero bytes followed by the selector byte 0x00 must
    // succeed and pick the flag that 0x00 mod 2 selects, reproducibly.
    let mut bytes = vec![0u8; SEED_BYTES];
    bytes.push(0x00);
    let mut s1 = ByteStream::new(bytes.clone());
    let w1 = ArbitraryRecordOpening::construct_from_stream(&mut s1).unwrap();
    assert_eq!(w1.flag(), FreezeFlag::Frozen);
    let mut s2 = ByteStream::new(bytes);
    let w2 = ArbitraryRecordOpening::construct_from_stream(&mut s2).unwrap();
    assert_eq!(w1, w2);
}

#[test]
fn memo_sequential_consumption_matches_constituents() {
    let bytes = counting_bytes(200);
    let mut whole = ByteStream::new(bytes.clone());
    let memo = ArbitraryReceiverMemo::construct_from_stream(&mut whole).unwrap();
    let consumed = 200 - whole.remaining();

    // The same bytes, consumed by the constituents invoked independently in
    // the same order: first the memo's own seed, then a record opening.
    let mut parts = ByteStream::new(bytes);
    let seed = Seed::from_stream(&mut parts).unwrap();
    let ro = ArbitraryRecordOpening::construct_from_stream(&mut parts).unwrap();
    let parts_consumed = 200 - parts.remaining();

    assert_eq!(consumed, parts_consumed);
    assert_eq!(consumed, MEMO_BYTES);
    assert_eq!(MEMO_BYTES, SEED_BYTES + RECORD_OPENING_BYTES);
    assert_eq!(memo.seed(), &seed);
    assert_eq!(memo.record_opening(), &ro);
}

#[test]
fn memo_exhaustion_leaves_stream_untouched() {
    let mut s = ByteStream::new(counting_bytes(MEMO_BYTES - 1));
    let before = s.remaining();
    let r = ArbitraryReceiverMemo::construct_from_stream(&mut s);
    assert_eq!(r, Err(GenerationError::Exhausted));
    assert_eq!(s.remaining(), before);
}

#[test]
fn user_key_pair_determinism() {
    let bytes = counting_bytes(SEED_BYTES);
    let mut s1 = ByteStream::new(bytes.clone());
    let mut s2 = ByteStream::new(bytes);
    let w1 = ArbitraryUserKeyPair::construct_from_stream(&mut s1).unwrap();
    let w2 = ArbitraryUserKeyPair::construct_from_stream(&mut s2).unwrap();
    assert_eq!(w1, w2);
}

#[test]
fn user_address_reuses_key_pair_bytes() {
    let bytes = counting_bytes(SEED_BYTES);
    let mut s1 = ByteStream::new(bytes.clone());
    let addr = ArbitraryUserAddress::construct_from_stream(&mut s1).unwrap();
    assert_eq!(s1.remaining(), 0);

    let mut s2 = ByteStream::new(bytes);
    let kp = ArbitraryUserKeyPair::construct_from_stream(&mut s2).unwrap();
    assert_eq!(addr.key_pair(), &kp);
}

#[test]
fn signing_key_pair_determinism_and_exhaustion() {
    let bytes = counting_bytes(SEED_BYTES);
    let mut s1 = ByteStream::new(bytes.clone());
    let mut s2 = ByteStream::new(bytes);
    let w1 = ArbitraryKeyPair::construct_from_stream(&mut s1).unwrap();
    let w2 = ArbitraryKeyPair::construct_from_stream(&mut s2).unwrap();
    assert_eq!(w1, w2);

    let mut short = ByteStream::new(counting_bytes(SEED_BYTES - 1));
    assert_eq!(
        ArbitraryKeyPair::construct_from_stream(&mut short),
        Err(GenerationError::Exhausted)
    );
}

#[test]
fn merkle_tree_shape() {
    let bytes = counting_bytes(MERKLE_TREE_BYTES + 11);
    let mut s = ByteStream::new(bytes.clone());
    let tree = ArbitraryMerkleTree::construct_from_stream(&mut s).unwrap();
    assert_eq!(tree.leaf_count(), MERKLE_TREE_LEAVES);
    assert_eq!(tree.depth(), MERKLE_TREE_DEPTH);
    assert_eq!(s.remaining(), 11);
    // Leaf i holds the i-th seed-sized block of the stream: generation
    // order is insertion order.
    for i in 0..MERKLE_TREE_LEAVES {
        let block = &bytes[i * SEED_BYTES..(i + 1) * SEED_BYTES];
        assert_eq!(tree.leaf(i).seed().as_bytes(), block);
    }
}

#[test]
fn merkle_tree_determinism() {
    let bytes = counting_bytes(MERKLE_TREE_BYTES);
    let mut s1 = ByteStream::new(bytes.clone());
    let mut s2 = ByteStream::new(bytes);
    let t1 = ArbitraryMerkleTree::construct_from_stream(&mut s1).unwrap();
    let t2 = ArbitraryMerkleTree::construct_from_stream(&mut s2).unwrap();
    assert_eq!(t1, t2);
}

#[test]
fn merkle_tree_exhaustion_leaves_stream_untouched() {
    let mut s = ByteStream::new(counting_bytes(MERKLE_TREE_BYTES - 1));
    let before = s.remaining();
    let r = ArbitraryMerkleTree::construct_from_stream(&mut s);
    assert_eq!(r, Err(GenerationError::Exhausted));
    assert_eq!(s.remaining(), before);
}

#[test]
fn stream_reads_are_sequential() {
    let bytes = counting_bytes(70);
    let mut s = ByteStream::new(bytes.clone());
    let first = ArbitraryNullifier::construct_from_stream(&mut s).unwrap();
    let second = ArbitraryNullifier::construct_from_stream(&mut s).unwrap();
    assert_eq!(first.seed().as_bytes(), &bytes[..SEED_BYTES]);
    assert_eq!(second.seed().as_bytes(), &bytes[SEED_BYTES..2 * SEED_BYTES]);
    assert_ne!(first, second);
    assert_eq!(s.remaining(), 70 - 2 * SEED_BYTES);
}
