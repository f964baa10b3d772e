//! Generation plans for the wrapped domain types.
//!
//! Each wrapper owns exactly the material that determines one instance of
//! its domain type: the seed that keys the sub-generator handed to the
//! type's constructor, plus, where the construction reads further choices
//! from the stream, those choices (the record opening's freeze flag, the
//! accumulator tree's ordered leaf seeds).  Construction consumes the
//! stream strictly left to right; a wrapper that cannot get all the bytes
//! it needs reports exhaustion and leaves the stream untouched.

use vstd::prelude::*;
use crate::construct::FromByteStream;
use crate::seed::Seed;
use crate::seed::SEED_BYTES;
use crate::stream::ByteStream;
use crate::stream::GenerationError;

verus! {

/// Bytes a nullifier plan consumes: one sub-generator seed.
pub const NULLIFIER_BYTES: usize = SEED_BYTES;

/// Bytes a base-field-element plan consumes: one sub-generator seed.
pub const BASE_FIELD_BYTES: usize = SEED_BYTES;

/// Bytes a record-opening plan consumes: one sub-generator seed and one
/// freeze-flag selector byte.
pub const RECORD_OPENING_BYTES: usize = SEED_BYTES + 1;

/// Bytes a receiver-memo plan consumes: its own sub-generator seed followed
/// by a full record-opening plan.
pub const MEMO_BYTES: usize = SEED_BYTES + RECORD_OPENING_BYTES;

/// Bytes a user-key-pair plan consumes: one sub-generator seed.
pub const USER_KEY_PAIR_BYTES: usize = SEED_BYTES;

/// Bytes a user-address plan consumes: exactly what the key pair it is
/// projected from consumes, and nothing of its own.
pub const USER_ADDRESS_BYTES: usize = USER_KEY_PAIR_BYTES;

/// Bytes a signing-key-pair plan consumes: one sub-generator seed.
pub const KEY_PAIR_BYTES: usize = SEED_BYTES;

/// Leaves inserted into the accumulator tree, in generation order.
pub const MERKLE_TREE_LEAVES: usize = 15;

/// Fixed depth of the accumulator tree.
pub const MERKLE_TREE_DEPTH: u8 = 3;

/// Bytes an accumulator-tree plan consumes: one base-field seed per leaf.
pub const MERKLE_TREE_BYTES: usize = MERKLE_TREE_LEAVES * SEED_BYTES;

/// Two-state tag on a record opening.
#[derive(Clone, Copy, Debug, PartialEq, Eq, Hash, Structural)]
pub enum FreezeFlag {
    Frozen,
    Unfrozen,
}

/// The flag a selector byte picks: the byte's parity chooses between the
/// two states, an even byte selecting frozen.
pub open spec fn flag_of_selector(b: u8) -> FreezeFlag {
    if b % 2 == 0 {
        FreezeFlag::Frozen
    } else {
        FreezeFlag::Unfrozen
    }
}

/// Plan for one nullifier: the seed that keys the sub-generator handed to
/// the nullifier sampler.
#[derive(Clone, Debug, PartialEq, Eq, Hash)]
pub struct ArbitraryNullifier {
    seed: Seed,
}

impl ArbitraryNullifier {
    /// The bytes of the seed that determine the nullifier.
    pub closed spec fn seed_spec(self) -> Seq<u8> {
        self.seed@
    }

    /// The underlying seed value.
    pub closed spec fn unwrap_spec(self) -> Seed {
        self.seed
    }

    /// The wrapper holding `seed`.
    pub closed spec fn wrap_spec(seed: Seed) -> ArbitraryNullifier {
        ArbitraryNullifier { seed }
    }

    pub open spec fn wf(self) -> bool {
        self.seed_spec().len() == SEED_BYTES
    }

    /// Wrap a seed obtained elsewhere, so that externally produced values
    /// can be compared against generated ones.
    pub fn wrap(seed: Seed) -> (w: ArbitraryNullifier)
        ensures
            w == ArbitraryNullifier::wrap_spec(seed),
    {
        ArbitraryNullifier { seed }
    }

    /// Unwrap into the underlying seed value; nothing is lost or altered.
    pub fn unwrap(self) -> (s: Seed)
        ensures
            s == self.unwrap_spec(),
    {
        self.seed
    }

    /// The seed that keys this plan's sub-generator.
    pub fn seed(&self) -> (r: &Seed)
        ensures
            r@ == self.seed_spec(),
    {
        &self.seed
    }
}

impl FromByteStream for ArbitraryNullifier {
    open spec fn min_bytes() -> nat {
        NULLIFIER_BYTES as nat
    }

    /// The plan `bytes` determines: the block is the seed, entire.
    open spec fn is_plan_of(self, bytes: Seq<u8>) -> bool {
        self.wf() && self.seed_spec() == bytes
    }

    fn construct_from_stream(stream: &mut ByteStream) -> (r: Result<
        ArbitraryNullifier,
        GenerationError,
    >) {
        let seed = Seed::from_stream(stream)?;
        Ok(ArbitraryNullifier { seed })
    }
}

/// Unwrapping a wrapper, wrapping the value again, and unwrapping once
/// more gives back the very same underlying value: wrapping is lossless.
pub proof fn lemma_nullifier_unwrap_round_trip(w: ArbitraryNullifier)
    ensures
        ArbitraryNullifier::wrap_spec(w.unwrap_spec()).unwrap_spec() == w.unwrap_spec(),
{
}

/// Wrap and unwrap are mutual inverses on every value, in both orders.
pub proof fn lemma_nullifier_wrap_bijection(seed: Seed, w: ArbitraryNullifier)
    ensures
        ArbitraryNullifier::wrap_spec(seed).unwrap_spec() == seed,
        ArbitraryNullifier::wrap_spec(w.unwrap_spec()) == w,
{
}

/// Plan for one base-field element: the seed that keys the sub-generator
/// handed to the uniform field sampler.
#[derive(Clone, Debug, PartialEq, Eq, Hash)]
pub struct ArbitraryBaseField {
    seed: Seed,
}

impl ArbitraryBaseField {
    /// The bytes of the seed that determine the field element.
    pub closed spec fn seed_spec(self) -> Seq<u8> {
        self.seed@
    }

    pub open spec fn wf(self) -> bool {
        self.seed_spec().len() == SEED_BYTES
    }

    /// The seed that keys this plan's sub-generator.
    pub fn seed(&self) -> (r: &Seed)
        ensures
            r@ == self.seed_spec(),
    {
        &self.seed
    }
}

impl FromByteStream for ArbitraryBaseField {
    open spec fn min_bytes() -> nat {
        BASE_FIELD_BYTES as nat
    }

    /// The plan `bytes` determines: the block is the seed, entire.
    open spec fn is_plan_of(self, bytes: Seq<u8>) -> bool {
        self.wf() && self.seed_spec() == bytes
    }

    fn construct_from_stream(stream: &mut ByteStream) -> (r: Result<
        ArbitraryBaseField,
        GenerationError,
    >) {
        let seed = Seed::from_stream(stream)?;
        Ok(ArbitraryBaseField { seed })
    }
}

/// Plan for one record opening: a sub-generator seed for the dummy-record
/// constructor, and the freeze flag read from the stream as one selector
/// byte after the seed.
#[derive(Clone, Debug, PartialEq, Eq, Hash)]
pub struct ArbitraryRecordOpening {
    seed: Seed,
    flag: FreezeFlag,
}

impl ArbitraryRecordOpening {
    /// The bytes of the seed that determine the record opening.
    pub closed spec fn seed_spec(self) -> Seq<u8> {
        self.seed@
    }

    /// The freeze flag the selector byte picked.
    pub closed spec fn flag_spec(self) -> FreezeFlag {
        self.flag
    }

    pub open spec fn wf(self) -> bool {
        self.seed_spec().len() == SEED_BYTES
    }

    /// The seed that keys this plan's sub-generator.
    pub fn seed(&self) -> (r: &Seed)
        ensures
            r@ == self.seed_spec(),
    {
        &self.seed
    }

    /// The freeze flag that was read from the stream.
    pub fn flag(&self) -> (f: FreezeFlag)
        ensures
            f == self.flag_spec(),
    {
        self.flag
    }
}

impl FromByteStream for ArbitraryRecordOpening {
    open spec fn min_bytes() -> nat {
        RECORD_OPENING_BYTES as nat
    }

    /// The plan `bytes` determines: the seed is the block before the
    /// selector byte, and the flag is the selector's parity.
    open spec fn is_plan_of(self, bytes: Seq<u8>) -> bool {
        &&& self.wf()
        &&& self.seed_spec() == bytes.take(SEED_BYTES as int)
        &&& self.flag_spec() == flag_of_selector(bytes[SEED_BYTES as int])
    }

    fn construct_from_stream(stream: &mut ByteStream) -> (r: Result<
        ArbitraryRecordOpening,
        GenerationError,
    >) {
        if stream.remaining() < RECORD_OPENING_BYTES {
            return Err(GenerationError::Exhausted);
        }
        let seed = Seed::from_stream(stream)?;
        let selector = stream.read_byte()?;
        let flag = if selector % 2 == 0 {
            FreezeFlag::Frozen
        } else {
            FreezeFlag::Unfrozen
        };
        proof {
            let rest0: Seq<u8> = old(stream).rest();
            let pref: Seq<u8> = rest0.take(RECORD_OPENING_BYTES as int);
            assert(pref.take(SEED_BYTES as int) =~= rest0.take(SEED_BYTES as int));
            assert(pref[SEED_BYTES as int] == rest0.skip(SEED_BYTES as int)[0]);
            assert(rest0.skip(SEED_BYTES as int).skip(1) =~= rest0.skip(
                RECORD_OPENING_BYTES as int,
            ));
        }
        Ok(ArbitraryRecordOpening { seed, flag })
    }
}

/// Plan for one receiver memo: a sub-generator seed for the memo
/// constructor itself, followed by the record-opening plan the memo is
/// derived from, both drawn sequentially from the same stream.
#[derive(Clone, Debug, PartialEq, Eq, Hash)]
pub struct ArbitraryReceiverMemo {
    seed: Seed,
    record_opening: ArbitraryRecordOpening,
}

impl ArbitraryReceiverMemo {
    /// The bytes of the seed that key the memo constructor's sub-generator.
    pub closed spec fn seed_spec(self) -> Seq<u8> {
        self.seed@
    }

    /// The record-opening plan the memo is derived from.
    pub closed spec fn record_opening_spec(self) -> ArbitraryRecordOpening {
        self.record_opening
    }

    pub open spec fn wf(self) -> bool {
        self.seed_spec().len() == SEED_BYTES && self.record_opening_spec().wf()
    }

    /// The seed that keys the memo constructor's sub-generator.
    pub fn seed(&self) -> (r: &Seed)
        ensures
            r@ == self.seed_spec(),
    {
        &self.seed
    }

    /// The record-opening plan the memo is derived from.
    pub fn record_opening(&self) -> (r: &ArbitraryRecordOpening)
        ensures
            *r == self.record_opening_spec(),
    {
        &self.record_opening
    }
}

impl FromByteStream for ArbitraryReceiverMemo {
    open spec fn min_bytes() -> nat {
        MEMO_BYTES as nat
    }

    /// The plan `bytes` determines: the memo's own seed comes first, and
    /// everything after it is the record opening's material, consumed
    /// sequentially with no byte skipped or reused.
    open spec fn is_plan_of(self, bytes: Seq<u8>) -> bool {
        &&& self.wf()
        &&& self.seed_spec() == bytes.take(SEED_BYTES as int)
        &&& self.record_opening_spec().is_plan_of(bytes.skip(SEED_BYTES as int))
    }

    fn construct_from_stream(stream: &mut ByteStream) -> (r: Result<
        ArbitraryReceiverMemo,
        GenerationError,
    >) {
        if stream.remaining() < MEMO_BYTES {
            return Err(GenerationError::Exhausted);
        }
        let seed = Seed::from_stream(stream)?;
        let record_opening = ArbitraryRecordOpening::construct_from_stream(stream)?;
        proof {
            let rest0: Seq<u8> = old(stream).rest();
            let pref: Seq<u8> = rest0.take(MEMO_BYTES as int);
            assert(pref.take(SEED_BYTES as int) =~= rest0.take(SEED_BYTES as int));
            assert(pref.skip(SEED_BYTES as int) =~= rest0.skip(SEED_BYTES as int).take(
                RECORD_OPENING_BYTES as int,
            ));
            assert(rest0.skip(SEED_BYTES as int).skip(RECORD_OPENING_BYTES as int) =~= rest0.skip(
                MEMO_BYTES as int,
            ));
        }
        Ok(ArbitraryReceiverMemo { seed, record_opening })
    }
}

/// A memo plan is determined piecewise, in order: its own seed by the
/// block's first seed-sized piece, its record opening by everything after
/// it, and the block's length is the sum of what the two constituent
/// generations consume when invoked independently in the same order.
pub proof fn lemma_memo_sequential_consumption(w: ArbitraryReceiverMemo, bytes: Seq<u8>)
    requires
        w.is_plan_of(bytes),
    ensures
        ArbitraryReceiverMemo::min_bytes() == SEED_BYTES + ArbitraryRecordOpening::min_bytes(),
        w.seed_spec() == bytes.take(SEED_BYTES as int),
        w.record_opening_spec().is_plan_of(bytes.skip(SEED_BYTES as int)),
{
}

/// Plan for one user key pair: the seed that keys the sub-generator handed
/// to the key-pair generator.
#[derive(Clone, Debug, PartialEq, Eq, Hash)]
pub struct ArbitraryUserKeyPair {
    seed: Seed,
}

impl ArbitraryUserKeyPair {
    /// The bytes of the seed that determine the key pair.
    pub closed spec fn seed_spec(self) -> Seq<u8> {
        self.seed@
    }

    pub open spec fn wf(self) -> bool {
        self.seed_spec().len() == SEED_BYTES
    }

    /// The seed that keys this plan's sub-generator.
    pub fn seed(&self) -> (r: &Seed)
        ensures
            r@ == self.seed_spec(),
    {
        &self.seed
    }
}

impl FromByteStream for ArbitraryUserKeyPair {
    open spec fn min_bytes() -> nat {
        USER_KEY_PAIR_BYTES as nat
    }

    /// The plan `bytes` determines: the block is the seed, entire.
    open spec fn is_plan_of(self, bytes: Seq<u8>) -> bool {
        self.wf() && self.seed_spec() == bytes
    }

    fn construct_from_stream(stream: &mut ByteStream) -> (r: Result<
        ArbitraryUserKeyPair,
        GenerationError,
    >) {
        let seed = Seed::from_stream(stream)?;
        Ok(ArbitraryUserKeyPair { seed })
    }
}

/// Plan for one user address: the address is the public projection of a
/// user key pair, so the plan is exactly a key-pair plan and consumes no
/// independent randomness of its own.
#[derive(Clone, Debug, PartialEq, Eq, Hash)]
pub struct ArbitraryUserAddress {
    key_pair: ArbitraryUserKeyPair,
}

impl ArbitraryUserAddress {
    /// The key-pair plan whose public projection the address is.
    pub closed spec fn key_pair_spec(self) -> ArbitraryUserKeyPair {
        self.key_pair
    }

    pub open spec fn wf(self) -> bool {
        self.key_pair_spec().wf()
    }

    /// The key-pair plan whose public projection the address is; the
    /// signing material is kept only as far as it determines the address.
    pub fn key_pair(&self) -> (r: &ArbitraryUserKeyPair)
        ensures
            *r == self.key_pair_spec(),
    {
        &self.key_pair
    }
}

impl FromByteStream for ArbitraryUserAddress {
    open spec fn min_bytes() -> nat {
        USER_ADDRESS_BYTES as nat
    }

    /// The plan `bytes` determines: exactly the key-pair plan of the same
    /// block; the address draws nothing of its own from the stream.
    open spec fn is_plan_of(self, bytes: Seq<u8>) -> bool {
        self.key_pair_spec().is_plan_of(bytes)
    }

    fn construct_from_stream(stream: &mut ByteStream) -> (r: Result<
        ArbitraryUserAddress,
        GenerationError,
    >) {
        let key_pair = ArbitraryUserKeyPair::construct_from_stream(stream)?;
        Ok(ArbitraryUserAddress { key_pair })
    }
}

/// The address plan consumes exactly what the key-pair plan it is
/// projected from consumes: no independent randomness is drawn beyond the
/// key-pair construction.
pub proof fn lemma_address_consumption()
    ensures
        ArbitraryUserAddress::min_bytes() == ArbitraryUserKeyPair::min_bytes(),
{
}

/// Plan for one signing key pair: the seed that keys the sub-generator
/// handed to the signature-key generator.
#[derive(Clone, Debug, PartialEq, Eq, Hash)]
pub struct ArbitraryKeyPair {
    seed: Seed,
}

impl ArbitraryKeyPair {
    /// The bytes of the seed that determine the key pair.
    pub closed spec fn seed_spec(self) -> Seq<u8> {
        self.seed@
    }

    pub open spec fn wf(self) -> bool {
        self.seed_spec().len() == SEED_BYTES
    }

    /// The seed that keys this plan's sub-generator.
    pub fn seed(&self) -> (r: &Seed)
        ensures
            r@ == self.seed_spec(),
    {
        &self.seed
    }
}

impl FromByteStream for ArbitraryKeyPair {
    open spec fn min_bytes() -> nat {
        KEY_PAIR_BYTES as nat
    }

    /// The plan `bytes` determines: the block is the seed, entire.
    open spec fn is_plan_of(self, bytes: Seq<u8>) -> bool {
        self.wf() && self.seed_spec() == bytes
    }

    fn construct_from_stream(stream: &mut ByteStream) -> (r: Result<
        ArbitraryKeyPair,
        GenerationError,
    >) {
        let seed = Seed::from_stream(stream)?;
        Ok(ArbitraryKeyPair { seed })
    }
}

/// Plan for one accumulator tree of the fixed shape: depth
/// `MERKLE_TREE_DEPTH`, with exactly `MERKLE_TREE_LEAVES` leaves, each an
/// independently generated base-field element, inserted in generation
/// order (insertion order defines leaf position and is never reordered).
#[derive(Clone, Debug, PartialEq, Eq, Hash)]
pub struct ArbitraryMerkleTree {
    leaves: Vec<ArbitraryBaseField>,
}

impl ArbitraryMerkleTree {
    /// The leaf plans, in insertion order.
    pub closed spec fn leaves_spec(self) -> Seq<ArbitraryBaseField> {
        self.leaves@
    }

    pub open spec fn wf(self) -> bool {
        &&& self.leaves_spec().len() == MERKLE_TREE_LEAVES
        &&& forall|i: int|
            0 <= i < self.leaves_spec().len() ==> (#[trigger] self.leaves_spec()[i]).wf()
    }

    /// How many leaves the tree receives.
    pub fn leaf_count(&self) -> (n: usize)
        ensures
            n == self.leaves_spec().len(),
    {
        self.leaves.len()
    }

    /// The fixed depth the tree is built with.
    pub fn depth(&self) -> (d: u8)
        ensures
            d == MERKLE_TREE_DEPTH,
    {
        MERKLE_TREE_DEPTH
    }

    /// The `i`-th leaf plan, in insertion order.
    pub fn leaf(&self, i: usize) -> (r: &ArbitraryBaseField)
        requires
            i < self.leaves_spec().len(),
        ensures
            *r == self.leaves_spec()[i as int],
    {
        &self.leaves[i]
    }
}

impl FromByteStream for ArbitraryMerkleTree {
    open spec fn min_bytes() -> nat {
        MERKLE_TREE_BYTES as nat
    }

    /// The plan `bytes` determines: leaf `i` is the base-field plan of the
    /// `i`-th seed-sized piece of the block, so insertion order is exactly
    /// generation order.
    open spec fn is_plan_of(self, bytes: Seq<u8>) -> bool {
        &&& self.wf()
        &&& forall|i: int|
            0 <= i < MERKLE_TREE_LEAVES ==> (#[trigger] self.leaves_spec()[i]).is_plan_of(
                bytes.skip(i * (SEED_BYTES as int)).take(SEED_BYTES as int),
            )
    }

    fn construct_from_stream(stream: &mut ByteStream) -> (r: Result<
        ArbitraryMerkleTree,
        GenerationError,
    >) {
        if stream.remaining() < MERKLE_TREE_BYTES {
            return Err(GenerationError::Exhausted);
        }
        let mut leaves: Vec<ArbitraryBaseField> = Vec::new();
        let mut j: usize = 0;
        while j < MERKLE_TREE_LEAVES
            invariant
                j <= MERKLE_TREE_LEAVES,
                stream.wf(),
                old(stream).rest().len() >= MERKLE_TREE_BYTES,
                stream.rest() == old(stream).rest().skip((j as int) * (SEED_BYTES as int)),
                leaves@.len() == j,
                forall|i: int|
                    0 <= i < j ==> (#[trigger] leaves@[i]).is_plan_of(
                        old(stream).rest().skip(i * (SEED_BYTES as int)).take(SEED_BYTES as int),
                    ),
            decreases MERKLE_TREE_LEAVES - j,
        {
            let leaf = ArbitraryBaseField::construct_from_stream(stream)?;
            proof {
                assert(old(stream).rest().skip((j as int) * (SEED_BYTES as int)).skip(
                    SEED_BYTES as int,
                ) =~= old(stream).rest().skip(((j + 1) as int) * (SEED_BYTES as int)));
            }
            leaves.push(leaf);
            j += 1;
        }
        proof {
            let rest0: Seq<u8> = old(stream).rest();
            let pref: Seq<u8> = rest0.take(MERKLE_TREE_BYTES as int);
            assert forall|i: int|
                0 <= i < MERKLE_TREE_LEAVES implies (#[trigger] leaves@[i]).is_plan_of(
                pref.skip(i * (SEED_BYTES as int)).take(SEED_BYTES as int),
            ) by {
                assert(pref.skip(i * (SEED_BYTES as int)).take(SEED_BYTES as int) =~= rest0.skip(
                    i * (SEED_BYTES as int),
                ).take(SEED_BYTES as int));
            }
        }
        Ok(ArbitraryMerkleTree { leaves })
    }
}

/// The tree plan consumes exactly one seed-sized block per leaf: the total
/// is the sum, in order, of what each of its fifteen leaf generations
/// consumes on its own.
pub proof fn lemma_tree_consumption()
    ensures
        ArbitraryMerkleTree::min_bytes() == MERKLE_TREE_LEAVES * ArbitraryBaseField::min_bytes(),
{
}

} // verus!
