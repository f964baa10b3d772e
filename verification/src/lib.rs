//! Generation plans for cryptographic domain objects, derived from a finite
//! byte stream.
//!
//! A fuzzing or property-test harness supplies a flat byte buffer; this
//! library consumes a prefix of it, left to right, and produces for each
//! supported domain type (nullifier, base-field element, record opening,
//! receiver memo, user key pair, user address, signing key pair, accumulator
//! tree) the material that fully determines one instance of that type: the
//! fixed-size seeds that key the per-call sub-generators, the freeze-flag
//! selection for record openings, and the ordered leaf seeds of the
//! accumulator tree.  All randomness is a pure function of the input bytes,
//! so a replay of the identical buffer reproduces the identical objects.

pub mod chacha;
pub mod construct;
pub mod seed;
pub mod stream;
pub mod wrappers;

pub use construct::FromByteStream;
pub use seed::Seed;
pub use seed::SEED_BYTES;
pub use stream::ByteStream;
pub use stream::GenerationError;
pub use wrappers::ArbitraryBaseField;
pub use wrappers::ArbitraryKeyPair;
pub use wrappers::ArbitraryMerkleTree;
pub use wrappers::ArbitraryNullifier;
pub use wrappers::ArbitraryReceiverMemo;
pub use wrappers::ArbitraryRecordOpening;
pub use wrappers::ArbitraryUserAddress;
pub use wrappers::ArbitraryUserKeyPair;
pub use wrappers::FreezeFlag;
