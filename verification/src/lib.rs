//! A typed transactional access layer over a single-writer/multi-reader
//! ordered byte store.
//!
//! The crate has three parts:
//! - codec traits ([`BytesEncode`], [`BytesDecode`]) with bundled codecs
//!   ([`Bytes`], [`FixedSizeBytes`], [`Str`], [`Unit`], [`SerdeJson`]) that
//!   map typed items to and from raw bytes;
//! - comparator traits ([`Comparator`], [`LexicographicComparator`]) that
//!   define the total order the store keeps its keys in;
//! - the transaction lifecycle ([`Env`], [`RoTxn`], [`RwTxn`]): read-only
//!   snapshots, a single read-write transaction at a time, nesting, and
//!   commit/abort semantics, all stated over a map view of the store.

pub mod codec;
pub mod comparator;
pub mod errors;
pub mod json;
pub mod store;
pub mod txn;
pub mod types;

pub use codec::{BytesDecode, BytesEncode};
pub use comparator::{Comparator, DefaultComparator, LexicographicComparator};
pub use errors::{CodecError, EngineError, NonEmptyError};
pub use json::SerdeJson;
pub use txn::{Env, RoTxn, RwTxn};
pub use types::{Bytes, FixedSizeBytes, Str, Unit};
