//! Data in JSON text.

pub mod raw;

pub use raw::{
    to_raw_dtype, BorrowedRawDeserializer, BoxedFromString, OwnedRawDeserializer, RawDType,
    ReferenceFromString, TOKEN,
};
