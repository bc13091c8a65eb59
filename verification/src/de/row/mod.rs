//! A reusable row: an implementation of
//! [`DeserializableRow`](crate::de::DeserializableRow) for drivers that
//! keep the values of a row in memory.
mod metadata;
mod row;

pub use self::metadata::Metadata;
pub use self::row::Row;
