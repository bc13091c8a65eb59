//! Marshaling between tabular database results and structured values.
//!
//! The [`de`] module turns a result (rows of scalar values) into the shape a
//! caller asks for: a list of records, a list of scalars, a single record or
//! a single scalar. It refuses every shape that would leave a row or a
//! column unread. The [`ser`] module goes the other way and matches the
//! primitive values of a structured value, one by one, against an ordered
//! list of parameter descriptors.
//!
//! The crate is meant for the authors of database drivers. A driver supplies
//! its value, row, result and descriptor types through the traits defined
//! here; the [`plain`] module holds a ready-made set of such types.
pub mod de;
pub mod plain;
pub mod ser;
