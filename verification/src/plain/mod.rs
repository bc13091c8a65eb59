//! A plain database in memory: values, results and parameter types.
//!
//! These are ready-made implementations of the traits of [`crate::de`] and
//! [`crate::ser`], for drivers that have no types of their own, and for
//! trying the readers and the serializer out. The conversions of
//! [`Value`] are as graceful as the traits ask: a number converts into
//! every integer type that can hold it.
mod field_names;
mod laws;
mod parameter_type;
mod result_set;
mod value;

pub use self::field_names::FieldNames;
pub use self::laws::{is_text, lemma_peek_is_idempotent, lemma_round_trip};
pub use self::parameter_type::{ParameterKind, ParameterType};
pub use self::result_set::{PlainRow, ResultSet};
pub use self::value::{
    integer_into, lemma_small_int_widens, no_mapping, out_of_range, Value, ValueView,
};
