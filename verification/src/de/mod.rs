//! Reading database results, rows and values into the shape a caller asks for.
//!
//! A result of R rows and C columns can always be read as a list of records.
//! Depending on its dimensions, simpler shapes are legal too:
//!
//! * a result of one row can be read as a single record;
//! * a result of one column can be read as a list of scalars;
//! * a result of one row and one column can be read as a single scalar.
//!
//! Every other combination is refused: nothing is dropped silently.
//!
//! A reader is driven by [`Hint`]s, the shapes that the target type asks
//! for one after the other, and answers each with the step to take. The
//! three readers ([`RsDeserializer`], [`RowDeserializer`] and
//! [`FieldDeserializer`]) stand for the three levels: result, row and value.
mod conversion_error;
mod db_value;
mod db_value_into;
mod deserializable_result_set;
mod deserializable_row;
mod deserialization_error;
mod field_deserializer;
mod hint;
mod need;
pub mod row;
mod row_deserializer;
mod rs_deserializer;

pub use self::conversion_error::{ConversionError, ConversionErrorView};
pub use self::db_value::DbValue;
pub use self::db_value_into::{conversion_agrees, DbValueInto};
pub use self::deserializable_result_set::DeserializableResultSet;
pub use self::deserializable_row::{cursor, next_name, DeserializableRow};
pub use self::deserialization_error::{
    DeserializationError, DeserializationErrorView, DeserializationResult,
};
pub use self::field_deserializer::{
    converted_step, field_outcome, field_plan, lifted, outcome_agrees, FieldDeserializer,
    FieldPlan, FieldStep,
};
pub use self::hint::{Hint, Leaf};
pub use self::need::{
    lemma_many_columns_refuse_collapse, lemma_many_rows_refuse_collapse,
    lemma_single_structured_read, Need, Read,
};
pub use self::row_deserializer::{
    fails_with, impl_err, is_field_name, is_usage, lemma_many_columns_refuse_scalar,
    lemma_single_column_collapses, row_answer, row_plan, FieldsMapVisitor, FieldsSeqVisitor,
    RowDeserializer, RowPlan, RowStep,
};
pub use self::rs_deserializer::{
    is_single_row, lemma_list_is_always_legal, lemma_many_rows_refuse_bare_read,
    lemma_single_row_collapses, probed, rs_answer, rs_plan, RowsVisitor, RsDeserializer, RsPlan,
    RsStep,
};
