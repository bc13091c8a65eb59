use crate::ser::primitive::PrimitiveView;
use crate::ser::serialization_error::{SerializationError, SerializationErrorView};
use vstd::prelude::*;

verus! {

/// A factory for database objects.
///
/// This trait is to be implemented by the descriptors of the parameters of
/// database commands. A descriptor for a string-valued database type might
/// support every conversion, while one for an integer type might only
/// support conversions from the integer types. Where the type of the value
/// has no mapping, a descriptor fails with [`SerializationError::Type`];
/// where the value does not fit, with [`SerializationError::Range`];
/// where a text cannot be parsed, with [`SerializationError::Parse`].
///
/// Its model is a relation: which outcomes the descriptor may give for
/// which value. Parameters made of floating-point numbers are a matter
/// between the driver and its caller.
pub trait DbvFactory: Sized {
    /// The type of the database objects.
    type DBV;

    /// Whether the descriptor may give the outcome for a parameter that is
    /// to be made of the value.
    spec fn builds(
        &self,
        value: PrimitiveView,
        outcome: Result<Self::DBV, SerializationErrorView>,
    ) -> bool;

    /// The descriptive text of the type that is required.
    spec fn name(&self) -> Seq<char>;

    /// Serialize a bool.
    fn serialize_bool(&self, value: bool) -> (outcome: Result<Self::DBV, SerializationError>)
        ensures
            self.builds(PrimitiveView::Bool(value), built(outcome)),
    ;

    /// Serialize an i8.
    fn serialize_i8(&self, value: i8) -> (outcome: Result<Self::DBV, SerializationError>)
        ensures
            self.builds(PrimitiveView::I8(value), built(outcome)),
    ;

    /// Serialize an i16.
    fn serialize_i16(&self, value: i16) -> (outcome: Result<Self::DBV, SerializationError>)
        ensures
            self.builds(PrimitiveView::I16(value), built(outcome)),
    ;

    /// Serialize an i32.
    fn serialize_i32(&self, value: i32) -> (outcome: Result<Self::DBV, SerializationError>)
        ensures
            self.builds(PrimitiveView::I32(value), built(outcome)),
    ;

    /// Serialize an i64.
    fn serialize_i64(&self, value: i64) -> (outcome: Result<Self::DBV, SerializationError>)
        ensures
            self.builds(PrimitiveView::I64(value), built(outcome)),
    ;

    /// Serialize an u8.
    fn serialize_u8(&self, value: u8) -> (outcome: Result<Self::DBV, SerializationError>)
        ensures
            self.builds(PrimitiveView::U8(value), built(outcome)),
    ;

    /// Serialize an u16.
    fn serialize_u16(&self, value: u16) -> (outcome: Result<Self::DBV, SerializationError>)
        ensures
            self.builds(PrimitiveView::U16(value), built(outcome)),
    ;

    /// Serialize an u32.
    fn serialize_u32(&self, value: u32) -> (outcome: Result<Self::DBV, SerializationError>)
        ensures
            self.builds(PrimitiveView::U32(value), built(outcome)),
    ;

    /// Serialize an u64.
    fn serialize_u64(&self, value: u64) -> (outcome: Result<Self::DBV, SerializationError>)
        ensures
            self.builds(PrimitiveView::U64(value), built(outcome)),
    ;

    /// Serialize a char.
    fn serialize_char(&self, value: char) -> (outcome: Result<Self::DBV, SerializationError>)
        ensures
            self.builds(PrimitiveView::Char(value), built(outcome)),
    ;

    /// Serialize a str.
    fn serialize_str(&self, value: &str) -> (outcome: Result<Self::DBV, SerializationError>)
        ensures
            self.builds(PrimitiveView::Str(value@), built(outcome)),
    ;

    /// Serialize bytes.
    fn serialize_bytes(&self, value: &[u8]) -> (outcome: Result<Self::DBV, SerializationError>)
        ensures
            self.builds(PrimitiveView::Bytes(value@), built(outcome)),
    ;

    /// Serialize a none.
    fn serialize_none(&self) -> (outcome: Result<Self::DBV, SerializationError>)
        ensures
            self.builds(PrimitiveView::Null, built(outcome)),
    ;

    /// Provide a descriptive String of the type that is required (for
    /// error messages).
    fn descriptor(&self) -> (text: String)
        ensures
            text@ == self.name(),
    ;
}

/// The outcome of a descriptor, with the error taken by its content.
pub open spec fn built<DBV>(outcome: Result<DBV, SerializationError>) -> Result<
    DBV,
    SerializationErrorView,
> {
    match outcome {
        Ok(value) => Ok(value),
        Err(error) => Err(error@),
    }
}

} // verus!
