use crate::plain::value::{Value, ValueView};
use crate::ser::{type_error, DbvFactory, PrimitiveView, SerializationError, SerializationErrorView};
use vstd::prelude::*;
use vstd::slice::slice_to_vec;

verus! {

/// The kinds of value that a parameter can take.
#[derive(Clone, Copy, Debug, PartialEq, Eq, Structural)]
pub enum ParameterKind {
    Bool,
    /// An unsigned integer of 8 bits.
    TinyInt,
    /// A signed integer of 16 bits.
    SmallInt,
    /// A signed integer of 32 bits.
    Int,
    /// A signed integer of 64 bits.
    BigInt,
    Text,
    Blob,
}

/// The descriptor of a parameter: the kind of value it takes, and whether
/// it takes null.
///
/// A parameter of an integer kind takes every integer that fits, whatever
/// the width of the type it comes in. Nothing else is converted: a text
/// parameter takes strings, a blob parameter bytes, a truth parameter
/// truth values.
#[derive(Clone, Copy, Debug, PartialEq, Eq, Structural)]
pub struct ParameterType {
    /// The kind of value that the parameter takes.
    pub kind: ParameterKind,
    /// Whether the parameter takes null.
    pub nullable: bool,
}

impl ParameterKind {
    /// The least and the greatest number that a parameter of the kind
    /// takes, if it is an integer kind.
    pub open spec fn bounds(self) -> Option<(int, int)> {
        match self {
            ParameterKind::TinyInt => Some((u8::MIN as int, u8::MAX as int)),
            ParameterKind::SmallInt => Some((i16::MIN as int, i16::MAX as int)),
            ParameterKind::Int => Some((i32::MIN as int, i32::MAX as int)),
            ParameterKind::BigInt => Some((i64::MIN as int, i64::MAX as int)),
            _ => None,
        }
    }

    /// The value of the kind that holds the number.
    pub open spec fn holding(self, number: int) -> ValueView {
        match self {
            ParameterKind::TinyInt => ValueView::TinyInt(number as u8),
            ParameterKind::SmallInt => ValueView::SmallInt(number as i16),
            ParameterKind::Int => ValueView::Int(number as i32),
            _ => ValueView::BigInt(number as i64),
        }
    }
}

impl PrimitiveView {
    /// The number that the primitive value holds, if it is an integer.
    pub open spec fn number(self) -> Option<int> {
        match self {
            PrimitiveView::I8(v) => Some(v as int),
            PrimitiveView::I16(v) => Some(v as int),
            PrimitiveView::I32(v) => Some(v as int),
            PrimitiveView::I64(v) => Some(v as int),
            PrimitiveView::U8(v) => Some(v as int),
            PrimitiveView::U16(v) => Some(v as int),
            PrimitiveView::U32(v) => Some(v as int),
            PrimitiveView::U64(v) => Some(v as int),
            _ => None,
        }
    }
}

impl ParameterType {
    /// A parameter of the kind that does not take null.
    pub fn new(kind: ParameterKind) -> (descriptor: ParameterType)
        ensures
            descriptor == (ParameterType { kind, nullable: false }),
    {
        ParameterType { kind, nullable: false }
    }

    /// A parameter of the kind that takes null.
    pub fn nullable(kind: ParameterKind) -> (descriptor: ParameterType)
        ensures
            descriptor == (ParameterType { kind, nullable: true }),
    {
        ParameterType { kind, nullable: true }
    }

    /// The descriptive text of the parameter.
    pub open spec fn text(self) -> Seq<char> {
        match (self.kind, self.nullable) {
            (ParameterKind::Bool, false) => "Bool"@,
            (ParameterKind::TinyInt, false) => "TinyInt"@,
            (ParameterKind::SmallInt, false) => "SmallInt"@,
            (ParameterKind::Int, false) => "Int"@,
            (ParameterKind::BigInt, false) => "BigInt"@,
            (ParameterKind::Text, false) => "Text"@,
            (ParameterKind::Blob, false) => "Blob"@,
            (ParameterKind::Bool, true) => "NullableBool"@,
            (ParameterKind::TinyInt, true) => "NullableTinyInt"@,
            (ParameterKind::SmallInt, true) => "NullableSmallInt"@,
            (ParameterKind::Int, true) => "NullableInt"@,
            (ParameterKind::BigInt, true) => "NullableBigInt"@,
            (ParameterKind::Text, true) => "NullableText"@,
            (ParameterKind::Blob, true) => "NullableBlob"@,
        }
    }

    /// The error for a value whose type the parameter does not take.
    pub open spec fn mismatch(self, value: PrimitiveView) -> SerializationErrorView {
        SerializationErrorView::Type { value_type: value.kind_name(), db_type: self.text() }
    }

    /// What the parameter makes of a value.
    ///
    /// * Null makes a null value if the parameter takes null.
    /// * An integer makes a value of the parameter's kind if that is an
    ///   integer kind and the number is within its bounds; it fails with
    ///   `Range` if the number is not.
    /// * A truth value, a string or a byte sequence makes a value if the
    ///   parameter is of the matching kind.
    /// * Everything else fails with `Type`.
    pub open spec fn made(self, value: PrimitiveView) -> Result<ValueView, SerializationErrorView> {
        match value {
            PrimitiveView::Null => if self.nullable {
                Ok(ValueView::Null)
            } else {
                Err(self.mismatch(value))
            },
            PrimitiveView::Bool(v) => if self.kind == ParameterKind::Bool {
                Ok(ValueView::Bool(v))
            } else {
                Err(self.mismatch(value))
            },
            PrimitiveView::Str(v) => if self.kind == ParameterKind::Text {
                Ok(ValueView::Text(v))
            } else {
                Err(self.mismatch(value))
            },
            PrimitiveView::Bytes(v) => if self.kind == ParameterKind::Blob {
                Ok(ValueView::Blob(v))
            } else {
                Err(self.mismatch(value))
            },
            PrimitiveView::Char(_) => Err(self.mismatch(value)),
            _ => match (value.number(), self.kind.bounds()) {
                (Some(number), Some((low, high))) => if low <= number <= high {
                    Ok(self.kind.holding(number))
                } else {
                    Err(SerializationErrorView::Range(value.kind_name(), self.text()))
                },
                _ => Err(self.mismatch(value)),
            },
        }
    }

    /// Whether the outcome is what the parameter makes of the value.
    pub open spec fn makes(
        self,
        value: PrimitiveView,
        outcome: Result<Value, SerializationErrorView>,
    ) -> bool {
        match outcome {
            Ok(made) => self.made(value) == Ok::<ValueView, SerializationErrorView>(made@),
            Err(error) => self.made(value) == Err::<ValueView, SerializationErrorView>(error),
        }
    }

    /// The descriptive text of the parameter.
    fn label(&self) -> (text: &'static str)
        ensures
            text@ == self.text(),
    {
        match (self.kind, self.nullable) {
            (ParameterKind::Bool, false) => "Bool",
            (ParameterKind::TinyInt, false) => "TinyInt",
            (ParameterKind::SmallInt, false) => "SmallInt",
            (ParameterKind::Int, false) => "Int",
            (ParameterKind::BigInt, false) => "BigInt",
            (ParameterKind::Text, false) => "Text",
            (ParameterKind::Blob, false) => "Blob",
            (ParameterKind::Bool, true) => "NullableBool",
            (ParameterKind::TinyInt, true) => "NullableTinyInt",
            (ParameterKind::SmallInt, true) => "NullableSmallInt",
            (ParameterKind::Int, true) => "NullableInt",
            (ParameterKind::BigInt, true) => "NullableBigInt",
            (ParameterKind::Text, true) => "NullableText",
            (ParameterKind::Blob, true) => "NullableBlob",
        }
    }

    /// Makes a value of an integer, which comes in a type of the given
    /// name.
    fn integer(&self, number: i128, source: &'static str) -> (outcome: Result<
        Value,
        SerializationError,
    >)
        ensures
            match self.kind.bounds() {
                Some((low, high)) => if low <= number <= high {
                    outcome matches Ok(made) && made@ == self.kind.holding(number as int)
                } else {
                    outcome matches Err(error) && error@ == SerializationErrorView::Range(
                        source@,
                        self.text(),
                    )
                },
                None => outcome matches Err(error) && error@ == (SerializationErrorView::Type {
                    value_type: source@,
                    db_type: self.text(),
                }),
            },
    {
        match self.kind {
            ParameterKind::TinyInt => if 0 <= number && number <= u8::MAX as i128 {
                Ok(Value::TinyInt(number as u8))
            } else {
                Err(SerializationError::Range(source, self.label().to_owned()))
            },
            ParameterKind::SmallInt => if i16::MIN as i128 <= number && number <= i16::MAX as i128 {
                Ok(Value::SmallInt(number as i16))
            } else {
                Err(SerializationError::Range(source, self.label().to_owned()))
            },
            ParameterKind::Int => if i32::MIN as i128 <= number && number <= i32::MAX as i128 {
                Ok(Value::Int(number as i32))
            } else {
                Err(SerializationError::Range(source, self.label().to_owned()))
            },
            ParameterKind::BigInt => if i64::MIN as i128 <= number && number <= i64::MAX as i128 {
                Ok(Value::BigInt(number as i64))
            } else {
                Err(SerializationError::Range(source, self.label().to_owned()))
            },
            _ => Err(type_error(source, self.label().to_owned())),
        }
    }
}

impl DbvFactory for ParameterType {
    type DBV = Value;

    open spec fn builds(
        &self,
        value: PrimitiveView,
        outcome: Result<Value, SerializationErrorView>,
    ) -> bool {
        self.makes(value, outcome)
    }

    open spec fn name(&self) -> Seq<char> {
        self.text()
    }

    fn serialize_bool(&self, value: bool) -> (outcome: Result<Value, SerializationError>) {
        match self.kind {
            ParameterKind::Bool => Ok(Value::Bool(value)),
            _ => Err(type_error("bool", self.label().to_owned())),
        }
    }

    fn serialize_i8(&self, value: i8) -> (outcome: Result<Value, SerializationError>) {
        self.integer(value as i128, "i8")
    }

    fn serialize_i16(&self, value: i16) -> (outcome: Result<Value, SerializationError>) {
        self.integer(value as i128, "i16")
    }

    fn serialize_i32(&self, value: i32) -> (outcome: Result<Value, SerializationError>) {
        self.integer(value as i128, "i32")
    }

    fn serialize_i64(&self, value: i64) -> (outcome: Result<Value, SerializationError>) {
        self.integer(value as i128, "i64")
    }

    fn serialize_u8(&self, value: u8) -> (outcome: Result<Value, SerializationError>) {
        self.integer(value as i128, "u8")
    }

    fn serialize_u16(&self, value: u16) -> (outcome: Result<Value, SerializationError>) {
        self.integer(value as i128, "u16")
    }

    fn serialize_u32(&self, value: u32) -> (outcome: Result<Value, SerializationError>) {
        self.integer(value as i128, "u32")
    }

    fn serialize_u64(&self, value: u64) -> (outcome: Result<Value, SerializationError>) {
        self.integer(value as i128, "u64")
    }

    fn serialize_char(&self, value: char) -> (outcome: Result<Value, SerializationError>) {
        Err(type_error("char", self.label().to_owned()))
    }

    fn serialize_str(&self, value: &str) -> (outcome: Result<Value, SerializationError>) {
        match self.kind {
            ParameterKind::Text => Ok(Value::Text(value.to_owned())),
            _ => Err(type_error("str", self.label().to_owned())),
        }
    }

    fn serialize_bytes(&self, value: &[u8]) -> (outcome: Result<Value, SerializationError>) {
        match self.kind {
            ParameterKind::Blob => Ok(Value::Blob(slice_to_vec(value))),
            _ => Err(type_error("bytes", self.label().to_owned())),
        }
    }

    fn serialize_none(&self) -> (outcome: Result<Value, SerializationError>) {
        if self.nullable {
            Ok(Value::Null)
        } else {
            Err(type_error("none", self.label().to_owned()))
        }
    }

    fn descriptor(&self) -> (text: String) {
        self.label().to_owned()
    }
}

} // verus!
