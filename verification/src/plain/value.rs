use crate::de::{ConversionError, ConversionErrorView, DbValue, DbValueInto};
use vstd::prelude::*;
use vstd::string::*;

verus! {

/// A database value: null, a truth value, an integer of one of four
/// widths, a text or a byte sequence.
#[derive(Debug)]
pub enum Value {
    Null,
    Bool(bool),
    /// An unsigned integer of 8 bits.
    TinyInt(u8),
    /// A signed integer of 16 bits.
    SmallInt(i16),
    /// A signed integer of 32 bits.
    Int(i32),
    /// A signed integer of 64 bits.
    BigInt(i64),
    Text(String),
    Blob(Vec<u8>),
}

/// The mathematical content of a [`Value`].
pub enum ValueView {
    Null,
    Bool(bool),
    TinyInt(u8),
    SmallInt(i16),
    Int(i32),
    BigInt(i64),
    Text(Seq<char>),
    Blob(Seq<u8>),
}

impl View for Value {
    type V = ValueView;

    open spec fn view(&self) -> ValueView {
        match self {
            Value::Null => ValueView::Null,
            Value::Bool(v) => ValueView::Bool(*v),
            Value::TinyInt(v) => ValueView::TinyInt(*v),
            Value::SmallInt(v) => ValueView::SmallInt(*v),
            Value::Int(v) => ValueView::Int(*v),
            Value::BigInt(v) => ValueView::BigInt(*v),
            Value::Text(v) => ValueView::Text(v@),
            Value::Blob(v) => ValueView::Blob(v@),
        }
    }
}

impl Clone for Value {
    fn clone(&self) -> (copy: Value)
        ensures
            copy@ == self@,
    {
        match self {
            Value::Null => Value::Null,
            Value::Bool(v) => Value::Bool(*v),
            Value::TinyInt(v) => Value::TinyInt(*v),
            Value::SmallInt(v) => Value::SmallInt(*v),
            Value::Int(v) => Value::Int(*v),
            Value::BigInt(v) => Value::BigInt(*v),
            Value::Text(v) => Value::Text(v.clone()),
            Value::Blob(v) => Value::Blob(v.clone()),
        }
    }
}

/// The error for a number that the target type cannot hold.
pub open spec fn out_of_range(target: Seq<char>) -> ConversionErrorView {
    ConversionErrorView::NumberRange("number out of range for "@ + target)
}

/// The error for a value that is of no kind that converts into the target
/// type.
pub open spec fn no_mapping(target: Seq<char>) -> ConversionErrorView {
    ConversionErrorView::ValueType("no conversion into "@ + target)
}

/// The number held by the value, converted into an integer type of the
/// given bounds and name: the number itself if it is within the bounds,
/// `NumberRange` if it is not, `ValueType` if the value holds no number.
pub open spec fn integer_into(value: Value, low: int, high: int, target: Seq<char>) -> Result<
    int,
    ConversionErrorView,
> {
    match value.number() {
        Some(n) => if low <= n <= high {
            Ok(n)
        } else {
            Err(out_of_range(target))
        },
        None => Err(no_mapping(target)),
    }
}

impl Value {
    /// The number that the value holds, if it is of an integer kind.
    pub open spec fn number(self) -> Option<int> {
        match self {
            Value::TinyInt(v) => Some(v as int),
            Value::SmallInt(v) => Some(v as int),
            Value::Int(v) => Some(v as int),
            Value::BigInt(v) => Some(v as int),
            _ => None,
        }
    }

    /// Makes a text value.
    pub fn text(content: &str) -> (value: Value)
        ensures
            value@ == ValueView::Text(content@),
    {
        Value::Text(content.to_owned())
    }

    /// The number that the value holds, checked against the bounds of an
    /// integer type.
    fn integer(&self, low: i64, high: u64, target: &'static str) -> (outcome: Result<
        i64,
        ConversionError,
    >)
        ensures
            match outcome {
                Ok(n) => integer_into(*self, low as int, high as int, target@) == Ok::<
                    int,
                    ConversionErrorView,
                >(n as int),
                Err(error) => integer_into(*self, low as int, high as int, target@) == Err::<
                    int,
                    ConversionErrorView,
                >(error@),
            },
    {
        let number: i64 = match self {
            Value::TinyInt(v) => *v as i64,
            Value::SmallInt(v) => *v as i64,
            Value::Int(v) => *v as i64,
            Value::BigInt(v) => *v,
            _ => {
                return Err(ConversionError::ValueType(mismatch(target)));
            },
        };
        if low <= number && (number < 0 || number as u64 <= high) {
            Ok(number)
        } else {
            let mut text = String::from_str("number out of range for ");
            text.append(target);
            Err(ConversionError::NumberRange(text))
        }
    }
}

/// The text of the error for a value that is of no kind that converts
/// into the target type.
fn mismatch(target: &'static str) -> (text: String)
    ensures
        text@ == "no conversion into "@ + target@,
{
    let mut text = String::from_str("no conversion into ");
    text.append(target);
    text
}

impl DbValueInto<bool> for Value {
    open spec fn converted(self) -> Result<bool, ConversionErrorView> {
        match self {
            Value::Bool(v) => Ok(v),
            _ => Err(no_mapping("bool"@)),
        }
    }

    fn try_into(self) -> (outcome: Result<bool, ConversionError>) {
        match self {
            Value::Bool(v) => Ok(v),
            _ => Err(ConversionError::ValueType(mismatch("bool"))),
        }
    }
}

impl DbValueInto<u8> for Value {
    open spec fn converted(self) -> Result<u8, ConversionErrorView> {
        match integer_into(self, u8::MIN as int, u8::MAX as int, "u8"@) {
            Ok(n) => Ok(n as u8),
            Err(error) => Err(error),
        }
    }

    fn try_into(self) -> (outcome: Result<u8, ConversionError>) {
        match self.integer(0, u8::MAX as u64, "u8") {
            Ok(n) => Ok(n as u8),
            Err(error) => Err(error),
        }
    }
}

impl DbValueInto<u16> for Value {
    open spec fn converted(self) -> Result<u16, ConversionErrorView> {
        match integer_into(self, u16::MIN as int, u16::MAX as int, "u16"@) {
            Ok(n) => Ok(n as u16),
            Err(error) => Err(error),
        }
    }

    fn try_into(self) -> (outcome: Result<u16, ConversionError>) {
        match self.integer(0, u16::MAX as u64, "u16") {
            Ok(n) => Ok(n as u16),
            Err(error) => Err(error),
        }
    }
}

impl DbValueInto<u32> for Value {
    open spec fn converted(self) -> Result<u32, ConversionErrorView> {
        match integer_into(self, u32::MIN as int, u32::MAX as int, "u32"@) {
            Ok(n) => Ok(n as u32),
            Err(error) => Err(error),
        }
    }

    fn try_into(self) -> (outcome: Result<u32, ConversionError>) {
        match self.integer(0, u32::MAX as u64, "u32") {
            Ok(n) => Ok(n as u32),
            Err(error) => Err(error),
        }
    }
}

impl DbValueInto<u64> for Value {
    open spec fn converted(self) -> Result<u64, ConversionErrorView> {
        match integer_into(self, u64::MIN as int, u64::MAX as int, "u64"@) {
            Ok(n) => Ok(n as u64),
            Err(error) => Err(error),
        }
    }

    fn try_into(self) -> (outcome: Result<u64, ConversionError>) {
        match self.integer(0, u64::MAX, "u64") {
            Ok(n) => Ok(n as u64),
            Err(error) => Err(error),
        }
    }
}

impl DbValueInto<i8> for Value {
    open spec fn converted(self) -> Result<i8, ConversionErrorView> {
        match integer_into(self, i8::MIN as int, i8::MAX as int, "i8"@) {
            Ok(n) => Ok(n as i8),
            Err(error) => Err(error),
        }
    }

    fn try_into(self) -> (outcome: Result<i8, ConversionError>) {
        match self.integer(i8::MIN as i64, i8::MAX as u64, "i8") {
            Ok(n) => Ok(n as i8),
            Err(error) => Err(error),
        }
    }
}

impl DbValueInto<i16> for Value {
    open spec fn converted(self) -> Result<i16, ConversionErrorView> {
        match integer_into(self, i16::MIN as int, i16::MAX as int, "i16"@) {
            Ok(n) => Ok(n as i16),
            Err(error) => Err(error),
        }
    }

    fn try_into(self) -> (outcome: Result<i16, ConversionError>) {
        match self.integer(i16::MIN as i64, i16::MAX as u64, "i16") {
            Ok(n) => Ok(n as i16),
            Err(error) => Err(error),
        }
    }
}

impl DbValueInto<i32> for Value {
    open spec fn converted(self) -> Result<i32, ConversionErrorView> {
        match integer_into(self, i32::MIN as int, i32::MAX as int, "i32"@) {
            Ok(n) => Ok(n as i32),
            Err(error) => Err(error),
        }
    }

    fn try_into(self) -> (outcome: Result<i32, ConversionError>) {
        match self.integer(i32::MIN as i64, i32::MAX as u64, "i32") {
            Ok(n) => Ok(n as i32),
            Err(error) => Err(error),
        }
    }
}

impl DbValueInto<i64> for Value {
    open spec fn converted(self) -> Result<i64, ConversionErrorView> {
        match integer_into(self, i64::MIN as int, i64::MAX as int, "i64"@) {
            Ok(n) => Ok(n as i64),
            Err(error) => Err(error),
        }
    }

    fn try_into(self) -> (outcome: Result<i64, ConversionError>) {
        match self.integer(i64::MIN, i64::MAX as u64, "i64") {
            Ok(n) => Ok(n),
            Err(error) => Err(error),
        }
    }
}

impl DbValueInto<String> for Value {
    open spec fn converted(self) -> Result<String, ConversionErrorView> {
        match self {
            Value::Text(v) => Ok(v),
            _ => Err(no_mapping("String"@)),
        }
    }

    fn try_into(self) -> (outcome: Result<String, ConversionError>) {
        match self {
            Value::Text(v) => Ok(v),
            _ => Err(ConversionError::ValueType(mismatch("String"))),
        }
    }
}

impl DbValueInto<Vec<u8>> for Value {
    open spec fn converted(self) -> Result<Vec<u8>, ConversionErrorView> {
        match self {
            Value::Blob(v) => Ok(v),
            _ => Err(no_mapping("bytes"@)),
        }
    }

    fn try_into(self) -> (outcome: Result<Vec<u8>, ConversionError>) {
        match self {
            Value::Blob(v) => Ok(v),
            _ => Err(ConversionError::ValueType(mismatch("bytes"))),
        }
    }
}

impl DbValue for Value {
    open spec fn null(&self) -> bool {
        *self is Null
    }

    fn is_null(&self) -> (null: bool) {
        match self {
            Value::Null => true,
            _ => false,
        }
    }
}

/// Numbers widen: a number of 16 bits converts into the signed types of 32
/// and 64 bits whatever it is, and into the unsigned types of 32 and 64
/// bits if and only if it is not negative. A negative one fails there with
/// `NumberRange`.
pub proof fn lemma_small_int_widens(number: i16)
    ensures
        DbValueInto::<i32>::converted(Value::SmallInt(number)) == Ok::<i32, ConversionErrorView>(
            number as i32,
        ),
        DbValueInto::<i64>::converted(Value::SmallInt(number)) == Ok::<i64, ConversionErrorView>(
            number as i64,
        ),
        number >= 0 ==> DbValueInto::<u32>::converted(Value::SmallInt(number)) == Ok::<
            u32,
            ConversionErrorView,
        >(number as u32),
        number >= 0 ==> DbValueInto::<u64>::converted(Value::SmallInt(number)) == Ok::<
            u64,
            ConversionErrorView,
        >(number as u64),
        number < 0 ==> DbValueInto::<u32>::converted(Value::SmallInt(number)) == Err::<
            u32,
            ConversionErrorView,
        >(out_of_range("u32"@)),
        number < 0 ==> DbValueInto::<u64>::converted(Value::SmallInt(number)) == Err::<
            u64,
            ConversionErrorView,
        >(out_of_range("u64"@)),
{
}

} // verus!
