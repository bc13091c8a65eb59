// Making database parameters of the primitive values of tuples and structs.

use serde_db::de::{
    DeserializableResultSet, FieldStep, FieldsSeqVisitor, Hint, RowDeserializer, RowStep,
    RsDeserializer, RsStep,
};
use serde_db::plain::{ParameterKind, ParameterType, ResultSet, Value};
use serde_db::ser::{
    head, parse_error, tail, to_params, type_error, DbvFactory, Primitive, SerializationError,
    Serializer,
};

type PlainResult = ResultSet<Value>;

fn short() -> ParameterType {
    ParameterType::new(ParameterKind::SmallInt)
}

fn nullable_short() -> ParameterType {
    ParameterType::nullable(ParameterKind::SmallInt)
}

fn string() -> ParameterType {
    ParameterType::new(ParameterKind::Text)
}

fn nullable_string() -> ParameterType {
    ParameterType::nullable(ParameterKind::Text)
}

fn str_of(s: &str) -> Primitive {
    Primitive::Str(s.to_string())
}

fn same(a: &Value, b: &Value) -> bool {
    match (a, b) {
        (Value::Null, Value::Null) => true,
        (Value::Bool(x), Value::Bool(y)) => x == y,
        (Value::TinyInt(x), Value::TinyInt(y)) => x == y,
        (Value::SmallInt(x), Value::SmallInt(y)) => x == y,
        (Value::Int(x), Value::Int(y)) => x == y,
        (Value::BigInt(x), Value::BigInt(y)) => x == y,
        (Value::Text(x), Value::Text(y)) => x == y,
        (Value::Blob(x), Value::Blob(y)) => x == y,
        _ => false,
    }
}

fn mvalvec_compare(va: &[Value], vb: &[Value]) -> bool {
    (va.len() == vb.len()) && va.iter().zip(vb).all(|(a, b)| same(a, b))
}

#[test]
fn test_serialization() {
    // all conversions: plain -> plain, Option -> plain, plain -> Option,
    // Option -> Option; the values of a tuple and of a struct with the same
    // fields come in the same order
    let input_metadata: Vec<ParameterType> = vec![
        // int
        short(),
        short(),
        nullable_short(),
        nullable_short(),
        nullable_short(),
        // string
        string(),
        string(),
        nullable_string(),
        nullable_string(),
        nullable_string(),
        // timestamp, as text
        string(),
        string(),
        nullable_string(),
        nullable_string(),
        nullable_string(),
    ];
    let input = vec![
        // int
        Primitive::I32(0),
        Primitive::I32(1),
        Primitive::I32(2),
        Primitive::I32(3),
        Primitive::Null,
        // string
        str_of("Five"),
        str_of("Six"),
        str_of("Seven"),
        str_of("Eight"),
        Primitive::Null,
        // timestamp
        str_of("2011-01-01T01:01:01.100"),
        str_of("2012-02-02T02:02:02.200"),
        str_of("2013-03-03T03:03:03.300"),
        str_of("2014-04-04T04:04:04.400"),
        Primitive::Null,
    ];
    let result: Vec<Value> = to_params(&input, &input_metadata).unwrap();
    let expected = vec![
        // int
        Value::SmallInt(0_i16),
        Value::SmallInt(1_i16),
        Value::SmallInt(2_i16),
        Value::SmallInt(3_i16),
        Value::Null,
        // string
        Value::Text("Five".to_string()),
        Value::Text("Six".to_string()),
        Value::Text("Seven".to_string()),
        Value::Text("Eight".to_string()),
        Value::Null,
        // timestamp
        Value::Text("2011-01-01T01:01:01.100".to_string()),
        Value::Text("2012-02-02T02:02:02.200".to_string()),
        Value::Text("2013-03-03T03:03:03.300".to_string()),
        Value::Text("2014-04-04T04:04:04.400".to_string()),
        Value::Null,
    ];
    assert!(mvalvec_compare(&expected, &result));
}

#[test]
fn three_values_against_three_descriptors() {
    let metadata = vec![short(), nullable_short(), nullable_short()];
    let input = vec![Primitive::I32(0), Primitive::I32(1), Primitive::Null];
    let result = to_params(&input, &metadata).unwrap();
    assert!(mvalvec_compare(&result, &[Value::SmallInt(0), Value::SmallInt(1), Value::Null]));
}

#[test]
fn a_fourth_value_against_three_descriptors_is_refused() {
    let metadata = vec![short(), nullable_short(), nullable_short()];
    let input = vec![Primitive::I32(0), Primitive::I32(1), Primitive::Null, Primitive::I32(4)];
    match to_params(&input, &metadata) {
        Err(SerializationError::StructuralMismatch(text)) => {
            assert_eq!(text, "too many values specified")
        }
        _ => panic!("a value without a descriptor was accepted"),
    }
}

#[test]
fn descriptors_may_be_left_over() {
    let metadata = vec![short(), short()];
    let result = to_params(&[Primitive::I8(-3)], &metadata).unwrap();
    assert!(mvalvec_compare(&result, &[Value::SmallInt(-3)]));
    let none: Vec<Value> = to_params(&[], &metadata).unwrap();
    assert!(none.is_empty());
}

#[test]
fn round_trip_of_a_number_a_string_and_an_absent_number() {
    let metadata = vec![
        ParameterType::new(ParameterKind::Int),
        ParameterType::new(ParameterKind::Text),
        ParameterType::nullable(ParameterKind::Int),
    ];
    let input = vec![Primitive::I32(-70_000), str_of("b"), Primitive::Null];
    let params = to_params(&input, &metadata).unwrap();
    let mut rs = PlainResult::new(&["a", "b", "c"]);
    rs.push(params);
    let mut de = RsDeserializer::try_new(rs).unwrap();
    let mut rd = match de.deserialize(Hint::Tuple) {
        Ok(RsStep::Row(rd, Hint::Tuple)) => rd,
        _ => panic!("no row"),
    };
    assert!(matches!(rd.deserialize(Hint::Tuple), Ok(RowStep::Fields)));
    let mut visitor = FieldsSeqVisitor::new(&mut rd);
    let a = visitor.next_element().unwrap().deserialize(Hint::I32);
    assert!(matches!(a, Ok(FieldStep::I32(-70_000))));
    match visitor.next_element().unwrap().deserialize(Hint::Text) {
        Ok(FieldStep::Text(b)) => assert_eq!(b, "b"),
        _ => panic!("no text"),
    }
    let c = visitor.next_element().unwrap().deserialize(Hint::Optional);
    assert!(matches!(c, Ok(FieldStep::Absent)));
    assert!(visitor.next_element().is_none());
    assert_eq!(DeserializableResultSet::next(&mut PlainResult::new(&[])).unwrap().is_none(), true);
}

#[test]
fn integers_fit_or_are_out_of_range() {
    let tiny = ParameterType::new(ParameterKind::TinyInt);
    assert!(matches!(tiny.serialize_i64(255), Ok(Value::TinyInt(255))));
    assert!(matches!(tiny.serialize_u64(0), Ok(Value::TinyInt(0))));
    match tiny.serialize_i16(256) {
        Err(SerializationError::Range(value_type, db_type)) => {
            assert_eq!(value_type, "i16");
            assert_eq!(db_type, "TinyInt");
        }
        _ => panic!("256 was put into 8 bits"),
    }
    assert!(matches!(tiny.serialize_i8(-1), Err(SerializationError::Range("i8", _))));
    assert!(matches!(short().serialize_i32(32_767), Ok(Value::SmallInt(32_767))));
    assert!(matches!(short().serialize_i32(-32_768), Ok(Value::SmallInt(-32_768))));
    assert!(matches!(short().serialize_i32(32_768), Err(SerializationError::Range("i32", _))));
    assert!(matches!(short().serialize_u16(40_000), Err(SerializationError::Range("u16", _))));
    assert!(matches!(short().serialize_u8(200), Ok(Value::SmallInt(200))));
    let int = ParameterType::new(ParameterKind::Int);
    assert!(matches!(int.serialize_u32(2_147_483_647), Ok(Value::Int(2_147_483_647))));
    assert!(matches!(int.serialize_u32(2_147_483_648), Err(SerializationError::Range("u32", _))));
    let big = ParameterType::nullable(ParameterKind::BigInt);
    assert!(matches!(big.serialize_i64(i64::MIN), Ok(Value::BigInt(i64::MIN))));
    assert!(matches!(big.serialize_u64(u64::MAX), Err(SerializationError::Range("u64", _))));
    assert!(matches!(big.serialize_u64(7), Ok(Value::BigInt(7))));
    assert_eq!(big.descriptor(), "NullableBigInt");
}

#[test]
fn a_value_of_the_wrong_type_is_refused() {
    match short().serialize_bool(true) {
        Err(SerializationError::Type { value_type, db_type }) => {
            assert_eq!(value_type, "bool");
            assert_eq!(db_type, "SmallInt");
        }
        _ => panic!("a truth value was made into a number"),
    }
    assert!(matches!(short().serialize_none(), Err(SerializationError::Type { value_type: "none", .. })));
    assert!(matches!(nullable_short().serialize_none(), Ok(Value::Null)));
    assert!(matches!(short().serialize_str("1"), Err(SerializationError::Type { value_type: "str", .. })));
    assert!(matches!(string().serialize_i32(1), Err(SerializationError::Type { value_type: "i32", .. })));
    assert!(matches!(string().serialize_char('c'), Err(SerializationError::Type { value_type: "char", .. })));
    assert!(matches!(string().serialize_bytes(&[1]), Err(SerializationError::Type { value_type: "bytes", .. })));
    let blob = ParameterType::new(ParameterKind::Blob);
    match blob.serialize_bytes(&[1, 2, 3]) {
        Ok(Value::Blob(bytes)) => assert_eq!(bytes, vec![1, 2, 3]),
        _ => panic!("no blob"),
    }
    let truth = ParameterType::new(ParameterKind::Bool);
    assert!(matches!(truth.serialize_bool(false), Ok(Value::Bool(false))));
    // the error of the descriptor is that of the whole
    let outcome = to_params(&[Primitive::I32(1), Primitive::Bool(true)], &[short(), short()]);
    assert!(matches!(outcome, Err(SerializationError::Type { value_type: "bool", .. })));
    let outcome = to_params(&[Primitive::I64(1 << 40)], &[short()]);
    assert!(matches!(outcome, Err(SerializationError::Range("i64", _))));
}

#[test]
fn the_serializer_consumes_one_descriptor_for_each_value() {
    let metadata = vec![short(), string(), nullable_string()];
    let mut serializer = Serializer::new(&metadata);
    assert_eq!(serializer.consumed_count(), 0);
    assert!(serializer.write(&Primitive::U8(9)).is_ok());
    assert_eq!(serializer.consumed_count(), 1);
    // a failing value consumes its descriptor too
    assert!(serializer.write(&Primitive::I32(1)).is_err());
    assert_eq!(serializer.consumed_count(), 2);
    match serializer.serialize_unit_struct() {
        SerializationError::Type { value_type, db_type } => {
            assert_eq!(value_type, "unit_struct");
            assert_eq!(db_type, "NullableText");
        }
        _ => panic!("wrong kind of error"),
    }
    assert_eq!(serializer.consumed_count(), 3);
    assert!(matches!(
        serializer.serialize_unit_variant(),
        SerializationError::StructuralMismatch("too many values specified")
    ));
    assert!(matches!(
        serializer.write(&Primitive::Null),
        Err(SerializationError::StructuralMismatch("too many values specified"))
    ));
    assert!(matches!(
        serializer.serialize_struct_variant(),
        SerializationError::StructuralMismatch("serialize_struct_variant() not implemented")
    ));
    assert!(serializer.get_current_field().is_err());
    assert_eq!(serializer.consumed_count(), 3);
    assert!(mvalvec_compare(&serializer.into_inner(), &[Value::SmallInt(9)]));
}

#[test]
fn the_serializer_hands_out_descriptors_and_takes_parameters() {
    let metadata = vec![short(), nullable_short()];
    let mut serializer = Serializer::new(&metadata);
    let first = *serializer.get_current_field().unwrap();
    assert_eq!(first, short());
    serializer.push(Value::SmallInt(1));
    let second = *serializer.get_current_field().unwrap();
    assert_eq!(second, nullable_short());
    assert!(serializer.record(second.serialize_none()).is_ok());
    assert!(serializer.record(Err(type_error("f64", "SmallInt".to_string()))).is_err());
    assert!(serializer.refuse("unit_variant").describe().starts_with("The structure"));
    assert!(mvalvec_compare(&serializer.into_inner(), &[Value::SmallInt(1), Value::Null]));
}

#[test]
fn serialization_errors_describe_themselves() {
    let e = type_error("bool", "SmallInt".to_string());
    assert_eq!(e.message(), "The input type does not fit to the required database type");
    assert_eq!(
        e.describe(),
        "given value of type \"bool\" cannot be converted into value of type code SmallInt"
    );
    let e = SerializationError::Range("i32", "SmallInt".to_string());
    assert_eq!(
        e.message(),
        "The input value is too big or too small for the required database type"
    );
    assert_eq!(
        e.describe(),
        "given value of type \"i32\" does not fit into supported range of SQL type SmallInt"
    );
    let e = parse_error("2011-13-01", "Timestamp".to_string(), None);
    assert_eq!(
        e.message(),
        "Error occured while parsing the SQL parameter from the given String representation"
    );
    assert_eq!(
        e.describe(),
        "given String \"2011-13-01\" cannot be parsed into SQL type Timestamp"
    );
    let e = parse_error("x", "Timestamp".to_string(), Some("input is out of range".to_string()));
    assert_eq!(
        e.describe(),
        "given String \"x\" cannot be parsed into SQL type Timestamp due to input is out of range"
    );
    match e {
        SerializationError::Parse { value, db_type, cause } => {
            assert_eq!(value, "x");
            assert_eq!(db_type, "Timestamp");
            assert_eq!(cause.as_deref(), Some("input is out of range"));
        }
        _ => panic!("wrong kind of error"),
    }
    let e = SerializationError::from("too many values specified");
    assert!(matches!(e, SerializationError::StructuralMismatch("too many values specified")));
    assert_eq!(
        e.describe(),
        "The structure of the provided type does not fit to the required list of parameters: \
         too many values specified"
    );
    let e = SerializationError::Serde("custom".to_string());
    assert_eq!(e.message(), "Error occured within the serde framework");
    assert_eq!(e.describe(), "Error occured within the serde framework: custom");
}

#[test]
fn primitives_name_their_types() {
    let names: Vec<&str> = vec![
        Primitive::Bool(true),
        Primitive::I8(0),
        Primitive::I16(0),
        Primitive::I32(0),
        Primitive::I64(0),
        Primitive::U8(0),
        Primitive::U16(0),
        Primitive::U32(0),
        Primitive::U64(0),
        Primitive::Char('c'),
        str_of(""),
        Primitive::Bytes(vec![]),
        Primitive::Null,
    ]
    .iter()
    .map(|p| p.clone().kind_name())
    .collect();
    assert_eq!(
        names,
        vec![
            "bool", "i8", "i16", "i32", "i64", "u8", "u16", "u32", "u64", "char", "str", "bytes",
            "none"
        ]
    );
}

#[test]
fn head_and_tail_of_a_text() {
    assert_eq!(head(3, "abcdef"), "abc");
    assert_eq!(tail(3, "abcdef"), "def");
    assert_eq!(head(0, "abcdef"), "");
    assert_eq!(tail(0, "abcdef"), "");
    assert_eq!(head(6, "abcdef"), "abcdef");
    assert_eq!(tail(6, "abcdef"), "abcdef");
    assert_eq!(head(20, "abc"), "abc");
    assert_eq!(tail(20, "abc"), "abc");
    assert_eq!(head(usize::MAX, ""), "");
    assert_eq!(tail(1, ""), "");
    // characters count, not bytes
    assert_eq!(head(2, "äöü€"), "äö");
    assert_eq!(tail(2, "äöü€"), "ü€");
}
