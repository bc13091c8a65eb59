// Reading plain results, rows and values into the shapes that a caller can
// ask for. The functions at the top play the part of the target type: they
// put the hints that a tuple, a record, a list, an optional value or a
// primitive value puts, and take what the readers hand out.

use serde_db::de::{
    DeserializableResultSet, DeserializableRow, DeserializationError, FieldDeserializer,
    FieldStep, FieldsMapVisitor, FieldsSeqVisitor, Hint, Need, RowDeserializer, RowStep,
    RowsVisitor, RsDeserializer, RsStep,
};
use serde_db::plain::{PlainRow, ResultSet, Value};

type PlainResult = ResultSet<Value>;

#[derive(Clone, Debug, PartialEq)]
enum Target {
    Text,
    I32,
    Optional(Box<Target>),
    Tuple(Vec<Target>),
    Record(Vec<(&'static str, Target)>),
    List(Box<Target>),
}

#[derive(Clone, Debug, PartialEq)]
enum Data {
    Text(String),
    I32(i32),
    Absent,
    Tuple(Vec<Data>),
    Record(Vec<(String, Data)>),
    List(Vec<Data>),
}

type Outcome = Result<Data, DeserializationError>;

fn hint_of(target: &Target) -> Hint {
    match target {
        Target::Text => Hint::Text,
        Target::I32 => Hint::I32,
        Target::Optional(_) => Hint::Optional,
        Target::Tuple(_) => Hint::Tuple,
        Target::Record(_) => Hint::Struct,
        Target::List(_) => Hint::Sequence,
    }
}

fn from_result(rs: PlainResult, target: &Target) -> Outcome {
    let mut de = RsDeserializer::try_new(rs)?;
    match de.deserialize(hint_of(target))? {
        RsStep::Row(mut rd, hint) => row_step(&mut rd, target, hint),
        RsStep::Rows => {
            let element = match target {
                Target::List(element) => element,
                _ => unreachable!(),
            };
            let mut visitor = RowsVisitor::new(&mut de);
            let mut list = Vec::new();
            while let Some(mut rd) = visitor.next_element()? {
                list.push(from_row(&mut rd, element)?);
            }
            Ok(Data::List(list))
        }
        RsStep::Newtype => unreachable!(),
    }
}

fn row_into(row: PlainRow, target: &Target) -> Outcome {
    from_row(&mut RowDeserializer::new(row), target)
}

fn from_row(rd: &mut RowDeserializer<PlainRow>, target: &Target) -> Outcome {
    row_step(rd, target, hint_of(target))
}

fn row_step(rd: &mut RowDeserializer<PlainRow>, target: &Target, hint: Hint) -> Outcome {
    match rd.deserialize(hint)? {
        RowStep::Field(fd, hint) => field_step(fd, target, hint),
        RowStep::Fields => {
            let mut visitor = FieldsSeqVisitor::new(rd);
            match target {
                Target::Tuple(elements) => {
                    let mut tuple = Vec::new();
                    for element in elements {
                        match visitor.next_element() {
                            Some(fd) => tuple.push(from_field(fd, element)?),
                            None => {
                                return Err(DeserializationError::SerdeError(format!(
                                    "invalid length {}, expected a tuple of size {}",
                                    tuple.len(),
                                    elements.len()
                                )))
                            }
                        }
                    }
                    Ok(Data::Tuple(tuple))
                }
                Target::List(element) => {
                    let mut list = Vec::new();
                    while let Some(fd) = visitor.next_element() {
                        list.push(from_field(fd, element)?);
                    }
                    Ok(Data::List(list))
                }
                _ => unreachable!(),
            }
        }
        RowStep::NamedFields => {
            let fields = match target {
                Target::Record(fields) => fields,
                _ => unreachable!(),
            };
            let visitor = FieldsMapVisitor::new(rd);
            let mut record: Vec<(String, Data)> = Vec::new();
            while visitor.next_key_seed() {
                let name = match visitor.de.deserialize(Hint::Identifier)? {
                    RowStep::FieldName(name) => name,
                    _ => unreachable!(),
                };
                visitor.next_value_seed()?;
                match fields.iter().find(|(field, _)| *field == name) {
                    Some((_, field_target)) => {
                        let data = from_row(visitor.de, field_target)?;
                        record.push((name, data));
                    }
                    None => {
                        visitor.de.deserialize(Hint::IgnoredAny)?;
                    }
                }
            }
            for (field, _) in fields {
                if !record.iter().any(|(name, _)| name == field) {
                    return Err(DeserializationError::SerdeError(format!(
                        "missing field `{}`",
                        field
                    )));
                }
            }
            Ok(Data::Record(record))
        }
        RowStep::Newtype | RowStep::FieldName(_) => unreachable!(),
    }
}

fn from_field(fd: FieldDeserializer<Value>, target: &Target) -> Outcome {
    field_step(fd, target, hint_of(target))
}

fn field_step(fd: FieldDeserializer<Value>, target: &Target, hint: Hint) -> Outcome {
    match fd.deserialize(hint)? {
        FieldStep::Text(text) => Ok(Data::Text(text)),
        FieldStep::I32(number) => Ok(Data::I32(number)),
        FieldStep::Absent => Ok(Data::Absent),
        FieldStep::Present(fd) => match target {
            Target::Optional(inner) => from_field(fd, inner),
            _ => unreachable!(),
        },
        _ => unreachable!(),
    }
}

fn text(s: &str) -> Data {
    Data::Text(s.to_string())
}

fn field<'a>(record: &'a Data, name: &str) -> &'a Data {
    match record {
        Data::Record(fields) => &fields.iter().find(|(n, _)| n == name).unwrap().1,
        _ => panic!("no record"),
    }
}

fn list_len(data: &Data) -> usize {
    match data {
        Data::List(list) => list.len(),
        _ => panic!("no list"),
    }
}

fn rows_of(mut rs: PlainResult) -> Vec<PlainRow> {
    let mut rows = Vec::new();
    while let Some(row) = DeserializableResultSet::next(&mut rs).unwrap() {
        rows.push(row);
    }
    rows
}

const SIZE: usize = 20;

fn letter(i: usize) -> String {
    String::from_utf8(vec![b'a' + i as u8]).unwrap()
}

fn timestamp(i: usize) -> String {
    format!("2017-09-{:02}T10:00:{:02}.0000000", i, i)
}

fn get_result_set_string(len: usize) -> PlainResult {
    assert!(len < 60);
    let mut rs = PlainResult::new(&["f1"]);
    for i in 0..len {
        rs.push(vec![Value::Text(letter(i))]);
    }
    rs
}

fn get_result_set_string_ts_short_short(len: usize) -> PlainResult {
    assert!(len < 60);
    let mut rs = PlainResult::new(&["f1", "f2", "f3", "f4"]);
    for i in 1..len + 1 {
        rs.push(vec![
            Value::Text(letter(i)),
            Value::Text(timestamp(i)),
            Value::SmallInt(i as i16),
            Value::SmallInt(10 * i as i16 + 7),
        ]);
    }
    rs
}

fn get_result_set_option_option_short_short(len: usize) -> PlainResult {
    let mut rs = PlainResult::new(&["f1", "f2", "f3", "f4"]);
    for i in 0..len {
        rs.push(vec![
            if i % 2 == 0 { Value::Null } else { Value::SmallInt(i as i16) },
            Value::SmallInt(i as i16),
            Value::SmallInt(i as i16),
            Value::SmallInt(10 * i as i16 + 7),
        ]);
    }
    rs
}

fn test_data_min() -> Target {
    Target::Record(vec![("f1", Target::Text)])
}

fn test_data() -> Target {
    Target::Record(vec![
        ("f1", Target::Text),
        ("f4", Target::Optional(Box::new(Target::I32))),
        ("f3", Target::I32),
        ("f2", Target::Text),
    ])
}

fn test_option() -> Target {
    Target::Record(vec![
        ("f1", Target::Optional(Box::new(Target::I32))),
        ("f2", Target::I32),
        ("f3", Target::Optional(Box::new(Target::I32))),
        ("f4", Target::I32),
    ])
}

fn short_data() -> Target {
    Target::Record(vec![
        ("f1", Target::Text),
        ("f2", Target::Text),
        ("f4", Target::Optional(Box::new(Target::I32))),
    ])
}

fn full_tuple() -> Target {
    Target::Tuple(vec![
        Target::Text,
        Target::Text,
        Target::I32,
        Target::Optional(Box::new(Target::I32)),
    ])
}

fn list_of(element: Target) -> Target {
    Target::List(Box::new(element))
}

#[test]
fn test_result_set_1x1() {
    // Convert a 1x1 result set into a Vec<struct>
    let vd = from_result(get_result_set_string(1), &list_of(test_data_min())).unwrap();
    match &vd {
        Data::List(list) => assert_eq!(field(&list[0], "f1"), &text("a")),
        _ => panic!("no list"),
    }
    // Convert a 1x1 result set into a Vec<field>
    let vs = from_result(get_result_set_string(1), &list_of(Target::Text)).unwrap();
    assert_eq!(vs, Data::List(vec![text("a")]));
    // Convert a 1x1 result set into a struct
    let d = from_result(get_result_set_string(1), &test_data_min()).unwrap();
    assert_eq!(field(&d, "f1"), &text("a"));
    // Convert a 1x1 result set into a field
    let s = from_result(get_result_set_string(1), &Target::Text).unwrap();
    assert_eq!(s, text("a"));
    // Convert an individual DB value into a rust variable
    let mut rs = get_result_set_string(1);
    let mut row = DeserializableResultSet::next(&mut rs).unwrap().unwrap();
    let value = DeserializableRow::next(&mut row).unwrap();
    let s = from_field(FieldDeserializer::new(value), &Target::Text).unwrap();
    assert_eq!(s, text("a"));
}

#[test]
fn test_result_set_1xn() {
    // Convert a 1xn result set into a Vec<struct>
    let vtd = from_result(get_result_set_string_ts_short_short(1), &list_of(test_data())).unwrap();
    assert_eq!(1, list_len(&vtd));
    // Convert a 1xn result set into a struct
    let td = from_result(get_result_set_string_ts_short_short(1), &test_data()).unwrap();
    assert_eq!(field(&td, "f1"), &text("b"));
    assert_eq!(field(&td, "f2"), &text("2017-09-01T10:00:01.0000000"));
    assert_eq!(field(&td, "f3"), &Data::I32(1));
    assert_eq!(field(&td, "f4"), &Data::I32(17));
    // both agree field by field
    match &vtd {
        Data::List(list) => assert_eq!(list[0], td),
        _ => panic!("no list"),
    }
    // Negative test: no conversion of 1xn result set into Vec<field>
    let test = from_result(get_result_set_string_ts_short_short(SIZE), &list_of(Target::Text));
    assert!(matches!(test, Err(DeserializationError::TrailingCols)));
    // Negative test: no conversion of 1xn result set into field
    let test = from_result(get_result_set_string_ts_short_short(SIZE), &Target::Text);
    assert!(matches!(test, Err(DeserializationError::TrailingRows)));
    let test = from_result(get_result_set_string_ts_short_short(SIZE), &Target::I32);
    assert!(matches!(test, Err(DeserializationError::TrailingRows)));
    let test = from_result(get_result_set_string_ts_short_short(1), &Target::Text);
    assert!(matches!(test, Err(DeserializationError::TrailingCols)));
    // Convert a 1xn result set into a Vec<(tuple)>
    let vt = from_result(get_result_set_string_ts_short_short(1), &list_of(full_tuple())).unwrap();
    assert_eq!(1, list_len(&vt));
    // Convert a 1xn result set into a tuple
    let t = from_result(get_result_set_string_ts_short_short(1), &full_tuple()).unwrap();
    assert_eq!(
        t,
        Data::Tuple(vec![
            text("b"),
            text("2017-09-01T10:00:01.0000000"),
            Data::I32(1),
            Data::I32(17)
        ])
    );
}

#[test]
fn test_result_set_mx1() {
    // Convert a mx1 result set into a Vec<struct>
    let vec_d = from_result(get_result_set_string(SIZE), &list_of(test_data_min())).unwrap();
    assert_eq!(SIZE, list_len(&vec_d));
    // Convert a mx1 result set into a Vec<field>
    let vec_s = from_result(get_result_set_string(SIZE), &list_of(Target::Text)).unwrap();
    assert_eq!(SIZE, list_len(&vec_s));
    // Negative test: no conversion of mx1 result set into a struct
    let test = from_result(get_result_set_string(SIZE), &test_data_min());
    assert!(matches!(test, Err(DeserializationError::TrailingRows)));
    // Negative test: no conversion of mx1 result set into a field
    let test = from_result(get_result_set_string(SIZE), &Target::Text);
    assert!(matches!(test, Err(DeserializationError::TrailingRows)));
    // Loop over rows, convert row with single field into struct
    let mut acc = String::new();
    for row in rows_of(get_result_set_string(7)) {
        let td = row_into(row, &test_data_min()).unwrap();
        if !acc.is_empty() {
            acc.push_str(", ")
        };
        match field(&td, "f1") {
            Data::Text(s) => acc.push_str(s),
            _ => panic!("no text"),
        }
    }
    assert_eq!(acc, "a, b, c, d, e, f, g");
    // Loop over rows, convert row into single value
    for row in rows_of(get_result_set_string(SIZE)) {
        assert!(matches!(row_into(row, &Target::Text), Ok(Data::Text(_))));
    }
    // Iterate over rows, map, fold
    let s = rows_of(get_result_set_string(7))
        .into_iter()
        .map(|r| match row_into(r, &Target::Text).unwrap() {
            Data::Text(s) => s,
            _ => panic!("no text"),
        })
        .fold(String::new(), |mut acc, s| {
            if !acc.is_empty() {
                acc.push_str(", ")
            };
            acc.push_str(&s);
            acc
        });
    assert_eq!(s, "a, b, c, d, e, f, g");
}

#[test]
fn test_result_set_mxn() {
    // Convert a mxn result set into a Vec<struct>
    let vtd = from_result(get_result_set_string_ts_short_short(SIZE), &list_of(test_data())).unwrap();
    assert_eq!(SIZE, list_len(&vtd));
    // Convert a mxn result set into a Vec<struct>, check Option conversions
    let vtd =
        from_result(get_result_set_option_option_short_short(SIZE), &list_of(test_option())).unwrap();
    assert_eq!(SIZE, list_len(&vtd));
    match &vtd {
        Data::List(list) => {
            assert_eq!(field(&list[0], "f1"), &Data::Absent);
            assert_eq!(field(&list[1], "f1"), &Data::I32(1));
            assert_eq!(field(&list[1], "f3"), &Data::I32(1));
            assert_eq!(field(&list[1], "f4"), &Data::I32(17));
        }
        _ => panic!("no list"),
    }
    // Negative test: no conversion of nxm result set into Vec<field>
    let test = from_result(get_result_set_string_ts_short_short(SIZE), &list_of(Target::Text));
    assert!(matches!(test, Err(DeserializationError::TrailingCols)));
    // Negative test: no conversion of nxm result set into struct
    let test = from_result(get_result_set_string_ts_short_short(SIZE), &test_data());
    assert!(matches!(test, Err(DeserializationError::TrailingRows)));
    // Negative test: no conversion of nxm result set into field
    let test = from_result(get_result_set_string_ts_short_short(SIZE), &Target::Text);
    assert!(matches!(test, Err(DeserializationError::TrailingRows)));
    // Loop over rows (streaming support), convert row into struct
    let mut sum: usize = 0;
    for row in rows_of(get_result_set_string_ts_short_short(SIZE)) {
        let td = row_into(row, &test_data()).unwrap();
        match field(&td, "f3") {
            Data::I32(f3) => sum += *f3 as usize,
            _ => panic!("no number"),
        }
    }
    assert_eq!(sum, SIZE * (SIZE + 1) / 2);
    // Negative test: no conversion of mxn result set into Vec<too short struct>
    let test = from_result(get_result_set_string_ts_short_short(SIZE), &list_of(short_data()));
    match test {
        Err(DeserializationError::UnknownField(name)) => assert_eq!(name, "f3"),
        other => panic!("a column was dropped: {:?}", other),
    }
    // Loop over rows, convert row into tuple
    for row in rows_of(get_result_set_string_ts_short_short(7)) {
        assert!(row_into(row, &full_tuple()).is_ok());
    }
    // Negative test: loop over rows, convert row into too long tuple
    for row in rows_of(get_result_set_string_ts_short_short(1)) {
        let mut elements = match full_tuple() {
            Target::Tuple(elements) => elements,
            _ => unreachable!(),
        };
        elements.push(Target::I32);
        let test = row_into(row, &Target::Tuple(elements));
        assert!(matches!(test, Err(DeserializationError::SerdeError(_))));
    }
    // Loop over rows, convert row into too short tuple
    for row in rows_of(get_result_set_string_ts_short_short(6)) {
        let t = row_into(row, &Target::Tuple(vec![Target::Text, Target::Text, Target::I32]));
        match t {
            Ok(Data::Tuple(tuple)) => assert_eq!(tuple.len(), 3),
            other => panic!("no tuple: {:?}", other),
        }
    }
    // Iterate over rows, map, fold
    let sum = rows_of(get_result_set_string_ts_short_short(SIZE))
        .into_iter()
        .map(|r| {
            let value = r.cloned_value(2).unwrap();
            match from_field(FieldDeserializer::new(value), &Target::I32).unwrap() {
                Data::I32(i) => i,
                _ => panic!("no number"),
            }
        })
        .fold(0, |acc, i| acc + i);
    assert_eq!(sum as usize, SIZE * (SIZE + 1) / 2);
    // Loop over rows, pick out single values individually, in arbitrary order
    for (i, row) in rows_of(get_result_set_string_ts_short_short(5)).into_iter().enumerate() {
        let pick = |idx: usize, target: &Target| {
            from_field(FieldDeserializer::new(row.cloned_value(idx).unwrap()), target).unwrap()
        };
        let f2 = pick(1, &Target::Text);
        let f1 = pick(0, &Target::Text);
        let f4 = pick(3, &Target::Optional(Box::new(Target::I32)));
        let f3 = pick(2, &Target::I32);
        assert_eq!(f1, text(&letter(i + 1)));
        assert_eq!(f2, text(&timestamp(i + 1)));
        assert_eq!(f3, Data::I32(i as i32 + 1));
        assert_eq!(f4, Data::I32(10 * (i as i32 + 1) + 7));
    }
    // Loop over rows, convert single values
    for (i, mut row) in rows_of(get_result_set_string_ts_short_short(5)).into_iter().enumerate() {
        let mut take = |target: &Target| {
            let value = DeserializableRow::next(&mut row).unwrap();
            from_field(FieldDeserializer::new(value), target).unwrap()
        };
        let f1 = take(&Target::Text);
        let f2 = take(&Target::Text);
        let f3 = take(&Target::I32);
        let f4 = take(&Target::I32);
        assert_eq!(f1, text(&letter(i + 1)));
        assert_eq!(f2, text(&timestamp(i + 1)));
        assert_eq!(f3, Data::I32(i as i32 + 1));
        assert_eq!(f4, Data::I32(10 * (i as i32 + 1) + 7));
    }
    // Negative test: no conversion of row into field if two or more colums
    for row in rows_of(get_result_set_string_ts_short_short(1)) {
        let test = row_into(row, &Target::Text);
        assert!(matches!(test, Err(DeserializationError::TrailingCols)));
    }
    // Negative test: no conversion of multiple rows into tuple
    let test = from_result(
        get_result_set_string_ts_short_short(4),
        &Target::Tuple(vec![Target::Text, Target::Text, Target::I32, Target::I32]),
    );
    assert!(matches!(test, Err(DeserializationError::TrailingRows)));
    // Negative test: no conversion of rows into vec of too short struct
    let too_short = Target::Record(vec![("f1", Target::Text), ("f2", Target::Text)]);
    let test = from_result(get_result_set_string_ts_short_short(4), &list_of(too_short));
    match test {
        Err(DeserializationError::UnknownField(name)) => assert_eq!(name, "f3"),
        other => panic!("a column was dropped: {:?}", other),
    }
    // Negative test: no conversion of rows into vec of too long tuple
    let too_long = Target::Tuple(vec![
        Target::Text,
        Target::Text,
        Target::I32,
        Target::I32,
        Target::I32,
    ]);
    let test = from_result(get_result_set_string_ts_short_short(4), &list_of(too_long));
    assert!(matches!(test, Err(DeserializationError::SerdeError(_))));
}

#[test]
fn test_row() {
    const SIZE: usize = 5;
    // Loop over rows (streaming support), convert row into struct
    let mut sum: usize = 0;
    for row in rows_of(get_result_set_string_ts_short_short(SIZE)) {
        let td = row_into(row, &test_data()).unwrap();
        match field(&td, "f3") {
            Data::I32(f3) => sum += *f3 as usize,
            _ => panic!("no number"),
        }
    }
    assert!(sum == SIZE * (SIZE + 1) / 2);
    // Loop over rows, convert row with single field into struct
    let mut acc = String::new();
    for row in rows_of(get_result_set_string(7)) {
        let td = row_into(row, &test_data_min()).unwrap();
        if acc.len() != 0 {
            acc.push_str(", ")
        };
        match field(&td, "f1") {
            Data::Text(s) => acc.push_str(s),
            _ => panic!("no text"),
        }
    }
    assert_eq!(acc, "a, b, c, d, e, f, g");
    // Loop over rows, convert row into tuple (avoid defining a struct)
    for row in rows_of(get_result_set_string_ts_short_short(7)) {
        assert!(row_into(row, &full_tuple()).is_ok());
    }
    // Loop over rows, convert row into single value
    for row in rows_of(get_result_set_string(SIZE)) {
        assert!(row_into(row, &Target::Text).is_ok());
    }
    // Iterate over rows, map, fold
    let sum = rows_of(get_result_set_string_ts_short_short(SIZE))
        .into_iter()
        .map(|r| {
            let value = r.cloned_value(2).unwrap();
            match from_field(FieldDeserializer::new(value), &Target::I32).unwrap() {
                Data::I32(i) => i,
                _ => panic!("no number"),
            }
        })
        .fold(0, |acc, i| acc + i);
    assert_eq!(sum as usize, SIZE * (SIZE + 1) / 2);
    // Negative test: no conversion of row into field if two or more colums
    for row in rows_of(get_result_set_string_ts_short_short(SIZE)) {
        let test = row_into(row, &Target::Text);
        assert!(test.is_err(), "Illegal conversion into a field for a row with two or more colums");
    }
}

#[test]
fn test_resultset() {
    // Matrix (mxn)
    let vtd = from_result(get_result_set_string_ts_short_short(SIZE), &list_of(test_data())).unwrap();
    assert_eq!(SIZE, list_len(&vtd));
    assert!(from_result(get_result_set_string_ts_short_short(SIZE), &list_of(Target::Text)).is_err());
    assert!(from_result(get_result_set_string_ts_short_short(SIZE), &test_data()).is_err());
    assert!(from_result(get_result_set_string_ts_short_short(SIZE), &Target::Text).is_err());
    assert!(
        from_result(get_result_set_string_ts_short_short(SIZE), &list_of(short_data())).is_err()
    );
    // Single column (mx1)
    let vec_d = from_result(get_result_set_string(SIZE), &list_of(test_data_min())).unwrap();
    assert_eq!(SIZE, list_len(&vec_d));
    let vec_s = from_result(get_result_set_string(SIZE), &list_of(Target::Text)).unwrap();
    assert_eq!(SIZE, list_len(&vec_s));
    assert!(from_result(get_result_set_string(SIZE), &test_data_min()).is_err());
    assert!(from_result(get_result_set_string(SIZE), &Target::Text).is_err());
    // Single row (1xn)
    let vtd = from_result(get_result_set_string_ts_short_short(1), &list_of(test_data())).unwrap();
    assert_eq!(1, list_len(&vtd));
    assert!(from_result(get_result_set_string_ts_short_short(1), &test_data()).is_ok());
    assert!(from_result(get_result_set_string_ts_short_short(1), &list_of(Target::Text)).is_err());
    assert!(from_result(get_result_set_string_ts_short_short(1), &Target::Text).is_err());
    // Single value (1x1)
    let vd = from_result(get_result_set_string(1), &list_of(test_data_min())).unwrap();
    assert_eq!(1, list_len(&vd));
    let vs = from_result(get_result_set_string(1), &list_of(Target::Text)).unwrap();
    assert_eq!(vs, Data::List(vec![text("a")]));
    let d = from_result(get_result_set_string(1), &test_data_min()).unwrap();
    assert_eq!(field(&d, "f1"), &text("a"));
    let s = from_result(get_result_set_string(1), &Target::Text).unwrap();
    assert_eq!(s, text("a"));
}

#[test]
fn five_rows_of_one_column_become_a_list_of_scalars() {
    let list = from_result(get_result_set_string(5), &list_of(Target::Text)).unwrap();
    assert_eq!(
        list,
        Data::List(vec![text("a"), text("b"), text("c"), text("d"), text("e")])
    );
    let bare = from_result(get_result_set_string(5), &Target::Text);
    assert!(matches!(bare, Err(DeserializationError::TrailingRows)));
}

#[test]
fn one_row_of_four_columns_becomes_a_record_or_a_list_of_one() {
    let record = Target::Record(vec![
        ("f1", Target::Text),
        ("f2", Target::Text),
        ("f3", Target::I32),
        ("f4", Target::Optional(Box::new(Target::I32))),
    ]);
    let single = from_result(get_result_set_string_ts_short_short(1), &record).unwrap();
    let list = from_result(get_result_set_string_ts_short_short(1), &list_of(record)).unwrap();
    assert_eq!(list, Data::List(vec![single.clone()]));
    assert_eq!(
        single,
        Data::Record(vec![
            ("f1".to_string(), text("b")),
            ("f2".to_string(), text("2017-09-01T10:00:01.0000000")),
            ("f3".to_string(), Data::I32(1)),
            ("f4".to_string(), Data::I32(17)),
        ])
    );
}

#[test]
fn a_wider_row_is_read_as_a_shorter_tuple_but_not_as_a_longer_one() {
    let row = rows_of(get_result_set_string_ts_short_short(1)).pop().unwrap();
    let mut five = vec![Target::Text, Target::Text, Target::I32];
    five.push(Target::Optional(Box::new(Target::I32)));
    five.push(Target::I32);
    assert!(row_into(row, &Target::Tuple(five)).is_err());
    let row = rows_of(get_result_set_string_ts_short_short(1)).pop().unwrap();
    let three = Target::Tuple(vec![Target::Text, Target::Text, Target::I32]);
    assert_eq!(
        row_into(row, &three).unwrap(),
        Data::Tuple(vec![text("b"), text("2017-09-01T10:00:01.0000000"), Data::I32(1)])
    );
}

#[test]
fn an_empty_result_has_no_row_for_a_bare_read() {
    let outcome = from_result(PlainResult::new(&["f1"]), &Target::Text);
    match outcome {
        Err(DeserializationError::Usage(text)) => assert_eq!(text, "no row found in result set"),
        other => panic!("a row was found: {:?}", other),
    }
    let list = from_result(PlainResult::new(&["f1"]), &list_of(Target::Text)).unwrap();
    assert_eq!(list, Data::List(vec![]));
}

#[test]
fn a_result_is_read_as_a_list_only_once() {
    let mut de = RsDeserializer::try_new(get_result_set_string(3)).unwrap();
    assert_eq!(de.state(), Need::Must);
    assert!(matches!(de.deserialize(Hint::Sequence), Ok(RsStep::Rows)));
    assert_eq!(de.state(), Need::Done);
    match de.deserialize(Hint::Sequence) {
        Err(DeserializationError::Usage(text)) => {
            assert_eq!(text, "deserialize_seq() when already done")
        }
        _ => panic!("a list was nested in a list"),
    }
}

#[test]
fn a_row_is_read_field_by_field_only_once() {
    let row = rows_of(get_result_set_string_ts_short_short(1)).pop().unwrap();
    let mut rd = RowDeserializer::new(row);
    assert_eq!(rd.state(), Need::Must);
    assert!(matches!(rd.deserialize(Hint::Tuple), Ok(RowStep::Fields)));
    assert_eq!(rd.state(), Need::Done);
    match rd.deserialize(Hint::Tuple) {
        Err(DeserializationError::Usage(text)) => {
            assert_eq!(text, "double-nesting (struct/tuple in struct/tuple) not possible")
        }
        _ => panic!("a tuple was nested in a tuple"),
    }
    match rd.deserialize(Hint::Struct) {
        Err(DeserializationError::Usage(text)) => {
            assert_eq!(text, "double-nesting (struct in struct) not possible")
        }
        _ => panic!("a record was nested in a tuple"),
    }
    // once the fields are read one by one, a bare read takes the next field
    match rd.deserialize(Hint::Text) {
        Ok(RowStep::Field(fd, Hint::Text)) => match fd.into_inner() {
            Value::Text(s) => assert_eq!(s, "b"),
            _ => panic!("no text"),
        },
        _ => panic!("no field"),
    }
    assert_eq!(rd.len(), 3);
}

#[test]
fn readers_refuse_shapes_they_do_not_serve() {
    let mut de = RsDeserializer::try_new(get_result_set_string(1)).unwrap();
    for (hint, name) in [
        (Hint::Char, "RsDeserializer::deserialize_char()"),
        (Hint::Unit, "RsDeserializer::deserialize_unit()"),
        (Hint::Dictionary, "RsDeserializer::deserialize_map()"),
        (Hint::UnitStruct, "RsDeserializer::deserialize_unit_struct()"),
        (Hint::Enum, "RsDeserializer::deserialize_enum()"),
        (Hint::Identifier, "RsDeserializer::deserialize_identifier()"),
        (Hint::IgnoredAny, "RsDeserializer::deserialize_ignored_any()"),
    ] {
        match de.deserialize(hint) {
            Err(DeserializationError::NotImplemented(s)) => assert_eq!(s, name),
            _ => panic!("{:?} was served", hint),
        }
    }
    assert!(matches!(de.deserialize(Hint::NewtypeStruct), Ok(RsStep::Newtype)));
    let row = rows_of(get_result_set_string(1)).pop().unwrap();
    let mut rd = RowDeserializer::new(row);
    for (hint, name) in [
        (Hint::Char, "RowDeserializer::deserialize_char()!"),
        (Hint::Unit, "RowDeserializer::deserialize_unit()"),
        (Hint::Dictionary, "RowDeserializer::deserialize_map()"),
        (Hint::UnitStruct, "RowDeserializer::deserialize_unit_struct()"),
        (Hint::TupleStruct, "RowDeserializer::deserialize_tuple_struct()"),
        (Hint::Enum, "RowDeserializer::deserialize_enum()"),
    ] {
        match rd.deserialize(hint) {
            Err(DeserializationError::NotImplemented(s)) => assert_eq!(s, name),
            _ => panic!("{:?} was served", hint),
        }
    }
    assert!(matches!(rd.deserialize(Hint::NewtypeStruct), Ok(RowStep::Newtype)));
    for (hint, name) in [
        (Hint::Any, "FieldDeserializer::deserialize_any()"),
        (Hint::Char, "FieldDeserializer::deserialize_char()"),
        (Hint::Unit, "FieldDeserializer::deserialize_unit()"),
        (Hint::Sequence, "FieldDeserializer::deserialize_seq()"),
        (Hint::Dictionary, "FieldDeserializer::deserialize_map()"),
        (Hint::UnitStruct, "FieldDeserializer::deserialize_unit_struct()"),
        (Hint::TupleStruct, "FieldDeserializer::deserialize_tuple_struct()"),
        (Hint::Struct, "FieldDeserializer::deserialize_struct()"),
        (Hint::Tuple, "FieldDeserializer::deserialize_tuple()"),
        (Hint::Enum, "FieldDeserializer::deserialize_enum()"),
        (Hint::Identifier, "FieldDeserializer::deserialize_identifier()"),
        (Hint::IgnoredAny, "FieldDeserializer::deserialize_ignored_any()"),
    ] {
        match FieldDeserializer::new(Value::Int(1)).deserialize(hint) {
            Err(DeserializationError::NotImplemented(s)) => assert_eq!(s, name),
            _ => panic!("{:?} was served", hint),
        }
    }
    assert!(matches!(
        FieldDeserializer::new(Value::Int(1)).deserialize(Hint::NewtypeStruct),
        Ok(FieldStep::Newtype(_))
    ));
}

#[test]
fn names_go_by_position() {
    let row = rows_of(get_result_set_string_ts_short_short(1)).pop().unwrap();
    let mut rd = RowDeserializer::new(row);
    assert_eq!(rd.get_field_name(3), Some("f4"));
    assert_eq!(rd.get_field_name(4), None);
    assert_eq!(rd.next_field_name(), Some("f1"));
    assert!(matches!(rd.deserialize(Hint::Struct), Ok(RowStep::NamedFields)));
    let mut visitor = FieldsSeqVisitor::new(&mut rd);
    assert!(visitor.next_element().is_some());
    assert!(visitor.next_element().is_some());
    match rd.deserialize(Hint::Identifier) {
        Ok(RowStep::FieldName(name)) => assert_eq!(name, "f3"),
        _ => panic!("no name"),
    }
    match rd.deserialize(Hint::IgnoredAny) {
        Err(DeserializationError::UnknownField(name)) => assert_eq!(name, "f3"),
        _ => panic!("a column was dropped"),
    }
    let visitor = FieldsMapVisitor::new(&mut rd);
    assert!(visitor.next_key_seed());
    assert!(visitor.next_value_seed().is_ok());
    match visitor.unknown_field() {
        DeserializationError::UnknownField(name) => assert_eq!(name, "f3"),
        _ => panic!("wrong kind of error"),
    }
    let mut visitor = FieldsSeqVisitor::new(&mut rd);
    assert!(visitor.next_element().is_some());
    assert!(visitor.next_element().is_some());
    assert!(visitor.next_element().is_none());
    let visitor = FieldsMapVisitor::new(&mut rd);
    assert!(!visitor.next_key_seed());
    match visitor.next_value_seed() {
        Err(DeserializationError::Usage(text)) => {
            assert_eq!(text, "FieldsMapVisitor::next_value_seed(): no more value")
        }
        _ => panic!("a value was found in a row that is used up"),
    }
    match rd.deserialize(Hint::Identifier) {
        Err(DeserializationError::Usage(text)) => {
            assert_eq!(text, "empty row in RowDeserializer::deserialize_identifier()")
        }
        _ => panic!("a name was found in a row that is used up"),
    }
    match rd.deserialize(Hint::IgnoredAny) {
        Err(DeserializationError::UnknownField(name)) => assert_eq!(name, "unknown"),
        _ => panic!("a column was dropped"),
    }
    match rd.deserialize(Hint::Text) {
        Err(DeserializationError::Usage(text)) => {
            assert_eq!(text, "next_value(): no more value found in row")
        }
        _ => panic!("a value was found in a row that is used up"),
    }
}

#[test]
fn a_peek_leaves_the_row_as_it_is() {
    let mut row = rows_of(get_result_set_string_ts_short_short(1)).pop().unwrap();
    let first = row.cloned_value(2).unwrap();
    let second = row.cloned_value(2).unwrap();
    assert!(matches!(first, Value::SmallInt(1)));
    assert!(matches!(second, Value::SmallInt(1)));
    match row.cloned_value(4) {
        Err(DeserializationError::Usage(text)) => {
            assert_eq!(text, "element with index {} does not exist")
        }
        _ => panic!("a fifth value was found"),
    }
    assert_eq!(DeserializableRow::len(&row), 4);
    assert_eq!(DeserializableRow::number_of_fields(&row), 4);
    assert_eq!(DeserializableRow::field_name(&row, 1), Some("f2"));
    match DeserializableRow::next(&mut row) {
        Some(Value::Text(s)) => assert_eq!(s, "b"),
        _ => panic!("the first value is gone"),
    }
    // the index of a peek counts from the next value
    assert!(matches!(row.cloned_value(1), Ok(Value::SmallInt(1))));
    assert_eq!(DeserializableRow::len(&row), 3);
}

#[test]
fn a_row_without_fields_has_no_scalar() {
    let mut rs = PlainResult::new(&[]);
    rs.push(vec![]);
    let row = rows_of(rs).pop().unwrap();
    let mut rd = RowDeserializer::new(row);
    assert_eq!(rd.state(), Need::Must);
    assert!(matches!(rd.deserialize(Hint::Text), Err(DeserializationError::TrailingCols)));
    match row_step(&mut rd, &Target::Tuple(vec![]), Hint::Tuple) {
        Ok(Data::Tuple(tuple)) => assert!(tuple.is_empty()),
        other => panic!("no tuple: {:?}", other),
    }
}

#[test]
fn the_probe_for_a_second_row_decides_the_state() {
    let reader = RsDeserializer::with_probe(get_result_set_string(1), Ok(false)).unwrap();
    assert_eq!(reader.state(), Need::Can);
    let reader = RsDeserializer::with_probe(get_result_set_string(2), Ok(true)).unwrap();
    assert_eq!(reader.state(), Need::Must);
    let failed = RsDeserializer::with_probe(
        get_result_set_string(2),
        Err(DeserializationError::SerdeError("connection lost".to_string())),
    );
    match failed {
        Err(DeserializationError::SerdeError(text)) => assert_eq!(text, "connection lost"),
        _ => panic!("the error of the probe was dropped"),
    }
}

#[test]
fn the_row_of_a_bare_read_or_the_error_of_the_fetch() {
    let row = rows_of(get_result_set_string(1)).pop().unwrap();
    assert!(RsDeserializer::<PlainResult>::single_row(Ok(Some(row))).is_ok());
    match RsDeserializer::<PlainResult>::single_row(Ok(None)) {
        Err(DeserializationError::Usage(text)) => assert_eq!(text, "no row found in result set"),
        _ => panic!("a row was found"),
    }
    let failed = RsDeserializer::<PlainResult>::single_row(Err(DeserializationError::SerdeError(
        "connection lost".to_string(),
    )));
    match failed {
        Err(DeserializationError::SerdeError(text)) => assert_eq!(text, "connection lost"),
        _ => panic!("the error of the fetch was dropped"),
    }
}

#[test]
fn a_bare_read_takes_the_single_row() {
    let mut de = RsDeserializer::try_new(get_result_set_string_ts_short_short(1)).unwrap();
    assert_eq!(de.state(), Need::Can);
    let row = de.pop_single_row().unwrap();
    assert_eq!(DeserializableRow::len(&row), 4);
    assert!(matches!(de.pop_single_row(), Err(DeserializationError::Usage(_))));
    assert!(de.begin_rows().is_ok());
    assert!(matches!(de.begin_rows(), Err(DeserializationError::Usage(_))));
    let mut de = RsDeserializer::try_new(get_result_set_string(2)).unwrap();
    assert!(matches!(de.pop_single_row(), Err(DeserializationError::TrailingRows)));
    let mut rd = RowDeserializer::new(row);
    assert!(matches!(rd.next_value(), Err(DeserializationError::TrailingCols)));
    assert!(rd.begin_fields("twice").is_ok());
    match rd.begin_fields("twice") {
        Err(DeserializationError::Usage(text)) => assert_eq!(text, "twice"),
        _ => panic!("a second read field by field was started"),
    }
    assert!(matches!(rd.next_value(), Ok(Value::Text(s)) if s == "b"));
    assert_eq!(rd.deserialize_identifier().unwrap(), "f2");
    match rd.deserialize_ignored_any() {
        DeserializationError::UnknownField(name) => assert_eq!(name, "f2"),
        _ => panic!("wrong kind of error"),
    }
}
