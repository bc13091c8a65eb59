use crate::de::deserializable_row::{next_name, DeserializableRow};
use crate::de::deserialization_error::{DeserializationError, DeserializationErrorView};
use crate::de::field_deserializer::FieldDeserializer;
use crate::de::hint::Hint;
use crate::de::need::{Need, Read};
use vstd::prelude::*;

verus! {

/// Reads a single row.
///
/// A row of exactly one field may be read as that field alone. Every row
/// may be read field by field, as a tuple or as a record, once.
#[derive(Debug)]
pub struct RowDeserializer<Row> {
    row: Row,
    need: Need,
}

/// What a row reader does with a hint.
#[derive(Clone, Copy, Debug)]
pub enum RowPlan {
    /// Take the next field, and put this hint to its reader.
    Field(Hint),
    /// Start reading field by field, in the order of the columns. The text
    /// tells why a second such read is refused.
    Fields(&'static str),
    /// Start reading field by field, each under the name of its column.
    /// The text tells why a second such read is refused.
    NamedFields(&'static str),
    /// Hand the reader itself on: a wrapper around one value is transparent.
    Newtype,
    /// Give the name of the column of the next field.
    Identifier,
    /// Report the column of the next field as one that the target lacks.
    IgnoredAny,
    /// Refuse: a row cannot be read as this shape. The text names the
    /// refused request.
    Refuse(&'static str),
}

/// What a row reader hands out.
pub enum RowStep<DBV> {
    /// The reader of the next field, and the hint to put to it.
    Field(FieldDeserializer<DBV>, Hint),
    /// The fields are to be taken one by one, in the order of the columns.
    Fields,
    /// The fields are to be taken one by one, each under its name.
    NamedFields,
    /// The reader itself is to be asked again, for the content of a wrapper.
    Newtype,
    /// The name of the column of the next field.
    FieldName(String),
}

/// What a row reader does with each hint.
pub open spec fn row_plan(hint: Hint) -> RowPlan {
    match hint {
        Hint::Any => RowPlan::Field(Hint::Text),
        Hint::Str => RowPlan::Field(Hint::Text),
        Hint::ByteBuf => RowPlan::Field(Hint::Bytes),
        Hint::Char => RowPlan::Refuse("RowDeserializer::deserialize_char()!"),
        Hint::Unit => RowPlan::Refuse("RowDeserializer::deserialize_unit()"),
        Hint::Sequence => RowPlan::Fields(
            "double-nesting (struct/tuple in struct/tuple) not possible",
        ),
        Hint::Tuple => RowPlan::Fields(
            "double-nesting (struct/tuple in struct/tuple) not possible",
        ),
        Hint::Dictionary => RowPlan::Refuse("RowDeserializer::deserialize_map()"),
        Hint::UnitStruct => RowPlan::Refuse("RowDeserializer::deserialize_unit_struct()"),
        Hint::NewtypeStruct => RowPlan::Newtype,
        Hint::TupleStruct => RowPlan::Refuse("RowDeserializer::deserialize_tuple_struct()"),
        Hint::Struct => RowPlan::NamedFields("double-nesting (struct in struct) not possible"),
        Hint::Enum => RowPlan::Refuse("RowDeserializer::deserialize_enum()"),
        Hint::Identifier => RowPlan::Identifier,
        Hint::IgnoredAny => RowPlan::IgnoredAny,
        _ => RowPlan::Field(hint),
    }
}

/// Whether the outcome is an error with the given content.
pub open spec fn fails_with<T>(
    outcome: Result<T, DeserializationError>,
    content: DeserializationErrorView,
) -> bool {
    outcome matches Err(error) && error@ == content
}

/// Whether the error is of the kind `Usage` and carries the text.
pub open spec fn is_usage<T>(outcome: Result<T, DeserializationError>, text: Seq<char>) -> bool {
    fails_with(outcome, DeserializationErrorView::Usage(text))
}

/// Whether the outcome is the name of a column.
pub open spec fn is_field_name<DBV>(
    outcome: Result<RowStep<DBV>, DeserializationError>,
    name: Seq<char>,
) -> bool {
    outcome matches Ok(RowStep::FieldName(text)) && text@ == name
}

/// Whether `outcome` and the reader `after` are what the reader `before`
/// answers to `hint`.
///
/// * A primitive, an optional or any value is read from the next field:
///   this fails with `TrailingCols` while the row must be read field by
///   field, and with `Usage` if no field is left.
/// * A sequence, a tuple or a record starts the one read field by field:
///   a second one fails with `Usage`.
/// * A wrapper is transparent.
/// * An identifier is the name of the column of the next field.
/// * A skipped value fails with `UnknownField` and the name of its column.
/// * Every other shape fails with `NotImplemented`.
pub open spec fn row_answer<Row: DeserializableRow>(
    before: RowDeserializer<Row>,
    hint: Hint,
    after: RowDeserializer<Row>,
    outcome: Result<RowStep<Row::Value>, DeserializationError>,
) -> bool {
    &&& after.row().field_names() == before.row().field_names()
    &&& match row_plan(hint) {
        RowPlan::Refuse(request) => {
            &&& after == before
            &&& fails_with(outcome, DeserializationErrorView::NotImplemented(request@))
        },
        RowPlan::Newtype => after == before && outcome == Ok::<
            RowStep<Row::Value>,
            DeserializationError,
        >(RowStep::Newtype),
        RowPlan::Field(request) => {
            &&& after.need() == before.need()
            &&& if before.need().spec_step(Read::Collapsing) is None {
                &&& after.row() == before.row()
                &&& fails_with(outcome, DeserializationErrorView::TrailingCols)
            } else if before.row().remaining().len() == 0 {
                &&& after.row().remaining() == before.row().remaining()
                &&& is_usage(outcome, "next_value(): no more value found in row"@)
            } else {
                &&& after.row().remaining() == before.row().remaining().drop_first()
                &&& outcome == Ok::<RowStep<Row::Value>, DeserializationError>(
                    RowStep::Field(FieldDeserializer(before.row().remaining()[0]), request),
                )
            }
        },
        RowPlan::Fields(refusal) => {
            &&& after.row() == before.row()
            &&& match before.need().spec_step(Read::Structured) {
                Some(next) => after.need() == next && outcome == Ok::<
                    RowStep<Row::Value>,
                    DeserializationError,
                >(RowStep::Fields),
                None => after.need() == before.need() && is_usage(outcome, refusal@),
            }
        },
        RowPlan::NamedFields(refusal) => {
            &&& after.row() == before.row()
            &&& match before.need().spec_step(Read::Structured) {
                Some(next) => after.need() == next && outcome == Ok::<
                    RowStep<Row::Value>,
                    DeserializationError,
                >(RowStep::NamedFields),
                None => after.need() == before.need() && is_usage(outcome, refusal@),
            }
        },
        RowPlan::Identifier => {
            &&& after == before
            &&& if before.row().remaining().len() == 0 {
                is_usage(outcome, "empty row in RowDeserializer::deserialize_identifier()"@)
            } else {
                match next_name(before.row()) {
                    Some(name) => is_field_name(outcome, name),
                    None => is_usage(
                        outcome,
                        "no field_name in RowDeserializer::deserialize_identifier()"@,
                    ),
                }
            }
        },
        RowPlan::IgnoredAny => {
            &&& after == before
            &&& fails_with(
                outcome,
                DeserializationErrorView::UnknownField(
                    match next_name(before.row()) {
                        Some(name) => name,
                        None => "unknown"@,
                    },
                ),
            )
        },
    }
}

impl<Row> RowDeserializer<Row> where Row: DeserializableRow {
    /// The row that is read.
    pub closed spec fn row(&self) -> Row {
        self.row
    }

    /// What the reader still owes to the row.
    pub closed spec fn need(&self) -> Need {
        self.need
    }

    /// A reader of the given row. Only a row of exactly one field can be
    /// read as a bare value.
    pub fn new(row: Row) -> (reader: RowDeserializer<Row>)
        ensures
            reader.row() == row,
            reader.need() == Need::spec_of_row(row.remaining().len()),
    {
        let need = Need::of_row(row.len());
        RowDeserializer { row, need }
    }

    /// What the reader still owes to the row.
    pub fn state(&self) -> (need: Need)
        ensures
            need == self.need(),
    {
        self.need
    }

    /// The number of fields that are left.
    pub fn len(&self) -> (len: usize)
        ensures
            len == self.row().remaining().len(),
    {
        self.row.len()
    }

    /// The name of the column at the given index.
    pub fn get_field_name(&self, idx: usize) -> (name: Option<&str>)
        ensures
            idx < self.row().field_names().len() ==> (name matches Some(s) && s@
                == self.row().field_names()[idx as int]),
            idx >= self.row().field_names().len() ==> name is None,
    {
        self.row.field_name(idx)
    }

    /// The name of the column of the next field, if it has one.
    pub fn next_field_name(&self) -> (name: Option<&str>)
        ensures
            match name {
                Some(s) => next_name(self.row()) == Some(s@),
                None => next_name(self.row()) is None,
            },
    {
        let fields = self.row.number_of_fields();
        let remaining = self.row.len();
        if remaining <= fields {
            self.row.field_name(fields - remaining)
        } else {
            None
        }
    }

    /// What the reader does with a hint.
    pub fn plan(hint: Hint) -> (plan: RowPlan)
        ensures
            plan == row_plan(hint),
    {
        match hint {
            Hint::Any => RowPlan::Field(Hint::Text),
            Hint::Str => RowPlan::Field(Hint::Text),
            Hint::ByteBuf => RowPlan::Field(Hint::Bytes),
            Hint::Char => RowPlan::Refuse("RowDeserializer::deserialize_char()!"),
            Hint::Unit => RowPlan::Refuse("RowDeserializer::deserialize_unit()"),
            Hint::Sequence => RowPlan::Fields(
                "double-nesting (struct/tuple in struct/tuple) not possible",
            ),
            Hint::Tuple => RowPlan::Fields(
                "double-nesting (struct/tuple in struct/tuple) not possible",
            ),
            Hint::Dictionary => RowPlan::Refuse("RowDeserializer::deserialize_map()"),
            Hint::UnitStruct => RowPlan::Refuse("RowDeserializer::deserialize_unit_struct()"),
            Hint::NewtypeStruct => RowPlan::Newtype,
            Hint::TupleStruct => RowPlan::Refuse("RowDeserializer::deserialize_tuple_struct()"),
            Hint::Struct => RowPlan::NamedFields("double-nesting (struct in struct) not possible"),
            Hint::Enum => RowPlan::Refuse("RowDeserializer::deserialize_enum()"),
            Hint::Identifier => RowPlan::Identifier,
            Hint::IgnoredAny => RowPlan::IgnoredAny,
            _ => RowPlan::Field(hint),
        }
    }

    /// Takes the next field for a bare read. This is refused with
    /// [`DeserializationError::TrailingCols`] while the row must be read
    /// field by field, and with `Usage` if no field is left.
    pub fn next_value(&mut self) -> (outcome: Result<Row::Value, DeserializationError>)
        ensures
            final(self).need() == old(self).need(),
            final(self).row().field_names() == old(self).row().field_names(),
            old(self).need().spec_step(Read::Collapsing) is None ==> (outcome matches Err(error)
                && error@ == DeserializationErrorView::TrailingCols) && final(self).row() == old(self).row(),
            old(self).need().spec_step(Read::Collapsing) is Some && old(self).row().remaining().len() > 0 ==> outcome == Ok::<Row::Value, DeserializationError>(
                old(self).row().remaining()[0],
            ) && final(self).row().remaining() == old(self).row().remaining().drop_first(),
            old(self).need().spec_step(Read::Collapsing) is Some && old(self).row().remaining().len() == 0 ==> is_usage(
                outcome,
                "next_value(): no more value found in row"@,
            ) && final(self).row().remaining() == old(self).row().remaining(),
    {
        if self.need.step(Read::Collapsing).is_none() {
            return Err(DeserializationError::TrailingCols);
        }
        match self.row.next() {
            Some(value) => Ok(value),
            None => Err(impl_err("next_value(): no more value found in row")),
        }
    }

    /// Starts the one read field by field that a row admits. A second one
    /// is refused with `Usage` and the given text: a row is flat, so no
    /// tuple or record can be nested in another.
    ///
    /// Whether the target then takes every field is not checked here. A
    /// target that takes more fields than the row has finds no field; one
    /// that stops early leaves fields unread, and `len` tells how many.
    pub fn begin_fields(&mut self, refusal: &'static str) -> (outcome: Result<
        (),
        DeserializationError,
    >)
        ensures
            final(self).row() == old(self).row(),
            match old(self).need().spec_step(Read::Structured) {
                Some(next) => outcome is Ok && final(self).need() == next,
                None => is_usage(outcome, refusal@) && final(self).need() == old(self).need(),
            },
    {
        match self.need.step(Read::Structured) {
            Some(next) => {
                self.need = next;
                Ok(())
            },
            None => Err(impl_err(refusal)),
        }
    }

    /// The name of the column of the next field, for a target that asks
    /// under which name the field comes.
    pub fn deserialize_identifier(&self) -> (outcome: Result<String, DeserializationError>)
        ensures
            self.row().remaining().len() == 0 ==> is_usage(
                outcome,
                "empty row in RowDeserializer::deserialize_identifier()"@,
            ),
            self.row().remaining().len() > 0 ==> match next_name(self.row()) {
                Some(name) => outcome matches Ok(text) && text@ == name,
                None => is_usage(
                    outcome,
                    "no field_name in RowDeserializer::deserialize_identifier()"@,
                ),
            },
    {
        if self.row.len() == 0 {
            Err(impl_err("empty row in RowDeserializer::deserialize_identifier()"))
        } else {
            match self.next_field_name() {
                Some(name) => Ok(name.to_owned()),
                None => Err(impl_err("no field_name in RowDeserializer::deserialize_identifier()")),
            }
        }
    }

    /// The error for a field that the target skips: the target has no
    /// place for the column of the next field. The error names the column,
    /// or `unknown` if the column has no name.
    pub fn deserialize_ignored_any(&self) -> (error: DeserializationError)
        ensures
            error@ == DeserializationErrorView::UnknownField(
                match next_name(self.row()) {
                    Some(name) => name,
                    None => "unknown"@,
                },
            ),
    {
        let name = match self.next_field_name() {
            Some(name) => name,
            None => "unknown",
        };
        DeserializationError::UnknownField(name.to_owned())
    }

    /// Answers a hint; see [`row_answer`].
    pub fn deserialize(&mut self, hint: Hint) -> (outcome: Result<
        RowStep<Row::Value>,
        DeserializationError,
    >)
        ensures
            row_answer(*old(self), hint, *final(self), outcome),
    {
        match Self::plan(hint) {
            RowPlan::Refuse(request) => Err(DeserializationError::NotImplemented(request)),
            RowPlan::Newtype => Ok(RowStep::Newtype),
            RowPlan::Field(request) => match self.next_value() {
                Ok(value) => Ok(RowStep::Field(FieldDeserializer::new(value), request)),
                Err(error) => Err(error),
            },
            RowPlan::Fields(refusal) => match self.begin_fields(refusal) {
                Ok(()) => Ok(RowStep::Fields),
                Err(error) => Err(error),
            },
            RowPlan::NamedFields(refusal) => match self.begin_fields(refusal) {
                Ok(()) => Ok(RowStep::NamedFields),
                Err(error) => Err(error),
            },
            RowPlan::Identifier => match self.deserialize_identifier() {
                Ok(name) => Ok(RowStep::FieldName(name)),
                Err(error) => Err(error),
            },
            RowPlan::IgnoredAny => Err(self.deserialize_ignored_any()),
        }
    }
}

/// No bare scalar of many columns: a fresh reader of a row of more than
/// one field answers the hint of every scalar target with `TrailingCols`,
/// and takes nothing from the row.
pub proof fn lemma_many_columns_refuse_scalar<Row: DeserializableRow>(
    before: RowDeserializer<Row>,
    hint: Hint,
    after: RowDeserializer<Row>,
    outcome: Result<RowStep<Row::Value>, DeserializationError>,
)
    requires
        before.row().remaining().len() > 1,
        before.need() == Need::spec_of_row(before.row().remaining().len()),
        hint.is_scalar(),
        row_answer(before, hint, after, outcome),
    ensures
        fails_with(outcome, DeserializationErrorView::TrailingCols),
        after == before,
{
}

/// A row of exactly one field is read as a bare scalar: a fresh reader
/// answers the hint of a scalar target with the reader of that field.
pub proof fn lemma_single_column_collapses<Row: DeserializableRow>(
    before: RowDeserializer<Row>,
    hint: Hint,
    after: RowDeserializer<Row>,
    outcome: Result<RowStep<Row::Value>, DeserializationError>,
)
    requires
        before.row().remaining().len() == 1,
        before.need() == Need::spec_of_row(before.row().remaining().len()),
        hint.is_scalar(),
        row_answer(before, hint, after, outcome),
    ensures
        outcome matches Ok(RowStep::Field(reader, _)) && reader.value()
            == before.row().remaining()[0],
        after.row().remaining().len() == 0,
{
}

/// Hands out the fields of a row one by one, in the order of the columns.
pub struct FieldsSeqVisitor<'a, R: 'a + DeserializableRow> {
    /// The reader of the row.
    pub de: &'a mut RowDeserializer<R>,
}

impl<'a, R: DeserializableRow> FieldsSeqVisitor<'a, R> {
    /// A visitor of the fields that the reader has left.
    pub fn new(de: &'a mut RowDeserializer<R>) -> (visitor: Self)
        ensures
            *visitor.de == *old(de),
            *final(visitor.de) == *final(de),
    {
        FieldsSeqVisitor { de }
    }

    /// Takes the next field: the reader of its value, or `None` when the
    /// row is used up. The state of the row reader plays no part.
    pub fn next_element(&mut self) -> (element: Option<FieldDeserializer<R::Value>>)
        ensures
            *final(final(self).de) == *final(old(self).de),
            final(self).de.need() == old(self).de.need(),
            final(self).de.row().field_names() == old(self).de.row().field_names(),
            old(self).de.row().remaining().len() == 0 ==> element is None && final(self).de.row().remaining() == old(self).de.row().remaining(),
            old(self).de.row().remaining().len() > 0 ==> element == Some(
                FieldDeserializer(old(self).de.row().remaining()[0]),
            ) && final(self).de.row().remaining() == old(self).de.row().remaining().drop_first(),
    {
        match self.de.row.next() {
            None => None,
            Some(value) => Some(FieldDeserializer::new(value)),
        }
    }
}

/// Hands out the fields of a row one by one, each under the name of its
/// column. Names go by position: the next name asked for is that of the
/// column of the next field.
pub struct FieldsMapVisitor<'a, R: 'a + DeserializableRow> {
    /// The reader of the row.
    pub de: &'a mut RowDeserializer<R>,
}

impl<'a, R: DeserializableRow> FieldsMapVisitor<'a, R> {
    /// A visitor of the fields that the reader has left.
    pub fn new(de: &'a mut RowDeserializer<R>) -> (visitor: Self)
        ensures
            *visitor.de == *old(de),
            *final(visitor.de) == *final(de),
    {
        FieldsMapVisitor { de }
    }

    /// Whether a field is left, and so another name is to be read. The name
    /// itself is read from the row reader, as an identifier.
    pub fn next_key_seed(&self) -> (more: bool)
        ensures
            more == (old(self.de).row().remaining().len() > 0),
    {
        self.de.row.len() != 0
    }

    /// The error for a name that the target did not accept: the target has
    /// no field for the column of the next field.
    pub fn unknown_field(&self) -> (error: DeserializationError)
        requires
            next_name(self.de.row()) is Some,
        ensures
            error@ == DeserializationErrorView::UnknownField(next_name(old(self.de).row())->0),
    {
        self.de.deserialize_ignored_any()
    }

    /// Checks that a field is left whose value can be read; the value
    /// itself is then read from the row reader. Fails with `Usage` when the
    /// row is used up.
    pub fn next_value_seed(&self) -> (outcome: Result<(), DeserializationError>)
        ensures
            old(self.de).row().remaining().len() > 0 ==> outcome is Ok,
            old(self.de).row().remaining().len() == 0 ==> is_usage(
                outcome,
                "FieldsMapVisitor::next_value_seed(): no more value"@,
            ),
    {
        if self.de.row.len() == 0 {
            Err(impl_err("FieldsMapVisitor::next_value_seed(): no more value"))
        } else {
            Ok(())
        }
    }
}

/// The error for a target whose structure does not fit the data.
pub fn impl_err(s: &'static str) -> (error: DeserializationError)
    ensures
        error@ == DeserializationErrorView::Usage(s@),
{
    DeserializationError::Usage(s.to_string())
}

} // verus!
