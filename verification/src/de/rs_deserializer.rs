use crate::de::deserializable_result_set::DeserializableResultSet;
use crate::de::deserializable_row::DeserializableRow;
use crate::de::deserialization_error::{DeserializationError, DeserializationErrorView};
use crate::de::hint::Hint;
use crate::de::need::{Need, Read};
use crate::de::row_deserializer::{fails_with, impl_err, is_usage, RowDeserializer};
use vstd::prelude::*;

verus! {

/// Reads a whole result.
///
/// A result of at most one row may be read as that row alone. Every
/// result may be read row by row, as a list, once.
#[derive(Debug)]
pub struct RsDeserializer<RS> {
    rs: RS,
    need: Need,
}

/// What a result reader does with a hint.
#[derive(Clone, Copy, Debug)]
pub enum RsPlan {
    /// Take the single row, and put this hint to its reader.
    Row(Hint),
    /// Start reading row by row.
    Rows,
    /// Hand the reader itself on: a wrapper around one value is transparent.
    Newtype,
    /// Refuse: a result cannot be read as this shape. The text names the
    /// refused request.
    Refuse(&'static str),
}

/// What a result reader hands out.
pub enum RsStep<Row> {
    /// The reader of the single row, and the hint to put to it.
    Row(RowDeserializer<Row>, Hint),
    /// The rows are to be taken one by one.
    Rows,
    /// The reader itself is to be asked again, for the content of a wrapper.
    Newtype,
}

/// What a result reader does with each hint.
pub open spec fn rs_plan(hint: Hint) -> RsPlan {
    match hint {
        Hint::Any => RsPlan::Row(Hint::Text),
        Hint::Str => RsPlan::Row(Hint::Text),
        Hint::Char => RsPlan::Refuse("RsDeserializer::deserialize_char()"),
        Hint::Unit => RsPlan::Refuse("RsDeserializer::deserialize_unit()"),
        Hint::Sequence => RsPlan::Rows,
        Hint::Dictionary => RsPlan::Refuse("RsDeserializer::deserialize_map()"),
        Hint::UnitStruct => RsPlan::Refuse("RsDeserializer::deserialize_unit_struct()"),
        Hint::NewtypeStruct => RsPlan::Newtype,
        Hint::Enum => RsPlan::Refuse("RsDeserializer::deserialize_enum()"),
        Hint::Identifier => RsPlan::Refuse("RsDeserializer::deserialize_identifier()"),
        Hint::IgnoredAny => RsPlan::Refuse("RsDeserializer::deserialize_ignored_any()"),
        _ => RsPlan::Row(hint),
    }
}

/// What the probe for a second row makes of a result: a reader that admits
/// a bare read unless there is a second row, or the error of the probe.
pub open spec fn probed<RS: DeserializableResultSet>(
    rs: RS,
    multiple: Result<bool, DeserializationError>,
    outcome: Result<RsDeserializer<RS>, DeserializationError>,
) -> bool {
    match multiple {
        Ok(answer) => outcome matches Ok(reader) && reader.rs() == rs && reader.need() == (
        if answer {
            Need::Must
        } else {
            Need::Can
        }),
        Err(error) => outcome matches Err(e) && e == error,
    }
}

/// Whether `outcome` is what the row taken from a result makes of a bare
/// read: the row itself, `Usage` if there was none, or the error of the
/// fetch.
pub open spec fn is_single_row<Row>(
    next: Result<Option<Row>, DeserializationError>,
    outcome: Result<Row, DeserializationError>,
) -> bool {
    match next {
        Ok(Some(row)) => outcome == Ok::<Row, DeserializationError>(row),
        Ok(None) => is_usage(outcome, "no row found in result set"@),
        Err(error) => outcome matches Err(e) && e == error,
    }
}

/// Whether `outcome` and the reader `after` can be what the reader `before`
/// answers to `hint`.
///
/// * A primitive, an optional, a tuple or a record is read from the single
///   row: this fails with `TrailingRows` while the result must be read row
///   by row. Else the first row is taken; an outcome without a row is
///   either `Usage`, for a result without rows, or the error of the fetch.
///   A loaded result does not fail to fetch: it gives its first row if it
///   has one.
/// * A sequence starts the one read row by row: a second one fails with
///   `Usage`.
/// * A wrapper is transparent.
/// * Every other shape fails with `NotImplemented`.
pub open spec fn rs_answer<RS: DeserializableResultSet>(
    before: RsDeserializer<RS>,
    hint: Hint,
    after: RsDeserializer<RS>,
    outcome: Result<RsStep<RS::Row>, DeserializationError>,
) -> bool {
    match rs_plan(hint) {
        RsPlan::Refuse(request) => {
            &&& after == before
            &&& fails_with(outcome, DeserializationErrorView::NotImplemented(request@))
        },
        RsPlan::Newtype => after == before && outcome == Ok::<
            RsStep<RS::Row>,
            DeserializationError,
        >(RsStep::Newtype),
        RsPlan::Rows => {
            &&& after.rs() == before.rs()
            &&& match before.need().spec_step(Read::Structured) {
                Some(next) => after.need() == next && outcome == Ok::<
                    RsStep<RS::Row>,
                    DeserializationError,
                >(RsStep::Rows),
                None => after.need() == before.need() && is_usage(
                    outcome,
                    "deserialize_seq() when already done"@,
                ),
            }
        },
        RsPlan::Row(request) => {
            &&& after.need() == before.need()
            &&& if before.need().spec_step(Read::Collapsing) is None {
                &&& after.rs() == before.rs()
                &&& fails_with(outcome, DeserializationErrorView::TrailingRows)
            } else {
                match outcome {
                    Ok(step) => {
                        &&& before.rs().rows().len() > 0
                        &&& after.rs().rows() == before.rs().rows().drop_first()
                        &&& after.rs().field_names() == before.rs().field_names()
                        &&& step matches RsStep::Row(reader, put)
                        &&& put == request
                        &&& reader.row() == before.rs().rows()[0]
                        &&& reader.need() == Need::spec_of_row(
                            before.rs().rows()[0].remaining().len(),
                        )
                    },
                    Err(_) => before.rs().is_loaded() ==> {
                        &&& before.rs().rows().len() == 0
                        &&& after.rs().rows() == before.rs().rows()
                        &&& is_usage(outcome, "no row found in result set"@)
                    },
                }
            }
        },
    }
}

impl<RS> RsDeserializer<RS> where RS: DeserializableResultSet {
    /// The result that is read.
    pub closed spec fn rs(&self) -> RS {
        self.rs
    }

    /// What the reader still owes to the result.
    pub closed spec fn need(&self) -> Need {
        self.need
    }

    /// Makes a reader from a result and from what the probe for a second
    /// row said of it.
    pub fn with_probe(rs: RS, multiple: Result<bool, DeserializationError>) -> (outcome: Result<
        RsDeserializer<RS>,
        DeserializationError,
    >)
        ensures
            probed(rs, multiple, outcome),
    {
        match multiple {
            Ok(answer) => Ok(RsDeserializer { rs, need: Need::of_result(answer) }),
            Err(error) => Err(error),
        }
    }

    /// A reader of the given result. Only a result of at most one row can
    /// be read as a bare row. Finding that out may fail, unless the result
    /// is loaded: the error is then that of the driver.
    pub fn try_new(rs: RS) -> (outcome: Result<RsDeserializer<RS>, DeserializationError>)
        ensures
            rs.is_loaded() ==> outcome is Ok,
            outcome matches Ok(reader) ==> {
                &&& reader.rs().rows() == rs.rows()
                &&& reader.rs().field_names() == rs.field_names()
                &&& reader.rs().is_loaded() == rs.is_loaded()
                &&& reader.need() == Need::spec_of_result(rs.rows().len())
            },
    {
        let mut rs = rs;
        let multiple = rs.has_multiple_rows();
        Self::with_probe(rs, multiple)
    }

    /// What the reader still owes to the result.
    pub fn state(&self) -> (need: Need)
        ensures
            need == self.need(),
    {
        self.need
    }

    /// What the reader does with a hint.
    pub fn plan(hint: Hint) -> (plan: RsPlan)
        ensures
            plan == rs_plan(hint),
    {
        match hint {
            Hint::Any => RsPlan::Row(Hint::Text),
            Hint::Str => RsPlan::Row(Hint::Text),
            Hint::Char => RsPlan::Refuse("RsDeserializer::deserialize_char()"),
            Hint::Unit => RsPlan::Refuse("RsDeserializer::deserialize_unit()"),
            Hint::Sequence => RsPlan::Rows,
            Hint::Dictionary => RsPlan::Refuse("RsDeserializer::deserialize_map()"),
            Hint::UnitStruct => RsPlan::Refuse("RsDeserializer::deserialize_unit_struct()"),
            Hint::NewtypeStruct => RsPlan::Newtype,
            Hint::Enum => RsPlan::Refuse("RsDeserializer::deserialize_enum()"),
            Hint::Identifier => RsPlan::Refuse("RsDeserializer::deserialize_identifier()"),
            Hint::IgnoredAny => RsPlan::Refuse("RsDeserializer::deserialize_ignored_any()"),
            _ => RsPlan::Row(hint),
        }
    }

    /// Makes of the row taken from a result what a bare read hands out.
    pub fn single_row(next: Result<Option<RS::Row>, DeserializationError>) -> (outcome: Result<
        RS::Row,
        DeserializationError,
    >)
        ensures
            is_single_row(next, outcome),
    {
        match next {
            Ok(Some(row)) => Ok(row),
            Ok(None) => Err(impl_err("no row found in result set")),
            Err(error) => Err(error),
        }
    }

    /// Takes the single row for a bare read. This is refused with
    /// [`DeserializationError::TrailingRows`] while the result must be read
    /// row by row. An outcome without a row is `Usage` for a result without
    /// rows, or else the error of the fetch. A loaded result does not fail
    /// to fetch: it gives its first row if it has one.
    pub fn pop_single_row(&mut self) -> (outcome: Result<RS::Row, DeserializationError>)
        ensures
            final(self).need() == old(self).need(),
            old(self).need().spec_step(Read::Collapsing) is None ==> fails_with(
                outcome,
                DeserializationErrorView::TrailingRows,
            ) && final(self).rs() == old(self).rs(),
            old(self).need().spec_step(Read::Collapsing) is Some ==> (outcome matches Ok(row) ==> {
                &&& old(self).rs().rows().len() > 0
                &&& row == old(self).rs().rows()[0]
                &&& final(self).rs().rows() == old(self).rs().rows().drop_first()
                &&& final(self).rs().field_names() == old(self).rs().field_names()
            }),
            old(self).need().spec_step(Read::Collapsing) is Some && old(self).rs().is_loaded()
                ==> final(self).rs().is_loaded() && (outcome is Err ==> {
                &&& old(self).rs().rows().len() == 0
                &&& final(self).rs().rows() == old(self).rs().rows()
                &&& is_usage(outcome, "no row found in result set"@)
            }),
    {
        if self.need.step(Read::Collapsing).is_none() {
            return Err(DeserializationError::TrailingRows);
        }
        let next = self.rs.next();
        Self::single_row(next)
    }

    /// Starts the one read row by row that a result admits. A second one
    /// is refused with `Usage`.
    pub fn begin_rows(&mut self) -> (outcome: Result<(), DeserializationError>)
        ensures
            final(self).rs() == old(self).rs(),
            match old(self).need().spec_step(Read::Structured) {
                Some(next) => outcome is Ok && final(self).need() == next,
                None => {
                    &&& is_usage(outcome, "deserialize_seq() when already done"@)
                    &&& final(self).need() == old(self).need()
                },
            },
    {
        match self.need.step(Read::Structured) {
            Some(next) => {
                self.need = next;
                Ok(())
            },
            None => Err(impl_err("deserialize_seq() when already done")),
        }
    }

    /// Answers a hint; see [`rs_answer`].
    pub fn deserialize(&mut self, hint: Hint) -> (outcome: Result<
        RsStep<RS::Row>,
        DeserializationError,
    >)
        ensures
            rs_answer(*old(self), hint, *final(self), outcome),
    {
        match Self::plan(hint) {
            RsPlan::Refuse(request) => Err(DeserializationError::NotImplemented(request)),
            RsPlan::Newtype => Ok(RsStep::Newtype),
            RsPlan::Rows => match self.begin_rows() {
                Ok(()) => Ok(RsStep::Rows),
                Err(error) => Err(error),
            },
            RsPlan::Row(request) => match self.pop_single_row() {
                Ok(row) => Ok(RsStep::Row(RowDeserializer::new(row), request)),
                Err(error) => Err(error),
            },
        }
    }
}

/// No bare read of many rows: a fresh reader of a result of more than one
/// row answers the hint of every bare target, be it a scalar, a tuple or a
/// record, with `TrailingRows`, and takes nothing from the result.
pub proof fn lemma_many_rows_refuse_bare_read<RS: DeserializableResultSet>(
    before: RsDeserializer<RS>,
    hint: Hint,
    after: RsDeserializer<RS>,
    outcome: Result<RsStep<RS::Row>, DeserializationError>,
)
    requires
        before.rs().rows().len() > 1,
        before.need() == Need::spec_of_result(before.rs().rows().len()),
        hint.is_bare(),
        rs_answer(before, hint, after, outcome),
    ensures
        fails_with(outcome, DeserializationErrorView::TrailingRows),
        after == before,
{
}

/// A single row collapses: a fresh reader of a loaded result of exactly
/// one row answers the hint of every bare target with the reader of that
/// row, and the result is used up.
pub proof fn lemma_single_row_collapses<RS: DeserializableResultSet>(
    before: RsDeserializer<RS>,
    hint: Hint,
    after: RsDeserializer<RS>,
    outcome: Result<RsStep<RS::Row>, DeserializationError>,
)
    requires
        before.rs().is_loaded(),
        before.rs().rows().len() == 1,
        before.need() == Need::spec_of_result(before.rs().rows().len()),
        hint.is_bare(),
        rs_answer(before, hint, after, outcome),
    ensures
        outcome matches Ok(RsStep::Row(reader, _)) && reader.row() == before.rs().rows()[0],
        after.rs().rows().len() == 0,
{
}

/// Every result can be read as a list: a fresh reader answers the hint of
/// a list with the start of the read row by row, whatever the number of
/// rows, and takes nothing from the result yet.
pub proof fn lemma_list_is_always_legal<RS: DeserializableResultSet>(
    before: RsDeserializer<RS>,
    after: RsDeserializer<RS>,
    outcome: Result<RsStep<RS::Row>, DeserializationError>,
)
    requires
        before.need() == Need::spec_of_result(before.rs().rows().len()),
        rs_answer(before, Hint::Sequence, after, outcome),
    ensures
        outcome == Ok::<RsStep<RS::Row>, DeserializationError>(RsStep::Rows),
        after.rs() == before.rs(),
        after.need() == Need::Done,
{
}

/// Hands out the rows of a result one by one.
pub struct RowsVisitor<'a, R: 'a> {
    /// The reader of the result.
    pub de: &'a mut RsDeserializer<R>,
}

impl<'a, R> RowsVisitor<'a, R> {
    /// A visitor of the rows that the reader has left.
    pub fn new(de: &'a mut RsDeserializer<R>) -> (visitor: Self)
        ensures
            *visitor.de == *old(de),
            *final(visitor.de) == *final(de),
    {
        RowsVisitor { de }
    }
}

impl<'a, R: DeserializableResultSet> RowsVisitor<'a, R> {
    /// Takes the next row: a fresh reader of it, or `None` when the result
    /// is used up. The end shows in the absence of a row, not in a count.
    /// Fails with the error of the fetch, if fetching fails.
    pub fn next_element(&mut self) -> (element: Result<
        Option<RowDeserializer<R::Row>>,
        DeserializationError,
    >)
        ensures
            *final(final(self).de) == *final(old(self).de),
            final(self).de.need() == old(self).de.need(),
            old(self).de.rs().is_loaded() ==> element is Ok && final(self).de.rs().is_loaded(),
            match element {
                Ok(Some(reader)) => {
                    &&& old(self).de.rs().rows().len() > 0
                    &&& reader.row() == old(self).de.rs().rows()[0]
                    &&& reader.need() == Need::spec_of_row(
                        old(self).de.rs().rows()[0].remaining().len(),
                    )
                    &&& final(self).de.rs().rows() == old(self).de.rs().rows().drop_first()
                    &&& final(self).de.rs().field_names() == old(self).de.rs().field_names()
                },
                Ok(None) => {
                    &&& old(self).de.rs().rows().len() == 0
                    &&& final(self).de.rs().rows() == old(self).de.rs().rows()
                    &&& final(self).de.rs().field_names() == old(self).de.rs().field_names()
                },
                Err(_) => true,
            },
    {
        match self.de.rs.next() {
            Ok(None) => Ok(None),
            Ok(Some(row)) => Ok(Some(RowDeserializer::new(row))),
            Err(error) => Err(error),
        }
    }
}

} // verus!
