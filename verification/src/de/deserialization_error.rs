use crate::de::conversion_error::{ConversionError, ConversionErrorView};
use vstd::prelude::*;
use vstd::std_specs::convert::FromSpecImpl;
use vstd::string::*;

verus! {

/// The errors that can arise while reading a result, a row or a value.
#[derive(Debug)]
pub enum DeserializationError {
    /// A value could not be converted into the requested type.
    ConversionError(ConversionError),
    /// The traversal of the target type reported an error.
    SerdeError(String),
    /// The structure of the target does not fit the structure of the data.
    Usage(String),
    /// The target asked for a shape that this reader does not serve.
    NotImplemented(&'static str),
    /// The target has no field for a column for which data are provided.
    UnknownField(String),
    /// A bare read was asked of a result with more than one row.
    TrailingRows,
    /// A bare read was asked of a row with more than one column.
    TrailingCols,
}

/// The mathematical content of a [`DeserializationError`].
pub enum DeserializationErrorView {
    ConversionError(ConversionErrorView),
    SerdeError(Seq<char>),
    Usage(Seq<char>),
    NotImplemented(Seq<char>),
    UnknownField(Seq<char>),
    TrailingRows,
    TrailingCols,
}

impl View for DeserializationError {
    type V = DeserializationErrorView;

    open spec fn view(&self) -> DeserializationErrorView {
        match self {
            DeserializationError::ConversionError(e) => DeserializationErrorView::ConversionError(
                e@,
            ),
            DeserializationError::SerdeError(s) => DeserializationErrorView::SerdeError(s@),
            DeserializationError::Usage(s) => DeserializationErrorView::Usage(s@),
            DeserializationError::NotImplemented(s) => DeserializationErrorView::NotImplemented(s@),
            DeserializationError::UnknownField(s) => DeserializationErrorView::UnknownField(s@),
            DeserializationError::TrailingRows => DeserializationErrorView::TrailingRows,
            DeserializationError::TrailingCols => DeserializationErrorView::TrailingCols,
        }
    }
}

impl DeserializationErrorView {
    /// The fixed sentence that names the kind of failure.
    pub open spec fn message(self) -> Seq<char> {
        match self {
            DeserializationErrorView::ConversionError(_) =>
                "Deserialization failed due to a conversion error"@,
            DeserializationErrorView::SerdeError(_) => "serde error"@,
            DeserializationErrorView::Usage(_) => "incompatible target structure"@,
            DeserializationErrorView::NotImplemented(_) =>
                "this exception should never be seen in practice"@,
            DeserializationErrorView::UnknownField(_) =>
                "the deserialization target misses a field for which data are provided"@,
            DeserializationErrorView::TrailingRows => "cannot consume all existing rows"@,
            DeserializationErrorView::TrailingCols => "cannot consume all existing columns"@,
        }
    }

    /// What a reader is shown: for a conversion failure the description of
    /// that failure, for the two trailing kinds the sentence alone, else the
    /// sentence, a colon and a blank, and the carried text.
    pub open spec fn description(self) -> Seq<char> {
        match self {
            DeserializationErrorView::ConversionError(e) => e.description(),
            DeserializationErrorView::SerdeError(s) => self.message() + ": "@ + s,
            DeserializationErrorView::Usage(s) => self.message() + ": "@ + s,
            DeserializationErrorView::NotImplemented(s) => self.message() + ": "@ + s,
            DeserializationErrorView::UnknownField(s) => self.message() + ": "@ + s,
            DeserializationErrorView::TrailingRows => self.message(),
            DeserializationErrorView::TrailingCols => self.message(),
        }
    }
}

impl DeserializationError {
    /// The fixed sentence that names the kind of failure.
    pub fn message(&self) -> (text: &'static str)
        ensures
            text@ == self@.message(),
    {
        match self {
            DeserializationError::ConversionError(_) =>
                "Deserialization failed due to a conversion error",
            DeserializationError::SerdeError(_) => "serde error",
            DeserializationError::Usage(_) => "incompatible target structure",
            DeserializationError::NotImplemented(_) =>
                "this exception should never be seen in practice",
            DeserializationError::UnknownField(_) =>
                "the deserialization target misses a field for which data are provided",
            DeserializationError::TrailingRows => "cannot consume all existing rows",
            DeserializationError::TrailingCols => "cannot consume all existing columns",
        }
    }

    /// Renders the error for a reader.
    pub fn describe(&self) -> (text: String)
        ensures
            text@ == self@.description(),
    {
        match self {
            DeserializationError::ConversionError(e) => e.describe(),
            DeserializationError::SerdeError(s) => with_detail(self.message(), s.as_str()),
            DeserializationError::Usage(s) => with_detail(self.message(), s.as_str()),
            DeserializationError::NotImplemented(s) => with_detail(self.message(), s),
            DeserializationError::UnknownField(s) => with_detail(self.message(), s.as_str()),
            DeserializationError::TrailingRows => String::from_str(self.message()),
            DeserializationError::TrailingCols => String::from_str(self.message()),
        }
    }
}

/// Joins a sentence and a detail with a colon and a blank.
fn with_detail(message: &str, detail: &str) -> (text: String)
    ensures
        text@ == message@ + ": "@ + detail@,
{
    let mut text = String::from_str(message);
    text.append(": ");
    text.append(detail);
    text
}

impl From<ConversionError> for DeserializationError {
    fn from(error: ConversionError) -> (wrapped: DeserializationError) {
        DeserializationError::ConversionError(error)
    }
}

impl FromSpecImpl<ConversionError> for DeserializationError {
    open spec fn obeys_from_spec() -> bool {
        true
    }

    open spec fn from_spec(error: ConversionError) -> DeserializationError {
        DeserializationError::ConversionError(error)
    }
}

/// A specialized result type for reading.
pub type DeserializationResult<T> = Result<T, DeserializationError>;

} // verus!
