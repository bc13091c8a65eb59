use vstd::prelude::*;
use vstd::string::*;

verus! {

/// Why a database value could not be converted into the requested type.
///
/// Each variant carries a text that describes the failing value.
#[derive(Debug)]
#[non_exhaustive]
pub enum ConversionError {
    /// The kind of the value has no mapping to the requested type.
    ValueType(String),
    /// The number is too big or too small for the requested type.
    NumberRange(String),
    /// The value was only partly loaded, and the rest can no longer be loaded.
    Incomplete(String),
    /// Any other cause, given by its text.
    Other(String),
}

/// The mathematical content of a [`ConversionError`].
pub enum ConversionErrorView {
    ValueType(Seq<char>),
    NumberRange(Seq<char>),
    Incomplete(Seq<char>),
    Other(Seq<char>),
}

impl View for ConversionError {
    type V = ConversionErrorView;

    open spec fn view(&self) -> ConversionErrorView {
        match self {
            ConversionError::ValueType(s) => ConversionErrorView::ValueType(s@),
            ConversionError::NumberRange(s) => ConversionErrorView::NumberRange(s@),
            ConversionError::Incomplete(s) => ConversionErrorView::Incomplete(s@),
            ConversionError::Other(s) => ConversionErrorView::Other(s@),
        }
    }
}

impl ConversionErrorView {
    /// The fixed sentence that names the kind of failure.
    pub open spec fn message(self) -> Seq<char> {
        match self {
            ConversionErrorView::ValueType(_) =>
                "The DbValue cannot be converted into the desired rust type: value types do not match"@,
            ConversionErrorView::NumberRange(_) =>
                "The DbValue is too big or too small for the desired rust type: number range exceeded"@,
            ConversionErrorView::Incomplete(_) =>
                "The DbValue was not yet completely loaded, and further loading is not possible anymore"@,
            ConversionErrorView::Other(_) => "Conversion fails due to given root cause"@,
        }
    }

    /// The text that the error carries.
    pub open spec fn detail(self) -> Seq<char> {
        match self {
            ConversionErrorView::ValueType(s) => s,
            ConversionErrorView::NumberRange(s) => s,
            ConversionErrorView::Incomplete(s) => s,
            ConversionErrorView::Other(s) => s,
        }
    }

    /// The sentence of the kind, a colon and a blank, and the carried text.
    pub open spec fn description(self) -> Seq<char> {
        self.message() + ": "@ + self.detail()
    }
}

impl ConversionError {
    /// The fixed sentence that names the kind of failure.
    pub fn message(&self) -> (text: &'static str)
        ensures
            text@ == self@.message(),
    {
        match self {
            ConversionError::ValueType(_) =>
                "The DbValue cannot be converted into the desired rust type: value types do not match",
            ConversionError::NumberRange(_) =>
                "The DbValue is too big or too small for the desired rust type: number range exceeded",
            ConversionError::Incomplete(_) =>
                "The DbValue was not yet completely loaded, and further loading is not possible anymore",
            ConversionError::Other(_) => "Conversion fails due to given root cause",
        }
    }

    /// The text that the error carries.
    pub fn detail(&self) -> (text: &str)
        ensures
            text@ == self@.detail(),
    {
        match self {
            ConversionError::ValueType(s) => s.as_str(),
            ConversionError::NumberRange(s) => s.as_str(),
            ConversionError::Incomplete(s) => s.as_str(),
            ConversionError::Other(s) => s.as_str(),
        }
    }

    /// Renders the error for a reader: the kind's sentence, then the carried text.
    pub fn describe(&self) -> (text: String)
        ensures
            text@ == self@.description(),
    {
        let mut text = String::from_str(self.message());
        text.append(": ");
        text.append(self.detail());
        text
    }
}

} // verus!
