use vstd::prelude::*;
use vstd::std_specs::convert::FromSpecImpl;
use vstd::string::*;

verus! {

/// The errors that can arise while turning a value into database parameters.
#[derive(Debug)]
pub enum SerializationError {
    /// The traversal of the value reported an error.
    Serde(String),
    /// A text could not be parsed into the type of the parameter.
    Parse {
        /// The text that was to be parsed.
        value: String,
        /// The type of the parameter.
        db_type: String,
        /// The underlying cause, if one is known.
        cause: Option<String>,
    },
    /// The structure of the value does not fit the list of parameters.
    StructuralMismatch(&'static str),
    /// The type of the value does not fit the type of the parameter.
    Type {
        /// The type of the value.
        value_type: &'static str,
        /// The type of the parameter.
        db_type: String,
    },
    /// The value is too big or too small for the type of the parameter:
    /// the type of the value, then the type of the parameter.
    Range(&'static str, String),
}

/// The mathematical content of a [`SerializationError`].
pub enum SerializationErrorView {
    Serde(Seq<char>),
    Parse { value: Seq<char>, db_type: Seq<char>, cause: Option<Seq<char>> },
    StructuralMismatch(Seq<char>),
    Type { value_type: Seq<char>, db_type: Seq<char> },
    Range(Seq<char>, Seq<char>),
}

impl View for SerializationError {
    type V = SerializationErrorView;

    open spec fn view(&self) -> SerializationErrorView {
        match self {
            SerializationError::Serde(s) => SerializationErrorView::Serde(s@),
            SerializationError::Parse { value, db_type, cause } => SerializationErrorView::Parse {
                value: value@,
                db_type: db_type@,
                cause: match cause {
                    Some(c) => Some(c@),
                    None => None,
                },
            },
            SerializationError::StructuralMismatch(s) => SerializationErrorView::StructuralMismatch(
                s@,
            ),
            SerializationError::Type { value_type, db_type } => SerializationErrorView::Type {
                value_type: value_type@,
                db_type: db_type@,
            },
            SerializationError::Range(value_type, db_type) => SerializationErrorView::Range(
                value_type@,
                db_type@,
            ),
        }
    }
}

impl SerializationErrorView {
    /// The fixed sentence that names the kind of failure.
    pub open spec fn message(self) -> Seq<char> {
        match self {
            SerializationErrorView::Serde(_) => "Error occured within the serde framework"@,
            SerializationErrorView::Parse { .. } =>
                "Error occured while parsing the SQL parameter from the given String representation"@,
            SerializationErrorView::StructuralMismatch(_) =>
                "The structure of the provided type does not fit to the required list of parameters"@,
            SerializationErrorView::Type { .. } =>
                "The input type does not fit to the required database type"@,
            SerializationErrorView::Range(_, _) =>
                "The input value is too big or too small for the required database type"@,
        }
    }

    /// What a reader is shown.
    pub open spec fn description(self) -> Seq<char> {
        match self {
            SerializationErrorView::Serde(s) => self.message() + ": "@ + s,
            SerializationErrorView::StructuralMismatch(s) => self.message() + ": "@ + s,
            SerializationErrorView::Parse { value, db_type, cause } => {
                let stem = "given String \""@ + value + "\" cannot be parsed into SQL type "@
                    + db_type;
                match cause {
                    Some(c) => stem + " due to "@ + c,
                    None => stem,
                }
            },
            SerializationErrorView::Type { value_type, db_type } => "given value of type \""@
                + value_type + "\" cannot be converted into value of type code "@ + db_type,
            SerializationErrorView::Range(value_type, db_type) => "given value of type \""@
                + value_type + "\" does not fit into supported range of SQL type "@ + db_type,
        }
    }
}

impl SerializationError {
    /// The fixed sentence that names the kind of failure.
    pub fn message(&self) -> (text: &'static str)
        ensures
            text@ == self@.message(),
    {
        match self {
            SerializationError::Serde(_) => "Error occured within the serde framework",
            SerializationError::Parse { .. } =>
                "Error occured while parsing the SQL parameter from the given String representation",
            SerializationError::StructuralMismatch(_) =>
                "The structure of the provided type does not fit to the required list of parameters",
            SerializationError::Type { .. } =>
                "The input type does not fit to the required database type",
            SerializationError::Range(_, _) =>
                "The input value is too big or too small for the required database type",
        }
    }

    /// Renders the error for a reader: for a failure of the traversal or of
    /// the structure the kind's sentence and the carried text, for the
    /// other kinds a sentence that names the value and the parameter.
    pub fn describe(&self) -> (text: String)
        ensures
            text@ == self@.description(),
    {
        match self {
            SerializationError::Serde(s) => {
                let mut text = String::from_str(self.message());
                text.append(": ");
                text.append(s.as_str());
                text
            },
            SerializationError::StructuralMismatch(s) => {
                let mut text = String::from_str(self.message());
                text.append(": ");
                text.append(s);
                text
            },
            SerializationError::Parse { value, db_type, cause } => {
                let mut text = String::from_str("given String \"");
                text.append(value.as_str());
                text.append("\" cannot be parsed into SQL type ");
                text.append(db_type.as_str());
                match cause {
                    Some(c) => {
                        text.append(" due to ");
                        text.append(c.as_str());
                    },
                    None => {},
                }
                text
            },
            SerializationError::Type { value_type, db_type } => {
                let mut text = String::from_str("given value of type \"");
                text.append(value_type);
                text.append("\" cannot be converted into value of type code ");
                text.append(db_type.as_str());
                text
            },
            SerializationError::Range(value_type, db_type) => {
                let mut text = String::from_str("given value of type \"");
                text.append(value_type);
                text.append("\" does not fit into supported range of SQL type ");
                text.append(db_type.as_str());
                text
            },
        }
    }
}

/// Makes the error for a text that could not be parsed into the type of a
/// parameter.
pub fn parse_error(value: &str, db_type: String, cause: Option<String>) -> (error:
    SerializationError)
    ensures
        error@ == (SerializationErrorView::Parse {
            value: value@,
            db_type: db_type@,
            cause: match cause {
                Some(c) => Some(c@),
                None => None,
            },
        }),
{
    SerializationError::Parse { value: value.to_owned(), db_type, cause }
}

/// Makes the error for a value whose type does not fit the type of a
/// parameter.
#[must_use]
pub fn type_error(value: &'static str, db_type: String) -> (error: SerializationError)
    ensures
        error == (SerializationError::Type { value_type: value, db_type }),
{
    SerializationError::Type { value_type: value, db_type }
}

impl From<&'static str> for SerializationError {
    fn from(error: &'static str) -> (wrapped: SerializationError) {
        SerializationError::StructuralMismatch(error)
    }
}

impl FromSpecImpl<&'static str> for SerializationError {
    open spec fn obeys_from_spec() -> bool {
        true
    }

    open spec fn from_spec(error: &'static str) -> SerializationError {
        SerializationError::StructuralMismatch(error)
    }
}

} // verus!
