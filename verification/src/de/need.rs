use vstd::prelude::*;

verus! {

/// What a reader still owes to its input.
///
/// Each reader, whether of a result or of a row, holds one such state for
/// its own level: the elements of a result are its rows, those of a row its
/// fields.
#[derive(Clone, Copy, Debug, PartialEq, Eq, Structural)]
pub enum Need {
    /// The input does not hold exactly one element where one is called for:
    /// it must be consumed element by element.
    Must,
    /// The input may be read as its single element, or element by element.
    Can,
    /// A read element by element has been started at this level.
    Done,
}

/// The two ways to read from a reader's level.
#[derive(Clone, Copy, Debug, PartialEq, Eq, Structural)]
pub enum Read {
    /// Take the input as its single element.
    Collapsing,
    /// Take the input element by element.
    Structured,
}

impl Need {
    /// The state of a fresh row reader: a collapsing read is legal if and
    /// only if the row holds exactly one field.
    pub open spec fn spec_of_row(fields: nat) -> Need {
        if fields == 1 {
            Need::Can
        } else {
            Need::Must
        }
    }

    /// The state of a fresh result reader: a collapsing read is legal unless
    /// the result holds more than one row.
    pub open spec fn spec_of_result(rows: nat) -> Need {
        if rows > 1 {
            Need::Must
        } else {
            Need::Can
        }
    }

    /// The state after a read of the given kind, or `None` where that read
    /// is illegal: a collapsing read while the state is `Must`, a structured
    /// read while it is `Done`.
    pub open spec fn spec_step(self, read: Read) -> Option<Need> {
        match (self, read) {
            (Need::Must, Read::Collapsing) => None,
            (need, Read::Collapsing) => Some(need),
            (Need::Done, Read::Structured) => None,
            (_, Read::Structured) => Some(Need::Done),
        }
    }

    /// The state of a fresh row reader over a row of `fields` fields.
    pub fn of_row(fields: usize) -> (need: Need)
        ensures
            need == Need::spec_of_row(fields as nat),
    {
        if fields == 1 {
            Need::Can
        } else {
            Need::Must
        }
    }

    /// The state of a fresh result reader; `multiple` tells whether the
    /// result holds more than one row.
    pub fn of_result(multiple: bool) -> (need: Need)
        ensures
            need == (if multiple {
                Need::Must
            } else {
                Need::Can
            }),
            forall|rows: nat| multiple == (rows > 1) ==> need == Need::spec_of_result(rows),
    {
        if multiple {
            Need::Must
        } else {
            Need::Can
        }
    }

    /// Decides a read of the given kind: the state that follows, or `None`
    /// where the read is illegal.
    #[verifier::when_used_as_spec(spec_step)]
    pub fn step(self, read: Read) -> (next: Option<Need>)
        ensures
            next == self.spec_step(read),
    {
        match read {
            Read::Collapsing => match self {
                Need::Must => None,
                Need::Can => Some(Need::Can),
                Need::Done => Some(Need::Done),
            },
            Read::Structured => match self {
                Need::Done => None,
                _ => Some(Need::Done),
            },
        }
    }
}

/// A result of more than one row admits no collapsing read.
pub proof fn lemma_many_rows_refuse_collapse(rows: nat)
    requires
        rows > 1,
    ensures
        Need::spec_of_result(rows).spec_step(Read::Collapsing) is None,
{
}

/// A row of more than one column admits no collapsing read.
pub proof fn lemma_many_columns_refuse_collapse(columns: nat)
    requires
        columns > 1,
    ensures
        Need::spec_of_row(columns).spec_step(Read::Collapsing) is None,
{
}

/// A level admits at most one structured read: after the first, which is
/// legal from either starting state, the second is refused, while
/// collapsing reads stay legal.
pub proof fn lemma_single_structured_read(need: Need)
    requires
        need != Need::Done,
    ensures
        need.spec_step(Read::Structured) == Some(Need::Done),
        Need::Done.spec_step(Read::Structured) is None,
        Need::Done.spec_step(Read::Collapsing) == Some(Need::Done),
{
}

} // verus!
