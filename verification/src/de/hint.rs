use vstd::prelude::*;

verus! {

/// The shape that a target type asks its reader for.
///
/// A target type is read by a traversal that names, step by step, what it
/// expects next. These are the names.
#[derive(Clone, Copy, Debug, PartialEq, Eq, Structural)]
pub enum Hint {
    /// Whatever the data holds.
    Any,
    Bool,
    U8,
    U16,
    U32,
    U64,
    I8,
    I16,
    I32,
    I64,
    /// A floating-point number of 32 bits.
    Single,
    /// A floating-point number of 64 bits.
    Double,
    Char,
    /// A borrowed string.
    Str,
    /// An owned string.
    Text,
    Unit,
    /// A value that may be absent.
    Optional,
    /// A list of any length.
    Sequence,
    /// A list of keys with their values.
    Dictionary,
    /// A struct without fields.
    UnitStruct,
    /// A struct that wraps a single value.
    NewtypeStruct,
    /// A struct with unnamed fields.
    TupleStruct,
    /// A struct with named fields.
    Struct,
    /// A borrowed byte sequence.
    Bytes,
    /// An owned byte sequence.
    ByteBuf,
    Tuple,
    Enum,
    /// The name of a field.
    Identifier,
    /// A value that the target skips.
    IgnoredAny,
}

/// The primitive types that a single value can be converted into.
#[derive(Clone, Copy, Debug, PartialEq, Eq, Structural)]
pub enum Leaf {
    Bool,
    U8,
    U16,
    U32,
    U64,
    I8,
    I16,
    I32,
    I64,
    /// A floating-point number of 32 bits.
    Single,
    /// A floating-point number of 64 bits.
    Double,
    /// A string.
    Text,
    /// A byte sequence.
    Bytes,
}

impl Hint {
    /// The primitive type that the hint stands for, if it stands for one.
    /// The two string hints name the same primitive, and so do the two
    /// hints for byte sequences.
    pub open spec fn spec_leaf(self) -> Option<Leaf> {
        match self {
            Hint::Bool => Some(Leaf::Bool),
            Hint::U8 => Some(Leaf::U8),
            Hint::U16 => Some(Leaf::U16),
            Hint::U32 => Some(Leaf::U32),
            Hint::U64 => Some(Leaf::U64),
            Hint::I8 => Some(Leaf::I8),
            Hint::I16 => Some(Leaf::I16),
            Hint::I32 => Some(Leaf::I32),
            Hint::I64 => Some(Leaf::I64),
            Hint::Single => Some(Leaf::Single),
            Hint::Double => Some(Leaf::Double),
            Hint::Str => Some(Leaf::Text),
            Hint::Text => Some(Leaf::Text),
            Hint::Bytes => Some(Leaf::Bytes),
            Hint::ByteBuf => Some(Leaf::Bytes),
            _ => None,
        }
    }

    /// Whether the hint is that of a scalar target: a primitive value, any
    /// value, or an optional value.
    pub open spec fn is_scalar(self) -> bool {
        self.spec_leaf() is Some || self == Hint::Any || self == Hint::Optional
    }

    /// Whether the hint is that of a bare target, one that is no list: a
    /// scalar, a tuple, or a struct with named or unnamed fields.
    pub open spec fn is_bare(self) -> bool {
        self.is_scalar() || self == Hint::Tuple || self == Hint::TupleStruct || self
            == Hint::Struct
    }

    /// The primitive type that the hint stands for, if it stands for one.
    #[verifier::when_used_as_spec(spec_leaf)]
    pub fn leaf(self) -> (leaf: Option<Leaf>)
        ensures
            leaf == self.spec_leaf(),
    {
        match self {
            Hint::Bool => Some(Leaf::Bool),
            Hint::U8 => Some(Leaf::U8),
            Hint::U16 => Some(Leaf::U16),
            Hint::U32 => Some(Leaf::U32),
            Hint::U64 => Some(Leaf::U64),
            Hint::I8 => Some(Leaf::I8),
            Hint::I16 => Some(Leaf::I16),
            Hint::I32 => Some(Leaf::I32),
            Hint::I64 => Some(Leaf::I64),
            Hint::Single => Some(Leaf::Single),
            Hint::Double => Some(Leaf::Double),
            Hint::Str => Some(Leaf::Text),
            Hint::Text => Some(Leaf::Text),
            Hint::Bytes => Some(Leaf::Bytes),
            Hint::ByteBuf => Some(Leaf::Bytes),
            _ => None,
        }
    }
}

} // verus!
