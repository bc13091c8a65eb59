use vstd::prelude::*;

verus! {

/// One primitive value, as the traversal of a structured value meets it.
///
/// Structs, tuples and sequences are flat for the purpose of parameters:
/// entering one takes no descriptor, and only the primitive values inside
/// count. The keys of a map are left out; its values count.
#[derive(Debug)]
pub enum Primitive {
    Bool(bool),
    I8(i8),
    I16(i16),
    I32(i32),
    I64(i64),
    U8(u8),
    U16(u16),
    U32(u32),
    U64(u64),
    Char(char),
    Str(String),
    Bytes(Vec<u8>),
    /// An absent value: `None`, or the unit.
    Null,
}

/// The mathematical content of a [`Primitive`].
pub enum PrimitiveView {
    Bool(bool),
    I8(i8),
    I16(i16),
    I32(i32),
    I64(i64),
    U8(u8),
    U16(u16),
    U32(u32),
    U64(u64),
    Char(char),
    Str(Seq<char>),
    Bytes(Seq<u8>),
    Null,
}

impl View for Primitive {
    type V = PrimitiveView;

    open spec fn view(&self) -> PrimitiveView {
        match self {
            Primitive::Bool(v) => PrimitiveView::Bool(*v),
            Primitive::I8(v) => PrimitiveView::I8(*v),
            Primitive::I16(v) => PrimitiveView::I16(*v),
            Primitive::I32(v) => PrimitiveView::I32(*v),
            Primitive::I64(v) => PrimitiveView::I64(*v),
            Primitive::U8(v) => PrimitiveView::U8(*v),
            Primitive::U16(v) => PrimitiveView::U16(*v),
            Primitive::U32(v) => PrimitiveView::U32(*v),
            Primitive::U64(v) => PrimitiveView::U64(*v),
            Primitive::Char(v) => PrimitiveView::Char(*v),
            Primitive::Str(v) => PrimitiveView::Str(v@),
            Primitive::Bytes(v) => PrimitiveView::Bytes(v@),
            Primitive::Null => PrimitiveView::Null,
        }
    }
}

impl Clone for Primitive {
    fn clone(&self) -> (copy: Primitive)
        ensures
            copy@ == self@,
    {
        match self {
            Primitive::Bool(v) => Primitive::Bool(*v),
            Primitive::I8(v) => Primitive::I8(*v),
            Primitive::I16(v) => Primitive::I16(*v),
            Primitive::I32(v) => Primitive::I32(*v),
            Primitive::I64(v) => Primitive::I64(*v),
            Primitive::U8(v) => Primitive::U8(*v),
            Primitive::U16(v) => Primitive::U16(*v),
            Primitive::U32(v) => Primitive::U32(*v),
            Primitive::U64(v) => Primitive::U64(*v),
            Primitive::Char(v) => Primitive::Char(*v),
            Primitive::Str(v) => Primitive::Str(v.clone()),
            Primitive::Bytes(v) => Primitive::Bytes(v.clone()),
            Primitive::Null => Primitive::Null,
        }
    }
}

impl PrimitiveView {
    /// The name of the type of the value, as error texts give it.
    pub open spec fn kind_name(self) -> Seq<char> {
        match self {
            PrimitiveView::Bool(_) => "bool"@,
            PrimitiveView::I8(_) => "i8"@,
            PrimitiveView::I16(_) => "i16"@,
            PrimitiveView::I32(_) => "i32"@,
            PrimitiveView::I64(_) => "i64"@,
            PrimitiveView::U8(_) => "u8"@,
            PrimitiveView::U16(_) => "u16"@,
            PrimitiveView::U32(_) => "u32"@,
            PrimitiveView::U64(_) => "u64"@,
            PrimitiveView::Char(_) => "char"@,
            PrimitiveView::Str(_) => "str"@,
            PrimitiveView::Bytes(_) => "bytes"@,
            PrimitiveView::Null => "none"@,
        }
    }
}

impl Primitive {
    /// The name of the type of the value, as error texts give it.
    pub fn kind_name(&self) -> (name: &'static str)
        ensures
            name@ == self@.kind_name(),
    {
        match self {
            Primitive::Bool(_) => "bool",
            Primitive::I8(_) => "i8",
            Primitive::I16(_) => "i16",
            Primitive::I32(_) => "i32",
            Primitive::I64(_) => "i64",
            Primitive::U8(_) => "u8",
            Primitive::U16(_) => "u16",
            Primitive::U32(_) => "u32",
            Primitive::U64(_) => "u64",
            Primitive::Char(_) => "char",
            Primitive::Str(_) => "str",
            Primitive::Bytes(_) => "bytes",
            Primitive::Null => "none",
        }
    }
}

} // verus!
