//! The shapes that a consumer can ask for.
use vstd::prelude::*;

verus! {

/// What a consumer says it expects when it asks a bridge for a value.
///
/// The bridges describe data; they do not check it against a schema. So a
/// bridge takes the shape and does not look at it: the value picks the call,
/// and a consumer that asked for an integer where a float is stored is told
/// of the float.
#[derive(Clone, Copy, Debug, PartialEq, Eq, Structural)]
pub enum Shape {
    Any,
    Bool,
    I8,
    I16,
    I32,
    I64,
    U8,
    U16,
    U32,
    U64,
    F32,
    F64,
    Char,
    Str,
    String,
    Bytes,
    ByteBuf,
    Optional,
    Unit,
    UnitStruct,
    NewtypeStruct,
    Sequence,
    Tuple,
    TupleStruct,
    Record,
    Struct,
    Enum,
    Identifier,
    IgnoredAny,
}

} // verus!
