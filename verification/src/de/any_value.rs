//! The bridge for one value.
//!
//! A value is answered with exactly one visitor call, picked by what the value
//! holds. The table is the same for both bridges of this module; they differ in
//! the call that hands over borrowed text and bytes.
use polars_core::datatypes::CategoricalMapping;
use vstd::prelude::*;

use crate::de::categorical::{cat_to_str, mapping_entries, share};
use crate::de::shape::Shape;
use crate::de::value::{
    is_owned, owned_form, owned_form_borrows_nothing, views, Value, ValueView,
};
use crate::de::{Error, ErrorView};

verus! {

/// How borrowed text and bytes are handed over.
#[derive(Clone, Copy, Debug, PartialEq, Eq, Structural)]
pub enum Mode {
    /// For the duration of the call: `visit_str`, `visit_bytes`.
    Owned,
    /// For as long as the storage lives: `visit_borrowed_str`,
    /// `visit_borrowed_bytes`.
    Borrowed,
}

/// The visitor call that describes a value, with what it is called on.
///
/// A variant stands for the method of the visitor whose name it bears:
/// `U8` for `visit_u8`, `BorrowedStr` for `visit_borrowed_str`, `Sequence` for
/// `visit_seq`. The float calls carry the bit pattern of the float.
#[derive(Debug)]
pub enum Visit<'a> {
    /// No value: `visit_none`.
    Null,
    Bool(bool),
    U8(u8),
    U16(u16),
    U32(u32),
    U64(u64),
    I8(i8),
    I16(i16),
    I32(i32),
    I64(i64),
    I128(i128),
    F32(u32),
    F64(u64),
    /// Text that the consumer may look at while the call lasts.
    Str(String),
    /// Text that the consumer may keep a reference to.
    BorrowedStr(&'a str),
    /// Text that the consumer takes over.
    String(String),
    /// Bytes that the consumer may look at while the call lasts.
    Bytes(&'a [u8]),
    /// Bytes that the consumer may keep a reference to.
    BorrowedBytes(&'a [u8]),
    /// Bytes that the consumer takes over.
    ByteBuf(Vec<u8>),
    /// A sequence: `visit_seq`. Its elements are bridges of their own, to be
    /// asked one after the other, each at most once.
    Sequence(Vec<Deserializer<'a>>),
}

/// What a [`Visit`] stands for. A sequence stands for the values that its
/// elements bridge.
pub enum VisitView {
    Null,
    Bool(bool),
    U8(u8),
    U16(u16),
    U32(u32),
    U64(u64),
    I8(i8),
    I16(i16),
    I32(i32),
    I64(i64),
    I128(i128),
    F32(u32),
    F64(u64),
    Str(Seq<char>),
    BorrowedStr(Seq<char>),
    String(Seq<char>),
    Bytes(Seq<u8>),
    BorrowedBytes(Seq<u8>),
    ByteBuf(Seq<u8>),
    Sequence(Seq<ValueView>),
}

impl<'a> View for Visit<'a> {
    type V = VisitView;

    open spec fn view(&self) -> VisitView {
        match self {
            Visit::Null => VisitView::Null,
            Visit::Bool(v) => VisitView::Bool(*v),
            Visit::U8(v) => VisitView::U8(*v),
            Visit::U16(v) => VisitView::U16(*v),
            Visit::U32(v) => VisitView::U32(*v),
            Visit::U64(v) => VisitView::U64(*v),
            Visit::I8(v) => VisitView::I8(*v),
            Visit::I16(v) => VisitView::I16(*v),
            Visit::I32(v) => VisitView::I32(*v),
            Visit::I64(v) => VisitView::I64(*v),
            Visit::I128(v) => VisitView::I128(*v),
            Visit::F32(v) => VisitView::F32(*v),
            Visit::F64(v) => VisitView::F64(*v),
            Visit::Str(v) => VisitView::Str(v@),
            Visit::BorrowedStr(v) => VisitView::BorrowedStr(v@),
            Visit::String(v) => VisitView::String(v@),
            Visit::Bytes(v) => VisitView::Bytes(v@),
            Visit::BorrowedBytes(v) => VisitView::BorrowedBytes(v@),
            Visit::ByteBuf(v) => VisitView::ByteBuf(v@),
            Visit::Sequence(items) => VisitView::Sequence(bridged(items@)),
        }
    }
}

/// The values that a run of bridges is about, in order.
pub open spec fn bridged(items: Seq<Deserializer<'_>>) -> Seq<ValueView> {
    Seq::new(items.len(), |i: int| items[i]@)
}

/// The values that a run of borrowing bridges is about, in order.
pub open spec fn borrowed_bridged(items: Seq<BorrowedDeserializer<'_>>) -> Seq<ValueView> {
    Seq::new(items.len(), |i: int| items[i]@)
}

/// What a bridge answers with: the call, or why there is none.
pub open spec fn outcome(answer: Result<Visit<'_>, Error>) -> Result<VisitView, ErrorView> {
    match answer {
        Ok(visit) => Ok(visit@),
        Err(error) => Err(error@),
    }
}

/// The call for borrowed text.
pub open spec fn text_visit(text: Seq<char>, mode: Mode) -> VisitView {
    match mode {
        Mode::Owned => VisitView::Str(text),
        Mode::Borrowed => VisitView::BorrowedStr(text),
    }
}

/// The call for borrowed bytes.
pub open spec fn bytes_visit(bytes: Seq<u8>, mode: Mode) -> VisitView {
    match mode {
        Mode::Owned => VisitView::Bytes(bytes),
        Mode::Borrowed => VisitView::BorrowedBytes(bytes),
    }
}

/// The call for a code: the call for the text that `entries` hold for it, or
/// none where they hold no text for it.
pub open spec fn resolved(
    cat: u32,
    entries: Map<u32, Seq<char>>,
    mode: Mode,
) -> Option<VisitView> {
    if entries.contains_key(cat) {
        Some(text_visit(entries[cat], mode))
    } else {
        None
    }
}

/// The table: for each kind of value the call that answers it.
///
/// - Null, booleans, integers and floats get the scalar call of their own
///   width. Nothing is widened or narrowed.
/// - Borrowed text and bytes get the call that `mode` selects; owned text and
///   bytes are given away.
/// - A code is looked up in its dictionary and answered like the text found.
///   Where the value owns the dictionary, the text is never lent for longer
///   than the call. A code without an entry is an error that names the code
///   and the dictionary.
/// - A list and an array become a sequence of their elements. The elements
///   are bridged in [`Mode::Owned`], whatever `mode` is: what they borrow
///   belongs to the list.
/// - Everything else has no call, and is returned in owned form.
pub open spec fn dispatched(value: ValueView, mode: Mode) -> Result<VisitView, ErrorView> {
    match value {
        ValueView::Null => Ok(VisitView::Null),
        ValueView::Boolean(v) => Ok(VisitView::Bool(v)),
        ValueView::String(v) => Ok(text_visit(v, mode)),
        ValueView::UInt8(v) => Ok(VisitView::U8(v)),
        ValueView::UInt16(v) => Ok(VisitView::U16(v)),
        ValueView::UInt32(v) => Ok(VisitView::U32(v)),
        ValueView::UInt64(v) => Ok(VisitView::U64(v)),
        ValueView::Int8(v) => Ok(VisitView::I8(v)),
        ValueView::Int16(v) => Ok(VisitView::I16(v)),
        ValueView::Int32(v) => Ok(VisitView::I32(v)),
        ValueView::Int64(v) => Ok(VisitView::I64(v)),
        ValueView::Int128(v) => Ok(VisitView::I128(v)),
        ValueView::Float32(v) => Ok(VisitView::F32(v)),
        ValueView::Float64(v) => Ok(VisitView::F64(v)),
        ValueView::Categorical(cat, mapping) | ValueView::Enum(cat, mapping) => {
            match resolved(cat, mapping_entries(mapping), mode) {
                Some(visit) => Ok(visit),
                None => Err(ErrorView::InvalidCategoricalId(cat, mapping)),
            }
        },
        ValueView::CategoricalOwned(cat, mapping) | ValueView::EnumOwned(cat, mapping) => {
            match resolved(cat, mapping_entries(mapping), Mode::Owned) {
                Some(visit) => Ok(visit),
                None => Err(ErrorView::InvalidCategoricalId(cat, mapping)),
            }
        },
        ValueView::List(items) => Ok(VisitView::Sequence(items)),
        ValueView::Array(items, _) => Ok(VisitView::Sequence(items)),
        ValueView::StringOwned(v) => Ok(VisitView::String(v)),
        ValueView::Binary(v) => Ok(bytes_visit(v, mode)),
        ValueView::BinaryOwned(v) => Ok(VisitView::ByteBuf(v)),
        ValueView::UInt128(_) | ValueView::Float16(_) => Err(
            ErrorView::UnknownDataType(owned_form(value)),
        ),
    }
}

/// Whether the table has a call for `value`.
pub open spec fn has_call(value: ValueView) -> bool {
    !(value is UInt128 || value is Float16)
}

/// Borrowed text and bytes pass the borrowing bridge untouched: the consumer
/// gets a reference to the very characters, or bytes, that the storage holds.
pub proof fn borrowed_content_is_handed_out_as_stored(text: Seq<char>, bytes: Seq<u8>)
    ensures
        dispatched(ValueView::String(text), Mode::Borrowed) == Ok::<VisitView, ErrorView>(
            VisitView::BorrowedStr(text),
        ),
        dispatched(ValueView::Binary(bytes), Mode::Borrowed) == Ok::<VisitView, ErrorView>(
            VisitView::BorrowedBytes(bytes),
        ),
{
}

/// A code that its dictionary resolves is answered as the text it resolves
/// to would be. Where the value borrows the dictionary, that is the answer to
/// borrowed text in the same mode; where it owns the dictionary, the answer to
/// borrowed text that is lent for the call only.
pub proof fn resolved_code_decodes_as_its_text(cat: u32, mapping: CategoricalMapping, mode: Mode)
    requires
        mapping_entries(mapping).contains_key(cat),
    ensures
        dispatched(ValueView::Categorical(cat, mapping), mode) == dispatched(
            ValueView::String(mapping_entries(mapping)[cat]),
            mode,
        ),
        dispatched(ValueView::Enum(cat, mapping), mode) == dispatched(
            ValueView::String(mapping_entries(mapping)[cat]),
            mode,
        ),
        dispatched(ValueView::CategoricalOwned(cat, mapping), mode) == dispatched(
            ValueView::String(mapping_entries(mapping)[cat]),
            Mode::Owned,
        ),
        dispatched(ValueView::EnumOwned(cat, mapping), mode) == dispatched(
            ValueView::String(mapping_entries(mapping)[cat]),
            Mode::Owned,
        ),
{
}

/// A code that its dictionary does not know is an error that carries that
/// code and that dictionary, in every mode and for every kind of categorical
/// value.
pub proof fn unresolved_code_is_reported(cat: u32, mapping: CategoricalMapping, mode: Mode)
    requires
        !mapping_entries(mapping).contains_key(cat),
    ensures
        dispatched(ValueView::Categorical(cat, mapping), mode) == Err::<VisitView, ErrorView>(
            ErrorView::InvalidCategoricalId(cat, mapping),
        ),
        dispatched(ValueView::Enum(cat, mapping), mode) == Err::<VisitView, ErrorView>(
            ErrorView::InvalidCategoricalId(cat, mapping),
        ),
        dispatched(ValueView::CategoricalOwned(cat, mapping), mode) == Err::<VisitView, ErrorView>(
            ErrorView::InvalidCategoricalId(cat, mapping),
        ),
        dispatched(ValueView::EnumOwned(cat, mapping), mode) == Err::<VisitView, ErrorView>(
            ErrorView::InvalidCategoricalId(cat, mapping),
        ),
{
}

/// A value that the table has no call for is an error, and the error carries
/// that value in owned form. This is the only way in which such an error
/// comes about.
pub proof fn value_without_call_comes_back_owned(value: ValueView, mode: Mode)
    ensures
        !has_call(value) ==> dispatched(value, mode) == Err::<VisitView, ErrorView>(
            ErrorView::UnknownDataType(owned_form(value)),
        ),
        dispatched(value, mode) matches Err(ErrorView::UnknownDataType(carried)) ==> !has_call(
            value,
        ) && carried == owned_form(value) && is_owned(carried),
{
    owned_form_borrows_nothing(value);
}

/// A value fails in two ways only: as a code that its dictionary does not
/// know, or as a value of a kind that has no call. The bridge never makes up
/// an error of the storage or of the consumer.
pub proof fn a_value_fails_in_two_ways_only(value: ValueView, mode: Mode)
    ensures
        dispatched(value, mode) matches Err(e) ==> e is InvalidCategoricalId
            || e is UnknownDataType,
{
}

/// Answers `value` with its call from the table.
pub fn dispatch<'a>(value: Value<'a>, mode: Mode) -> (answer: Result<Visit<'a>, Error>)
    ensures
        outcome(answer) == dispatched(value@, mode),
{
    let ghost given = value@;
    match value {
        Value::Null => Ok(Visit::Null),
        Value::Boolean(v) => Ok(Visit::Bool(v)),
        Value::String(v) => Ok(lend_text(v, mode)),
        Value::UInt8(v) => Ok(Visit::U8(v)),
        Value::UInt16(v) => Ok(Visit::U16(v)),
        Value::UInt32(v) => Ok(Visit::U32(v)),
        Value::UInt64(v) => Ok(Visit::U64(v)),
        Value::Int8(v) => Ok(Visit::I8(v)),
        Value::Int16(v) => Ok(Visit::I16(v)),
        Value::Int32(v) => Ok(Visit::I32(v)),
        Value::Int64(v) => Ok(Visit::I64(v)),
        Value::Int128(v) => Ok(Visit::I128(v)),
        Value::Float32(v) => Ok(Visit::F32(v)),
        Value::Float64(v) => Ok(Visit::F64(v)),
        Value::Categorical(cat, mapping) | Value::Enum(cat, mapping) => {
            match cat_to_str(mapping, cat) {
                Some(v) => Ok(lend_text(v, mode)),
                None => Err(Error::InvalidCategoricalId(cat, share(mapping))),
            }
        },
        Value::CategoricalOwned(cat, mapping) | Value::EnumOwned(cat, mapping) => {
            match cat_to_str(&mapping, cat) {
                Some(v) => Ok(Visit::Str(v.to_string())),
                None => Err(Error::InvalidCategoricalId(cat, mapping)),
            }
        },
        Value::List(items) => {
            let bridges = bridge_each(items);
            assert(bridged(bridges@) =~= given->List_0);
            Ok(Visit::Sequence(bridges))
        },
        Value::Array(items, _) => {
            let bridges = bridge_each(items);
            assert(bridged(bridges@) =~= given->Array_0);
            Ok(Visit::Sequence(bridges))
        },
        Value::StringOwned(v) => Ok(Visit::String(v)),
        Value::Binary(v) => Ok(
            match mode {
                Mode::Owned => Visit::Bytes(v),
                Mode::Borrowed => Visit::BorrowedBytes(v),
            },
        ),
        Value::BinaryOwned(v) => Ok(Visit::ByteBuf(v)),
        other => Err(Error::UnknownDataType(other.into_static())),
    }
}

/// The call that hands `text` over as `mode` asks.
pub(crate) fn lend_text<'a>(text: &'a str, mode: Mode) -> (visit: Visit<'a>)
    ensures
        visit@ == text_visit(text@, mode),
{
    match mode {
        Mode::Owned => Visit::Str(text.to_string()),
        Mode::Borrowed => Visit::BorrowedStr(text),
    }
}

/// A bridge for each of `items`, in order.
pub(crate) fn bridge_each<'a>(items: Vec<Value<'a>>) -> (bridges: Vec<Deserializer<'a>>)
    ensures
        bridged(bridges@) == views(items@),
{
    let mut bridges: Vec<Deserializer<'a>> = Vec::new();
    for item in it: items
        invariant
            it.seq() == items@,
            bridges@.len() == it.index(),
            forall|i: int| 0 <= i < bridges@.len() ==> (#[trigger] bridges@[i])@ == items@[i]@,
    {
        bridges.push(Deserializer::new(item));
    }
    assert(bridged(bridges@) =~= views(items@));
    bridges
}

/// A borrowing bridge for each of `items`, in order.
pub(crate) fn wrap_each<'de>(items: Vec<Value<'de>>) -> (bridges: Vec<BorrowedDeserializer<'de>>)
    ensures
        borrowed_bridged(bridges@) == views(items@),
{
    let mut bridges: Vec<BorrowedDeserializer<'de>> = Vec::new();
    for item in it: items
        invariant
            it.seq() == items@,
            bridges@.len() == it.index(),
            forall|i: int| 0 <= i < bridges@.len() ==> (#[trigger] bridges@[i])@ == items@[i]@,
    {
        bridges.push(BorrowedDeserializer::new(item));
    }
    assert(borrowed_bridged(bridges@) =~= views(items@));
    bridges
}

/// The bridge for a value that is handed over as it is.
#[derive(Debug)]
pub struct Deserializer<'a>(Value<'a>);

impl<'a> View for Deserializer<'a> {
    type V = ValueView;

    closed spec fn view(&self) -> ValueView {
        self.0@
    }
}

impl<'a> Deserializer<'a> {
    pub fn new(value: Value<'a>) -> (bridge: Self)
        ensures
            bridge@ == value@,
    {
        Self(value)
    }

    /// The one call that describes the value. Borrowed text and bytes are lent
    /// for the call only.
    pub fn deserialize_any(self) -> (answer: Result<Visit<'a>, Error>)
        ensures
            outcome(answer) == dispatched(self@, Mode::Owned),
    {
        dispatch(self.0, Mode::Owned)
    }

    /// The answer to a consumer that asks for `shape`: the same as to one
    /// that asks for anything.
    #[allow(unused_variables)]
    pub fn deserialize(self, shape: Shape) -> (answer: Result<Visit<'a>, Error>)
        ensures
            outcome(answer) == dispatched(self@, Mode::Owned),
    {
        self.deserialize_any()
    }
}

/// The bridge for a value whose storage outlives the decode.
#[derive(Debug)]
pub struct BorrowedDeserializer<'de>(pub Value<'de>);

impl<'de> View for BorrowedDeserializer<'de> {
    type V = ValueView;

    open spec fn view(&self) -> ValueView {
        self.0@
    }
}

impl<'de> BorrowedDeserializer<'de> {
    pub fn new(value: Value<'de>) -> (bridge: Self)
        ensures
            bridge@ == value@,
    {
        Self(value)
    }

    /// The one call that describes the value. Borrowed text and bytes are
    /// handed out as references into the storage.
    pub fn deserialize_any(self) -> (answer: Result<Visit<'de>, Error>)
        ensures
            outcome(answer) == dispatched(self@, Mode::Borrowed),
    {
        dispatch(self.0, Mode::Borrowed)
    }

    /// The answer to a consumer that asks for `shape`: the same as to one
    /// that asks for anything.
    #[allow(unused_variables)]
    pub fn deserialize(self, shape: Shape) -> (answer: Result<Visit<'de>, Error>)
        ensures
            outcome(answer) == dispatched(self@, Mode::Borrowed),
    {
        self.deserialize_any()
    }
}

} // verus!
