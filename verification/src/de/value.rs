//! The content of one cell.
use polars_core::datatypes::CategoricalMapping;
use std::sync::Arc;
use vstd::prelude::*;
use vstd::slice::slice_to_vec;

use crate::de::categorical::share;

verus! {

/// The content of one cell, tagged with its kind.
///
/// The variants are those of polars' `AnyValue`. A float is held as its
/// IEEE 754 bit pattern, so that two cells are equal exactly when their bits
/// are. A nested list is held as the values it is made of.
///
/// The variants that borrow (`String`, `Binary`, `Categorical`, `Enum`) point
/// into storage that outlives the value; the others own what they hold.
#[derive(Debug)]
pub enum Value<'a> {
    Null,
    Boolean(bool),
    String(&'a str),
    UInt8(u8),
    UInt16(u16),
    UInt32(u32),
    UInt64(u64),
    UInt128(u128),
    Int8(i8),
    Int16(i16),
    Int32(i32),
    Int64(i64),
    Int128(i128),
    /// Bit pattern of a 16-bit float.
    Float16(u16),
    /// Bit pattern of a 32-bit float.
    Float32(u32),
    /// Bit pattern of a 64-bit float.
    Float64(u64),
    /// A code and the dictionary that resolves it.
    Categorical(u32, &'a Arc<CategoricalMapping>),
    CategoricalOwned(u32, Arc<CategoricalMapping>),
    Enum(u32, &'a Arc<CategoricalMapping>),
    EnumOwned(u32, Arc<CategoricalMapping>),
    List(Vec<Value<'a>>),
    /// A list of fixed width; the width is kept beside the values.
    Array(Vec<Value<'a>>, usize),
    StringOwned(String),
    Binary(&'a [u8]),
    BinaryOwned(Vec<u8>),
}

/// What a [`Value`] stands for: text as characters, a blob as bytes, a list as
/// the sequence of what its elements stand for.
pub enum ValueView {
    Null,
    Boolean(bool),
    String(Seq<char>),
    UInt8(u8),
    UInt16(u16),
    UInt32(u32),
    UInt64(u64),
    UInt128(u128),
    Int8(i8),
    Int16(i16),
    Int32(i32),
    Int64(i64),
    Int128(i128),
    Float16(u16),
    Float32(u32),
    Float64(u64),
    Categorical(u32, CategoricalMapping),
    CategoricalOwned(u32, CategoricalMapping),
    Enum(u32, CategoricalMapping),
    EnumOwned(u32, CategoricalMapping),
    List(Seq<ValueView>),
    Array(Seq<ValueView>, usize),
    StringOwned(Seq<char>),
    Binary(Seq<u8>),
    BinaryOwned(Seq<u8>),
}

/// What `value` stands for. `value@` is short for it.
pub open spec fn value_view(value: Value<'_>) -> ValueView
    decreases value,
{
    match value {
        Value::Null => ValueView::Null,
        Value::Boolean(v) => ValueView::Boolean(v),
        Value::String(v) => ValueView::String(v@),
        Value::UInt8(v) => ValueView::UInt8(v),
        Value::UInt16(v) => ValueView::UInt16(v),
        Value::UInt32(v) => ValueView::UInt32(v),
        Value::UInt64(v) => ValueView::UInt64(v),
        Value::UInt128(v) => ValueView::UInt128(v),
        Value::Int8(v) => ValueView::Int8(v),
        Value::Int16(v) => ValueView::Int16(v),
        Value::Int32(v) => ValueView::Int32(v),
        Value::Int64(v) => ValueView::Int64(v),
        Value::Int128(v) => ValueView::Int128(v),
        Value::Float16(v) => ValueView::Float16(v),
        Value::Float32(v) => ValueView::Float32(v),
        Value::Float64(v) => ValueView::Float64(v),
        Value::Categorical(cat, mapping) => ValueView::Categorical(cat, **mapping),
        Value::CategoricalOwned(cat, mapping) => ValueView::CategoricalOwned(cat, *mapping),
        Value::Enum(cat, mapping) => ValueView::Enum(cat, **mapping),
        Value::EnumOwned(cat, mapping) => ValueView::EnumOwned(cat, *mapping),
        Value::List(items) => ValueView::List(
            Seq::new(
                items@.len(),
                |i: int|
                    if 0 <= i < items@.len() {
                        value_view(items@[i])
                    } else {
                        ValueView::Null
                    },
            ),
        ),
        Value::Array(items, width) => ValueView::Array(
            Seq::new(
                items@.len(),
                |i: int|
                    if 0 <= i < items@.len() {
                        value_view(items@[i])
                    } else {
                        ValueView::Null
                    },
            ),
            width,
        ),
        Value::StringOwned(v) => ValueView::StringOwned(v@),
        Value::Binary(v) => ValueView::Binary(v@),
        Value::BinaryOwned(v) => ValueView::BinaryOwned(v@),
    }
}

impl<'a> View for Value<'a> {
    type V = ValueView;

    open spec fn view(&self) -> ValueView {
        value_view(*self)
    }
}

/// What each of `items` stands for, in order.
pub open spec fn views(items: Seq<Value<'_>>) -> Seq<ValueView> {
    Seq::new(items.len(), |i: int| items[i]@)
}

/// The same content with nothing borrowed: borrowed text and bytes become
/// owned, a borrowed dictionary becomes a shared one, and the elements of a
/// list are treated alike. What is owned already stays as it is.
pub open spec fn owned_form(value: ValueView) -> ValueView
    decreases value,
{
    match value {
        ValueView::String(v) => ValueView::StringOwned(v),
        ValueView::Binary(v) => ValueView::BinaryOwned(v),
        ValueView::Categorical(cat, mapping) => ValueView::CategoricalOwned(cat, mapping),
        ValueView::Enum(cat, mapping) => ValueView::EnumOwned(cat, mapping),
        ValueView::List(items) => ValueView::List(
            Seq::new(
                items.len(),
                |i: int|
                    if 0 <= i < items.len() {
                        owned_form(items[i])
                    } else {
                        ValueView::Null
                    },
            ),
        ),
        ValueView::Array(items, width) => ValueView::Array(
            Seq::new(
                items.len(),
                |i: int|
                    if 0 <= i < items.len() {
                        owned_form(items[i])
                    } else {
                        ValueView::Null
                    },
            ),
            width,
        ),
        other => other,
    }
}

/// Whether `value` borrows nothing, at any depth.
pub open spec fn is_owned(value: ValueView) -> bool
    decreases value,
{
    match value {
        ValueView::String(_) => false,
        ValueView::Binary(_) => false,
        ValueView::Categorical(_, _) => false,
        ValueView::Enum(_, _) => false,
        ValueView::List(items) => forall|i: int|
            0 <= i < items.len() ==> is_owned(#[trigger] items[i]),
        ValueView::Array(items, _) => forall|i: int|
            0 <= i < items.len() ==> is_owned(#[trigger] items[i]),
        _ => true,
    }
}

/// The owned form of a value borrows nothing, and taking the owned form of
/// what is owned already changes nothing.
pub proof fn owned_form_borrows_nothing(value: ValueView)
    ensures
        is_owned(owned_form(value)),
        owned_form(owned_form(value)) == owned_form(value),
    decreases value,
{
    match value {
        ValueView::List(items) => {
            let once = owned_form(value)->List_0;
            assert forall|i: int| 0 <= i < once.len() implies is_owned(#[trigger] once[i])
                && owned_form(once[i]) == once[i] by {
                owned_form_borrows_nothing(items[i]);
            }
            assert(owned_form(owned_form(value))->List_0 =~= once);
        },
        ValueView::Array(items, _) => {
            let once = owned_form(value)->Array_0;
            assert forall|i: int| 0 <= i < once.len() implies is_owned(#[trigger] once[i])
                && owned_form(once[i]) == once[i] by {
                owned_form_borrows_nothing(items[i]);
            }
            assert(owned_form(owned_form(value))->Array_0 =~= once);
        },
        _ => {},
    }
}

/// A value that borrows nothing is its own owned form.
pub proof fn owned_value_is_its_owned_form(value: ValueView)
    requires
        is_owned(value),
    ensures
        owned_form(value) == value,
    decreases value,
{
    match value {
        ValueView::List(items) => {
            assert forall|i: int| 0 <= i < items.len() implies owned_form(items[i])
                == #[trigger] items[i] by {
                owned_value_is_its_owned_form(items[i]);
            }
            assert(owned_form(value)->List_0 =~= items);
        },
        ValueView::Array(items, _) => {
            assert forall|i: int| 0 <= i < items.len() implies owned_form(items[i])
                == #[trigger] items[i] by {
                owned_value_is_its_owned_form(items[i]);
            }
            assert(owned_form(value)->Array_0 =~= items);
        },
        _ => {},
    }
}

impl<'a> Value<'a> {
    /// Turns the value into one that borrows nothing, so that it can outlive
    /// the storage it came from.
    pub fn into_static(self) -> (owned: Value<'static>)
        ensures
            owned@ == owned_form(self@),
            is_owned(owned@),
        decreases self,
    {
        let ghost given = self@;
        proof {
            owned_form_borrows_nothing(given);
        }
        match self {
            Value::Null => Value::Null,
            Value::Boolean(v) => Value::Boolean(v),
            Value::String(v) => Value::StringOwned(v.to_string()),
            Value::UInt8(v) => Value::UInt8(v),
            Value::UInt16(v) => Value::UInt16(v),
            Value::UInt32(v) => Value::UInt32(v),
            Value::UInt64(v) => Value::UInt64(v),
            Value::UInt128(v) => Value::UInt128(v),
            Value::Int8(v) => Value::Int8(v),
            Value::Int16(v) => Value::Int16(v),
            Value::Int32(v) => Value::Int32(v),
            Value::Int64(v) => Value::Int64(v),
            Value::Int128(v) => Value::Int128(v),
            Value::Float16(v) => Value::Float16(v),
            Value::Float32(v) => Value::Float32(v),
            Value::Float64(v) => Value::Float64(v),
            Value::Categorical(cat, mapping) => Value::CategoricalOwned(cat, share(mapping)),
            Value::CategoricalOwned(cat, mapping) => Value::CategoricalOwned(cat, mapping),
            Value::Enum(cat, mapping) => Value::EnumOwned(cat, share(mapping)),
            Value::EnumOwned(cat, mapping) => Value::EnumOwned(cat, mapping),
            Value::List(items) => {
                let owned = into_static_each(items);
                assert(Value::List(owned)@->List_0 =~= owned_form(given)->List_0);
                Value::List(owned)
            },
            Value::Array(items, width) => {
                let owned = into_static_each(items);
                assert(Value::Array(owned, width)@->Array_0 =~= owned_form(given)->Array_0);
                Value::Array(owned, width)
            },
            Value::StringOwned(v) => Value::StringOwned(v),
            Value::Binary(v) => Value::BinaryOwned(slice_to_vec(v)),
            Value::BinaryOwned(v) => Value::BinaryOwned(v),
        }
    }
}

/// [`Value::into_static`] on every element, in order.
fn into_static_each<'a>(items: Vec<Value<'a>>) -> (owned: Vec<Value<'static>>)
    ensures
        owned@.len() == items@.len(),
        forall|i: int|
            0 <= i < items@.len() ==> (#[trigger] owned@[i])@ == owned_form(items@[i]@),
    decreases items,
{
    let mut owned: Vec<Value<'static>> = Vec::new();
    for item in it: items
        invariant
            it.seq() == items@,
            owned@.len() == it.index(),
            forall|i: int|
                0 <= i < owned@.len() ==> (#[trigger] owned@[i])@ == owned_form(items@[i]@),
    {
        owned.push(item.into_static());
    }
    owned
}

} // verus!
