//! The bridge for one row.
//!
//! A row is a run of values without names. Paired with the names of the
//! columns it becomes a record: one map, whose keys are the names and whose
//! values are bridges for the cells, in the order of the columns.
use vstd::prelude::*;

use crate::de::any_value::{
    text_visit, BorrowedDeserializer as BorrowedValue, Deserializer as OwnedValue, Mode, Visit,
    VisitView,
};
use crate::de::shape::Shape;
use crate::de::value::{views, Value, ValueView};

verus! {

/// The cells of one row, in the order of the columns.
#[derive(Debug)]
pub struct Row<'a>(pub Vec<Value<'a>>);

impl<'a> View for Row<'a> {
    type V = Seq<ValueView>;

    open spec fn view(&self) -> Seq<ValueView> {
        views(self.0@)
    }
}

/// One entry of a record: the call that presents the key, and the bridge for
/// the value.
#[derive(Debug)]
pub struct Entry<'a> {
    pub key: Visit<'a>,
    pub value: OwnedValue<'a>,
}

/// One entry of a record whose storage outlives the decode.
#[derive(Debug)]
pub struct BorrowedEntry<'de> {
    pub key: Visit<'de>,
    pub value: BorrowedValue<'de>,
}

/// What an entry stands for: the call for its key and the value it bridges.
pub struct EntryView {
    pub key: VisitView,
    pub value: ValueView,
}

impl<'a> View for Entry<'a> {
    type V = EntryView;

    open spec fn view(&self) -> EntryView {
        EntryView { key: self.key@, value: self.value@ }
    }
}

impl<'de> View for BorrowedEntry<'de> {
    type V = EntryView;

    open spec fn view(&self) -> EntryView {
        EntryView { key: self.key@, value: self.value@ }
    }
}

/// What each of `entries` stands for, in order.
pub open spec fn entry_views(entries: Seq<Entry<'_>>) -> Seq<EntryView> {
    Seq::new(entries.len(), |j: int| entries[j]@)
}

/// What each of `entries` stands for, in order.
pub open spec fn borrowed_entry_views(entries: Seq<BorrowedEntry<'_>>) -> Seq<EntryView> {
    Seq::new(entries.len(), |j: int| entries[j]@)
}

/// The text of each of `names`, in order.
pub open spec fn texts(names: Seq<&str>) -> Seq<Seq<char>> {
    Seq::new(names.len(), |j: int| names[j]@)
}

/// How many entries a record has: names and values are paired off from the
/// front, and what is left over on either side is dropped.
pub open spec fn paired(names: nat, values: nat) -> nat {
    if names <= values {
        names
    } else {
        values
    }
}

/// The record of a row: entry `j` has the name of column `j` for its key,
/// handed over as `mode` asks, and cell `j` for its value.
pub open spec fn record(names: Seq<Seq<char>>, values: Seq<ValueView>, mode: Mode) -> Seq<
    EntryView,
> {
    Seq::new(
        paired(names.len(), values.len()),
        |j: int| EntryView { key: text_visit(names[j], mode), value: values[j] },
    )
}

/// The bridge for a row whose cells are handed over as they are.
#[derive(Debug)]
pub struct Deserializer<'a, I>(I, Row<'a>);

impl<'a, I> Deserializer<'a, I> {
    pub fn new(column_names: I, value: Row<'a>) -> (bridge: Self)
        ensures
            bridge.names() == column_names,
            bridge.values() == value@,
    {
        Self(column_names, value)
    }

    /// The names that the bridge was given.
    pub closed spec fn names(&self) -> I {
        self.0
    }

    /// The cells that the bridge was given.
    pub closed spec fn values(&self) -> Seq<ValueView> {
        self.1@
    }
}

impl<'a, 'b> Deserializer<'a, Vec<&'b str>> {
    /// The entries of the one map that describes the row. The keys are lent
    /// for the call only.
    pub fn deserialize_any(self) -> (entries: Vec<Entry<'a>>)
        ensures
            entry_views(entries@) == record(texts(self.names()@), self.values(), Mode::Owned),
    {
        let names = self.0;
        let values = self.1.0;
        let ghost cells = values@;
        let mut entries: Vec<Entry<'a>> = Vec::new();
        for value in it: values
            invariant
                it.seq() == cells,
                entries@.len() == paired(names@.len(), it.index() as nat),
                forall|j: int|
                    0 <= j < entries@.len() ==> (#[trigger] entries@[j])@ == (EntryView {
                        key: VisitView::Str(names@[j]@),
                        value: cells[j]@,
                    }),
        {
            let j = entries.len();
            if j < names.len() {
                let key = Visit::Str(names[j].to_string());
                entries.push(Entry { key, value: OwnedValue::new(value) });
            }
        }
        assert(entry_views(entries@) =~= record(texts(names@), views(cells), Mode::Owned));
        entries
    }

    /// The answer to a consumer that asks for `shape`: the same as to one
    /// that asks for anything.
    #[allow(unused_variables)]
    pub fn deserialize(self, shape: Shape) -> (entries: Vec<Entry<'a>>)
        ensures
            entry_views(entries@) == record(texts(self.names()@), self.values(), Mode::Owned),
    {
        self.deserialize_any()
    }
}

/// The bridge for a row whose storage outlives the decode.
#[derive(Debug)]
pub struct BorrowedDeserializer<'de, I>(I, Row<'de>);

impl<'de, I> BorrowedDeserializer<'de, I> {
    pub fn new(column_names: I, value: Row<'de>) -> (bridge: Self)
        ensures
            bridge.names() == column_names,
            bridge.values() == value@,
    {
        Self(column_names, value)
    }

    /// The names that the bridge was given.
    pub closed spec fn names(&self) -> I {
        self.0
    }

    /// The cells that the bridge was given.
    pub closed spec fn values(&self) -> Seq<ValueView> {
        self.1@
    }
}

impl<'de> BorrowedDeserializer<'de, Vec<&'de str>> {
    /// The entries of the one map that describes the row. The keys are
    /// handed out as references to the names.
    pub fn deserialize_any(self) -> (entries: Vec<BorrowedEntry<'de>>)
        ensures
            borrowed_entry_views(entries@) == record(
                texts(self.names()@),
                self.values(),
                Mode::Borrowed,
            ),
    {
        let names = self.0;
        let values = self.1.0;
        let ghost cells = values@;
        let mut entries: Vec<BorrowedEntry<'de>> = Vec::new();
        for value in it: values
            invariant
                it.seq() == cells,
                entries@.len() == paired(names@.len(), it.index() as nat),
                forall|j: int|
                    0 <= j < entries@.len() ==> (#[trigger] entries@[j])@ == (EntryView {
                        key: VisitView::BorrowedStr(names@[j]@),
                        value: cells[j]@,
                    }),
        {
            let j = entries.len();
            if j < names.len() {
                let key = Visit::BorrowedStr(names[j]);
                entries.push(BorrowedEntry { key, value: BorrowedValue::new(value) });
            }
        }
        assert(borrowed_entry_views(entries@) =~= record(
            texts(names@),
            views(cells),
            Mode::Borrowed,
        ));
        entries
    }

    /// The answer to a consumer that asks for `shape`: the same as to one
    /// that asks for anything.
    #[allow(unused_variables)]
    pub fn deserialize(self, shape: Shape) -> (entries: Vec<BorrowedEntry<'de>>)
        ensures
            borrowed_entry_views(entries@) == record(
                texts(self.names()@),
                self.values(),
                Mode::Borrowed,
            ),
    {
        self.deserialize_any()
    }
}

} // verus!
