//! The bridge for a whole frame.
//!
//! A frame is walked by rows or by columns. By rows it is a sequence with one
//! record for each row. By columns it is one map, with the name of each column
//! for a key and the cells of the column for a value.
//!
//! Both walks are pulled, one step at a time. At each pull the bridge names
//! the row or column that is due, has its cells fetched, and says what to
//! present for them. Nothing is fetched before it is asked for, and nothing
//! twice. A row that cannot be fetched does not stop the walk: its place is
//! taken by an element that fails when it is decoded, and not before.
//!
//! The cells reach the bridge as [`Value`]s. Turning a cell of the frame into
//! one is left to the caller, who hands the bridge a function that fetches.
use polars_core::error::PolarsError;
use polars_core::frame::DataFrame;
use vstd::prelude::*;

use crate::de::any_value::{
    borrowed_bridged, bridge_each, bridged, text_visit, wrap_each,
    BorrowedDeserializer as BorrowedValue, Deserializer as OwnedValue, Mode, Visit as Call,
    VisitView,
};
use crate::de::frame::{column_names, frame_height, frame_names, height};
use crate::de::row::{
    borrowed_entry_views, entry_views, record, texts, BorrowedDeserializer as BorrowedRow,
    BorrowedEntry, Deserializer as OwnedRow, Entry, EntryView, Row,
};
use crate::de::shape::Shape;
use crate::de::value::{views, Value, ValueView};
use crate::de::{Error, ErrorView};

verus! {

/// The direction of a walk.
#[derive(Clone, Copy, Debug, PartialEq, Eq, Structural)]
enum Order {
    Column,
    Row,
}

/// A single pass over the positions `0..len`, front to back.
///
/// A cursor either has positions left or is exhausted, and once exhausted it
/// stays so.
#[derive(Debug)]
pub struct Cursor {
    next: usize,
    len: usize,
}

impl Cursor {
    /// The position that is due next.
    pub closed spec fn position(&self) -> nat {
        self.next as nat
    }

    /// The number of positions, taken or not.
    pub closed spec fn len(&self) -> nat {
        self.len as nat
    }

    /// The positions that are still to come.
    pub open spec fn remaining(&self) -> nat {
        if self.position() <= self.len() {
            (self.len() - self.position()) as nat
        } else {
            0
        }
    }

    /// A pass over `0..len` that has not begun.
    pub fn new(len: usize) -> (cursor: Self)
        ensures
            cursor.position() == 0,
            cursor.len() == len,
    {
        Cursor { next: 0, len }
    }

    /// Takes the next position, if there is one.
    pub fn next_index(&mut self) -> (index: Option<usize>)
        ensures
            final(self).len() == old(self).len(),
            match index {
                Some(i) => {
                    &&& i == old(self).position()
                    &&& i < old(self).len()
                    &&& final(self).position() == i + 1
                },
                None => {
                    &&& old(self).remaining() == 0
                    &&& final(self).position() == old(self).position()
                },
            },
        no_unwind
    {
        if self.next < self.len {
            let i = self.next;
            self.next = i + 1;
            Some(i)
        } else {
            None
        }
    }

    /// How many positions are still to come.
    pub fn size_hint(&self) -> (left: usize)
        ensures
            left == self.remaining(),
    {
        if self.next <= self.len {
            self.len - self.next
        } else {
            0
        }
    }
}

/// What a column is presented as: the call for its name, and a bridge for
/// each of its cells, top to bottom.
#[derive(Debug)]
pub struct ColumnEntry<'a> {
    pub key: Call<'a>,
    pub values: Vec<OwnedValue<'a>>,
}

/// What a column entry stands for.
pub struct ColumnEntryView {
    pub key: VisitView,
    pub values: Seq<ValueView>,
}

impl<'a> View for ColumnEntry<'a> {
    type V = ColumnEntryView;

    open spec fn view(&self) -> ColumnEntryView {
        ColumnEntryView { key: self.key@, values: bridged(self.values@) }
    }
}

/// What a column is presented as where the storage outlives the decode.
#[derive(Debug)]
pub struct BorrowedColumnEntry<'de> {
    pub key: Call<'de>,
    pub values: Vec<BorrowedValue<'de>>,
}

impl<'de> View for BorrowedColumnEntry<'de> {
    type V = ColumnEntryView;

    open spec fn view(&self) -> ColumnEntryView {
        ColumnEntryView { key: self.key@, values: borrowed_bridged(self.values@) }
    }
}

/// The entry of a column called `name` that holds `cells`.
pub open spec fn column_entry(
    name: Seq<char>,
    cells: Seq<ValueView>,
    mode: Mode,
) -> ColumnEntryView {
    ColumnEntryView { key: text_visit(name, mode), values: cells }
}

/// What the element for a row decodes to: the record of the row where its
/// cells could be fetched, and the storage's error where they could not.
pub open spec fn deferred_record(
    names: Seq<Seq<char>>,
    fetched: Result<Seq<ValueView>, PolarsError>,
    mode: Mode,
) -> Result<Seq<EntryView>, ErrorView> {
    match fetched {
        Ok(cells) => Ok(record(names, cells, mode)),
        Err(e) => Err(ErrorView::Polars(e)),
    }
}

/// Row `i` of a table that is given by its columns.
pub open spec fn row_of(columns: Seq<Seq<ValueView>>, i: int) -> Seq<ValueView> {
    Seq::new(columns.len(), |j: int| columns[j][i])
}

/// What a walk by rows presents, element by element, where `fetched[i]` is
/// what fetching row `i` brought.
pub open spec fn row_major(
    names: Seq<Seq<char>>,
    fetched: Seq<Result<Seq<ValueView>, PolarsError>>,
    mode: Mode,
) -> Seq<Result<Seq<EntryView>, ErrorView>> {
    Seq::new(fetched.len(), |i: int| deferred_record(names, fetched[i], mode))
}

/// What a walk by columns presents, entry by entry, where `columns[j]` are
/// the cells of column `j`.
pub open spec fn column_major(
    names: Seq<Seq<char>>,
    columns: Seq<Seq<ValueView>>,
    mode: Mode,
) -> Seq<ColumnEntryView> {
    Seq::new(names.len(), |j: int| column_entry(names[j], columns[j], mode))
}

/// Whether `columns` are the columns of a table with `names` and `height`:
/// one column for each name, each as long as the table is high.
pub open spec fn is_table(
    names: Seq<Seq<char>>,
    columns: Seq<Seq<ValueView>>,
    height: nat,
) -> bool {
    &&& names.len() == columns.len()
    &&& forall|j: int| 0 <= j < columns.len() ==> (#[trigger] columns[j]).len() == height
}

/// Walking a table by rows gives its cells back. The element for row `i` is
/// a record with one entry for each column, in the order of the columns; entry
/// `j` is keyed by the name of column `j` and holds the cell of row `i` in
/// that column.
pub proof fn rows_give_the_cells_back(
    names: Seq<Seq<char>>,
    columns: Seq<Seq<ValueView>>,
    height: nat,
    mode: Mode,
    i: int,
    j: int,
)
    requires
        is_table(names, columns, height),
        0 <= i < height,
        0 <= j < columns.len(),
    ensures
        deferred_record(names, Ok(row_of(columns, i)), mode) matches Ok(entries)
            && entries.len() == columns.len() && entries[j].key == text_visit(names[j], mode)
            && entries[j].value == columns[j][i],
{
}

/// Walking a table by columns gives its cells back. There is one entry for
/// each column, in the order of the columns; entry `j` is keyed by the name of
/// column `j` and holds the cells of that column, unchanged and in order.
/// Names that occur twice make two entries.
pub proof fn columns_give_the_cells_back(
    names: Seq<Seq<char>>,
    columns: Seq<Seq<ValueView>>,
    height: nat,
    mode: Mode,
    j: int,
)
    requires
        is_table(names, columns, height),
        0 <= j < columns.len(),
    ensures
        column_major(names, columns, mode).len() == columns.len(),
        column_major(names, columns, mode)[j].key == text_visit(names[j], mode),
        column_major(names, columns, mode)[j].values == columns[j],
{
}

/// Both walks present the same cells under the same keys: what the record of
/// row `i` holds under column `j` is what the entry of column `j` holds at
/// place `i`.
pub proof fn walks_agree(
    names: Seq<Seq<char>>,
    columns: Seq<Seq<ValueView>>,
    height: nat,
    mode: Mode,
    i: int,
    j: int,
)
    requires
        is_table(names, columns, height),
        0 <= i < height,
        0 <= j < columns.len(),
    ensures
        record(names, row_of(columns, i), mode)[j].key == column_major(
            names,
            columns,
            mode,
        )[j].key,
        record(names, row_of(columns, i), mode)[j].value == column_major(
            names,
            columns,
            mode,
        )[j].values[i],
{
}

/// A row that cannot be fetched fails where it stands and nowhere else. The
/// element for row `i` depends on what fetching row `i` brought, and on
/// nothing that was or will be fetched for another row. It decodes to the
/// storage's error exactly when the fetch failed.
pub proof fn failed_row_fails_alone(
    names: Seq<Seq<char>>,
    fetched: Seq<Result<Seq<ValueView>, PolarsError>>,
    other: Seq<Result<Seq<ValueView>, PolarsError>>,
    mode: Mode,
    i: int,
)
    requires
        0 <= i < fetched.len(),
        i < other.len(),
        fetched[i] == other[i],
    ensures
        row_major(names, fetched, mode)[i] == row_major(names, other, mode)[i],
        row_major(names, fetched, mode)[i] is Err <==> fetched[i] is Err,
        fetched[i] matches Err(e) ==> row_major(names, fetched, mode)[i] == Err::<
            Seq<EntryView>,
            ErrorView,
        >(ErrorView::Polars(e)),
{
}

/// What was fetched for a row, as the values it stands for.
pub open spec fn fetched_view(fetched: Result<Row<'_>, PolarsError>) -> Result<
    Seq<ValueView>,
    PolarsError,
> {
    match fetched {
        Ok(row) => Ok(row@),
        Err(e) => Err(e),
    }
}

/// What a decoded row element stands for.
pub open spec fn decoded(answer: Result<Vec<Entry<'_>>, Error>) -> Result<
    Seq<EntryView>,
    ErrorView,
> {
    match answer {
        Ok(entries) => Ok(entry_views(entries@)),
        Err(e) => Err(e@),
    }
}

/// What a decoded row element stands for.
pub open spec fn borrowed_decoded(answer: Result<Vec<BorrowedEntry<'_>>, Error>) -> Result<
    Seq<EntryView>,
    ErrorView,
> {
    match answer {
        Ok(entries) => Ok(borrowed_entry_views(entries@)),
        Err(e) => Err(e@),
    }
}

/// An element that holds either a bridge or the reason why there is none.
/// The reason is kept until the element is decoded.
#[derive(Debug)]
pub struct ResultDeserializer<T>(Result<T, Error>);

impl<T> ResultDeserializer<T> {
    /// What the element holds.
    pub closed spec fn held(&self) -> Result<T, Error> {
        self.0
    }

    /// Whether decoding the element will fail.
    pub fn is_err(&self) -> (failed: bool)
        ensures
            failed == self.held() is Err,
    {
        self.0.is_err()
    }
}

impl<'a, 'b> ResultDeserializer<OwnedRow<'a, Vec<&'b str>>> {
    /// What decoding the element will give: the record of the row that the
    /// bridge holds, or the error that was kept.
    pub open spec fn deferred(&self) -> Result<Seq<EntryView>, ErrorView> {
        match self.held() {
            Ok(bridge) => Ok(record(texts(bridge.names()@), bridge.values(), Mode::Owned)),
            Err(e) => Err(e@),
        }
    }

    /// What the row bridge answers, or the error that was kept.
    pub fn deserialize_any(self) -> (answer: Result<Vec<Entry<'a>>, Error>)
        ensures
            decoded(answer) == self.deferred(),
            self.held() matches Err(e) ==> answer == Err::<Vec<Entry<'a>>, Error>(e),
    {
        match self.0 {
            Ok(bridge) => Ok(bridge.deserialize_any()),
            Err(e) => Err(e),
        }
    }

    /// The answer to a consumer that asks for `shape`: the same as to one
    /// that asks for anything.
    #[allow(unused_variables)]
    pub fn deserialize(self, shape: Shape) -> (answer: Result<Vec<Entry<'a>>, Error>)
        ensures
            decoded(answer) == self.deferred(),
            self.held() matches Err(e) ==> answer == Err::<Vec<Entry<'a>>, Error>(e),
    {
        self.deserialize_any()
    }
}

impl<'de> ResultDeserializer<BorrowedRow<'de, Vec<&'de str>>> {
    /// What decoding the element will give: the record of the row that the
    /// bridge holds, or the error that was kept.
    pub open spec fn deferred(&self) -> Result<Seq<EntryView>, ErrorView> {
        match self.held() {
            Ok(bridge) => Ok(record(texts(bridge.names()@), bridge.values(), Mode::Borrowed)),
            Err(e) => Err(e@),
        }
    }

    /// What the row bridge answers, or the error that was kept.
    pub fn deserialize_any(self) -> (answer: Result<Vec<BorrowedEntry<'de>>, Error>)
        ensures
            borrowed_decoded(answer) == self.deferred(),
            self.held() matches Err(e) ==> answer == Err::<Vec<BorrowedEntry<'de>>, Error>(e),
    {
        match self.0 {
            Ok(bridge) => Ok(bridge.deserialize_any()),
            Err(e) => Err(e),
        }
    }

    /// The answer to a consumer that asks for `shape`: the same as to one
    /// that asks for anything.
    #[allow(unused_variables)]
    pub fn deserialize(self, shape: Shape) -> (answer: Result<Vec<BorrowedEntry<'de>>, Error>)
        ensures
            borrowed_decoded(answer) == self.deferred(),
            self.held() matches Err(e) ==> answer == Err::<Vec<BorrowedEntry<'de>>, Error>(e),
    {
        self.deserialize_any()
    }
}

/// The walk over the rows of a frame.
#[derive(Debug)]
pub struct Rows<'a> {
    frame: &'a DataFrame,
    cursor: Cursor,
}

impl<'a> Rows<'a> {
    /// The frame that is walked.
    pub closed spec fn frame(&self) -> DataFrame {
        *self.frame
    }

    /// Where the walk stands.
    pub closed spec fn cursor(&self) -> Cursor {
        self.cursor
    }

    /// The row to fetch next, or `None` when every row has had its turn.
    pub fn next_index(&mut self) -> (index: Option<usize>)
        ensures
            final(self).frame() == old(self).frame(),
            final(self).cursor().len() == old(self).cursor().len(),
            match index {
                Some(i) => {
                    &&& i == old(self).cursor().position()
                    &&& i < old(self).cursor().len()
                    &&& final(self).cursor().position() == i + 1
                },
                None => {
                    &&& old(self).cursor().remaining() == 0
                    &&& final(self).cursor().position() == old(self).cursor().position()
                },
            },
    {
        self.cursor.next_index()
    }

    /// How many rows are still to come.
    pub fn size_hint(&self) -> (left: usize)
        ensures
            left == self.cursor().remaining(),
    {
        self.cursor.size_hint()
    }

    /// One pull: takes the row that is due, has `fetch` bring its cells, and
    /// gives the element for it. `fetch` is called once, with the index of
    /// that row, and not at all when the walk is over.
    pub fn next_element<F>(&mut self, fetch: F) -> (element: Option<
        ResultDeserializer<OwnedRow<'a, Vec<&'a str>>>,
    >) where
        F: FnOnce(usize) -> Result<Row<'a>, PolarsError>,

        requires
            forall|i: usize| i < old(self).cursor().len() ==> call_requires(fetch, (i,)),
        ensures
            final(self).frame() == old(self).frame(),
            final(self).cursor().len() == old(self).cursor().len(),
            match element {
                Some(e) => {
                    &&& old(self).cursor().position() < old(self).cursor().len()
                    &&& final(self).cursor().position() == old(self).cursor().position() + 1
                    &&& exists|fetched: Result<Row<'a>, PolarsError>|
                        {
                            &&& call_ensures(
                                fetch,
                                (old(self).cursor().position() as usize,),
                                fetched,
                            )
                            &&& e.deferred() == deferred_record(
                                frame_names(old(self).frame()),
                                fetched_view(fetched),
                                Mode::Owned,
                            )
                        }
                },
                None => {
                    &&& old(self).cursor().remaining() == 0
                    &&& final(self).cursor().position() == old(self).cursor().position()
                },
            },
    {
        match self.cursor.next_index() {
            Some(index) => {
                let fetched = fetch(index);
                Some(self.element(fetched))
            },
            None => None,
        }
    }

    /// The element for a row, given what fetching the row brought. A failed
    /// fetch is kept inside the element.
    pub fn element(
        &self,
        fetched: Result<Row<'a>, PolarsError>,
    ) -> (element: ResultDeserializer<OwnedRow<'a, Vec<&'a str>>>)
        ensures
            element.deferred() == deferred_record(
                frame_names(self.frame()),
                fetched_view(fetched),
                Mode::Owned,
            ),
            fetched matches Err(e) ==> element.held() == Err::<
                OwnedRow<'a, Vec<&'a str>>,
                Error,
            >(Error::Polars(e)),
    {
        match fetched {
            Ok(row) => {
                let names = column_names(self.frame);
                assert(texts(names@) =~= frame_names(*self.frame));
                ResultDeserializer(Ok(OwnedRow::new(names, row)))
            },
            Err(e) => ResultDeserializer(Err(Error::from(e))),
        }
    }
}

/// The walk over the columns of a frame.
#[derive(Debug)]
pub struct Columns<'a> {
    names: Vec<&'a str>,
    cursor: Cursor,
}

impl<'a> Columns<'a> {
    /// The walk has one position for each name.
    #[verifier::type_invariant]
    spec fn one_position_for_each_name(self) -> bool {
        self.cursor.len() == self.names@.len()
    }

    /// The names of the columns, as they were read when the walk began.
    pub closed spec fn names(&self) -> Seq<Seq<char>> {
        texts(self.names@)
    }

    /// Where the walk stands.
    pub closed spec fn cursor(&self) -> Cursor {
        self.cursor
    }

    /// The column to fetch next, or `None` when every column has had its turn.
    pub fn next_index(&mut self) -> (index: Option<usize>)
        ensures
            final(self).names() == old(self).names(),
            final(self).cursor().len() == old(self).cursor().len(),
            match index {
                Some(i) => {
                    &&& i == old(self).cursor().position()
                    &&& i < old(self).cursor().len()
                    &&& final(self).cursor().position() == i + 1
                },
                None => {
                    &&& old(self).cursor().remaining() == 0
                    &&& final(self).cursor().position() == old(self).cursor().position()
                },
            },
    {
        proof {
            use_type_invariant(&*self);
        }
        self.cursor.next_index()
    }

    /// How many columns are still to come.
    pub fn size_hint(&self) -> (left: usize)
        ensures
            left == self.cursor().remaining(),
    {
        self.cursor.size_hint()
    }

    /// One pull: takes the column that is due, has `fetch` bring its cells,
    /// and gives the entry for it. `fetch` is called once, with the index of
    /// that column, and not at all when the walk is over.
    pub fn next_entry<F>(&mut self, fetch: F) -> (entry: Option<ColumnEntry<'a>>) where
        F: FnOnce(usize) -> Vec<Value<'a>>,

        requires
            forall|i: usize| i < old(self).cursor().len() ==> call_requires(fetch, (i,)),
        ensures
            final(self).names() == old(self).names(),
            final(self).cursor().len() == old(self).cursor().len(),
            match entry {
                Some(e) => {
                    &&& old(self).cursor().position() < old(self).cursor().len()
                    &&& final(self).cursor().position() == old(self).cursor().position() + 1
                    &&& exists|cells: Vec<Value<'a>>|
                        {
                            &&& call_ensures(
                                fetch,
                                (old(self).cursor().position() as usize,),
                                cells,
                            )
                            &&& e@ == column_entry(
                                old(self).names()[old(self).cursor().position() as int],
                                views(cells@),
                                Mode::Owned,
                            )
                        }
                },
                None => {
                    &&& old(self).cursor().remaining() == 0
                    &&& final(self).cursor().position() == old(self).cursor().position()
                },
            },
    {
        proof {
            use_type_invariant(&*self);
        }
        match self.cursor.next_index() {
            Some(index) => {
                let cells = fetch(index);
                self.entry(index, cells)
            },
            None => None,
        }
    }

    /// The entry for column `index`, given its cells from top to bottom.
    /// `None` where the frame has no such column.
    pub fn entry(&self, index: usize, cells: Vec<Value<'a>>) -> (entry: Option<ColumnEntry<'a>>)
        ensures
            match entry {
                Some(e) => index < self.names().len() && e@ == column_entry(
                    self.names()[index as int],
                    views(cells@),
                    Mode::Owned,
                ),
                None => index >= self.names().len(),
            },
    {
        if index < self.names.len() {
            let key = Call::Str(self.names[index].to_string());
            Some(ColumnEntry { key, values: bridge_each(cells) })
        } else {
            None
        }
    }
}

/// The walk over the rows of a frame whose storage outlives the decode.
#[derive(Debug)]
pub struct BorrowedRows<'de> {
    frame: &'de DataFrame,
    cursor: Cursor,
}

impl<'de> BorrowedRows<'de> {
    /// The frame that is walked.
    pub closed spec fn frame(&self) -> DataFrame {
        *self.frame
    }

    /// Where the walk stands.
    pub closed spec fn cursor(&self) -> Cursor {
        self.cursor
    }

    /// The row to fetch next, or `None` when every row has had its turn.
    pub fn next_index(&mut self) -> (index: Option<usize>)
        ensures
            final(self).frame() == old(self).frame(),
            final(self).cursor().len() == old(self).cursor().len(),
            match index {
                Some(i) => {
                    &&& i == old(self).cursor().position()
                    &&& i < old(self).cursor().len()
                    &&& final(self).cursor().position() == i + 1
                },
                None => {
                    &&& old(self).cursor().remaining() == 0
                    &&& final(self).cursor().position() == old(self).cursor().position()
                },
            },
    {
        self.cursor.next_index()
    }

    /// How many rows are still to come.
    pub fn size_hint(&self) -> (left: usize)
        ensures
            left == self.cursor().remaining(),
    {
        self.cursor.size_hint()
    }

    /// One pull: takes the row that is due, has `fetch` bring its cells, and
    /// gives the element for it. `fetch` is called once, with the index of
    /// that row, and not at all when the walk is over.
    pub fn next_element<F>(&mut self, fetch: F) -> (element: Option<
        ResultDeserializer<BorrowedRow<'de, Vec<&'de str>>>,
    >) where
        F: FnOnce(usize) -> Result<Row<'de>, PolarsError>,

        requires
            forall|i: usize| i < old(self).cursor().len() ==> call_requires(fetch, (i,)),
        ensures
            final(self).frame() == old(self).frame(),
            final(self).cursor().len() == old(self).cursor().len(),
            match element {
                Some(e) => {
                    &&& old(self).cursor().position() < old(self).cursor().len()
                    &&& final(self).cursor().position() == old(self).cursor().position() + 1
                    &&& exists|fetched: Result<Row<'de>, PolarsError>|
                        {
                            &&& call_ensures(
                                fetch,
                                (old(self).cursor().position() as usize,),
                                fetched,
                            )
                            &&& e.deferred() == deferred_record(
                                frame_names(old(self).frame()),
                                fetched_view(fetched),
                                Mode::Borrowed,
                            )
                        }
                },
                None => {
                    &&& old(self).cursor().remaining() == 0
                    &&& final(self).cursor().position() == old(self).cursor().position()
                },
            },
    {
        match self.cursor.next_index() {
            Some(index) => {
                let fetched = fetch(index);
                Some(self.element(fetched))
            },
            None => None,
        }
    }

    /// The element for a row, given what fetching the row brought. A failed
    /// fetch is kept inside the element.
    pub fn element(
        &self,
        fetched: Result<Row<'de>, PolarsError>,
    ) -> (element: ResultDeserializer<BorrowedRow<'de, Vec<&'de str>>>)
        ensures
            element.deferred() == deferred_record(
                frame_names(self.frame()),
                fetched_view(fetched),
                Mode::Borrowed,
            ),
            fetched matches Err(e) ==> element.held() == Err::<
                BorrowedRow<'de, Vec<&'de str>>,
                Error,
            >(Error::Polars(e)),
    {
        match fetched {
            Ok(row) => {
                let names = column_names(self.frame);
                assert(texts(names@) =~= frame_names(*self.frame));
                ResultDeserializer(Ok(BorrowedRow::new(names, row)))
            },
            Err(e) => ResultDeserializer(Err(Error::from(e))),
        }
    }
}

/// The walk over the columns of a frame whose storage outlives the decode.
#[derive(Debug)]
pub struct BorrowedColumns<'de> {
    names: Vec<&'de str>,
    cursor: Cursor,
}

impl<'de> BorrowedColumns<'de> {
    /// The walk has one position for each name.
    #[verifier::type_invariant]
    spec fn one_position_for_each_name(self) -> bool {
        self.cursor.len() == self.names@.len()
    }

    /// The names of the columns, as they were read when the walk began.
    pub closed spec fn names(&self) -> Seq<Seq<char>> {
        texts(self.names@)
    }

    /// Where the walk stands.
    pub closed spec fn cursor(&self) -> Cursor {
        self.cursor
    }

    /// The column to fetch next, or `None` when every column has had its turn.
    pub fn next_index(&mut self) -> (index: Option<usize>)
        ensures
            final(self).names() == old(self).names(),
            final(self).cursor().len() == old(self).cursor().len(),
            match index {
                Some(i) => {
                    &&& i == old(self).cursor().position()
                    &&& i < old(self).cursor().len()
                    &&& final(self).cursor().position() == i + 1
                },
                None => {
                    &&& old(self).cursor().remaining() == 0
                    &&& final(self).cursor().position() == old(self).cursor().position()
                },
            },
    {
        proof {
            use_type_invariant(&*self);
        }
        self.cursor.next_index()
    }

    /// How many columns are still to come.
    pub fn size_hint(&self) -> (left: usize)
        ensures
            left == self.cursor().remaining(),
    {
        self.cursor.size_hint()
    }

    /// One pull: takes the column that is due, has `fetch` bring its cells,
    /// and gives the entry for it. `fetch` is called once, with the index of
    /// that column, and not at all when the walk is over.
    pub fn next_entry<F>(&mut self, fetch: F) -> (entry: Option<BorrowedColumnEntry<'de>>) where
        F: FnOnce(usize) -> Vec<Value<'de>>,

        requires
            forall|i: usize| i < old(self).cursor().len() ==> call_requires(fetch, (i,)),
        ensures
            final(self).names() == old(self).names(),
            final(self).cursor().len() == old(self).cursor().len(),
            match entry {
                Some(e) => {
                    &&& old(self).cursor().position() < old(self).cursor().len()
                    &&& final(self).cursor().position() == old(self).cursor().position() + 1
                    &&& exists|cells: Vec<Value<'de>>|
                        {
                            &&& call_ensures(
                                fetch,
                                (old(self).cursor().position() as usize,),
                                cells,
                            )
                            &&& e@ == column_entry(
                                old(self).names()[old(self).cursor().position() as int],
                                views(cells@),
                                Mode::Borrowed,
                            )
                        }
                },
                None => {
                    &&& old(self).cursor().remaining() == 0
                    &&& final(self).cursor().position() == old(self).cursor().position()
                },
            },
    {
        proof {
            use_type_invariant(&*self);
        }
        match self.cursor.next_index() {
            Some(index) => {
                let cells = fetch(index);
                self.entry(index, cells)
            },
            None => None,
        }
    }

    /// The entry for column `index`, given its cells from top to bottom.
    /// `None` where the frame has no such column.
    pub fn entry(&self, index: usize, cells: Vec<Value<'de>>) -> (entry: Option<
        BorrowedColumnEntry<'de>,
    >)
        ensures
            match entry {
                Some(e) => index < self.names().len() && e@ == column_entry(
                    self.names()[index as int],
                    views(cells@),
                    Mode::Borrowed,
                ),
                None => index >= self.names().len(),
            },
    {
        if index < self.names.len() {
            let key = Call::BorrowedStr(self.names[index]);
            Some(BorrowedColumnEntry { key, values: wrap_each(cells) })
        } else {
            None
        }
    }
}

/// What a frame is presented as.
#[derive(Debug)]
pub enum Visit<'a> {
    /// One map with an entry for each column: `visit_map`.
    Columns(Columns<'a>),
    /// One sequence with an element for each row: `visit_seq`.
    Rows(Rows<'a>),
}

/// The bridge for a frame whose cells are handed over as they are.
#[derive(Debug)]
pub struct Deserializer<'a>(&'a DataFrame, Order);

impl<'a> Deserializer<'a> {
    /// The frame that is bridged.
    pub closed spec fn frame(&self) -> DataFrame {
        *self.0
    }

    /// Whether the frame is walked by columns.
    pub closed spec fn by_columns(&self) -> bool {
        self.1 == Order::Column
    }

    /// A bridge that walks `value` by columns.
    pub fn columns(value: &'a DataFrame) -> (bridge: Self)
        ensures
            bridge.frame() == *value,
            bridge.by_columns(),
    {
        Self(value, Order::Column)
    }

    /// A bridge that walks `value` by rows.
    pub fn rows(value: &'a DataFrame) -> (bridge: Self)
        ensures
            bridge.frame() == *value,
            !bridge.by_columns(),
    {
        Self(value, Order::Row)
    }

    /// The one call that describes the frame: a map of its columns or a
    /// sequence of its rows, with the walk at its start.
    pub fn deserialize_any(self) -> (visit: Visit<'a>)
        ensures
            match visit {
                Visit::Columns(walk) => {
                    &&& self.by_columns()
                    &&& walk.names() == frame_names(self.frame())
                    &&& walk.cursor().position() == 0
                    &&& walk.cursor().len() == frame_names(self.frame()).len()
                },
                Visit::Rows(walk) => {
                    &&& !self.by_columns()
                    &&& walk.frame() == self.frame()
                    &&& walk.cursor().position() == 0
                    &&& walk.cursor().len() == frame_height(self.frame())
                },
            },
    {
        match self.1 {
            Order::Column => {
                let names = column_names(self.0);
                assert(texts(names@) =~= frame_names(*self.0));
                let cursor = Cursor::new(names.len());
                Visit::Columns(Columns { names, cursor })
            },
            Order::Row => {
                let cursor = Cursor::new(height(self.0));
                Visit::Rows(Rows { frame: self.0, cursor })
            },
        }
    }

    /// The answer to a consumer that asks for `shape`: the same as to one
    /// that asks for anything.
    #[allow(unused_variables)]
    pub fn deserialize(self, shape: Shape) -> (visit: Visit<'a>)
        ensures
            match visit {
                Visit::Columns(walk) => {
                    &&& self.by_columns()
                    &&& walk.names() == frame_names(self.frame())
                    &&& walk.cursor().position() == 0
                    &&& walk.cursor().len() == frame_names(self.frame()).len()
                },
                Visit::Rows(walk) => {
                    &&& !self.by_columns()
                    &&& walk.frame() == self.frame()
                    &&& walk.cursor().position() == 0
                    &&& walk.cursor().len() == frame_height(self.frame())
                },
            },
    {
        self.deserialize_any()
    }
}

/// What a frame whose storage outlives the decode is presented as.
#[derive(Debug)]
pub enum BorrowedVisit<'de> {
    /// One map with an entry for each column: `visit_map`.
    Columns(BorrowedColumns<'de>),
    /// One sequence with an element for each row: `visit_seq`.
    Rows(BorrowedRows<'de>),
}

/// The bridge for a frame whose storage outlives the decode.
#[derive(Debug)]
pub struct BorrowedDeserializer<'de>(&'de DataFrame, Order);

impl<'de> BorrowedDeserializer<'de> {
    /// The frame that is bridged.
    pub closed spec fn frame(&self) -> DataFrame {
        *self.0
    }

    /// Whether the frame is walked by columns.
    pub closed spec fn by_columns(&self) -> bool {
        self.1 == Order::Column
    }

    /// A bridge that walks `value` by columns.
    pub fn columns(value: &'de DataFrame) -> (bridge: Self)
        ensures
            bridge.frame() == *value,
            bridge.by_columns(),
    {
        Self(value, Order::Column)
    }

    /// A bridge that walks `value` by rows.
    pub fn rows(value: &'de DataFrame) -> (bridge: Self)
        ensures
            bridge.frame() == *value,
            !bridge.by_columns(),
    {
        Self(value, Order::Row)
    }

    /// The one call that describes the frame: a map of its columns or a
    /// sequence of its rows, with the walk at its start.
    pub fn deserialize_any(self) -> (visit: BorrowedVisit<'de>)
        ensures
            match visit {
                BorrowedVisit::Columns(walk) => {
                    &&& self.by_columns()
                    &&& walk.names() == frame_names(self.frame())
                    &&& walk.cursor().position() == 0
                    &&& walk.cursor().len() == frame_names(self.frame()).len()
                },
                BorrowedVisit::Rows(walk) => {
                    &&& !self.by_columns()
                    &&& walk.frame() == self.frame()
                    &&& walk.cursor().position() == 0
                    &&& walk.cursor().len() == frame_height(self.frame())
                },
            },
    {
        match self.1 {
            Order::Column => {
                let names = column_names(self.0);
                assert(texts(names@) =~= frame_names(*self.0));
                let cursor = Cursor::new(names.len());
                BorrowedVisit::Columns(BorrowedColumns { names, cursor })
            },
            Order::Row => {
                let cursor = Cursor::new(height(self.0));
                BorrowedVisit::Rows(BorrowedRows { frame: self.0, cursor })
            },
        }
    }

    /// The answer to a consumer that asks for `shape`: the same as to one
    /// that asks for anything.
    #[allow(unused_variables)]
    pub fn deserialize(self, shape: Shape) -> (visit: BorrowedVisit<'de>)
        ensures
            match visit {
                BorrowedVisit::Columns(walk) => {
                    &&& self.by_columns()
                    &&& walk.names() == frame_names(self.frame())
                    &&& walk.cursor().position() == 0
                    &&& walk.cursor().len() == frame_names(self.frame()).len()
                },
                BorrowedVisit::Rows(walk) => {
                    &&& !self.by_columns()
                    &&& walk.frame() == self.frame()
                    &&& walk.cursor().position() == 0
                    &&& walk.cursor().len() == frame_height(self.frame())
                },
            },
    {
        self.deserialize_any()
    }
}

} // verus!
