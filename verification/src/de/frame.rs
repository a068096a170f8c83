//! What the bridges know of polars' frames.
//!
//! A frame is read through polars alone. The bridges ask it for its shape, the
//! number of rows and the names of the columns, and leave the cells to whoever
//! drives them.
use polars_core::error::PolarsError;
use polars_core::frame::column::Column;
use polars_core::frame::DataFrame;
use vstd::prelude::*;

verus! {

/// polars' table of equally long, named columns.
#[verifier::external_type_specification]
#[verifier::external_body]
pub struct ExDataFrame(DataFrame);

/// One column of a frame. A frame indexes to slices of columns, so the type
/// has to be known; nothing here looks inside one.
#[verifier::external_type_specification]
#[verifier::external_body]
pub struct ExColumn(Column);

/// What polars reports when it cannot hand out what was asked for.
#[verifier::external_type_specification]
#[verifier::external_body]
pub struct ExPolarsError(PolarsError);

/// The names of a frame's columns, in the frame's own order.
pub uninterp spec fn frame_names(frame: DataFrame) -> Seq<Seq<char>>;

/// The number of rows of a frame.
pub uninterp spec fn frame_height(frame: DataFrame) -> nat;

/// The number of rows, from `DataFrame::height`.
///
/// Trusted: the call returns the number of rows that the frame has.
#[verifier::external_body]
pub(crate) fn height(frame: &DataFrame) -> (rows: usize)
    ensures
        rows == frame_height(*frame),
{
    frame.height()
}

/// The column names, from `DataFrame::columns` and `Column::name`.
///
/// Trusted: the names come out one per column, in the frame's order, each as
/// the text that the column is called by. Names that occur twice stay twice.
#[verifier::external_body]
pub(crate) fn column_names<'a>(frame: &'a DataFrame) -> (names: Vec<&'a str>)
    ensures
        names@.len() == frame_names(*frame).len(),
        forall|j: int| 0 <= j < names@.len() ==> (#[trigger] names@[j])@ == frame_names(*frame)[j],
{
    frame.columns().iter().map(|column| column.name().as_str()).collect()
}

} // verus!
