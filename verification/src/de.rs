//! The bridges, the values they read and the calls they answer with.
pub mod any_value;
pub mod categorical;
pub mod data_frame;
pub mod frame;
pub mod row;
pub mod shape;
pub mod value;

pub use any_value::{
    BorrowedDeserializer as BorrowedAnyValueDeserializer, Deserializer as AnyValueDeserializer,
};
pub use categorical::mapping_entries;
pub use data_frame::{
    BorrowedDeserializer as BorrowedDataFrameDeserializer, Deserializer as DataFrameDeserializer,
};
pub use frame::{frame_height, frame_names};
pub use row::{BorrowedDeserializer as BorrowedRowDeserializer, Deserializer as RowDeserializer};
pub use shape::Shape;
pub use value::{owned_form, Value, ValueView};

use polars_core::datatypes::CategoricalMapping;
use polars_core::error::PolarsError;
use std::sync::Arc;
use vstd::prelude::*;
use vstd::std_specs::convert::FromSpecImpl;
use vstd::string::to_string_from_display_ensures;

verus! {

/// Why a decode stopped.
#[derive(Debug)]
pub enum Error {
    /// The storage could not hand out what was asked for.
    Polars(PolarsError),
    /// A categorical code has no entry in the dictionary that came with it.
    InvalidCategoricalId(u32, Arc<CategoricalMapping>),
    /// A value of a kind that no visitor call describes, in owned form.
    UnknownDataType(Value<'static>),
    /// Whatever the consumer had to complain about.
    Custom(String),
}

/// What an [`Error`] stands for.
pub enum ErrorView {
    Polars(PolarsError),
    InvalidCategoricalId(u32, CategoricalMapping),
    UnknownDataType(ValueView),
    Custom(Seq<char>),
}

impl View for Error {
    type V = ErrorView;

    open spec fn view(&self) -> ErrorView {
        match self {
            Error::Polars(e) => ErrorView::Polars(*e),
            Error::InvalidCategoricalId(cat, mapping) => ErrorView::InvalidCategoricalId(
                *cat,
                **mapping,
            ),
            Error::UnknownDataType(value) => ErrorView::UnknownDataType(value@),
            Error::Custom(message) => ErrorView::Custom(message@),
        }
    }
}

impl Error {
    /// The error of a consumer that has `m` to say: it carries the text that
    /// `m` displays as.
    pub fn custom<T>(m: T) -> (error: Error) where T: core::fmt::Display
        ensures
            error matches Error::Custom(message) && to_string_from_display_ensures::<T>(
                &m,
                message,
            ),
    {
        Error::Custom(m.to_string())
    }
}

impl From<PolarsError> for Error {
    fn from(e: PolarsError) -> (error: Error) {
        Error::Polars(e)
    }
}

impl FromSpecImpl<PolarsError> for Error {
    open spec fn obeys_from_spec() -> bool {
        true
    }

    open spec fn from_spec(e: PolarsError) -> Error {
        Error::Polars(e)
    }
}

} // verus!
