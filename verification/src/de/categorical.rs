//! The dictionary behind categorical and enum cells.
//!
//! A categorical cell holds a code and a shared dictionary that turns codes
//! into text. The dictionary is polars' own `CategoricalMapping`; this module
//! states what the bridges rely on when they look a code up in it.
use polars_core::datatypes::CategoricalMapping;
use std::sync::Arc;
use vstd::prelude::*;

verus! {

/// polars' dictionary from categorical codes to text. Nothing of its layout is
/// known here: it is only carried around and asked through [`cat_to_str`].
#[verifier::external_type_specification]
#[verifier::external_body]
pub struct ExCategoricalMapping(CategoricalMapping);

/// The text that a dictionary holds for each code it knows.
///
/// A dictionary only ever grows, and only through its owner. The bridges take
/// it as fixed for as long as a decode runs.
pub uninterp spec fn mapping_entries(mapping: CategoricalMapping) -> Map<u32, Seq<char>>;

/// Looks `cat` up with `CategoricalMapping::cat_to_str`.
///
/// Trusted: the call returns the text stored under `cat`, and `None` exactly
/// when the dictionary has no entry for `cat`.
#[verifier::external_body]
pub(crate) fn cat_to_str<'a>(mapping: &'a Arc<CategoricalMapping>, cat: u32) -> (text: Option<
    &'a str,
>)
    ensures
        match text {
            Some(s) => mapping_entries(**mapping).contains_key(cat) && mapping_entries(
                **mapping,
            )[cat] == s@,
            None => !mapping_entries(**mapping).contains_key(cat),
        },
{
    mapping.cat_to_str(cat)
}

/// Another handle to the same dictionary, made with `Arc::clone`.
///
/// Trusted: the new handle points at the dictionary that `mapping` points at.
#[verifier::external_body]
pub(crate) fn share(mapping: &Arc<CategoricalMapping>) -> (shared: Arc<CategoricalMapping>)
    ensures
        shared == *mapping,
{
    Arc::clone(mapping)
}

} // verus!
