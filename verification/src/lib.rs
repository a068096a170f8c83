//! Decoding of polars data through a visitor protocol, without an encoding in
//! between.
//!
//! A cell, a row or a whole frame is handed to a bridge. The bridge looks at
//! what it holds and answers with the one visitor call that describes it: a
//! scalar call for a number, a text or bytes call for a string or a blob, a
//! sequence or a map for what is nested. Which call is made depends on the
//! value alone, never on the shape that the consumer asked for.
//!
//! Every bridge exists twice. The plain one hands text and bytes over for the
//! duration of the call. The borrowed one hands out references that live as
//! long as the storage does, so that a consumer can keep them without a copy.
pub mod de;
