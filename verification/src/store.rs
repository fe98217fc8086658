//! What is taken for the collection when the persisted document is missing
//! or cannot be read as one. Reading and writing the document itself is the
//! caller's part.

use vstd::prelude::*;
use vstd::string::*;
use crate::trip::Trip;

verus! {

/// The document that holds no trips.
pub const EMPTY_DOCUMENT: &'static str = "[]";

/// The text to decode: what was read, or the empty document when nothing
/// could be read.
pub fn document_text(read: Option<String>) -> (text: String)
    ensures
        text@ == match read {
            Some(contents) => contents@,
            None => EMPTY_DOCUMENT@,
        },
{
    match read {
        Some(contents) => contents,
        None => String::from_str(EMPTY_DOCUMENT),
    }
}

/// The collection to work on: what was decoded, or no trips at all when the
/// document did not decode. Nothing of a document that fails to decode is
/// kept.
pub fn collection_or_empty(decoded: Option<Vec<Trip>>) -> (trips: Vec<Trip>)
    ensures
        match decoded {
            Some(collection) => trips == collection,
            None => trips@ == Seq::<Trip>::empty(),
        },
{
    match decoded {
        Some(collection) => collection,
        None => Vec::new(),
    }
}

} // verus!
