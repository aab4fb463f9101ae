//! Text tracking spans of a CRDT document: identifiers of operations and the
//! run-length spans (`YSpan`) that record inserted text with its origins and
//! its activation status.
use vstd::prelude::*;

pub mod id;
pub mod y_span;
pub mod laws;

verus! {

/// The kind of content that an operation inserts.
#[derive(Clone, Copy, Debug, PartialEq, Eq, Structural)]
pub enum ContentType {
    Text,
}

} // verus!
