#![allow(non_snake_case)]

mod clock;
pub mod context;
pub mod datasets;
pub mod merge;
pub mod model;
pub mod routes;
pub mod siri_lite;
pub mod utils;

use vstd::prelude::*;

verus! {

/// Errors surfaced by the query engine and the feed-merge pipeline.
///
/// `NotFound` is the only error a query caller can see: the stop filter named
/// an identifier that the schedule does not contain.  The two feed errors are
/// reported by the merge pipeline to its operator; they never reach a query
/// caller, who simply keeps seeing the previous overlay.
#[derive(Clone, Copy, Debug, PartialEq, Eq, Structural)]
pub enum Error {
    NotFound,
    FeedFetchFailed,
    FeedParseFailed,
}

impl Error {
    /// A short, stable label for logs and HTTP error bodies.
    pub fn label(&self) -> (r: &'static str)
        ensures
            *self is NotFound ==> r@ == "not found"@,
            *self is FeedFetchFailed ==> r@ == "feed fetch failed"@,
            *self is FeedParseFailed ==> r@ == "feed parse failed"@,
    {
        match self {
            Error::NotFound => "not found",
            Error::FeedFetchFailed => "feed fetch failed",
            Error::FeedParseFailed => "feed parse failed",
        }
    }
}

} // verus!
