//! The ways in which a search fails.

use vstd::prelude::*;
use crate::record::{views, Record, SearchResult, SearchResultSlice, Window};

verus! {

/// Why a search gave no result set.
#[derive(Debug)]
pub enum SearchError {
    /// The external search process could not be started.
    SpawnFailed { cause: String },
    /// The external search process ran and did not exit with status zero.
    /// `status` is its exit code, if it had one.
    ProcessFailed { status: Option<i32>, stderr: String },
    /// What the external search process printed is neither a sequence of
    /// JSON values nor a single one.
    MalformedOutput { cause: String, raw_text: String },
}

/// The mathematical value of a `SearchError`.
pub enum Failure {
    SpawnFailed { cause: Seq<char> },
    ProcessFailed { status: Option<i32>, stderr: Seq<char> },
    MalformedOutput { cause: Seq<char>, raw_text: Seq<char> },
}

impl View for SearchError {
    type V = Failure;

    open spec fn view(&self) -> Failure {
        match *self {
            SearchError::SpawnFailed { cause } => Failure::SpawnFailed { cause: cause@ },
            SearchError::ProcessFailed { status, stderr } => Failure::ProcessFailed {
                status,
                stderr: stderr@,
            },
            SearchError::MalformedOutput { cause, raw_text } => Failure::MalformedOutput {
                cause: cause@,
                raw_text: raw_text@,
            },
        }
    }
}

/// The value of a result set or of the error in its place.
pub open spec fn found_view(outcome: Result<Vec<SearchResult>, SearchError>) -> Result<
    Seq<Record>,
    Failure,
> {
    match outcome {
        Ok(results) => Ok(views(results@)),
        Err(error) => Err(error@),
    }
}

/// The value of a window or of the error in its place.
pub open spec fn answer_view(outcome: Result<SearchResultSlice, SearchError>) -> Result<
    Window,
    Failure,
> {
    match outcome {
        Ok(slice) => Ok(slice@),
        Err(error) => Err(error@),
    }
}

} // verus!
