//! The transport's side of a search: what is handed to the external search
//! process, and what its exit means.

use vstd::prelude::*;
use crate::error::{found_view, Failure, SearchError};
use crate::normalizer::{parse, parse_outcome};
use crate::record::{Record, SearchResult};
use crate::text::{decode_lossy, lossy_text};

verus! {

/// What an external process left behind when it exited.
#[derive(Debug)]
pub struct ProcessOutput {
    /// The exit code; `None` where the process ended without one.
    pub exit_code: Option<i32>,
    pub stdout: Vec<u8>,
    pub stderr: Vec<u8>,
}

/// What a transport hands back: the output of the process, or the reason
/// why none was started.
pub type TransportOutcome = Result<ProcessOutput, String>;

/// A process succeeded when it exited with code zero.
pub open spec fn succeeded(exit_code: Option<i32>) -> bool {
    exit_code == Some(0i32)
}

/// What a transport's outcome means for the search.
///
/// A process that was not started, or that did not succeed, fails the
/// search. The standard output of one that succeeded is decoded leniently
/// and normalized.
pub open spec fn outcome_of(outcome: TransportOutcome) -> Result<Seq<Record>, Failure> {
    match outcome {
        Err(cause) => Err(Failure::SpawnFailed { cause: cause@ }),
        Ok(output) => if succeeded(output.exit_code) {
            parse_outcome(lossy_text(output.stdout@))
        } else {
            Err(
                Failure::ProcessFailed {
                    status: output.exit_code,
                    stderr: lossy_text(output.stderr@),
                },
            )
        },
    }
}

/// Tells whether a process with this exit code succeeded.
pub fn exited_successfully(exit_code: Option<i32>) -> (answer: bool)
    ensures
        answer == succeeded(exit_code),
{
    match exit_code {
        Some(code) => code == 0,
        None => false,
    }
}

/// Reads a transport's outcome: the records that the external search
/// found, or why there are none.
pub fn interpret_output(outcome: TransportOutcome) -> (found: Result<Vec<SearchResult>, SearchError>)
    ensures
        found_view(found) == outcome_of(outcome),
{
    match outcome {
        Err(cause) => Err(SearchError::SpawnFailed { cause }),
        Ok(output) => {
            if exited_successfully(output.exit_code) {
                let printed = decode_lossy(&output.stdout);
                parse(printed.as_str())
            } else {
                Err(
                    SearchError::ProcessFailed {
                        status: output.exit_code,
                        stderr: decode_lossy(&output.stderr),
                    },
                )
            }
        },
    }
}

} // verus!
