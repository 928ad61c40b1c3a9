//! A search from query to cache: when the transport is asked, what its
//! outcome does to the cache, and what the caller gets back.

use vstd::prelude::*;
use crate::cache::{window_of, AppState};
use crate::error::{answer_view, found_view, Failure, SearchError};
use crate::record::{views, Record, SearchResult, SearchResultSlice, Window};
use crate::text::{blank, is_blank};
use crate::transport::{interpret_output, outcome_of, TransportOutcome};

verus! {

/// What a finished search does to the cache and answers.
///
/// A result set replaces the cache whole, and the answer is its first
/// `initial_count` records. An error leaves the cache as it was and is the
/// answer.
pub open spec fn committed(
    before: Seq<Record>,
    found: Result<Seq<Record>, Failure>,
    initial_count: nat,
    after: Seq<Record>,
    answer: Result<Window, Failure>,
) -> bool {
    match found {
        Ok(records) => after == records && answer == Ok::<Window, Failure>(
            window_of(records, 0, initial_count),
        ),
        Err(failure) => after == before && answer == Err::<Window, Failure>(failure),
    }
}

/// The answer of a search that succeeded is the window that a read of
/// `initial_count` records from the start of the cache gives afterwards.
pub proof fn lemma_answer_is_first_window(
    before: Seq<Record>,
    found: Result<Seq<Record>, Failure>,
    initial_count: nat,
    after: Seq<Record>,
    answer: Result<Window, Failure>,
)
    requires
        committed(before, found, initial_count, after, answer),
    ensures
        found is Ok ==> answer == Ok::<Window, Failure>(window_of(after, 0, initial_count)),
        found is Err ==> answer is Err && forall|start: nat, count: nat|
            window_of(after, start, count) == window_of(before, start, count),
{
}

/// Finds the records for `keyword`.
///
/// A blank keyword has no records and the transport is not asked: nothing
/// is required of `transport` for it. Any other keyword has what the
/// transport's outcome means.
pub fn find_results<F: FnOnce() -> TransportOutcome>(keyword: &str, transport: F) -> (found: Result<
    Vec<SearchResult>,
    SearchError,
>)
    requires
        !is_blank(keyword@) ==> transport.requires(()),
    ensures
        is_blank(keyword@) ==> found_view(found) == Ok::<Seq<Record>, Failure>(
            Seq::<Record>::empty(),
        ),
        !is_blank(keyword@) ==> exists|outcome: TransportOutcome|
            transport.ensures((), outcome) && found_view(found) == outcome_of(outcome),
{
    if blank(keyword) {
        let none: Vec<SearchResult> = Vec::new();
        assert(views(none@) =~= Seq::<Record>::empty());
        Ok(none)
    } else {
        let outcome = transport();
        let ghost handed = outcome;
        let found = interpret_output(outcome);
        assert(transport.ensures((), handed) && found_view(found) == outcome_of(handed));
        found
    }
}

/// Ends a search: puts what was found into the cache and answers with its
/// first `initial_count` records, or passes the error on and leaves the
/// cache alone.
pub fn complete_search(
    found: Result<Vec<SearchResult>, SearchError>,
    initial_count: usize,
    state: &mut AppState,
) -> (answer: Result<SearchResultSlice, SearchError>)
    ensures
        committed(
            old(state)@,
            found_view(found),
            initial_count as nat,
            final(state)@,
            answer_view(answer),
        ),
{
    match found {
        Ok(results) => Ok(state.replace(results, initial_count)),
        Err(error) => Err(error),
    }
}

/// Searches for `keyword` and answers with the first `initial_count`
/// records found.
///
/// A blank keyword clears the cache without asking the transport. For any
/// other keyword the transport is asked once; the records it brings replace
/// the cache, and a failure leaves the cache as it was.
pub fn perform_search<F: FnOnce() -> TransportOutcome>(
    keyword: &str,
    initial_count: usize,
    state: &mut AppState,
    transport: F,
) -> (answer: Result<SearchResultSlice, SearchError>)
    requires
        !is_blank(keyword@) ==> transport.requires(()),
    ensures
        is_blank(keyword@) ==> final(state)@ == Seq::<Record>::empty() && answer_view(answer)
            == Ok::<Window, Failure>(Window { items: Seq::<Record>::empty(), total_count: 0 }),
        !is_blank(keyword@) ==> exists|outcome: TransportOutcome|
            transport.ensures((), outcome) && committed(
                old(state)@,
                outcome_of(outcome),
                initial_count as nat,
                final(state)@,
                answer_view(answer),
            ),
{
    let found = find_results(keyword, transport);
    complete_search(found, initial_count, state)
}

} // verus!
