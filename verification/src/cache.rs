//! The result cache: the most recent complete result set, and bounded
//! windows read from it.

use vstd::prelude::*;
use crate::record::{copy_range, views, Record, SearchResult, SearchResultSlice, Window};

verus! {

/// Where a window of `count` records from `start` ends: at `start + count`,
/// or at the end of the `total` records if that comes first.
pub open spec fn window_end(total: nat, start: nat, count: nat) -> nat {
    if start + count <= total {
        start + count
    } else {
        total
    }
}

/// The window of at most `count` records that starts at `start`.
///
/// It holds the records at `[start, window_end)`, and none when `start`
/// lies at or past the end of `results`.
pub open spec fn window_of(results: Seq<Record>, start: nat, count: nat) -> Window {
    Window {
        items: if start >= results.len() {
            Seq::<Record>::empty()
        } else {
            results.subrange(start as int, window_end(results.len(), start, count) as int)
        },
        total_count: results.len(),
    }
}

/// The number of records that a window of `count` from `start` holds when
/// `total` records are cached.
pub open spec fn window_len(total: nat, start: nat, count: nat) -> nat {
    if start >= total {
        0
    } else if count <= total - start {
        count
    } else {
        (total - start) as nat
    }
}

/// A window holds `min(count, max(0, total - start))` records, and each is
/// the cached record at its offset from `start`: none lies past the end of
/// the cache.
pub proof fn lemma_window_bounds(results: Seq<Record>, start: nat, count: nat)
    ensures
        window_of(results, start, count).items.len() == window_len(results.len(), start, count),
        window_of(results, start, count).items.len() <= count,
        forall|i: int|
            0 <= i < window_of(results, start, count).items.len() ==> start + i < results.len()
                && window_of(results, start, count).items[i] == results[start + i],
        window_of(results, start, count).total_count == results.len(),
{
}

/// Two reads of one cache with the same arguments give the same window.
pub proof fn lemma_window_repeatable(
    state: AppState,
    start_index: usize,
    count: usize,
    first: SearchResultSlice,
    second: SearchResultSlice,
)
    requires
        first@ == window_of(state@, start_index as nat, count as nat),
        second@ == window_of(state@, start_index as nat, count as nat),
    ensures
        first@ == second@,
{
}

/// Consecutive windows join: reading `count` records and then `more` from
/// where the first read ended gives what one read of `count + more` gives.
pub proof fn lemma_windows_join(results: Seq<Record>, start: nat, count: nat, more: nat)
    ensures
        window_of(results, start, count).items + window_of(results, start + count, more).items
            == window_of(results, start, count + more).items,
{
    assert(window_of(results, start, count).items + window_of(results, start + count, more).items
        =~= window_of(results, start, count + more).items);
}

/// The cache's only state: the result set of the last search that
/// succeeded, with its size.
#[derive(Debug)]
pub struct AppState {
    search_results: Vec<SearchResult>,
    total_results_count: usize,
}

impl View for AppState {
    type V = Seq<Record>;

    closed spec fn view(&self) -> Seq<Record> {
        views(self.search_results@)
    }
}

impl AppState {
    /// The count always is the length of the result set: no reader can see
    /// one without the other.
    #[verifier::type_invariant]
    spec fn consistent(self) -> bool {
        self.total_results_count == self.search_results.len()
    }

    /// A cache that holds no results.
    pub fn new() -> (state: AppState)
        ensures
            state@ == Seq::<Record>::empty(),
    {
        let state = AppState { search_results: Vec::new(), total_results_count: 0 };
        assert(state@ =~= Seq::<Record>::empty());
        state
    }

    /// The size of the cached result set.
    pub fn total_count(&self) -> (total: usize)
        ensures
            total == self@.len(),
    {
        proof {
            use_type_invariant(self);
        }
        self.total_results_count
    }

    /// Replaces the whole cache with `results` and returns the first
    /// `initial_count` of them.
    pub fn replace(&mut self, results: Vec<SearchResult>, initial_count: usize) -> (first:
        SearchResultSlice)
        ensures
            final(self)@ == views(results@),
            first@ == window_of(views(results@), 0, initial_count as nat),
    {
        let total = results.len();
        let shown = if initial_count < total {
            initial_count
        } else {
            total
        };
        let items = copy_range(&results, 0, shown);
        *self = AppState { search_results: results, total_results_count: total };
        let first = SearchResultSlice::new(items, total);
        assert(first@.items =~= window_of(views(results@), 0, initial_count as nat).items);
        first
    }

    /// Empties the cache and returns the empty window.
    pub fn clear(&mut self) -> (empty: SearchResultSlice)
        ensures
            final(self)@ == Seq::<Record>::empty(),
            empty@ == window_of(Seq::<Record>::empty(), 0, 0),
    {
        *self = AppState::new();
        let empty = SearchResultSlice::new(Vec::new(), 0);
        assert(empty@.items =~= Seq::<Record>::empty());
        empty
    }

    /// Copies the window `[start_index, start_index + count)` out of the
    /// cache, cut off at its end.
    pub fn window(&self, start_index: usize, count: usize) -> (slice: SearchResultSlice)
        ensures
            slice@ == window_of(self@, start_index as nat, count as nat),
    {
        proof {
            use_type_invariant(self);
        }
        let total = self.total_results_count;
        if start_index >= total {
            let slice = SearchResultSlice::new(Vec::new(), total);
            assert(slice@.items =~= Seq::<Record>::empty());
            slice
        } else {
            let room = total - start_index;
            let taken = if count < room {
                count
            } else {
                room
            };
            let items = copy_range(&self.search_results, start_index, start_index + taken);
            SearchResultSlice::new(items, total)
        }
    }
}

impl Default for AppState {
    fn default() -> (state: AppState)
        ensures
            state@ == Seq::<Record>::empty(),
    {
        AppState::new()
    }
}

/// Reads a window of the cached results. Any `start_index` and `count` are
/// served: what lies past the end of the cache is left out.
pub fn get_search_results_slice(start_index: usize, count: usize, state: &AppState) -> (slice:
    SearchResultSlice)
    ensures
        slice@ == window_of(state@, start_index as nat, count as nat),
        slice@.items.len() == window_len(state@.len(), start_index as nat, count as nat),
        slice@.total_count == state@.len(),
{
    proof {
        lemma_window_bounds(state@, start_index as nat, count as nat);
    }
    state.window(start_index, count)
}

} // verus!
