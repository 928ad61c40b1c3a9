//! Result records and the windows that carry them to a caller.

use vstd::prelude::*;

verus! {

/// The mathematical value of one matched entity.
pub struct Record {
    pub name: Seq<char>,
    pub path: Seq<char>,
}

/// The mathematical value of a window: its records and the size of the set
/// they were taken from.
pub struct Window {
    pub items: Seq<Record>,
    pub total_count: nat,
}

/// One matched entity, as the external search reported it.
#[derive(Debug)]
pub struct SearchResult {
    name: String,
    path: String,
}

impl View for SearchResult {
    type V = Record;

    closed spec fn view(&self) -> Record {
        Record { name: self.name@, path: self.path@ }
    }
}

/// The values of a sequence of records, in order.
pub open spec fn views(results: Seq<SearchResult>) -> Seq<Record> {
    Seq::new(results.len(), |i: int| results[i]@)
}

impl SearchResult {
    /// A record with this name and this path.
    pub fn new(name: String, path: String) -> (result: SearchResult)
        ensures
            result@ == (Record { name: name@, path: path@ }),
    {
        SearchResult { name, path }
    }

    /// The name of the entity.
    pub fn name(&self) -> (name: &str)
        ensures
            name@ == self@.name,
    {
        self.name.as_str()
    }

    /// The full path of the entity.
    pub fn path(&self) -> (path: &str)
        ensures
            path@ == self@.path,
    {
        self.path.as_str()
    }

    /// Two records are the same entity when their paths are equal.
    pub fn same_entity(&self, other: &SearchResult) -> (same: bool)
        ensures
            same == (self@.path == other@.path),
    {
        self.path == other.path
    }
}

impl Clone for SearchResult {
    fn clone(&self) -> (copy: SearchResult)
        ensures
            copy@ == self@,
    {
        SearchResult { name: self.name.clone(), path: self.path.clone() }
    }
}

/// A bounded slice of a result set, copied out for a caller to keep.
#[derive(Debug)]
pub struct SearchResultSlice {
    items: Vec<SearchResult>,
    total_count: usize,
}

impl View for SearchResultSlice {
    type V = Window;

    closed spec fn view(&self) -> Window {
        Window { items: views(self.items@), total_count: self.total_count as nat }
    }
}

impl SearchResultSlice {
    /// A window of these records, taken from a set of `total_count`.
    pub fn new(items: Vec<SearchResult>, total_count: usize) -> (slice: SearchResultSlice)
        ensures
            slice@ == (Window { items: views(items@), total_count: total_count as nat }),
    {
        SearchResultSlice { items, total_count }
    }

    /// The records of the window, in order.
    pub fn items(&self) -> (items: &Vec<SearchResult>)
        ensures
            views(items@) == self@.items,
    {
        &self.items
    }

    /// The size of the set that the window was taken from.
    pub fn total_count(&self) -> (total: usize)
        ensures
            total == self@.total_count,
    {
        self.total_count
    }
}

impl Clone for SearchResultSlice {
    fn clone(&self) -> (copy: SearchResultSlice)
        ensures
            copy@ == self@,
    {
        let items = copy_range(&self.items, 0, self.items.len());
        assert(views(self.items@).subrange(0, self.items@.len() as int) =~= views(self.items@));
        SearchResultSlice { items, total_count: self.total_count }
    }
}

/// Copies the records at `[from, to)` out of `source`.
pub(crate) fn copy_range(source: &Vec<SearchResult>, from: usize, to: usize) -> (copy: Vec<SearchResult>)
    requires
        from <= to <= source.len(),
    ensures
        views(copy@) == views(source@).subrange(from as int, to as int),
{
    let mut copy: Vec<SearchResult> = Vec::new();
    let mut i: usize = from;
    while i < to
        invariant
            from <= i <= to <= source.len(),
            views(copy@) =~= views(source@).subrange(from as int, i as int),
        decreases to - i,
    {
        let ghost before = copy@;
        let item = source[i].clone();
        copy.push(item);
        assert(copy@ == before.push(item));
        assert(views(copy@) =~= views(before).push(item@));
        i = i + 1;
    }
    copy
}

} // verus!
