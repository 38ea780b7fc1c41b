//! One page of a paginated listing: the records in order, plus the
//! pagination metadata needed to fetch the neighbouring pages. A page is
//! built once per response and not mutated afterwards.

use vstd::prelude::*;

verus! {

/// An ordered page of `T` with pagination metadata.
#[derive(Clone, Debug, PartialEq, Eq)]
pub struct Page<T> {
    pub items: Vec<T>,
    pub total_count: Option<u64>,
    pub next: Option<String>,
    pub prev: Option<String>,
}

impl<T> Page<T> {
    /// A page holding exactly `items`, with the given metadata.
    pub fn new(items: Vec<T>, total_count: Option<u64>, next: Option<String>, prev: Option<
        String,
    >) -> (r: Self)
        ensures
            r.items == items,
            r.total_count == total_count,
            r.next == next,
            r.prev == prev,
    {
        Page { items, total_count, next, prev }
    }

    /// How many records this page holds.
    pub fn len(&self) -> (r: usize)
        ensures
            r == self.items@.len(),
    {
        self.items.len()
    }
}

} // verus!
