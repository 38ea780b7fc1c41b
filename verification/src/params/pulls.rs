//! Parameter values peculiar to pull-request listings: the sort keys.

use vstd::prelude::*;
use vstd::string::*;
use crate::params::str_eq;

verus! {

/// The sort key of a pull-request listing.
#[derive(Clone, Copy, Debug, PartialEq, Eq)]
pub enum Sort {
    Created,
    Updated,
    Popularity,
    LongRunning,
}

/// The one wire string of each `Sort` variant.
pub open spec fn pull_sort_wire(s: Sort) -> Seq<char> {
    match s {
        Sort::Created => "created"@,
        Sort::Updated => "updated"@,
        Sort::Popularity => "popularity"@,
        Sort::LongRunning => "long-running"@,
    }
}

/// The `Sort` a wire string denotes, if any.
pub open spec fn pull_sort_of_wire(s: Seq<char>) -> Option<Sort> {
    if s == "created"@ {
        Some(Sort::Created)
    } else if s == "updated"@ {
        Some(Sort::Updated)
    } else if s == "popularity"@ {
        Some(Sort::Popularity)
    } else if s == "long-running"@ {
        Some(Sort::LongRunning)
    } else {
        None
    }
}

impl Sort {
    /// The fixed wire string of this variant.
    pub fn to_wire(&self) -> (r: &'static str)
        ensures
            r@ == pull_sort_wire(*self),
    {
        match self {
            Sort::Created => "created",
            Sort::Updated => "updated",
            Sort::Popularity => "popularity",
            Sort::LongRunning => "long-running",
        }
    }

    /// Parses a wire string; unknown strings yield `None`, never a default.
    pub fn parse_wire(s: &str) -> (r: Option<Sort>)
        ensures
            r == pull_sort_of_wire(s@),
    {
        if str_eq(s, "created") {
            Some(Sort::Created)
        } else if str_eq(s, "updated") {
            Some(Sort::Updated)
        } else if str_eq(s, "popularity") {
            Some(Sort::Popularity)
        } else if str_eq(s, "long-running") {
            Some(Sort::LongRunning)
        } else {
            None
        }
    }
}

/// Parsing the wire string of any `Sort` gives back exactly that variant.
pub proof fn lemma_pull_sort_wire_round_trip(s: Sort)
    ensures
        pull_sort_of_wire(pull_sort_wire(s)) == Some(s),
{
    reveal_strlit("created");
    reveal_strlit("updated");
    reveal_strlit("popularity");
    reveal_strlit("long-running");
    assert("created"@.len() == 7);
    assert("updated"@.len() == 7);
    assert("popularity"@.len() == 10);
    assert("long-running"@.len() == 12);
    assert("created"@[0] == 'c' && "updated"@[0] == 'u');
    assert(pull_sort_of_wire(pull_sort_wire(s)) == Some(s));
}

} // verus!
