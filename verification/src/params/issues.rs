//! Parameter values peculiar to issue listings: the tri-state `Filter`
//! and the issue sort keys.

use vstd::prelude::*;
use vstd::string::*;
use crate::wire::{
    dec_rep, is_dec_digit, json_quoted, json_string, lemma_dec_rep_injective, lemma_dec_rep_shape,
    u64_string,
};
use crate::params::str_eq;

verus! {

/// A tri-state filter over one parameter: accept any value, require the
/// value to be absent, or require one concrete value. Exactly one of the
/// three holds; no other inputs are constructible.
#[derive(Clone, Debug, PartialEq, Eq)]
pub enum Filter<T> {
    /// Any value is accepted; written `"*"` on the wire.
    Wildcard,
    /// Only records without the value are accepted; written `"none"`.
    Absent,
    /// Only records with exactly this value are accepted.
    Value(T),
}

/// The sort key of an issue listing.
#[derive(Clone, Copy, Debug, PartialEq, Eq)]
pub enum Sort {
    Created,
    Updated,
    Comments,
}

/// The raw wire string of a string filter: `"*"`, `"none"`, or the value.
pub open spec fn filter_wire_str(f: Filter<String>) -> Seq<char> {
    match f {
        Filter::Wildcard => "*"@,
        Filter::Absent => "none"@,
        Filter::Value(v) => v@,
    }
}

/// A string filter rendered as a JSON value: always a string literal.
pub open spec fn filter_str_json(f: Filter<String>) -> Seq<char> {
    json_string(filter_wire_str(f))
}

/// The raw wire string of a numeric filter: `"*"`, `"none"`, or the
/// value's decimal digits.
pub open spec fn filter_u64_wire(f: Filter<u64>) -> Seq<char> {
    match f {
        Filter::Wildcard => "*"@,
        Filter::Absent => "none"@,
        Filter::Value(n) => dec_rep(n as nat),
    }
}

/// A numeric filter rendered as a JSON value: the sentinels stay strings,
/// a concrete value is written as a bare number.
pub open spec fn filter_u64_json(f: Filter<u64>) -> Seq<char> {
    match f {
        Filter::Wildcard => json_string("*"@),
        Filter::Absent => json_string("none"@),
        Filter::Value(n) => dec_rep(n as nat),
    }
}

/// A string filter with the concrete value replaced by its characters,
/// so that two filters can be compared by content.
pub open spec fn filter_str_view(f: Filter<String>) -> Filter<Seq<char>> {
    match f {
        Filter::Wildcard => Filter::Wildcard,
        Filter::Absent => Filter::Absent,
        Filter::Value(v) => Filter::Value(v@),
    }
}

/// The one wire string of each `Sort` variant.
pub open spec fn issue_sort_wire(s: Sort) -> Seq<char> {
    match s {
        Sort::Created => "created"@,
        Sort::Updated => "updated"@,
        Sort::Comments => "comments"@,
    }
}

/// The `Sort` a wire string denotes, if any.
pub open spec fn issue_sort_of_wire(s: Seq<char>) -> Option<Sort> {
    if s == "created"@ {
        Some(Sort::Created)
    } else if s == "updated"@ {
        Some(Sort::Updated)
    } else if s == "comments"@ {
        Some(Sort::Comments)
    } else {
        None
    }
}

impl Sort {
    /// The fixed wire string of this variant.
    pub fn to_wire(&self) -> (r: &'static str)
        ensures
            r@ == issue_sort_wire(*self),
    {
        match self {
            Sort::Created => "created",
            Sort::Updated => "updated",
            Sort::Comments => "comments",
        }
    }

    /// Parses a wire string; unknown strings yield `None`, never a default.
    pub fn parse_wire(s: &str) -> (r: Option<Sort>)
        ensures
            r == issue_sort_of_wire(s@),
    {
        if str_eq(s, "created") {
            Some(Sort::Created)
        } else if str_eq(s, "updated") {
            Some(Sort::Updated)
        } else if str_eq(s, "comments") {
            Some(Sort::Comments)
        } else {
            None
        }
    }
}

/// Parsing the wire string of any `Sort` gives back exactly that variant.
pub proof fn lemma_issue_sort_wire_round_trip(s: Sort)
    ensures
        issue_sort_of_wire(issue_sort_wire(s)) == Some(s),
{
    reveal_strlit("created");
    reveal_strlit("updated");
    reveal_strlit("comments");
    assert("created"@.len() == 7);
    assert("updated"@.len() == 7);
    assert("comments"@.len() == 8);
    assert("created"@[0] == 'c' && "updated"@[0] == 'u');
    assert(issue_sort_of_wire(issue_sort_wire(s)) == Some(s));
}

impl Filter<String> {
    /// The raw wire string of this filter.
    pub fn to_wire(&self) -> (r: String)
        ensures
            r@ == filter_wire_str(*self),
    {
        match self {
            Filter::Wildcard => String::from_str("*"),
            Filter::Absent => String::from_str("none"),
            Filter::Value(v) => v.clone(),
        }
    }

    /// This filter rendered as a JSON value.
    pub fn to_json(&self) -> (r: String)
        ensures
            r@ == filter_str_json(*self),
    {
        match self {
            Filter::Wildcard => json_quoted("*"),
            Filter::Absent => json_quoted("none"),
            Filter::Value(v) => json_quoted(v.as_str()),
        }
    }

    /// Reads a raw wire string back into a filter: the two sentinels map to
    /// their variants, every other string is a concrete value. The result
    /// always renders back to exactly the input string.
    pub fn from_wire(s: String) -> (r: Filter<String>)
        ensures
            s@ == "*"@ ==> r == Filter::<String>::Wildcard,
            s@ == "none"@ ==> r == Filter::<String>::Absent,
            s@ != "*"@ && s@ != "none"@ ==> r == Filter::Value(s),
            filter_wire_str(r) == s@,
    {
        proof {
            reveal_strlit("*");
            reveal_strlit("none");
            assert("*"@.len() == 1);
            assert("none"@.len() == 4);
        }
        if str_eq(s.as_str(), "*") {
            Filter::Wildcard
        } else if str_eq(s.as_str(), "none") {
            Filter::Absent
        } else {
            Filter::Value(s)
        }
    }
}

impl Filter<u64> {
    /// The raw wire string of this filter.
    pub fn to_wire(&self) -> (r: String)
        ensures
            r@ == filter_u64_wire(*self),
    {
        match self {
            Filter::Wildcard => String::from_str("*"),
            Filter::Absent => String::from_str("none"),
            Filter::Value(n) => u64_string(*n),
        }
    }

    /// This filter rendered as a JSON value.
    pub fn to_json(&self) -> (r: String)
        ensures
            r@ == filter_u64_json(*self),
    {
        match self {
            Filter::Wildcard => json_quoted("*"),
            Filter::Absent => json_quoted("none"),
            Filter::Value(n) => u64_string(*n),
        }
    }
}

/// Two numeric filters with the same wire string are the same filter: a
/// concrete value is written in digits alone, so it can never collide
/// with either sentinel, and distinct values have distinct digits. The
/// wire form therefore loses nothing.
pub proof fn lemma_filter_u64_wire_injective(f: Filter<u64>, g: Filter<u64>)
    requires
        filter_u64_wire(f) == filter_u64_wire(g),
    ensures
        f == g,
{
    reveal_strlit("*");
    reveal_strlit("none");
    assert("*"@.len() == 1);
    assert("none"@.len() == 4);
    assert(!is_dec_digit('*'));
    assert(!is_dec_digit('n'));
    match f {
        Filter::Value(n) => {
            lemma_dec_rep_shape(n as nat);
            match g {
                Filter::Value(m) => {
                    lemma_dec_rep_injective(n as nat, m as nat);
                },
                _ => {
                    assert(is_dec_digit(filter_u64_wire(f)[0]));
                    assert(!is_dec_digit(filter_u64_wire(g)[0]));
                },
            }
        },
        _ => {
            match g {
                Filter::Value(m) => {
                    lemma_dec_rep_shape(m as nat);
                    assert(is_dec_digit(filter_u64_wire(g)[0]));
                    assert(!is_dec_digit(filter_u64_wire(f)[0]));
                },
                _ => {
                },
            }
        },
    }
}

/// Writing a string filter to the wire and reading it back gives the same
/// filter, by content. The two concrete values that collide with the
/// sentinels, `"*"` and `"none"`, are the only inputs left out.
pub proof fn lemma_filter_round_trip(f: Filter<String>, g: Filter<String>)
    requires
        f matches Filter::Value(v) ==> v@ != "*"@ && v@ != "none"@,
        filter_wire_str(f) == "*"@ ==> g == Filter::<String>::Wildcard,
        filter_wire_str(f) == "none"@ ==> g == Filter::<String>::Absent,
        filter_wire_str(f) != "*"@ && filter_wire_str(f) != "none"@ ==> (g matches Filter::Value(
            w,
        ) && w@ == filter_wire_str(f)),
    ensures
        filter_str_view(g) == filter_str_view(f),
{
    reveal_strlit("*");
    reveal_strlit("none");
    assert("*"@.len() == 1);
    assert("none"@.len() == 4);
    assert(filter_str_view(g) == filter_str_view(f));
}

} // verus!
