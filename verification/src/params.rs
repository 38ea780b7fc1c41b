//! Closed parameter value sets shared by the listing endpoints.
//!
//! Each enum has exactly one wire string per variant; parsing an unknown
//! string fails rather than defaulting.

pub mod issues;
pub mod pulls;

use vstd::prelude::*;
use vstd::string::*;

verus! {

/// The state filter of an issue or pull request listing.
#[derive(Clone, Copy, Debug, PartialEq, Eq)]
pub enum State {
    All,
    Open,
    Closed,
}

/// The sort direction of a listing.
#[derive(Clone, Copy, Debug, PartialEq, Eq)]
pub enum Direction {
    Ascending,
    Descending,
}

/// The one wire string of each `State` variant.
pub open spec fn state_wire(s: State) -> Seq<char> {
    match s {
        State::All => "all"@,
        State::Open => "open"@,
        State::Closed => "closed"@,
    }
}

/// The one wire string of each `Direction` variant.
pub open spec fn direction_wire(d: Direction) -> Seq<char> {
    match d {
        Direction::Ascending => "asc"@,
        Direction::Descending => "desc"@,
    }
}

/// The `State` a wire string denotes, if any.
pub open spec fn state_of_wire(s: Seq<char>) -> Option<State> {
    if s == "all"@ {
        Some(State::All)
    } else if s == "open"@ {
        Some(State::Open)
    } else if s == "closed"@ {
        Some(State::Closed)
    } else {
        None
    }
}

/// The `Direction` a wire string denotes, if any.
pub open spec fn direction_of_wire(s: Seq<char>) -> Option<Direction> {
    if s == "asc"@ {
        Some(Direction::Ascending)
    } else if s == "desc"@ {
        Some(Direction::Descending)
    } else {
        None
    }
}

/// Whether the character sequences of `a` and `b` are equal.
pub fn str_eq(a: &str, b: &str) -> (r: bool)
    ensures
        r == (a@ == b@),
{
    let x = a.to_owned();
    let y = b.to_owned();
    x == y
}

impl State {
    /// The fixed wire string of this variant.
    pub fn to_wire(&self) -> (r: &'static str)
        ensures
            r@ == state_wire(*self),
    {
        match self {
            State::All => "all",
            State::Open => "open",
            State::Closed => "closed",
        }
    }

    /// Parses a wire string; unknown strings yield `None`, never a default.
    pub fn parse_wire(s: &str) -> (r: Option<State>)
        ensures
            r == state_of_wire(s@),
    {
        if str_eq(s, "all") {
            Some(State::All)
        } else if str_eq(s, "open") {
            Some(State::Open)
        } else if str_eq(s, "closed") {
            Some(State::Closed)
        } else {
            None
        }
    }
}

impl Direction {
    /// The fixed wire string of this variant.
    pub fn to_wire(&self) -> (r: &'static str)
        ensures
            r@ == direction_wire(*self),
    {
        match self {
            Direction::Ascending => "asc",
            Direction::Descending => "desc",
        }
    }

    /// Parses a wire string; unknown strings yield `None`, never a default.
    pub fn parse_wire(s: &str) -> (r: Option<Direction>)
        ensures
            r == direction_of_wire(s@),
    {
        if str_eq(s, "asc") {
            Some(Direction::Ascending)
        } else if str_eq(s, "desc") {
            Some(Direction::Descending)
        } else {
            None
        }
    }
}

/// Parsing the wire string of any `State` gives back exactly that variant:
/// the wire strings are pairwise distinct, so serialization loses nothing.
pub proof fn lemma_state_wire_round_trip(s: State)
    ensures
        state_of_wire(state_wire(s)) == Some(s),
{
    reveal_strlit("all");
    reveal_strlit("open");
    reveal_strlit("closed");
    assert("all"@.len() == 3);
    assert("open"@.len() == 4);
    assert("closed"@.len() == 6);
    assert(state_of_wire(state_wire(s)) == Some(s));
}

/// Parsing the wire string of any `Direction` gives back exactly that variant.
pub proof fn lemma_direction_wire_round_trip(d: Direction)
    ensures
        direction_of_wire(direction_wire(d)) == Some(d),
{
    reveal_strlit("asc");
    reveal_strlit("desc");
    assert("asc"@.len() == 3);
    assert("desc"@.len() == 4);
    assert(direction_of_wire(direction_wire(d)) == Some(d));
}

} // verus!
