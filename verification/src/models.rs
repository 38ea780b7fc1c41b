//! Minimal typed response models. Their field lists are a representative
//! sample: the decoding collaborator fills them, the core only carries
//! them through.

use vstd::prelude::*;

verus! {

/// An issue, as returned by a listing request.
#[derive(Clone, Debug, PartialEq, Eq)]
pub struct Issue {
    pub number: u64,
    pub title: String,
}

/// A pull request, as returned by a get or listing request.
#[derive(Clone, Debug, PartialEq, Eq)]
pub struct PullRequest {
    pub number: u64,
    pub title: String,
}

} // verus!
