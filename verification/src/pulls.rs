//! The pull request API: a handler scoped to an owner/repo pair, the
//! merge-check request, and the builders for creating and listing pull
//! requests.

pub mod create;
pub mod list;

use vstd::prelude::*;
use vstd::string::*;
use crate::error::Error;
use crate::wire::{append_u64, dec_rep};
use crate::{HttpMethod, Octocrab, RequestParts, resolved_url};

verus! {

/// A client for the pull request API of one repository.
#[derive(Clone, Debug)]
pub struct PullRequestHandler<'octo> {
    pub crab: &'octo Octocrab,
    pub owner: String,
    pub repo: String,
}

/// The relative route of a pull-request listing or creation request.
pub open spec fn pulls_route(owner: Seq<char>, repo: Seq<char>) -> Seq<char> {
    "/repos/"@ + owner + "/"@ + repo + "/pulls"@
}

/// The relative route of one pull request.
pub open spec fn pull_route(owner: Seq<char>, repo: Seq<char>, pr: u64) -> Seq<char> {
    pulls_route(owner, repo) + "/"@ + dec_rep(pr as nat)
}

/// The relative route of a merge check.
pub open spec fn merge_route(owner: Seq<char>, repo: Seq<char>, pr: u64) -> Seq<char> {
    pull_route(owner, repo, pr) + "/merge"@
}

/// The designated no-body success status of a merge check.
pub open spec fn merged_status() -> u16 {
    204
}

/// Interprets a merge-check response: exactly the designated no-body
/// status means the pull request is merged; every other status means it
/// is not, and the body is never consulted.
pub fn merged_from_status(status: u16) -> (r: bool)
    ensures
        r == (status == merged_status()),
{
    status == 204
}

impl<'octo> PullRequestHandler<'octo> {
    /// A handler for the pull requests of `owner`/`repo`.
    pub fn new(crab: &'octo Octocrab, owner: String, repo: String) -> (r: Self)
        ensures
            r.crab == crab,
            r.owner == owner,
            r.repo == repo,
    {
        PullRequestHandler { crab, owner, repo }
    }

    /// The relative route of a pull-request listing or creation request.
    pub fn route(&self) -> (r: String)
        ensures
            r@ == pulls_route(self.owner@, self.repo@),
    {
        let mut out = String::from_str("/repos/");
        out.append(self.owner.as_str());
        out.append("/");
        out.append(self.repo.as_str());
        out.append("/pulls");
        proof {
            assert(out@ =~= pulls_route(self.owner@, self.repo@));
        }
        out
    }

    /// The relative route of pull request `pr`.
    pub fn pull_route_of(&self, pr: u64) -> (r: String)
        ensures
            r@ == pull_route(self.owner@, self.repo@, pr),
    {
        let mut out = self.route();
        out.append("/");
        append_u64(&mut out, pr);
        proof {
            assert(out@ =~= pull_route(self.owner@, self.repo@, pr));
        }
        out
    }

    /// The relative route of the merge check of pull request `pr`.
    pub fn merge_route_of(&self, pr: u64) -> (r: String)
        ensures
            r@ == merge_route(self.owner@, self.repo@, pr),
    {
        let mut out = self.pull_route_of(pr);
        out.append("/merge");
        proof {
            assert(out@ =~= merge_route(self.owner@, self.repo@, pr));
        }
        out
    }

    /// The request parts of a merge check of pull request `pr`: a plain
    /// GET whose answer is carried by the status alone. A malformed
    /// base/route combination fails here, before any transport is
    /// involved.
    pub fn merge_request(&self, pr: u64) -> (r: Result<RequestParts, Error>)
        ensures
            r is Ok <==> resolved_url(
                self.crab.base_url@,
                merge_route(self.owner@, self.repo@, pr),
            ) is Some,
            r matches Ok(p) ==> p.method == HttpMethod::Get && (resolved_url(
                self.crab.base_url@,
                merge_route(self.owner@, self.repo@, pr),
            ) matches Some(v) && p.url@ == v) && p.body is None,
            r matches Err(e) ==> e is Url,
    {
        let route = self.merge_route_of(pr);
        match self.crab.absolute_url(route.as_str()) {
            Ok(url) => Ok(RequestParts { method: HttpMethod::Get, url, body: None }),
            Err(e) => Err(e),
        }
    }

    /// The request parts of a get of pull request `pr`.
    pub fn get_request(&self, pr: u64) -> (r: Result<RequestParts, Error>)
        ensures
            r is Ok <==> resolved_url(
                self.crab.base_url@,
                pull_route(self.owner@, self.repo@, pr),
            ) is Some,
            r matches Ok(p) ==> p.method == HttpMethod::Get && (resolved_url(
                self.crab.base_url@,
                pull_route(self.owner@, self.repo@, pr),
            ) matches Some(v) && p.url@ == v) && p.body is None,
            r matches Err(e) ==> e is Url,
    {
        let route = self.pull_route_of(pr);
        match self.crab.absolute_url(route.as_str()) {
            Ok(url) => Ok(RequestParts { method: HttpMethod::Get, url, body: None }),
            Err(e) => Err(e),
        }
    }

    /// Starts a creation request for a pull request asking to merge
    /// `head` into `base` under the given title.
    pub fn create<'b>(&'b self, title: String, head: String, base: String) -> (r:
        create::CreatePullRequestBuilder<'octo, 'b>)
        ensures
            r.handler == self,
            r.title == title,
            r.head == head,
            r.base == base,
            r.body is None,
    {
        create::CreatePullRequestBuilder::new(self, title, head, base)
    }

    /// Starts a listing request with every optional field unset.
    pub fn list<'b>(&'b self) -> (r: list::ListPullRequestsBuilder<'octo, 'b>)
        ensures
            r.handler == self,
            r.state is None,
            r.head is None,
            r.base is None,
            r.sort is None,
            r.direction is None,
            r.per_page is None,
            r.page is None,
    {
        list::ListPullRequestsBuilder::new(self)
    }
}

impl Octocrab {
    /// A handler for the pull requests of `owner`/`repo`, resolving
    /// against this client's base target.
    pub fn pulls<'octo>(&'octo self, owner: String, repo: String) -> (r: PullRequestHandler<
        'octo,
    >)
        ensures
            r.crab == self,
            r.owner == owner,
            r.repo == repo,
    {
        PullRequestHandler::new(self, owner, repo)
    }
}

} // verus!
