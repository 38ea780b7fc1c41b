//! The issue API: a handler scoped to an owner/repo pair, and the fluent
//! builder that accumulates the optional filter, sort and pagination
//! fields of a listing request.

use vstd::prelude::*;
use vstd::string::*;
use crate::error::Error;
use crate::params::{Direction, State, direction_wire, state_wire};
use crate::params::issues::{Filter, Sort, filter_str_json, filter_u64_json, issue_sort_wire};
use crate::wire::{
    dec_rep, field_string, json_quoted, json_str_array, json_string, json_string_array,
    object_text, push_seg, spec_field, spec_object, u64_string,
};
use crate::{HttpMethod, Octocrab, RequestParts, resolved_url};

verus! {

/// A client for the issue API of one repository.
#[derive(Clone, Debug)]
pub struct IssueHandler<'octo> {
    pub crab: &'octo Octocrab,
    pub owner: String,
    pub repo: String,
}

/// Accumulates the optional fields of one issue-listing request. Each
/// setter is a pure in-memory assignment; unset fields never appear in the
/// serialized query.
#[derive(Clone, Debug)]
pub struct ListIssuesBuilder<'octo, 'b> {
    pub handler: &'b IssueHandler<'octo>,
    pub state: Option<State>,
    pub milestone: Option<Filter<u64>>,
    pub assignee: Option<Filter<String>>,
    pub creator: Option<String>,
    pub mentioned: Option<String>,
    pub labels: Option<Vec<String>>,
    pub sort: Option<Sort>,
    pub direction: Option<Direction>,
    pub per_page: Option<u8>,
    pub page: Option<u32>,
}

/// The relative route of an issue-listing request.
pub open spec fn issues_route(owner: Seq<char>, repo: Seq<char>) -> Seq<char> {
    "/repos/"@ + owner + "/"@ + repo + "/issues"@
}

/// The first five serialized members of an issue-listing query: the
/// identity filters, one member per set field, in declaration order.
pub open spec fn list_issues_segments_head<'octo, 'b>(b: ListIssuesBuilder<'octo, 'b>) -> Seq<
    Seq<char>,
> {
    (match b.state {
        Some(s) => seq![spec_field("state"@, json_string(state_wire(s)))],
        None => Seq::<Seq<char>>::empty(),
    }) + (match b.milestone {
        Some(f) => seq![spec_field("milestone"@, filter_u64_json(f))],
        None => Seq::<Seq<char>>::empty(),
    }) + (match b.assignee {
        Some(f) => seq![spec_field("assignee"@, filter_str_json(f))],
        None => Seq::<Seq<char>>::empty(),
    }) + (match b.creator {
        Some(c) => seq![spec_field("creator"@, json_string(c@))],
        None => Seq::<Seq<char>>::empty(),
    }) + (match b.mentioned {
        Some(m) => seq![spec_field("mentioned"@, json_string(m@))],
        None => Seq::<Seq<char>>::empty(),
    })
}

/// The last five serialized members: labels, ordering and pagination, one
/// member per set field, in declaration order.
pub open spec fn list_issues_segments_tail<'octo, 'b>(b: ListIssuesBuilder<'octo, 'b>) -> Seq<
    Seq<char>,
> {
    (match b.labels {
        Some(l) => seq![spec_field("labels"@, json_str_array(l.deep_view()))],
        None => Seq::<Seq<char>>::empty(),
    }) + (match b.sort {
        Some(s) => seq![spec_field("sort"@, json_string(issue_sort_wire(s)))],
        None => Seq::<Seq<char>>::empty(),
    }) + (match b.direction {
        Some(d) => seq![spec_field("direction"@, json_string(direction_wire(d)))],
        None => Seq::<Seq<char>>::empty(),
    }) + (match b.per_page {
        Some(p) => seq![spec_field("per_page"@, dec_rep(p as nat))],
        None => Seq::<Seq<char>>::empty(),
    }) + (match b.page {
        Some(p) => seq![spec_field("page"@, dec_rep(p as nat))],
        None => Seq::<Seq<char>>::empty(),
    })
}

/// The serialized members of an issue-listing query: exactly one member
/// per set field, in declaration order, each in its canonical wire form;
/// unset fields contribute nothing.
pub open spec fn list_issues_segments<'octo, 'b>(b: ListIssuesBuilder<'octo, 'b>) -> Seq<
    Seq<char>,
> {
    list_issues_segments_head(b) + list_issues_segments_tail(b)
}

/// The whole serialized query: a JSON object of exactly the set fields.
pub open spec fn list_issues_query<'octo, 'b>(b: ListIssuesBuilder<'octo, 'b>) -> Seq<char> {
    spec_object(list_issues_segments(b))
}

/// How many fields of the builder are set.
pub open spec fn count_set_fields<'octo, 'b>(b: ListIssuesBuilder<'octo, 'b>) -> int {
    (if b.state is Some {
        1int
    } else {
        0int
    }) + (if b.milestone is Some {
        1int
    } else {
        0int
    }) + (if b.assignee is Some {
        1int
    } else {
        0int
    }) + (if b.creator is Some {
        1int
    } else {
        0int
    }) + (if b.mentioned is Some {
        1int
    } else {
        0int
    }) + (if b.labels is Some {
        1int
    } else {
        0int
    }) + (if b.sort is Some {
        1int
    } else {
        0int
    }) + (if b.direction is Some {
        1int
    } else {
        0int
    }) + (if b.per_page is Some {
        1int
    } else {
        0int
    }) + (if b.page is Some {
        1int
    } else {
        0int
    })
}

/// The serialized query holds exactly one member per field that was set
/// and none for an unset field, whatever combination of setters ran.
#[verifier::rlimit(100)]
pub proof fn lemma_query_exactly_set_fields<'octo, 'b>(b: ListIssuesBuilder<'octo, 'b>)
    ensures
        list_issues_segments(b).len() == count_set_fields(b),
{
}

/// Serializing the same un-mutated builder twice yields identical text.
pub proof fn lemma_query_serialization_deterministic<'octo, 'b>(
    b: ListIssuesBuilder<'octo, 'b>,
    r1: Seq<char>,
    r2: Seq<char>,
)
    requires
        r1 == list_issues_query(b),
        r2 == list_issues_query(b),
    ensures
        r1 == r2,
{
}

impl<'octo> IssueHandler<'octo> {
    /// A handler for the issues of `owner`/`repo`.
    pub fn new(crab: &'octo Octocrab, owner: String, repo: String) -> (r: Self)
        ensures
            r.crab == crab,
            r.owner == owner,
            r.repo == repo,
    {
        IssueHandler { crab, owner, repo }
    }

    /// Starts a listing request with every optional field unset.
    pub fn list<'b>(&'b self) -> (r: ListIssuesBuilder<'octo, 'b>)
        ensures
            r.handler == self,
            r.state is None,
            r.milestone is None,
            r.assignee is None,
            r.creator is None,
            r.mentioned is None,
            r.labels is None,
            r.sort is None,
            r.direction is None,
            r.per_page is None,
            r.page is None,
    {
        ListIssuesBuilder::new(self)
    }
}

impl Octocrab {
    /// A handler for the issues of `owner`/`repo`, resolving against this
    /// client's base target.
    pub fn issues<'octo>(&'octo self, owner: String, repo: String) -> (r: IssueHandler<'octo>)
        ensures
            r.crab == self,
            r.owner == owner,
            r.repo == repo,
    {
        IssueHandler::new(self, owner, repo)
    }
}

impl<'octo, 'b> ListIssuesBuilder<'octo, 'b> {
    /// A builder with every optional field unset.
    pub fn new(handler: &'b IssueHandler<'octo>) -> (r: Self)
        ensures
            r.handler == handler,
            r.state is None,
            r.milestone is None,
            r.assignee is None,
            r.creator is None,
            r.mentioned is None,
            r.labels is None,
            r.sort is None,
            r.direction is None,
            r.per_page is None,
            r.page is None,
    {
        Self {
            handler,
            state: None,
            milestone: None,
            assignee: None,
            creator: None,
            mentioned: None,
            labels: None,
            sort: None,
            direction: None,
            per_page: None,
            page: None,
        }
    }

    /// Filter by milestone: a concrete milestone number, any milestone
    /// (`"*"`), or no milestone (`"none"`).
    pub fn milestone(self, milestone: Filter<u64>) -> (r: Self)
        ensures
            r == (ListIssuesBuilder { milestone: Some(milestone), ..self }),
    {
        ListIssuesBuilder { milestone: Some(milestone), ..self }
    }

    /// Filter by assignee: a user name, any assignee (`"*"`), or no
    /// assignee (`"none"`).
    pub fn assignee(self, assignee: Filter<String>) -> (r: Self)
        ensures
            r == (ListIssuesBuilder { assignee: Some(assignee), ..self }),
    {
        ListIssuesBuilder { assignee: Some(assignee), ..self }
    }

    /// Filter by the creator of the issue.
    pub fn creator(self, creator: String) -> (r: Self)
        ensures
            r == (ListIssuesBuilder { creator: Some(creator), ..self }),
    {
        ListIssuesBuilder { creator: Some(creator), ..self }
    }

    /// Filter by who is mentioned in the issue.
    pub fn mentioned(self, mentioned: String) -> (r: Self)
        ensures
            r == (ListIssuesBuilder { mentioned: Some(mentioned), ..self }),
    {
        ListIssuesBuilder { mentioned: Some(mentioned), ..self }
    }

    /// Filter by state.
    pub fn state(self, state: State) -> (r: Self)
        ensures
            r == (ListIssuesBuilder { state: Some(state), ..self }),
    {
        ListIssuesBuilder { state: Some(state), ..self }
    }

    /// Filter by labels.
    pub fn labels(self, labels: Vec<String>) -> (r: Self)
        ensures
            r == (ListIssuesBuilder { labels: Some(labels), ..self }),
    {
        ListIssuesBuilder { labels: Some(labels), ..self }
    }

    /// What to sort the results by.
    pub fn sort(self, sort: Sort) -> (r: Self)
        ensures
            r == (ListIssuesBuilder { sort: Some(sort), ..self }),
    {
        ListIssuesBuilder { sort: Some(sort), ..self }
    }

    /// The direction of the sort.
    pub fn direction(self, direction: Direction) -> (r: Self)
        ensures
            r == (ListIssuesBuilder { direction: Some(direction), ..self }),
    {
        ListIssuesBuilder { direction: Some(direction), ..self }
    }

    /// Results per page; the remote cap on this count is the remote's
    /// contract, not checked here.
    pub fn per_page(self, per_page: u8) -> (r: Self)
        ensures
            r == (ListIssuesBuilder { per_page: Some(per_page), ..self }),
    {
        ListIssuesBuilder { per_page: Some(per_page), ..self }
    }

    /// Page number of the results to fetch.
    pub fn page(self, page: u32) -> (r: Self)
        ensures
            r == (ListIssuesBuilder { page: Some(page), ..self }),
    {
        ListIssuesBuilder { page: Some(page), ..self }
    }

    /// The relative route of this request.
    pub fn route(&self) -> (r: String)
        ensures
            r@ == issues_route(self.handler.owner@, self.handler.repo@),
    {
        let mut out = String::from_str("/repos/");
        out.append(self.handler.owner.as_str());
        out.append("/");
        out.append(self.handler.repo.as_str());
        out.append("/issues");
        proof {
            assert(out@ =~= issues_route(self.handler.owner@, self.handler.repo@));
        }
        out
    }

    #[verifier::rlimit(100)]
    fn push_head_segments(&self, segs: &mut Vec<String>)
        ensures
            final(segs).deep_view() == old(segs).deep_view() + list_issues_segments_head(*self),
    {
        let ghost base = segs.deep_view();
        let ghost m1: Seq<Seq<char>> = match &self.state {
            Some(s) => seq![spec_field("state"@, json_string(state_wire(*s)))],
            None => Seq::<Seq<char>>::empty(),
        };
        let ghost m2: Seq<Seq<char>> = match &self.milestone {
            Some(f) => seq![spec_field("milestone"@, filter_u64_json(*f))],
            None => Seq::<Seq<char>>::empty(),
        };
        let ghost m3: Seq<Seq<char>> = match &self.assignee {
            Some(f) => seq![spec_field("assignee"@, filter_str_json(*f))],
            None => Seq::<Seq<char>>::empty(),
        };
        let ghost m4: Seq<Seq<char>> = match &self.creator {
            Some(c) => seq![spec_field("creator"@, json_string(c@))],
            None => Seq::<Seq<char>>::empty(),
        };
        let ghost m5: Seq<Seq<char>> = match &self.mentioned {
            Some(m) => seq![spec_field("mentioned"@, json_string(m@))],
            None => Seq::<Seq<char>>::empty(),
        };
        if let Some(st) = &self.state {
            let val = json_quoted(st.to_wire());
            push_seg(segs, field_string("state", val.as_str()));
        }
        proof {
            assert(segs.deep_view() =~= base + m1);
        }
        if let Some(f) = &self.milestone {
            let val = f.to_json();
            push_seg(segs, field_string("milestone", val.as_str()));
        }
        proof {
            assert(segs.deep_view() =~= base + m1 + m2);
        }
        if let Some(f) = &self.assignee {
            let val = f.to_json();
            push_seg(segs, field_string("assignee", val.as_str()));
        }
        proof {
            assert(segs.deep_view() =~= base + m1 + m2 + m3);
        }
        if let Some(c) = &self.creator {
            let val = json_quoted(c.as_str());
            push_seg(segs, field_string("creator", val.as_str()));
        }
        proof {
            assert(segs.deep_view() =~= base + m1 + m2 + m3 + m4);
        }
        if let Some(m) = &self.mentioned {
            let val = json_quoted(m.as_str());
            push_seg(segs, field_string("mentioned", val.as_str()));
        }
        proof {
            assert(segs.deep_view() =~= base + m1 + m2 + m3 + m4 + m5);
            assert(base + list_issues_segments_head(*self) =~= base + m1 + m2 + m3 + m4 + m5);
        }
    }

    #[verifier::rlimit(100)]
    fn push_tail_segments(&self, segs: &mut Vec<String>)
        ensures
            final(segs).deep_view() == old(segs).deep_view() + list_issues_segments_tail(*self),
    {
        let ghost base = segs.deep_view();
        let ghost m6: Seq<Seq<char>> = match &self.labels {
            Some(l) => seq![spec_field("labels"@, json_str_array(l.deep_view()))],
            None => Seq::<Seq<char>>::empty(),
        };
        let ghost m7: Seq<Seq<char>> = match &self.sort {
            Some(s) => seq![spec_field("sort"@, json_string(issue_sort_wire(*s)))],
            None => Seq::<Seq<char>>::empty(),
        };
        let ghost m8: Seq<Seq<char>> = match &self.direction {
            Some(d) => seq![spec_field("direction"@, json_string(direction_wire(*d)))],
            None => Seq::<Seq<char>>::empty(),
        };
        let ghost m9: Seq<Seq<char>> = match &self.per_page {
            Some(p) => seq![spec_field("per_page"@, dec_rep(*p as nat))],
            None => Seq::<Seq<char>>::empty(),
        };
        let ghost m10: Seq<Seq<char>> = match &self.page {
            Some(p) => seq![spec_field("page"@, dec_rep(*p as nat))],
            None => Seq::<Seq<char>>::empty(),
        };
        if let Some(l) = &self.labels {
            let val = json_string_array(l);
            push_seg(segs, field_string("labels", val.as_str()));
        }
        proof {
            assert(segs.deep_view() =~= base + m6);
        }
        if let Some(s) = &self.sort {
            let val = json_quoted(s.to_wire());
            push_seg(segs, field_string("sort", val.as_str()));
        }
        proof {
            assert(segs.deep_view() =~= base + m6 + m7);
        }
        if let Some(d) = &self.direction {
            let val = json_quoted(d.to_wire());
            push_seg(segs, field_string("direction", val.as_str()));
        }
        proof {
            assert(segs.deep_view() =~= base + m6 + m7 + m8);
        }
        if let Some(p) = &self.per_page {
            let val = u64_string(*p as u64);
            push_seg(segs, field_string("per_page", val.as_str()));
        }
        proof {
            assert(segs.deep_view() =~= base + m6 + m7 + m8 + m9);
        }
        if let Some(p) = &self.page {
            let val = u64_string(*p as u64);
            push_seg(segs, field_string("page", val.as_str()));
        }
        proof {
            assert(segs.deep_view() =~= base + m6 + m7 + m8 + m9 + m10);
            assert(base + list_issues_segments_tail(*self) =~= base + m6 + m7 + m8 + m9 + m10);
        }
    }

    /// Serializes the query: a JSON object holding exactly the set fields,
    /// in declaration order, in canonical wire form.
    pub fn query_string(&self) -> (r: String)
        ensures
            r@ == list_issues_query(*self),
    {
        let mut segs: Vec<String> = Vec::new();
        proof {
            assert(segs.deep_view() =~= Seq::<Seq<char>>::empty());
        }
        self.push_head_segments(&mut segs);
        self.push_tail_segments(&mut segs);
        proof {
            assert(segs.deep_view() =~= list_issues_segments(*self));
        }
        object_text(&segs)
    }

    /// Turns the configured builder into the parts the transport needs,
    /// consuming it. A malformed base/route combination yields the URL
    /// error here; no request parts exist for it, so nothing of it can
    /// reach the transport collaborator.
    pub fn into_request(self) -> (r: Result<RequestParts, Error>)
        ensures
            r is Ok <==> resolved_url(
                self.handler.crab.base_url@,
                issues_route(self.handler.owner@, self.handler.repo@),
            ) is Some,
            r matches Ok(p) ==> p.method == HttpMethod::Get && (resolved_url(
                self.handler.crab.base_url@,
                issues_route(self.handler.owner@, self.handler.repo@),
            ) matches Some(v) && p.url@ == v) && (p.body matches Some(q) && q@
                == list_issues_query(self)),
            r matches Err(e) ==> e is Url,
    {
        let query = self.query_string();
        let route = self.route();
        match self.handler.crab.absolute_url(route.as_str()) {
            Ok(url) => Ok(RequestParts { method: HttpMethod::Get, url, body: Some(query) }),
            Err(e) => Err(e),
        }
    }
}

} // verus!
