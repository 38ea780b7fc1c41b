//! The builder that accumulates the optional filter, sort and pagination
//! fields of a pull-request listing request.

use vstd::prelude::*;
use vstd::string::*;
use crate::error::Error;
use crate::params::{Direction, State, direction_wire, state_wire};
use crate::params::pulls::{Sort, pull_sort_wire};
use crate::pulls::{PullRequestHandler, pulls_route};
use crate::wire::{
    dec_rep, field_string, json_quoted, json_string, object_text, push_seg, spec_field,
    spec_object, u64_string,
};
use crate::{HttpMethod, RequestParts, resolved_url};

verus! {

/// Accumulates the optional fields of one pull-request listing request.
/// Each setter is a pure in-memory assignment; unset fields never appear
/// in the serialized query.
#[derive(Clone, Debug)]
pub struct ListPullRequestsBuilder<'octo, 'b> {
    pub handler: &'b PullRequestHandler<'octo>,
    pub state: Option<State>,
    pub head: Option<String>,
    pub base: Option<String>,
    pub sort: Option<Sort>,
    pub direction: Option<Direction>,
    pub per_page: Option<u8>,
    pub page: Option<u32>,
}

/// The first four serialized members of a pull-request listing query,
/// one member per set field, in declaration order.
pub open spec fn list_pulls_segments_head<'octo, 'b>(b: ListPullRequestsBuilder<'octo, 'b>) -> Seq<
    Seq<char>,
> {
    (match b.state {
        Some(s) => seq![spec_field("state"@, json_string(state_wire(s)))],
        None => Seq::<Seq<char>>::empty(),
    }) + (match b.head {
        Some(h) => seq![spec_field("head"@, json_string(h@))],
        None => Seq::<Seq<char>>::empty(),
    }) + (match b.base {
        Some(t) => seq![spec_field("base"@, json_string(t@))],
        None => Seq::<Seq<char>>::empty(),
    }) + (match b.sort {
        Some(s) => seq![spec_field("sort"@, json_string(pull_sort_wire(s)))],
        None => Seq::<Seq<char>>::empty(),
    })
}

/// The last three serialized members: ordering and pagination.
pub open spec fn list_pulls_segments_tail<'octo, 'b>(b: ListPullRequestsBuilder<'octo, 'b>) -> Seq<
    Seq<char>,
> {
    (match b.direction {
        Some(d) => seq![spec_field("direction"@, json_string(direction_wire(d)))],
        None => Seq::<Seq<char>>::empty(),
    }) + (match b.per_page {
        Some(p) => seq![spec_field("per_page"@, dec_rep(p as nat))],
        None => Seq::<Seq<char>>::empty(),
    }) + (match b.page {
        Some(p) => seq![spec_field("page"@, dec_rep(p as nat))],
        None => Seq::<Seq<char>>::empty(),
    })
}

/// The serialized members of a pull-request listing query: exactly one
/// member per set field, in declaration order, in canonical wire form.
pub open spec fn list_pulls_segments<'octo, 'b>(b: ListPullRequestsBuilder<'octo, 'b>) -> Seq<
    Seq<char>,
> {
    list_pulls_segments_head(b) + list_pulls_segments_tail(b)
}

/// The whole serialized query: a JSON object of exactly the set fields.
pub open spec fn list_pulls_query<'octo, 'b>(b: ListPullRequestsBuilder<'octo, 'b>) -> Seq<char> {
    spec_object(list_pulls_segments(b))
}

impl<'octo, 'b> ListPullRequestsBuilder<'octo, 'b> {
    /// A builder with every optional field unset.
    pub fn new(handler: &'b PullRequestHandler<'octo>) -> (r: Self)
        ensures
            r.handler == handler,
            r.state is None,
            r.head is None,
            r.base is None,
            r.sort is None,
            r.direction is None,
            r.per_page is None,
            r.page is None,
    {
        Self {
            handler,
            state: None,
            head: None,
            base: None,
            sort: None,
            direction: None,
            per_page: None,
            page: None,
        }
    }

    /// Filter by state.
    pub fn state(self, state: State) -> (r: Self)
        ensures
            r == (ListPullRequestsBuilder { state: Some(state), ..self }),
    {
        ListPullRequestsBuilder { state: Some(state), ..self }
    }

    /// Filter by the head branch the changes come from.
    pub fn head(self, head: String) -> (r: Self)
        ensures
            r == (ListPullRequestsBuilder { head: Some(head), ..self }),
    {
        ListPullRequestsBuilder { head: Some(head), ..self }
    }

    /// Filter by the base branch the changes are pulled into.
    pub fn base(self, base: String) -> (r: Self)
        ensures
            r == (ListPullRequestsBuilder { base: Some(base), ..self }),
    {
        ListPullRequestsBuilder { base: Some(base), ..self }
    }

    /// What to sort the results by.
    pub fn sort(self, sort: Sort) -> (r: Self)
        ensures
            r == (ListPullRequestsBuilder { sort: Some(sort), ..self }),
    {
        ListPullRequestsBuilder { sort: Some(sort), ..self }
    }

    /// The direction of the sort.
    pub fn direction(self, direction: Direction) -> (r: Self)
        ensures
            r == (ListPullRequestsBuilder { direction: Some(direction), ..self }),
    {
        ListPullRequestsBuilder { direction: Some(direction), ..self }
    }

    /// Results per page; the remote cap on this count is the remote's
    /// contract, not checked here.
    pub fn per_page(self, per_page: u8) -> (r: Self)
        ensures
            r == (ListPullRequestsBuilder { per_page: Some(per_page), ..self }),
    {
        ListPullRequestsBuilder { per_page: Some(per_page), ..self }
    }

    /// Page number of the results to fetch.
    pub fn page(self, page: u32) -> (r: Self)
        ensures
            r == (ListPullRequestsBuilder { page: Some(page), ..self }),
    {
        ListPullRequestsBuilder { page: Some(page), ..self }
    }

    #[verifier::rlimit(100)]
    fn push_head_segments(&self, segs: &mut Vec<String>)
        ensures
            final(segs).deep_view() == old(segs).deep_view() + list_pulls_segments_head(*self),
    {
        let ghost base = segs.deep_view();
        let ghost m1: Seq<Seq<char>> = match &self.state {
            Some(s) => seq![spec_field("state"@, json_string(state_wire(*s)))],
            None => Seq::<Seq<char>>::empty(),
        };
        let ghost m2: Seq<Seq<char>> = match &self.head {
            Some(h) => seq![spec_field("head"@, json_string(h@))],
            None => Seq::<Seq<char>>::empty(),
        };
        let ghost m3: Seq<Seq<char>> = match &self.base {
            Some(t) => seq![spec_field("base"@, json_string(t@))],
            None => Seq::<Seq<char>>::empty(),
        };
        let ghost m4: Seq<Seq<char>> = match &self.sort {
            Some(s) => seq![spec_field("sort"@, json_string(pull_sort_wire(*s)))],
            None => Seq::<Seq<char>>::empty(),
        };
        if let Some(s) = &self.state {
            let val = json_quoted(s.to_wire());
            push_seg(segs, field_string("state", val.as_str()));
        }
        proof {
            assert(segs.deep_view() =~= base + m1);
        }
        if let Some(h) = &self.head {
            let val = json_quoted(h.as_str());
            push_seg(segs, field_string("head", val.as_str()));
        }
        proof {
            assert(segs.deep_view() =~= base + m1 + m2);
        }
        if let Some(t) = &self.base {
            let val = json_quoted(t.as_str());
            push_seg(segs, field_string("base", val.as_str()));
        }
        proof {
            assert(segs.deep_view() =~= base + m1 + m2 + m3);
        }
        if let Some(s) = &self.sort {
            let val = json_quoted(s.to_wire());
            push_seg(segs, field_string("sort", val.as_str()));
        }
        proof {
            assert(segs.deep_view() =~= base + m1 + m2 + m3 + m4);
            assert(base + list_pulls_segments_head(*self) =~= base + m1 + m2 + m3 + m4);
        }
    }

    #[verifier::rlimit(100)]
    fn push_tail_segments(&self, segs: &mut Vec<String>)
        ensures
            final(segs).deep_view() == old(segs).deep_view() + list_pulls_segments_tail(*self),
    {
        let ghost base = segs.deep_view();
        let ghost m5: Seq<Seq<char>> = match &self.direction {
            Some(d) => seq![spec_field("direction"@, json_string(direction_wire(*d)))],
            None => Seq::<Seq<char>>::empty(),
        };
        let ghost m6: Seq<Seq<char>> = match &self.per_page {
            Some(p) => seq![spec_field("per_page"@, dec_rep(*p as nat))],
            None => Seq::<Seq<char>>::empty(),
        };
        let ghost m7: Seq<Seq<char>> = match &self.page {
            Some(p) => seq![spec_field("page"@, dec_rep(*p as nat))],
            None => Seq::<Seq<char>>::empty(),
        };
        if let Some(d) = &self.direction {
            let val = json_quoted(d.to_wire());
            push_seg(segs, field_string("direction", val.as_str()));
        }
        proof {
            assert(segs.deep_view() =~= base + m5);
        }
        if let Some(p) = &self.per_page {
            let val = u64_string(*p as u64);
            push_seg(segs, field_string("per_page", val.as_str()));
        }
        proof {
            assert(segs.deep_view() =~= base + m5 + m6);
        }
        if let Some(p) = &self.page {
            let val = u64_string(*p as u64);
            push_seg(segs, field_string("page", val.as_str()));
        }
        proof {
            assert(segs.deep_view() =~= base + m5 + m6 + m7);
            assert(base + list_pulls_segments_tail(*self) =~= base + m5 + m6 + m7);
        }
    }

    /// Serializes the query: a JSON object holding exactly the set fields,
    /// in declaration order, in canonical wire form.
    pub fn query_string(&self) -> (r: String)
        ensures
            r@ == list_pulls_query(*self),
    {
        let mut segs: Vec<String> = Vec::new();
        proof {
            assert(segs.deep_view() =~= Seq::<Seq<char>>::empty());
        }
        self.push_head_segments(&mut segs);
        self.push_tail_segments(&mut segs);
        proof {
            assert(segs.deep_view() =~= list_pulls_segments(*self));
        }
        object_text(&segs)
    }

    /// Turns the configured builder into the parts the transport needs,
    /// consuming it. A malformed base/route combination fails here,
    /// before any transport is involved.
    pub fn into_request(self) -> (r: Result<RequestParts, Error>)
        ensures
            r is Ok <==> resolved_url(
                self.handler.crab.base_url@,
                pulls_route(self.handler.owner@, self.handler.repo@),
            ) is Some,
            r matches Ok(p) ==> p.method == HttpMethod::Get && (resolved_url(
                self.handler.crab.base_url@,
                pulls_route(self.handler.owner@, self.handler.repo@),
            ) matches Some(v) && p.url@ == v) && (p.body matches Some(q) && q@
                == list_pulls_query(self)),
            r matches Err(e) ==> e is Url,
    {
        let query = self.query_string();
        let route = self.handler.route();
        match self.handler.crab.absolute_url(route.as_str()) {
            Ok(url) => Ok(RequestParts { method: HttpMethod::Get, url, body: Some(query) }),
            Err(e) => Err(e),
        }
    }
}

} // verus!
