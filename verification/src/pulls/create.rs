//! The builder for creating a pull request: title, head and base are
//! mandatory, the description body is optional.

use vstd::prelude::*;
use vstd::string::*;
use crate::error::Error;
use crate::pulls::{PullRequestHandler, pulls_route};
use crate::wire::{field_string, json_quoted, json_string, object_text, push_seg, spec_field, spec_object};
use crate::{HttpMethod, RequestParts, resolved_url};

verus! {

/// Accumulates the fields of one pull-request creation request.
#[derive(Clone, Debug)]
pub struct CreatePullRequestBuilder<'octo, 'b> {
    pub handler: &'b PullRequestHandler<'octo>,
    pub title: String,
    pub head: String,
    pub base: String,
    pub body: Option<String>,
}

/// The serialized members of a creation request: the three mandatory
/// fields in declaration order, then the description body if set.
pub open spec fn create_pull_segments<'octo, 'b>(b: CreatePullRequestBuilder<'octo, 'b>) -> Seq<
    Seq<char>,
> {
    seq![
        spec_field("title"@, json_string(b.title@)),
        spec_field("head"@, json_string(b.head@)),
        spec_field("base"@, json_string(b.base@)),
    ] + (match b.body {
        Some(t) => seq![spec_field("body"@, json_string(t@))],
        None => Seq::<Seq<char>>::empty(),
    })
}

/// The whole serialized creation request body.
pub open spec fn create_pull_body<'octo, 'b>(b: CreatePullRequestBuilder<'octo, 'b>) -> Seq<
    char,
> {
    spec_object(create_pull_segments(b))
}

impl<'octo, 'b> CreatePullRequestBuilder<'octo, 'b> {
    /// A builder asking to merge `head` into `base` under `title`, with
    /// no description body yet.
    pub fn new(handler: &'b PullRequestHandler<'octo>, title: String, head: String, base: String)
        -> (r: Self)
        ensures
            r.handler == handler,
            r.title == title,
            r.head == head,
            r.base == base,
            r.body is None,
    {
        Self { handler, title, head, base, body: None }
    }

    /// The description body of the new pull request.
    pub fn body(self, body: String) -> (r: Self)
        ensures
            r == (CreatePullRequestBuilder { body: Some(body), ..self }),
    {
        CreatePullRequestBuilder { body: Some(body), ..self }
    }

    /// Serializes the creation request: a JSON object holding the three
    /// mandatory fields and, if set, the description body.
    pub fn body_string(&self) -> (r: String)
        ensures
            r@ == create_pull_body(*self),
    {
        let ghost m4: Seq<Seq<char>> = match &self.body {
            Some(t) => seq![spec_field("body"@, json_string(t@))],
            None => Seq::<Seq<char>>::empty(),
        };
        let mut segs: Vec<String> = Vec::new();
        let val = json_quoted(self.title.as_str());
        push_seg(&mut segs, field_string("title", val.as_str()));
        let val = json_quoted(self.head.as_str());
        push_seg(&mut segs, field_string("head", val.as_str()));
        let val = json_quoted(self.base.as_str());
        push_seg(&mut segs, field_string("base", val.as_str()));
        let ghost head3 = segs.deep_view();
        if let Some(t) = &self.body {
            let val = json_quoted(t.as_str());
            push_seg(&mut segs, field_string("body", val.as_str()));
        }
        proof {
            assert(segs.deep_view() =~= head3 + m4);
            assert(segs.deep_view() =~= create_pull_segments(*self));
        }
        object_text(&segs)
    }

    /// Turns the configured builder into the parts the transport needs,
    /// consuming it. A malformed base/route combination fails here,
    /// before any transport is involved.
    pub fn into_request(self) -> (r: Result<RequestParts, Error>)
        ensures
            r is Ok <==> resolved_url(
                self.handler.crab.base_url@,
                pulls_route(self.handler.owner@, self.handler.repo@),
            ) is Some,
            r matches Ok(p) ==> p.method == HttpMethod::Post && (resolved_url(
                self.handler.crab.base_url@,
                pulls_route(self.handler.owner@, self.handler.repo@),
            ) matches Some(v) && p.url@ == v) && (p.body matches Some(q) && q@
                == create_pull_body(self)),
            r matches Err(e) ==> e is Url,
    {
        let body = self.body_string();
        let route = self.handler.route();
        match self.handler.crab.absolute_url(route.as_str()) {
            Ok(url) => Ok(RequestParts { method: HttpMethod::Post, url, body: Some(body) }),
            Err(e) => Err(e),
        }
    }
}

} // verus!
