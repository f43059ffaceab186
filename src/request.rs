//! The read-only view of one incoming request that routes and guards share.
use vstd::prelude::*;
use crate::incoming::IncomingRoute;
use crate::query::{query_pairs, QueryParameters};
use crate::response::Body;
use crate::text::fragments;

verus! {

/// An incoming request as the router reads it: its route, its query
/// parameters, its declared `Content-Type` and its body.
pub struct RequestView {
    route: IncomingRoute,
    query: QueryParameters,
    content_type: Option<Vec<u8>>,
    body: Body,
}

impl RequestView {
    /// The view of a request with the given method, URI path, query string
    /// (the text after `?`, if any), `Content-Type` value and body.
    pub fn new(method: &str, path: &str, query: Option<&str>, content_type: Option<Vec<u8>>, body: Body) -> (r: Self)
        ensures
            r.route_spec().method@ == method@,
            r.route_spec().uri@ == fragments(path@, '/'),
            query matches Some(q) ==> r.query_spec()@ == query_pairs(q@),
            query is None ==> r.query_spec()@ == Seq::<(Seq<char>, Seq<char>)>::empty(),
            r.content_type_spec() == content_type,
            r.body_spec() == body,
    {
        let parsed = match query {
            Some(q) => QueryParameters::parse(q),
            None => QueryParameters::empty(),
        };
        RequestView { route: IncomingRoute::new(method, path), query: parsed, content_type, body }
    }

    pub closed spec fn route_spec(&self) -> IncomingRoute {
        self.route
    }

    pub closed spec fn query_spec(&self) -> QueryParameters {
        self.query
    }

    pub closed spec fn content_type_spec(&self) -> Option<Vec<u8>> {
        self.content_type
    }

    pub closed spec fn body_spec(&self) -> Body {
        self.body
    }

    /// The method and path segments of the request.
    pub fn incoming_route(&self) -> (r: &IncomingRoute)
        ensures
            *r == self.route_spec(),
    {
        &self.route
    }

    /// The query parameters of the request.
    pub fn parameters(&self) -> (r: &QueryParameters)
        ensures
            *r == self.query_spec(),
    {
        &self.query
    }

    /// The declared `Content-Type`, as raw bytes.
    pub fn content_type(&self) -> (r: Option<&[u8]>)
        ensures
            self.content_type_spec() is None ==> r is None,
            self.content_type_spec() matches Some(v) ==> r is Some && r->0@ == v@,
    {
        match &self.content_type {
            Some(v) => Some(v.as_slice()),
            None => None,
        }
    }

    /// The body of the request.
    pub fn body(&self) -> (r: &Body)
        ensures
            *r == self.body_spec(),
    {
        &self.body
    }
}

} // verus!
