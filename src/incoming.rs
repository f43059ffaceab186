//! The route of an incoming request: its method and its path segments.
use vstd::prelude::*;
use crate::http_syntax::{uri_path, uri_path_of};
use crate::text::{fragments, split_nonempty, views};

verus! {

/// The non-empty segments of an incoming path.
#[derive(Debug)]
pub struct IncomingRouteUri {
    pub segments: Vec<String>,
}

/// The method and path segments of an incoming request.
#[derive(Debug)]
pub struct IncomingRoute {
    pub method: String,
    pub uri: IncomingRouteUri,
}

impl View for IncomingRouteUri {
    type V = Seq<Seq<char>>;

    open spec fn view(&self) -> Seq<Seq<char>> {
        views(self.segments@)
    }
}

impl IncomingRouteUri {
    /// The segments of a path: its non-empty fragments between slashes.
    pub fn from_path(path: &str) -> (r: Self)
        ensures
            r@ == fragments(path@, '/'),
    {
        IncomingRouteUri { segments: split_nonempty(path, '/') }
    }

    /// The segments of the path of a URI, or `None` where `uri` is no URI.
    pub fn parse(uri: &str) -> (r: Option<Self>)
        ensures
            uri_path_of(uri@) is None ==> r is None,
            uri_path_of(uri@) matches Some(p) ==> r is Some && r->0@ == fragments(p, '/'),
    {
        match uri_path(uri) {
            Some(p) => Some(Self::from_path(p.as_str())),
            None => None,
        }
    }
}

impl IncomingRoute {
    /// An incoming route from a method and a path.
    pub fn new(method: &str, path: &str) -> (r: Self)
        ensures
            r.method@ == method@,
            r.uri@ == fragments(path@, '/'),
    {
        IncomingRoute { method: method.to_owned(), uri: IncomingRouteUri::from_path(path) }
    }

    /// The segment at `index`, if the path has one there.
    pub fn get(&self, index: usize) -> (r: Option<&String>)
        ensures
            index < self.uri@.len() ==> r is Some && r->0@ == self.uri@[index as int],
            index >= self.uri@.len() ==> r is None,
    {
        if index < self.uri.segments.len() {
            Some(&self.uri.segments[index])
        } else {
            None
        }
    }
}

} // verus!
