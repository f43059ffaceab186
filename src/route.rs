//! Routes: a method paired with a template, matched against incoming routes.
use vstd::prelude::*;
use crate::bindings::{lookup, ParameterBindings};
use crate::error::RouteError;
use crate::http_syntax::{is_method_token, method_token, uri_path_of};
use crate::incoming::IncomingRoute;
use crate::route_uri::{
    has_parameter, has_unnamed_parameter, template_matches, template_segments, RouteSegment,
    RouteUri, SegmentView,
};

verus! {

/// A declared route: a method token and a template.
#[derive(Debug, Clone)]
pub struct Route {
    uri: RouteUri,
    method: String,
}

/// What a route is, as plain values.
pub struct RouteView {
    pub method: Seq<char>,
    pub template: Seq<SegmentView>,
}

impl View for Route {
    type V = RouteView;

    closed spec fn view(&self) -> RouteView {
        RouteView { method: self.method@, template: self.uri@ }
    }
}

/// A method and a template that declare a route: the template is a URI
/// whose path has no unnamed placeholder, and the method is a token.
pub open spec fn declaration_accepted(method: Seq<char>, uri: Seq<char>) -> bool {
    &&& uri_path_of(uri) is Some
    &&& !has_unnamed_parameter(uri_path_of(uri)->0)
    &&& is_method_token(method)
}

/// The error that refuses a declaration: the template is read first, then
/// the method.
pub open spec fn declaration_error(method: Seq<char>, uri: Seq<char>, e: RouteError) -> bool {
    match uri_path_of(uri) {
        None => e is InvalidRoute && e->route@ == uri,
        Some(path) => if has_unnamed_parameter(path) {
            e is InvalidSegmentParameter && e->segment@ == seq![':']
        } else {
            e is InvalidMethod
        },
    }
}

/// A route matches an incoming route of the same method whose path its
/// template matches.
pub open spec fn route_matches(r: RouteView, incoming_method: Seq<char>, incoming: Seq<Seq<char>>) -> bool {
    r.method == incoming_method && template_matches(r.template, incoming)
}

/// The bindings that a template makes of an incoming path: each placeholder,
/// in order, bound to the segment at its position, where the path has one.
pub open spec fn bindings_of(t: Seq<SegmentView>, p: Seq<Seq<char>>) -> Seq<(Seq<char>, Seq<char>)>
    decreases t.len(),
{
    if t.len() == 0 {
        Seq::empty()
    } else {
        let prev = bindings_of(t.drop_last(), p);
        let i = t.len() - 1;
        match t.last() {
            SegmentView::Dynamic(name) => if i < p.len() {
                prev.push((name, p[i]))
            } else {
                prev
            },
            SegmentView::Constant(_) => prev,
        }
    }
}

impl Route {
    /// Checks a method and a template as `new` would, without keeping the route.
    pub fn validate(method: &str, uri: &str) -> (r: Result<(), RouteError>)
        ensures
            r is Ok <==> declaration_accepted(method@, uri@),
            r matches Err(e) ==> declaration_error(method@, uri@, e),
    {
        match Route::new(method, uri) {
            Ok(_) => Ok(()),
            Err(e) => Err(e),
        }
    }

    /// A route from a method token and a template.
    pub fn new(method: &str, uri: &str) -> (r: Result<Route, RouteError>)
        ensures
            r is Ok <==> declaration_accepted(method@, uri@),
            r matches Ok(route) ==> route@.method == method@ && route@.template
                == template_segments(uri_path_of(uri@)->0),
            r matches Err(e) ==> declaration_error(method@, uri@, e),
    {
        let template = RouteUri::parse(uri);
        match template {
            Err(e) => Err(e),
            Ok(t) => match method_token(method) {
                Some(m) => Ok(Route { uri: t, method: m }),
                None => Err(RouteError::InvalidMethod),
            },
        }
    }

    /// The method token of the route.
    pub fn method(&self) -> (r: &String)
        ensures
            r@ == self@.method,
    {
        &self.method
    }

    /// The template of the route.
    pub fn uri(&self) -> (r: &RouteUri)
        ensures
            r@ == self@.template,
    {
        &self.uri
    }

    /// Whether the route matches an incoming route: same method, and a
    /// template that matches the path.
    pub fn matches(&self, incoming: &IncomingRoute) -> (r: bool)
        ensures
            r == route_matches(self@, incoming.method@, incoming.uri@),
    {
        if self.method.eq(&incoming.method) {
            if self.uri.matches(&incoming.uri) {
                return true;
            }
        }
        false
    }

    /// Binds each placeholder of the template to the incoming segment at its
    /// position; positions past the end of the path bind nothing.
    pub fn mapped_param_value(&self, incoming: &IncomingRoute) -> (r: ParameterBindings)
        ensures
            r@ == bindings_of(self@.template, incoming.uri@),
    {
        let mut ret = ParameterBindings::new();
        let segments = self.uri.segments();
        let ghost t = self@.template;
        let mut i: usize = 0;
        assert(t.subrange(0, 0) =~= Seq::<SegmentView>::empty());
        while i < segments.len()
            invariant
                t == self@.template,
                segments@.map_values(|s: RouteSegment| s@) == t,
                i <= segments@.len(),
                ret@ == bindings_of(t.subrange(0, i as int), incoming.uri@),
            decreases segments@.len() - i,
        {
            let ghost pre = t.subrange(0, i + 1);
            assert(pre.drop_last() =~= t.subrange(0, i as int));
            assert(pre.last() == segments@[i as int]@);
            match &segments[i] {
                RouteSegment::Dynamic { parameter } => {
                    match incoming.get(i) {
                        Some(value) => {
                            ret.insert(parameter.clone(), value.clone());
                        },
                        None => {},
                    }
                },
                RouteSegment::Constant(..) => {},
            }
            i = i + 1;
        }
        assert(t.subrange(0, t.len() as int) =~= t);
        ret
    }
}

} // verus!

verus! {

proof fn lemma_bindings_step(t: Seq<SegmentView>, p: Seq<Seq<char>>, name: Seq<char>)
    requires
        0 < t.len() <= p.len(),
    ensures
        lookup(bindings_of(t, p), name) == (if t.last() == SegmentView::Dynamic(name) {
            Some(p[t.len() - 1])
        } else {
            lookup(bindings_of(t.drop_last(), p), name)
        }),
{
    let prev = bindings_of(t.drop_last(), p);
    if let SegmentView::Dynamic(m) = t.last() {
        let b = prev.push((m, p[t.len() - 1]));
        assert(bindings_of(t, p) == b);
        assert(b.drop_last() =~= prev);
    }
}

proof fn lemma_bindings_lookup(t: Seq<SegmentView>, p: Seq<Seq<char>>)
    requires
        t.len() <= p.len(),
    ensures
        forall|name: Seq<char>|
            (#[trigger] lookup(bindings_of(t, p), name) is Some) <==> has_parameter(t, name),
        forall|i: int|
            0 <= i < t.len() && #[trigger] t[i] is Dynamic && (forall|j: int|
                i < j < t.len() ==> t[j] != t[i]) ==> lookup(bindings_of(t, p), t[i]->Dynamic_0)
                == Some(p[i]),
    decreases t.len(),
{
    if t.len() > 0 {
        let u = t.drop_last();
        let k = t.len() - 1;
        lemma_bindings_lookup(u, p);
        assert forall|name: Seq<char>|
            (#[trigger] lookup(bindings_of(t, p), name) is Some) <==> has_parameter(t, name) by {
            lemma_bindings_step(t, p, name);
            if has_parameter(u, name) {
                let w = choose|w: int| 0 <= w < u.len() && u[w] == SegmentView::Dynamic(name);
                assert(t[w] == u[w]);
            }
            if has_parameter(t, name) {
                let w = choose|w: int| 0 <= w < t.len() && t[w] == SegmentView::Dynamic(name);
                if w < k {
                    assert(u[w] == t[w]);
                }
            }
        }
        assert forall|i: int|
            0 <= i < t.len() && #[trigger] t[i] is Dynamic && (forall|j: int|
                i < j < t.len() ==> t[j] != t[i]) implies lookup(bindings_of(t, p), t[i]->Dynamic_0)
            == Some(p[i]) by {
            lemma_bindings_step(t, p, t[i]->Dynamic_0);
            if i < k {
                assert(u[i] == t[i]);
                assert forall|j: int| i < j < u.len() implies u[j] != u[i] by {
                    assert(u[j] == t[j]);
                }
                assert(t[k] != t[i]);
            }
        }
    }
}

/// For a route that matches an incoming route, every placeholder name is
/// bound, and nothing else; a placeholder whose name no later segment reuses
/// is bound to the literal text of the incoming segment at its position.
pub proof fn lemma_bindings_cover_placeholders(route: Route, incoming: IncomingRoute)
    requires
        route_matches(route@, incoming.method@, incoming.uri@),
    ensures
        forall|name: Seq<char>|
            (#[trigger] lookup(bindings_of(route@.template, incoming.uri@), name) is Some)
                <==> has_parameter(route@.template, name),
        forall|i: int|
            0 <= i < route@.template.len() && #[trigger] route@.template[i] is Dynamic && (forall|
                j: int,
            |
                i < j < route@.template.len() ==> route@.template[j] != route@.template[i])
                ==> lookup(bindings_of(route@.template, incoming.uri@), route@.template[i]->Dynamic_0)
                == Some(incoming.uri@[i]),
{
    lemma_bindings_lookup(route@.template, incoming.uri@);
}

/// Matching and binding depend on nothing but the values of the route and of
/// the incoming route, so evaluating them again on equal inputs gives equal
/// results.
pub proof fn lemma_matching_is_pure(a: Route, b: Route, x: IncomingRoute, y: IncomingRoute)
    requires
        a@ == b@,
        x.method@ == y.method@,
        x.uri@ == y.uri@,
    ensures
        route_matches(a@, x.method@, x.uri@) == route_matches(b@, y.method@, y.uri@),
        bindings_of(a@.template, x.uri@) == bindings_of(b@.template, y.uri@),
{
}

} // verus!
