//! Route templates: parsing, structural matching and parameter lookup.
use vstd::prelude::*;
use crate::error::RouteError;
use crate::http_syntax::{uri_path, uri_path_of};
use crate::incoming::IncomingRouteUri;
use crate::text::{fragments, split_nonempty, views};

verus! {

/// One segment of a route template: literal text, or a named placeholder.
#[derive(Debug, PartialEq, Clone)]
pub enum RouteSegment {
    Constant(String),
    Dynamic { parameter: String },
}

/// What a segment is, as plain text.
pub enum SegmentView {
    Constant(Seq<char>),
    Dynamic(Seq<char>),
}

impl View for RouteSegment {
    type V = SegmentView;

    open spec fn view(&self) -> SegmentView {
        match self {
            RouteSegment::Constant(c) => SegmentView::Constant(c@),
            RouteSegment::Dynamic { parameter } => SegmentView::Dynamic(parameter@),
        }
    }
}

/// A parsed route template; no segments is the root route `/`.
#[derive(Debug, Clone)]
pub struct RouteUri {
    segments: Vec<RouteSegment>,
}

impl View for RouteUri {
    type V = Seq<SegmentView>;

    closed spec fn view(&self) -> Seq<SegmentView> {
        self.segments@.map_values(|s: RouteSegment| s@)
    }
}

/// A fragment that starts with `:` is a placeholder named by the rest; any
/// other fragment is literal.
pub open spec fn classify(f: Seq<char>) -> SegmentView {
    if f.len() > 0 && f[0] == ':' {
        SegmentView::Dynamic(f.drop_first())
    } else {
        SegmentView::Constant(f)
    }
}

/// The placeholder without a name.
pub open spec fn bare_colon() -> Seq<char> {
    seq![':']
}

/// Some fragment of `path` is a placeholder without a name.
pub open spec fn has_unnamed_parameter(path: Seq<char>) -> bool {
    exists|j: int|
        0 <= j < fragments(path, '/').len() && #[trigger] fragments(path, '/')[j] == bare_colon()
}

/// The segments of the template whose path is `path`.
pub open spec fn template_segments(path: Seq<char>) -> Seq<SegmentView> {
    fragments(path, '/').map_values(|f: Seq<char>| classify(f))
}

/// A template segment accepts an incoming segment: a literal one only its own
/// text, a placeholder any.
pub open spec fn segment_accepts(t: SegmentView, p: Seq<char>) -> bool {
    match t {
        SegmentView::Constant(c) => c == p,
        SegmentView::Dynamic(_) => true,
    }
}

/// A template matches a path of as many segments, each accepted by the
/// template's segment at the same position.
pub open spec fn template_matches(t: Seq<SegmentView>, p: Seq<Seq<char>>) -> bool {
    t.len() == p.len() && forall|i: int| 0 <= i < t.len() ==> segment_accepts(t[i], #[trigger] p[i])
}

/// The template has a placeholder named `name`.
pub open spec fn has_parameter(t: Seq<SegmentView>, name: Seq<char>) -> bool {
    exists|i: int| 0 <= i < t.len() && t[i] == SegmentView::Dynamic(name)
}

/// The outcome of parsing a template whose URI path is `path`: the error
/// names the offending segment.
pub open spec fn parse_path_ok(path: Seq<char>, r: Result<RouteUri, RouteError>) -> bool {
    if has_unnamed_parameter(path) {
        r is Err && r->Err_0 is InvalidSegmentParameter && r->Err_0->segment@ == bare_colon()
    } else {
        r is Ok && r->Ok_0@ == template_segments(path)
    }
}

/// The outcome of parsing the template `route`.
pub open spec fn parse_ok(route: Seq<char>, r: Result<RouteUri, RouteError>) -> bool {
    match uri_path_of(route) {
        None => r is Err && r->Err_0 is InvalidRoute && r->Err_0->route@ == route,
        Some(path) => parse_path_ok(path, r),
    }
}

impl RouteSegment {
    /// Reads one non-empty fragment of a template: `:name` is a placeholder,
    /// `:` alone is refused, anything else is literal.
    pub fn parse(segment: &str) -> (r: Result<RouteSegment, RouteError>)
        ensures
            segment@ == bare_colon() ==> r is Err && r->Err_0 is InvalidSegmentParameter
                && r->Err_0->segment@ == segment@,
            segment@ != bare_colon() ==> r is Ok && r->Ok_0@ == classify(segment@),
    {
        let n = segment.unicode_len();
        if n > 0 && segment.get_char(0) == ':' {
            if n == 1 {
                assert(segment@ == bare_colon());
                Err(RouteError::InvalidSegmentParameter { segment: segment.to_owned() })
            } else {
                let name = segment.substring_char(1, n).to_owned();
                assert(name@ == segment@.drop_first());
                Ok(RouteSegment::Dynamic { parameter: name })
            }
        } else {
            Ok(RouteSegment::Constant(segment.to_owned()))
        }
    }
}

impl std::str::FromStr for RouteSegment {
    type Err = RouteError;

    fn from_str(segment: &str) -> Result<RouteSegment, RouteError> {
        RouteSegment::parse(segment)
    }
}

impl RouteUri {
    /// Parses the path of a template: its non-empty fragments between slashes,
    /// each a literal or a `:name` placeholder; `:` alone is refused.
    pub fn from_path(path: &str) -> (r: Result<RouteUri, RouteError>)
        ensures
            parse_path_ok(path@, r),
    {
        let frags = split_nonempty(path, '/');
        let ghost fs = fragments(path@, '/');
        let mut segments: Vec<RouteSegment> = Vec::new();
        let mut i: usize = 0;
        while i < frags.len()
            invariant
                views(frags@) == fs,
                fs == fragments(path@, '/'),
                i <= frags.len(),
                segments@.len() == i,
                forall|j: int| 0 <= j < i ==> #[trigger] segments@[j]@ == classify(fs[j]),
                forall|j: int| 0 <= j < i ==> #[trigger] fs[j] != bare_colon(),
            decreases frags.len() - i,
        {
            assert(views(frags@).len() == frags@.len());
            assert(views(frags@)[i as int] == frags@[i as int]@);
            let s = match RouteSegment::parse(frags[i].as_str()) {
                Ok(s) => s,
                Err(e) => {
                    assert(fragments(path@, '/')[i as int] == bare_colon());
                    return Err(e);
                },
            };
            segments.push(s);
            i = i + 1;
        }
        let r = RouteUri { segments };
        assert(r@ =~= template_segments(path@));
        Ok(r)
    }

    /// Parses a route template: a URI whose path is read by `from_path`.
    pub fn parse(route: &str) -> (r: Result<RouteUri, RouteError>)
        ensures
            parse_ok(route@, r),
            route@.len() == 0 ==> r is Err && r->Err_0 is InvalidRoute,
    {
        match uri_path(route) {
            Some(path) => Self::from_path(path.as_str()),
            None => Err(RouteError::invalid_uri(route)),
        }
    }

    /// Whether the template matches the segments of an incoming path.
    pub fn matches(&self, incoming: &IncomingRouteUri) -> (r: bool)
        ensures
            r == template_matches(self@, incoming@),
    {
        if self.segments.len() != incoming.segments.len() {
            return false;
        }
        let mut i: usize = 0;
        while i < self.segments.len()
            invariant
                self.segments@.len() == incoming.segments@.len(),
                i <= self.segments@.len(),
                forall|j: int| 0 <= j < i ==> segment_accepts(self@[j], #[trigger] incoming@[j]),
            decreases self.segments@.len() - i,
        {
            assert(self@[i as int] == self.segments@[i as int]@);
            assert(incoming@[i as int] == incoming.segments@[i as int]@);
            match &self.segments[i] {
                RouteSegment::Constant(segment) => {
                    if !segment.eq(&incoming.segments[i]) {
                        return false;
                    }
                },
                RouteSegment::Dynamic { .. } => {},
            }
            i = i + 1;
        }
        true
    }

    /// The segments of the template, in order.
    pub fn segments(&self) -> (r: &Vec<RouteSegment>)
        ensures
            r@.map_values(|s: RouteSegment| s@) == self@,
    {
        &self.segments
    }

    /// Whether the template has a placeholder named `param`.
    pub fn contains_parameter(&self, param: &str) -> (r: bool)
        ensures
            r == has_parameter(self@, param@),
    {
        let wanted = param.to_owned();
        let mut i: usize = 0;
        while i < self.segments.len()
            invariant
                wanted@ == param@,
                i <= self.segments@.len(),
                forall|j: int| 0 <= j < i ==> self@[j] != SegmentView::Dynamic(param@),
            decreases self.segments@.len() - i,
        {
            assert(self@[i as int] == self.segments@[i as int]@);
            if let RouteSegment::Dynamic { parameter } = &self.segments[i] {
                if parameter.eq(&wanted) {
                    assert(self@[i as int] == SegmentView::Dynamic(param@));
                    return true;
                }
            }
            i = i + 1;
        }
        false
    }
}

/// For a template and a path with as many segments, the template matches
/// exactly when every literal segment equals the path segment at its position;
/// what the path holds where the template has a placeholder never changes
/// the answer.
pub proof fn lemma_match_decided_by_literals(t: RouteUri, p: IncomingRouteUri)
    requires
        t@.len() == p@.len(),
    ensures
        template_matches(t@, p@) <==> forall|i: int|
            0 <= i < t@.len() && #[trigger] t@[i] is Constant ==> t@[i]->Constant_0 == p@[i],
        forall|i: int, q: Seq<char>|
            0 <= i < t@.len() && #[trigger] t@[i] is Dynamic ==> template_matches(
                t@,
                #[trigger] p@.update(i, q),
            ) == template_matches(t@, p@),
{
    assert forall|i: int, q: Seq<char>|
        0 <= i < t@.len() && #[trigger] t@[i] is Dynamic implies template_matches(
            t@,
            #[trigger] p@.update(i, q),
        ) == template_matches(t@, p@) by {
        let u = p@.update(i, q);
        assert forall|j: int| 0 <= j < t@.len() implies segment_accepts(t@[j], #[trigger] u[j])
            == segment_accepts(t@[j], p@[j]) by {
            if j == i {
            } else {
                assert(u[j] == p@[j]);
            }
        }
        if template_matches(t@, u) {
            assert forall|j: int| 0 <= j < t@.len() implies segment_accepts(t@[j], #[trigger] p@[j]) by {
                assert(segment_accepts(t@[j], u[j]));
            }
        }
        if template_matches(t@, p@) {
            assert forall|j: int| 0 <= j < t@.len() implies segment_accepts(t@[j], #[trigger] u[j]) by {
                assert(segment_accepts(t@[j], p@[j]));
            }
        }
    }
}

/// A template never matches a path with another number of segments: there
/// is no prefix or wildcard matching.
pub proof fn lemma_no_match_across_lengths(t: RouteUri, p: IncomingRouteUri)
    requires
        t@.len() != p@.len(),
    ensures
        !template_matches(t@, p@),
{
}

impl std::str::FromStr for RouteUri {
    type Err = RouteError;

    fn from_str(route: &str) -> Result<RouteUri, RouteError> {
        RouteUri::parse(route)
    }
}

} // verus!
