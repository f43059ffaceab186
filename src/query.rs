//! Query-string parameters of an incoming request.
use vstd::prelude::*;
use crate::text::{drop_through, fragments, split_nonempty, split_once_at, take_until, views};

verus! {

/// A `key=value` piece as a pair; a piece without `=` is a key bound to the
/// empty text.
pub open spec fn query_pair(f: Seq<char>) -> (Seq<char>, Seq<char>) {
    (take_until(f, '='), drop_through(f, '='))
}

/// The pairs of a query string: its non-empty `&`-separated pieces before
/// any `#`, in order.
pub open spec fn query_pairs(q: Seq<char>) -> Seq<(Seq<char>, Seq<char>)> {
    fragments(take_until(q, '#'), '&').map_values(|f: Seq<char>| query_pair(f))
}

/// The value of the first pair whose key is `key`.
pub open spec fn first_value(s: Seq<(Seq<char>, Seq<char>)>, key: Seq<char>) -> Option<Seq<char>>
    decreases s.len(),
{
    if s.len() == 0 {
        None
    } else if s[0].0 == key {
        Some(s[0].1)
    } else {
        first_value(s.drop_first(), key)
    }
}

/// The parameters of a query string, in the order they were written.
#[derive(Debug)]
pub struct QueryParameters {
    pairs: Vec<(String, String)>,
}

impl View for QueryParameters {
    type V = Seq<(Seq<char>, Seq<char>)>;

    closed spec fn view(&self) -> Seq<(Seq<char>, Seq<char>)> {
        self.pairs@.map_values(|e: (String, String)| (e.0@, e.1@))
    }
}

impl QueryParameters {
    /// No parameters.
    pub fn empty() -> (r: Self)
        ensures
            r@ == Seq::<(Seq<char>, Seq<char>)>::empty(),
    {
        let r = QueryParameters { pairs: Vec::new() };
        assert(r@ =~= Seq::<(Seq<char>, Seq<char>)>::empty());
        r
    }

    /// Reads a query string (the text after `?`); a `#` ends it.
    pub fn parse(query: &str) -> (r: Self)
        ensures
            r@ == query_pairs(query@),
    {
        let (head, _) = split_once_at(query, '#');
        let pieces = split_nonempty(head.as_str(), '&');
        let ghost fs = fragments(take_until(query@, '#'), '&');
        let mut pairs: Vec<(String, String)> = Vec::new();
        let mut i: usize = 0;
        while i < pieces.len()
            invariant
                views(pieces@) == fs,
                fs == fragments(take_until(query@, '#'), '&'),
                i <= pieces@.len(),
                pairs@.len() == i,
                forall|j: int|
                    0 <= j < i ==> (#[trigger] pairs@[j].0@, pairs@[j].1@) == query_pair(fs[j]),
            decreases pieces@.len() - i,
        {
            assert(views(pieces@)[i as int] == pieces@[i as int]@);
            let pair = split_once_at(pieces[i].as_str(), '=');
            pairs.push(pair);
            i = i + 1;
        }
        let r = QueryParameters { pairs };
        assert(r@ =~= query_pairs(query@));
        r
    }

    /// The value of the first parameter named `key`, if any.
    pub fn get(&self, key: &str) -> (r: Option<&String>)
        ensures
            r is None <==> first_value(self@, key@) is None,
            r matches Some(v) ==> first_value(self@, key@) == Some(v@),
    {
        let wanted = key.to_owned();
        let mut i: usize = 0;
        assert(self@.subrange(0, self@.len() as int) =~= self@);
        while i < self.pairs.len()
            invariant
                wanted@ == key@,
                i <= self.pairs@.len(),
                self@.len() == self.pairs@.len(),
                first_value(self@, key@) == first_value(self@.subrange(i as int, self@.len() as int), key@),
            decreases self.pairs@.len() - i,
        {
            let ghost rest = self@.subrange(i as int, self@.len() as int);
            assert(rest[0] == self@[i as int]);
            assert(rest.drop_first() =~= self@.subrange(i + 1, self@.len() as int));
            assert(self@[i as int] == (self.pairs@[i as int].0@, self.pairs@[i as int].1@));
            if self.pairs[i].0.eq(&wanted) {
                return Some(&self.pairs[i].1);
            }
            i = i + 1;
        }
        None
    }

    /// The number of parameters, repeated keys included.
    pub fn len(&self) -> (r: usize)
        ensures
            r == self@.len(),
    {
        self.pairs.len()
    }
}

} // verus!
