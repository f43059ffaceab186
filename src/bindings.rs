//! Bindings of placeholder names to the text of incoming path segments.
use vstd::prelude::*;

verus! {

/// The value bound to `name` by the last pair that names it.
pub open spec fn lookup(s: Seq<(Seq<char>, Seq<char>)>, name: Seq<char>) -> Option<Seq<char>>
    decreases s.len(),
{
    if s.len() == 0 {
        None
    } else if s.last().0 == name {
        Some(s.last().1)
    } else {
        lookup(s.drop_last(), name)
    }
}

/// Names bound to values, in the order they were bound; a later binding of a
/// name hides an earlier one.
#[derive(Debug)]
pub struct ParameterBindings {
    entries: Vec<(String, String)>,
}

impl View for ParameterBindings {
    type V = Seq<(Seq<char>, Seq<char>)>;

    closed spec fn view(&self) -> Seq<(Seq<char>, Seq<char>)> {
        self.entries@.map_values(|e: (String, String)| (e.0@, e.1@))
    }
}

impl ParameterBindings {
    /// No bindings.
    pub fn new() -> (r: Self)
        ensures
            r@ == Seq::<(Seq<char>, Seq<char>)>::empty(),
    {
        let r = ParameterBindings { entries: Vec::new() };
        assert(r@ =~= Seq::<(Seq<char>, Seq<char>)>::empty());
        r
    }

    /// Binds `name` to `value`.
    pub fn insert(&mut self, name: String, value: String)
        ensures
            final(self)@ == old(self)@.push((name@, value@)),
    {
        self.entries.push((name, value));
        assert(self@ =~= old(self)@.push((name@, value@)));
    }

    /// The value bound to `name`, if any.
    pub fn get(&self, name: &str) -> (r: Option<&String>)
        ensures
            r is None <==> lookup(self@, name@) is None,
            r matches Some(v) ==> lookup(self@, name@) == Some(v@),
    {
        let wanted = name.to_owned();
        let mut i: usize = self.entries.len();
        assert(self@.len() == self.entries@.len());
        assert(self@.subrange(0, i as int) =~= self@);
        while i > 0
            invariant
                wanted@ == name@,
                i <= self.entries@.len(),
                self@.len() == self.entries@.len(),
                lookup(self@, name@) == lookup(self@.subrange(0, i as int), name@),
            decreases i,
        {
            let ghost pre = self@.subrange(0, i as int);
            assert(pre.last() == self@[i - 1]);
            assert(self@[i - 1] == (self.entries@[i - 1].0@, self.entries@[i - 1].1@));
            assert(pre.drop_last() == self@.subrange(0, i - 1));
            if self.entries[i - 1].0.eq(&wanted) {
                return Some(&self.entries[i - 1].1);
            }
            i = i - 1;
        }
        None
    }

    /// The number of bindings made.
    pub fn len(&self) -> (r: usize)
        ensures
            r == self@.len(),
    {
        self.entries.len()
    }
}

} // verus!
