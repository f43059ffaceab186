//! Splitting of slash-separated paths into their non-empty fragments.
use vstd::prelude::*;

verus! {

/// The fragment under construction, closed if it is non-empty.
pub open spec fn close_fragment(cur: Seq<char>) -> Seq<Seq<char>> {
    if cur.len() == 0 {
        Seq::empty()
    } else {
        seq![cur]
    }
}

/// The non-empty fragments of `s` between the separators `sep`, in order,
/// where `cur` is the text of a fragment already begun before `s`.
pub open spec fn fragments_from(s: Seq<char>, sep: char, cur: Seq<char>) -> Seq<Seq<char>>
    decreases s.len(),
{
    if s.len() == 0 {
        close_fragment(cur)
    } else if s[0] == sep {
        close_fragment(cur) + fragments_from(s.drop_first(), sep, Seq::empty())
    } else {
        fragments_from(s.drop_first(), sep, cur.push(s[0]))
    }
}

/// The non-empty fragments of `s` between separators `sep`: consecutive
/// separators, and separators at either end, give no fragment.
pub open spec fn fragments(s: Seq<char>, sep: char) -> Seq<Seq<char>> {
    fragments_from(s, sep, Seq::empty())
}

/// The views of a vector of strings.
pub open spec fn views(v: Seq<String>) -> Seq<Seq<char>> {
    v.map_values(|x: String| x@)
}

/// Splits `s` at every `sep` and keeps the non-empty fragments, in order.
pub fn split_nonempty(s: &str, sep: char) -> (r: Vec<String>)
    ensures
        views(r@) == fragments(s@, sep),
{
    let n = s.unicode_len();
    let mut out: Vec<String> = Vec::new();
    let mut start: usize = 0;
    let mut i: usize = 0;
    assert(s@.subrange(0, n as int) == s@);
    assert(s@.subrange(0, 0) == Seq::<char>::empty());
    assert(views(out@) == Seq::<Seq<char>>::empty());
    while i < n
        invariant
            n == s@.len(),
            start <= i <= n,
            views(out@) + fragments_from(s@.subrange(i as int, n as int), sep, s@.subrange(start as int, i as int))
                == fragments(s@, sep),
        decreases n - i,
    {
        let c = s.get_char(i);
        let ghost rest = s@.subrange(i as int, n as int);
        let ghost cur = s@.subrange(start as int, i as int);
        assert(rest.drop_first() == s@.subrange(i + 1, n as int));
        assert(rest[0] == c);
        if c == sep {
            let ghost before = views(out@);
            if start < i {
                let piece = s.substring_char(start, i).to_owned();
                out.push(piece);
                assert(views(out@) == before + close_fragment(cur));
            } else {
                assert(views(out@) == before + close_fragment(cur));
            }
            assert(views(out@) + fragments_from(s@.subrange(i + 1, n as int), sep, Seq::empty())
                == before + (close_fragment(cur) + fragments_from(rest.drop_first(), sep, Seq::empty())));
            start = i + 1;
            assert(s@.subrange(start as int, i + 1) == Seq::<char>::empty());
        } else {
            assert(cur.push(c) == s@.subrange(start as int, i + 1));
        }
        i = i + 1;
    }
    let ghost cur = s@.subrange(start as int, n as int);
    assert(s@.subrange(n as int, n as int) == Seq::<char>::empty());
    let ghost before = views(out@);
    if start < n {
        let piece = s.substring_char(start, n).to_owned();
        out.push(piece);
        assert(views(out@) == before + close_fragment(cur));
    } else {
        assert(views(out@) == before + close_fragment(cur));
    }
    out
}

/// The text of `s` before the first `c`, or all of it where there is none.
pub open spec fn take_until(s: Seq<char>, c: char) -> Seq<char>
    decreases s.len(),
{
    if s.len() == 0 {
        s
    } else if s[0] == c {
        Seq::empty()
    } else {
        seq![s[0]] + take_until(s.drop_first(), c)
    }
}

/// The text of `s` after the first `c`, or nothing where there is none.
pub open spec fn drop_through(s: Seq<char>, c: char) -> Seq<char>
    decreases s.len(),
{
    if s.len() == 0 {
        s
    } else if s[0] == c {
        s.drop_first()
    } else {
        drop_through(s.drop_first(), c)
    }
}

proof fn lemma_first_occurrence(s: Seq<char>, c: char, k: int)
    requires
        0 <= k <= s.len(),
        forall|j: int| 0 <= j < k ==> s[j] != c,
        k < s.len() ==> s[k] == c,
    ensures
        take_until(s, c) == s.subrange(0, k),
        drop_through(s, c) == (if k < s.len() { s.subrange(k + 1, s.len() as int) } else { Seq::empty() }),
    decreases s.len(),
{
    if s.len() > 0 && k > 0 {
        let t = s.drop_first();
        assert forall|j: int| 0 <= j < k - 1 implies t[j] != c by {
            assert(t[j] == s[j + 1]);
        }
        lemma_first_occurrence(t, c, k - 1);
        assert(s.subrange(0, k) =~= seq![s[0]] + t.subrange(0, k - 1));
        if k < s.len() {
            assert(t.subrange(k, t.len() as int) =~= s.subrange(k + 1, s.len() as int));
        }
    } else if s.len() > 0 {
        assert(s.subrange(0, 0) =~= Seq::<char>::empty());
        assert(s.drop_first() =~= s.subrange(1, s.len() as int));
    } else {
        assert(s.subrange(0, 0) =~= s);
    }
}

/// Splits `s` at its first `c`: the text before it, and the text after it
/// (empty where `s` holds no `c`).
pub fn split_once_at(s: &str, c: char) -> (r: (String, String))
    ensures
        r.0@ == take_until(s@, c),
        r.1@ == drop_through(s@, c),
{
    let n = s.unicode_len();
    let mut k: usize = 0;
    while k < n
        invariant
            n == s@.len(),
            k <= n,
            forall|j: int| 0 <= j < k ==> s@[j] != c,
        ensures
            k <= n,
            forall|j: int| 0 <= j < k ==> s@[j] != c,
            k < n ==> s@[k as int] == c,
        decreases n - k,
    {
        if s.get_char(k) == c {
            break;
        }
        k = k + 1;
    }
    proof {
        lemma_first_occurrence(s@, c, k as int);
    }
    let before = s.substring_char(0, k).to_owned();
    if k < n {
        let after = s.substring_char(k + 1, n).to_owned();
        (before, after)
    } else {
        (before, String::new())
    }
}

} // verus!
