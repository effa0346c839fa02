//! Character-level helpers shared by the package-spec parser and the path
//! logic: where a character first and last occurs, and the pieces of text
//! around it.

use vstd::prelude::*;
use vstd::string::StringExecFns;

verus! {

/// Position of the first `c` in `s`, or `s.len()` when `s` holds no `c`.
pub open spec fn first_pos(s: Seq<char>, c: char) -> int {
    match s.index_of_first(c) {
        Some(i) => i,
        None => s.len() as int,
    }
}

/// Position just after the last `c` in `s`, or 0 when `s` holds no `c`.
pub open spec fn after_last_pos(s: Seq<char>, c: char) -> int {
    match s.index_of_last(c) {
        Some(i) => i + 1,
        None => 0,
    }
}

/// The text of `s` before its first `c` (all of `s` when there is none).
pub open spec fn before_first(s: Seq<char>, c: char) -> Seq<char> {
    s.take(first_pos(s, c))
}

/// The text of `s` after its first `c` (empty when there is none).
pub open spec fn after_first(s: Seq<char>, c: char) -> Seq<char> {
    if first_pos(s, c) < s.len() {
        s.skip(first_pos(s, c) + 1)
    } else {
        Seq::empty()
    }
}

/// `s` with every `c` left out.
pub open spec fn without(s: Seq<char>, c: char) -> Seq<char> {
    s.filter(|x: char| x != c)
}

/// `first_pos` is the first position that holds `c`.
pub proof fn lemma_first_pos(s: Seq<char>, c: char)
    ensures
        0 <= first_pos(s, c) <= s.len(),
        first_pos(s, c) < s.len() ==> s[first_pos(s, c)] == c,
        forall|j: int| 0 <= j < first_pos(s, c) ==> s[j] != c,
        first_pos(s, c) == s.len() <==> !s.contains(c),
{
    s.index_of_first_ensures(c);
}

/// `after_last_pos` is just past the last position that holds `c`.
pub proof fn lemma_after_last_pos(s: Seq<char>, c: char)
    ensures
        0 <= after_last_pos(s, c) <= s.len(),
        after_last_pos(s, c) > 0 ==> s[after_last_pos(s, c) - 1] == c,
        forall|j: int| after_last_pos(s, c) <= j < s.len() ==> s[j] != c,
        after_last_pos(s, c) == 0 <==> !s.contains(c),
{
    s.index_of_last_ensures(c);
}

/// Appends one character to `s`: a wrapper around `String::push`, which
/// vstd does not specify. Claims that the result is the old contents
/// followed by `c`.
#[verifier::external_body]
pub(crate) fn push_char(s: &mut String, c: char)
    ensures
        final(s)@ == old(s)@.push(c),
{
    s.push(c);
}

/// The characters of `s`, in order.
pub fn chars_of(s: &str) -> (cs: Vec<char>)
    ensures
        cs@ == s@,
{
    let mut cs: Vec<char> = Vec::new();
    for c in it: s.chars()
        invariant
            cs@ == it.seq().take(it.index() as int),
    {
        cs.push(c);
    }
    cs
}

/// Finds the first `c` in `cs`; returns `cs.len()` when there is none.
pub fn find_first(cs: &Vec<char>, c: char) -> (r: usize)
    ensures
        r == first_pos(cs@, c),
{
    let mut i: usize = 0;
    while i < cs.len() && cs[i] != c
        invariant
            i <= cs.len(),
            forall|j: int| 0 <= j < i ==> cs@[j] != c,
        decreases cs.len() - i,
    {
        i = i + 1;
    }
    proof {
        lemma_first_pos(cs@, c);
        let p = first_pos(cs@, c);
        if p < i {
            assert(cs@[p] == c);
        }
        if i < p {
            assert(cs@[i as int] != c);
        }
    }
    i
}

/// Finds the position just past the last `c` in `cs`; 0 when there is none.
pub fn find_after_last(cs: &Vec<char>, c: char) -> (r: usize)
    ensures
        r == after_last_pos(cs@, c),
{
    let mut i: usize = cs.len();
    while i > 0 && cs[i - 1] != c
        invariant
            i <= cs.len(),
            forall|j: int| i <= j < cs.len() ==> cs@[j] != c,
        decreases i,
    {
        i = i - 1;
    }
    proof {
        lemma_after_last_pos(cs@, c);
        let p = after_last_pos(cs@, c);
        if p > i {
            assert(cs@[p - 1] == c);
        }
        if i > p {
            assert(cs@[i - 1] == c);
        }
    }
    i
}

/// Appends `cs[from..to]` to `out`.
pub fn push_range(out: &mut String, cs: &Vec<char>, from: usize, to: usize)
    requires
        from <= to <= cs.len(),
    ensures
        final(out)@ == old(out)@ + cs@.subrange(from as int, to as int),
{
    let mut i = from;
    while i < to
        invariant
            from <= i <= to <= cs.len(),
            out@ == old(out)@ + cs@.subrange(from as int, i as int),
        decreases to - i,
    {
        push_char(out, cs[i]);
        assert(cs@.subrange(from as int, i + 1) == cs@.subrange(from as int, i as int).push(
            cs@[i as int],
        ));
        i = i + 1;
    }
}

/// Appends `cs[from..to]` to `out`, leaving out every `c`.
pub fn push_range_without(out: &mut String, cs: &Vec<char>, from: usize, to: usize, c: char)
    requires
        from <= to <= cs.len(),
    ensures
        final(out)@ == old(out)@ + without(cs@.subrange(from as int, to as int), c),
{
    let mut i = from;
    while i < to
        invariant
            from <= i <= to <= cs.len(),
            out@ == old(out)@ + without(cs@.subrange(from as int, i as int), c),
        decreases to - i,
    {
        let ghost before = cs@.subrange(from as int, i as int);
        let ghost after = cs@.subrange(from as int, i + 1);
        assert(after.drop_last() == before);
        assert(after.last() == cs@[i as int]);
        reveal_with_fuel(Seq::filter, 1);
        if cs[i] != c {
            push_char(out, cs[i]);
        }
        i = i + 1;
    }
}

/// Appends the text of `t` to `out`.
pub fn push_str(out: &mut String, t: &str)
    ensures
        final(out)@ == old(out)@ + t@,
{
    out.append(t);
}

} // verus!

verus! {

/// Whether `a` and `b` hold the same text.
pub fn same_text(a: &str, b: &str) -> (r: bool)
    ensures
        r == (a@ == b@),
{
    let x = chars_of(a);
    let y = chars_of(b);
    if x.len() != y.len() {
        return false;
    }
    let mut i: usize = 0;
    while i < x.len()
        invariant
            i <= x.len() == y.len(),
            x@ == a@,
            y@ == b@,
            x@.take(i as int) == y@.take(i as int),
        decreases x.len() - i,
    {
        if x[i] != y[i] {
            assert(x@[i as int] != y@[i as int]);
            return false;
        }
        assert(x@.take(i + 1) == x@.take(i as int).push(x@[i as int]));
        assert(y@.take(i + 1) == y@.take(i as int).push(y@[i as int]));
        i = i + 1;
    }
    assert(x@ == x@.take(i as int));
    assert(y@ == y@.take(i as int));
    true
}

/// Leaving out `c` keeps every other character in order: nothing comes of
/// the empty text, and a character added at the end is added to the result
/// unless it is `c`.
pub proof fn law_without_push(s: Seq<char>, d: char, c: char)
    ensures
        without(Seq::<char>::empty(), c) == Seq::<char>::empty(),
        without(s.push(d), c) == if d == c {
            without(s, c)
        } else {
            without(s, c).push(d)
        },
{
    reveal_with_fuel(Seq::filter, 1);
    assert(s.push(d).drop_last() == s);
}

/// Leaving out `c` removes every `c` and keeps every other character as
/// often as it occurs.
pub proof fn law_without_counts(s: Seq<char>, c: char)
    ensures
        forall|x: char|
            #[trigger] without(s, c).to_multiset().count(x) == if x == c {
                0
            } else {
                s.to_multiset().count(x)
            },
    decreases s.len(),
{
    broadcast use vstd::seq_lib::group_to_multiset_ensures;

    if s.len() == 0 {
        law_without_push(s, 'a', c);
        assert(without(s, c) == Seq::<char>::empty());
        assert forall|x: char| #[trigger] without(s, c).to_multiset().count(x) == if x == c {
            0
        } else {
            s.to_multiset().count(x)
        } by {
            assert(!without(s, c).contains(x));
            assert(!s.contains(x));
        }
    } else {
        let t = s.drop_last();
        let d = s.last();
        assert(t.push(d) == s);
        law_without_counts(t, c);
        law_without_push(t, d, c);
        assert forall|x: char| #[trigger] without(s, c).to_multiset().count(x) == if x == c {
            0
        } else {
            s.to_multiset().count(x)
        } by {
            assert(s.to_multiset() == t.to_multiset().insert(d));
            if d != c {
                assert(without(s, c).to_multiset() == without(t, c).to_multiset().insert(d));
            }
        }
    }
}

} // verus!
