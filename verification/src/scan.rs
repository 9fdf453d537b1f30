//! Scanning character sequences: the pieces that `split`, `lines` and
//! `starts_with` pick out of a text, stated once and proved once.
use vstd::prelude::*;

verus! {

/// The characters of `s` before its first `c` (all of `s` when it has none):
/// the first piece of `s.split(c)`.
pub open spec fn prefix_before(s: Seq<char>, c: char) -> Seq<char>
    decreases s.len(),
{
    if s.len() == 0 {
        s
    } else if s[0] == c {
        Seq::empty()
    } else {
        seq![s[0]] + prefix_before(s.drop_first(), c)
    }
}

/// The characters of `s` after its first `c` (empty when it has none).
pub open spec fn after_first(s: Seq<char>, c: char) -> Seq<char>
    decreases s.len(),
{
    if s.len() == 0 {
        s
    } else if s[0] == c {
        s.drop_first()
    } else {
        after_first(s.drop_first(), c)
    }
}

/// Whether `s` begins with `p`.
pub open spec fn starts_with(s: Seq<char>, p: Seq<char>) -> bool {
    p.len() <= s.len() && s.take(p.len() as int) == p
}

/// Whether `s` holds `p` as a contiguous piece.
pub open spec fn contains_text(s: Seq<char>, p: Seq<char>) -> bool {
    exists|i: int| 0 <= i <= s.len() - p.len() && #[trigger] s.subrange(i, i + p.len()) == p
}

pub proof fn lemma_after_first_shorter(s: Seq<char>, c: char)
    requires
        s.len() > 0,
    ensures
        after_first(s, c).len() < s.len(),
    decreases s.len(),
{
    if s[0] != c {
        if s.len() > 1 {
            lemma_after_first_shorter(s.drop_first(), c);
        } else {
            assert(after_first(s.drop_first(), c).len() == 0);
        }
    }
}

/// Scanning for `c` passes over a piece that does not hold it.
pub proof fn lemma_scan_concat(a: Seq<char>, b: Seq<char>, c: char)
    requires
        !a.contains(c),
    ensures
        prefix_before(a + b, c) == a + prefix_before(b, c),
        after_first(a + b, c) == after_first(b, c),
        (a + b).contains(c) <==> b.contains(c),
    decreases a.len(),
{
    if a.len() > 0 {
        assert(a[0] != c) by {
            if a[0] == c {
                assert(a.contains(c));
            }
        }
        let t = a.drop_first();
        assert(!t.contains(c)) by {
            if t.contains(c) {
                let j = choose|j: int| 0 <= j < t.len() && t[j] == c;
                assert(a[j + 1] == c);
            }
        }
        lemma_scan_concat(t, b, c);
        assert((a + b).drop_first() == t + b);
        assert(seq![a[0]] + (t + prefix_before(b, c)) == a + prefix_before(b, c));
        if b.contains(c) {
            let j = choose|j: int| 0 <= j < b.len() && b[j] == c;
            assert((a + b)[a.len() + j] == c);
        }
        if (a + b).contains(c) {
            let j = choose|j: int| 0 <= j < (a + b).len() && (a + b)[j] == c;
            if j >= a.len() {
                assert(b[j - a.len()] == c);
            } else {
                assert(a[j] == c);
            }
        }
    } else {
        assert(a + b == b);
    }
}

/// `q` is where the first `c` of `s` stands, or the end of `s`.
pub proof fn lemma_scan(s: Seq<char>, c: char, q: int)
    requires
        0 <= q <= s.len(),
        forall|j: int| 0 <= j < q ==> s[j] != c,
        q == s.len() || s[q] == c,
    ensures
        prefix_before(s, c) == s.take(q),
        after_first(s, c) == (if q < s.len() { s.skip(q + 1) } else { Seq::<char>::empty() }),
        s.contains(c) <==> q < s.len(),
    decreases s.len(),
{
    if s.len() == 0 {
    } else if s[0] == c {
        assert(q == 0);
        assert(s.contains(c));
    } else {
        let t = s.drop_first();
        lemma_scan(t, c, q - 1);
        assert(s.take(q) == seq![s[0]] + t.take(q - 1));
        if q < s.len() {
            assert(s.skip(q + 1) == t.skip(q));
            assert(s[q] == c);
        } else {
            if s.contains(c) {
                let j = choose|j: int| 0 <= j < s.len() && s[j] == c;
                assert(s[j] != c);
            }
        }
    }
}

/// First index in `from..to` where `v` holds `c`; `to` when there is none.
pub fn find_char(v: &Vec<char>, from: usize, to: usize, c: char) -> (q: usize)
    requires
        from <= to <= v.len(),
    ensures
        from <= q <= to,
        forall|j: int| from <= j < q ==> v@[j] != c,
        q == to || v@[q as int] == c,
        prefix_before(v@.subrange(from as int, to as int), c) == v@.subrange(from as int, q as int),
        after_first(v@.subrange(from as int, to as int), c) == (if q < to {
            v@.subrange(q + 1, to as int)
        } else {
            Seq::<char>::empty()
        }),
        v@.subrange(from as int, to as int).contains(c) <==> q < to,
{
    let mut q = from;
    while q < to && v[q] != c
        invariant
            from <= q <= to <= v.len(),
            forall|j: int| from <= j < q ==> v@[j] != c,
        decreases to - q,
    {
        q += 1;
    }
    proof {
        let s = v@.subrange(from as int, to as int);
        lemma_scan(s, c, q - from);
        assert(s.take(q - from) == v@.subrange(from as int, q as int));
        if q < to {
            assert(s.skip(q - from + 1) == v@.subrange(q + 1, to as int));
        }
    }
    q
}

/// Whether `v[from..to]` begins with `p`.
pub fn range_starts_with(v: &Vec<char>, from: usize, to: usize, p: &Vec<char>) -> (res: bool)
    requires
        from <= to <= v.len(),
    ensures
        res == starts_with(v@.subrange(from as int, to as int), p@),
{
    let ghost s = v@.subrange(from as int, to as int);
    if p.len() > to - from {
        return false;
    }
    let mut k: usize = 0;
    while k < p.len()
        invariant
            from + p.len() <= to <= v.len(),
            s == v@.subrange(from as int, to as int),
            k <= p.len(),
            forall|j: int| 0 <= j < k ==> v@[from + j] == p@[j],
        decreases p.len() - k,
    {
        if v[from + k] != p[k] {
            assert(s.take(p.len() as int)[k as int] == v@[from + k]);
            return false;
        }
        k += 1;
    }
    assert(s.take(p.len() as int) == p@);
    true
}

/// Whether `hay` holds `needle` as a contiguous piece.
pub fn contains_chars(hay: &Vec<char>, needle: &Vec<char>) -> (res: bool)
    ensures
        res == contains_text(hay@, needle@),
{
    if needle.len() > hay.len() {
        return false;
    }
    let last = hay.len() - needle.len();
    let mut i: usize = 0;
    loop
        invariant
            last + needle.len() == hay.len(),
            i <= last,
            forall|j: int| 0 <= j < i ==> #[trigger] hay@.subrange(j, j + needle@.len()) != needle@,
        decreases last - i,
    {
        if range_starts_with(hay, i, hay.len(), needle) {
            assert(hay@.subrange(i as int, hay.len() as int).take(needle.len() as int)
                == hay@.subrange(i as int, i + needle.len()));
            return true;
        }
        assert(hay@.subrange(i as int, hay.len() as int).take(needle.len() as int)
            == hay@.subrange(i as int, i + needle.len()));
        if i == last {
            return false;
        }
        i += 1;
    }
}

} // verus!
