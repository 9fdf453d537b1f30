//! White space, as Unicode defines it and `char::is_whitespace` tests it,
//! and the words and trimmed text it delimits.
use vstd::prelude::*;
use crate::text::{chars_of, string_from_range, text_eq};

verus! {

/// Whether `c` has the Unicode `White_Space` property.
pub open spec fn is_white_space(c: char) -> bool {
    let u = c as u32;
    ||| 0x09 <= u <= 0x0d
    ||| u == 0x20
    ||| u == 0x85
    ||| u == 0xa0
    ||| u == 0x1680
    ||| 0x2000 <= u <= 0x200a
    ||| u == 0x2028
    ||| u == 0x2029
    ||| u == 0x202f
    ||| u == 0x205f
    ||| u == 0x3000
}

/// `s` without its leading white space.
pub open spec fn trim_start(s: Seq<char>) -> Seq<char>
    decreases s.len(),
{
    if s.len() > 0 && is_white_space(s[0]) {
        trim_start(s.drop_first())
    } else {
        s
    }
}

/// `s` without its trailing white space.
pub open spec fn trim_end(s: Seq<char>) -> Seq<char>
    decreases s.len(),
{
    if s.len() > 0 && is_white_space(s.last()) {
        trim_end(s.drop_last())
    } else {
        s
    }
}

/// `s` without white space at either end (what `str::trim` returns).
pub open spec fn trim(s: Seq<char>) -> Seq<char> {
    trim_end(trim_start(s))
}

/// The characters of `s` before its first white space.
pub open spec fn word_prefix(s: Seq<char>) -> Seq<char>
    decreases s.len(),
{
    if s.len() == 0 || is_white_space(s[0]) {
        Seq::empty()
    } else {
        seq![s[0]] + word_prefix(s.drop_first())
    }
}

/// The first word of `s` (what `s.split_whitespace().next()` yields).
pub open spec fn first_word(s: Seq<char>) -> Option<Seq<char>> {
    if trim_start(s).len() == 0 {
        None
    } else {
        Some(word_prefix(trim_start(s)))
    }
}

/// Returns whether `c` is white space.
pub fn white_space(c: char) -> (res: bool)
    ensures
        res == is_white_space(c),
{
    let u = c as u32;
    (0x09 <= u && u <= 0x0d) || u == 0x20 || u == 0x85 || u == 0xa0 || u == 0x1680 || (0x2000 <= u
        && u <= 0x200a) || u == 0x2028 || u == 0x2029 || u == 0x202f || u == 0x205f || u == 0x3000
}

proof fn lemma_trim_start_at(s: Seq<char>, i: int)
    requires
        0 <= i <= s.len(),
        forall|j: int| 0 <= j < i ==> is_white_space(#[trigger] s[j]),
        i == s.len() || !is_white_space(s[i]),
    ensures
        trim_start(s) == s.skip(i),
    decreases s.len(),
{
    if i > 0 {
        lemma_trim_start_at(s.drop_first(), i - 1);
        assert(s.drop_first().skip(i - 1) == s.skip(i));
    } else {
        assert(s.skip(0) == s);
    }
}

proof fn lemma_trim_end_at(s: Seq<char>, k: int)
    requires
        0 <= k <= s.len(),
        forall|j: int| k <= j < s.len() ==> is_white_space(#[trigger] s[j]),
        k == 0 || !is_white_space(s[k - 1]),
    ensures
        trim_end(s) == s.take(k),
    decreases s.len(),
{
    if k < s.len() {
        lemma_trim_end_at(s.drop_last(), k);
        assert(s.drop_last().take(k) == s.take(k));
    } else {
        assert(s.take(k) == s);
    }
}

proof fn lemma_word_prefix_at(s: Seq<char>, k: int)
    requires
        0 <= k <= s.len(),
        forall|j: int| 0 <= j < k ==> !is_white_space(#[trigger] s[j]),
        k == s.len() || is_white_space(s[k]),
    ensures
        word_prefix(s) == s.take(k),
    decreases s.len(),
{
    if k > 0 {
        lemma_word_prefix_at(s.drop_first(), k - 1);
        assert(seq![s[0]] + s.drop_first().take(k - 1) == s.take(k));
    }
}

/// Returns the text of `s` without white space at either end.
pub fn trimmed(s: &str) -> (res: String)
    ensures
        res@ == trim(s@),
{
    let v = chars_of(s);
    let mut i: usize = 0;
    while i < v.len() && white_space(v[i])
        invariant
            i <= v.len(),
            forall|j: int| 0 <= j < i ==> is_white_space(#[trigger] v@[j]),
        decreases v.len() - i,
    {
        i += 1;
    }
    proof {
        lemma_trim_start_at(v@, i as int);
    }
    let mut k: usize = v.len();
    while k > i && white_space(v[k - 1])
        invariant
            i <= k <= v.len(),
            forall|j: int| k <= j < v.len() ==> is_white_space(#[trigger] v@[j]),
        decreases k,
    {
        k -= 1;
    }
    proof {
        let t = v@.skip(i as int);
        assert forall|j: int| k - i <= j < t.len() implies is_white_space(#[trigger] t[j]) by {
            assert(t[j] == v@[i + j]);
        }
        lemma_trim_end_at(t, k - i);
        assert(t.take(k - i) == v@.subrange(i as int, k as int));
    }
    string_from_range(&v, i, k)
}

/// Returns the first word of `s`, if it has one.
pub fn first_word_of(s: &str) -> (res: Option<String>)
    ensures
        res matches Some(w) ==> first_word(s@) == Some(w@),
        res is None ==> first_word(s@) is None,
{
    let v = chars_of(s);
    let mut i: usize = 0;
    while i < v.len() && white_space(v[i])
        invariant
            i <= v.len(),
            forall|j: int| 0 <= j < i ==> is_white_space(#[trigger] v@[j]),
        decreases v.len() - i,
    {
        i += 1;
    }
    proof {
        lemma_trim_start_at(v@, i as int);
    }
    if i == v.len() {
        return None;
    }
    let mut k: usize = i;
    while k < v.len() && !white_space(v[k])
        invariant
            i <= k <= v.len(),
            forall|j: int| i <= j < k ==> !is_white_space(#[trigger] v@[j]),
        decreases v.len() - k,
    {
        k += 1;
    }
    proof {
        let t = v@.skip(i as int);
        assert forall|j: int| 0 <= j < k - i implies !is_white_space(#[trigger] t[j]) by {
            assert(t[j] == v@[i + j]);
        }
        if k < v.len() {
            assert(t[k - i] == v@[k as int]);
        }
        lemma_word_prefix_at(t, k - i);
        assert(t.take(k - i) == v@.subrange(i as int, k as int));
    }
    Some(string_from_range(&v, i, k))
}

/// Returns whether a plugin's checkout is behind its upstream, given what
/// `git rev-list --count` printed: anything but the count `0`, white space
/// aside.
pub fn is_behind(count_output: &str) -> (res: bool)
    ensures
        res == (trim(count_output@) != "0"@),
{
    let t = trimmed(count_output);
    !text_eq(t.as_str(), "0")
}

} // verus!
