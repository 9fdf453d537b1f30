//! How a plugin's name, cache directory and shared library file follow from
//! the git source it is declared with.
use vstd::prelude::*;
use crate::text::{chars_of, string_from_range, push_char};

verus! {

/// The part of `s` after its last `sep`; all of `s` when it holds no `sep`
/// (what `s.split(sep).next_back()` yields).
pub open spec fn after_last(s: Seq<char>, sep: char) -> Seq<char>
    decreases s.len(),
{
    if s.len() == 0 {
        s
    } else if s.last() == sep {
        Seq::empty()
    } else {
        after_last(s.drop_last(), sep).push(s.last())
    }
}

/// `s` with every trailing copy of a non-empty `suffix` removed
/// (what `str::trim_end_matches` does with a string pattern).
pub open spec fn trim_end_all(s: Seq<char>, suffix: Seq<char>) -> Seq<char>
    decreases s.len(),
{
    if 0 < suffix.len() <= s.len() && s.skip(s.len() - suffix.len()) == suffix {
        trim_end_all(s.take(s.len() - suffix.len()), suffix)
    } else {
        s
    }
}

/// The suffix that a git repository's address usually ends with.
pub open spec fn git_suffix() -> Seq<char> {
    seq!['.', 'g', 'i', 't']
}

/// The name of the plugin declared with the git `source`: its last path
/// segment, without the `.git` endings.
pub open spec fn spec_plugin_name(source: Seq<char>) -> Seq<char> {
    trim_end_all(after_last(source, '/'), git_suffix())
}

/// The name of a plugin's shared library: its name with `-` turned into `_`.
pub open spec fn spec_so_name(name: Seq<char>) -> Seq<char> {
    name.map_values(|c: char| if c == '-' { '_' } else { c })
}

/// Whether `s` ends with `suffix`.
pub open spec fn ends_with(s: Seq<char>, suffix: Seq<char>) -> bool {
    suffix.len() <= s.len() && s.skip(s.len() - suffix.len()) == suffix
}

proof fn lemma_after_last_from(s: Seq<char>, sep: char, i: int)
    requires
        0 <= i <= s.len(),
        i == 0 || s[i - 1] == sep,
        forall|j: int| i <= j < s.len() ==> s[j] != sep,
    ensures
        after_last(s, sep) == s.skip(i),
    decreases s.len(),
{
    if s.len() == 0 {
    } else if s.last() == sep {
        assert(i == s.len());
    } else {
        if i == s.len() {
            assert(s.last() == sep);
        }
        lemma_after_last_from(s.drop_last(), sep, i);
        assert(s.skip(i) == s.drop_last().skip(i).push(s.last()));
    }
}

/// Index of the first character after the last `sep` in `v`.
fn last_segment_start(v: &Vec<char>, sep: char) -> (i: usize)
    ensures
        i <= v.len(),
        after_last(v@, sep) == v@.skip(i as int),
{
    let mut i = v.len();
    while i > 0 && v[i - 1] != sep
        invariant
            i <= v.len(),
            forall|j: int| i <= j < v.len() ==> v@[j] != sep,
        decreases i,
    {
        i -= 1;
    }
    proof {
        lemma_after_last_from(v@, sep, i as int);
    }
    i
}

/// Whether `v[from..to]` ends with `suffix`.
fn range_ends_with(v: &Vec<char>, from: usize, to: usize, suffix: &Vec<char>) -> (res: bool)
    requires
        from <= to <= v.len(),
    ensures
        res == ends_with(v@.subrange(from as int, to as int), suffix@),
{
    let ghost r = v@.subrange(from as int, to as int);
    if suffix.len() > to - from {
        return false;
    }
    let start = to - suffix.len();
    let mut k: usize = 0;
    while k < suffix.len()
        invariant
            from <= start <= to <= v.len(),
            start + suffix.len() == to,
            r == v@.subrange(from as int, to as int),
            k <= suffix.len(),
            forall|j: int| 0 <= j < k ==> v@[start + j] == suffix@[j],
        decreases suffix.len() - k,
    {
        if v[start + k] != suffix[k] {
            assert(r.skip(r.len() - suffix@.len())[k as int] == v@[start + k]);
            return false;
        }
        k += 1;
    }
    assert(r.skip(r.len() - suffix@.len()) == suffix@);
    true
}

/// Returns the name of the plugin whose git address is `source`: the text
/// after the last `/`, with every trailing `.git` removed.
pub fn plugin_name(source: &str) -> (name: String)
    ensures
        name@ == spec_plugin_name(source@),
{
    let v = chars_of(source);
    let start = last_segment_start(&v, '/');
    let suffix: Vec<char> = vec!['.', 'g', 'i', 't'];
    assert(suffix@ == git_suffix());
    let mut end = v.len();
    assert(v@.subrange(start as int, end as int) == v@.skip(start as int));
    while range_ends_with(&v, start, end, &suffix)
        invariant
            start <= end <= v.len(),
            suffix@ == git_suffix(),
            trim_end_all(v@.skip(start as int), git_suffix())
                == trim_end_all(v@.subrange(start as int, end as int), git_suffix()),
        decreases end,
    {
        let ghost r = v@.subrange(start as int, end as int);
        assert(r.take(r.len() - 4) == v@.subrange(start as int, end - 4));
        end -= 4;
    }
    string_from_range(&v, start, end)
}

/// Returns the name of a plugin's shared library: `name` with every `-`
/// replaced by `_`.
pub fn so_name(name: &str) -> (res: String)
    ensures
        res@ == spec_so_name(name@),
{
    let v = chars_of(name);
    let mut res = String::new();
    let mut i: usize = 0;
    while i < v.len()
        invariant
            v@ == name@,
            i <= v.len(),
            res@ == spec_so_name(v@.take(i as int)),
        decreases v.len() - i,
    {
        let c = if v[i] == '-' { '_' } else { v[i] };
        push_char(&mut res, c);
        assert(v@.take(i + 1) == v@.take(i as int).push(v@[i as int]));
        i += 1;
    }
    assert(v@.take(v.len() as int) == v@);
    res
}

proof fn lemma_after_last_has_no_sep(s: Seq<char>, sep: char)
    ensures
        !after_last(s, sep).contains(sep),
        after_last(s, sep).len() <= s.len(),
    decreases s.len(),
{
    if s.len() > 0 && s.last() != sep {
        lemma_after_last_has_no_sep(s.drop_last(), sep);
        let r = after_last(s.drop_last(), sep);
        assert forall|j: int| 0 <= j < r.push(s.last()).len() implies r.push(s.last())[j] != sep by {
            if j < r.len() {
                assert(!r.contains(sep));
                if r[j] == sep {
                    assert(r.contains(sep));
                }
            }
        }
    }
}

proof fn lemma_after_last_of_sep_free(s: Seq<char>, sep: char)
    requires
        !s.contains(sep),
    ensures
        after_last(s, sep) == s,
    decreases s.len(),
{
    if s.len() > 0 {
        if s.last() == sep {
            assert(s.contains(sep));
        }
        assert(!s.drop_last().contains(sep)) by {
            if s.drop_last().contains(sep) {
                let j = choose|j: int| 0 <= j < s.drop_last().len() && s.drop_last()[j] == sep;
                assert(s[j] == sep);
            }
        }
        lemma_after_last_of_sep_free(s.drop_last(), sep);
        assert(s.drop_last().push(s.last()) == s);
    }
}

proof fn lemma_trim_end_all_prefix(s: Seq<char>, suffix: Seq<char>)
    ensures
        trim_end_all(s, suffix).len() <= s.len(),
        trim_end_all(s, suffix) == s.take(trim_end_all(s, suffix).len() as int),
        suffix.len() > 0 ==> !ends_with(trim_end_all(s, suffix), suffix),
    decreases s.len(),
{
    if 0 < suffix.len() <= s.len() && s.skip(s.len() - suffix.len()) == suffix {
        let t = s.take(s.len() - suffix.len());
        lemma_trim_end_all_prefix(t, suffix);
        let r = trim_end_all(t, suffix);
        assert(r == s.take(r.len() as int));
    } else {
        assert(s.take(s.len() as int) == s);
    }
}

/// A plugin's name holds no `/` and does not end with `.git`.
pub proof fn law_plugin_name_is_bare(source: Seq<char>)
    ensures
        !spec_plugin_name(source).contains('/'),
        !ends_with(spec_plugin_name(source), git_suffix()),
{
    let seg = after_last(source, '/');
    lemma_after_last_has_no_sep(source, '/');
    lemma_trim_end_all_prefix(seg, git_suffix());
    let p = spec_plugin_name(source);
    if p.contains('/') {
        let j = choose|j: int| 0 <= j < p.len() && p[j] == '/';
        assert(seg[j] == '/');
        assert(seg.contains('/'));
    }
}

/// The name of a plugin declared as `prefix/name.git` (or `prefix/name`) is
/// `name`, for every `name` without `/` that does not itself end with `.git`.
pub proof fn law_plugin_name_of_address(prefix: Seq<char>, name: Seq<char>, with_git: bool)
    requires
        !name.contains('/'),
        !ends_with(name, git_suffix()),
    ensures
        spec_plugin_name(prefix + seq!['/'] + name + (if with_git { git_suffix() } else { Seq::<char>::empty() }))
            == name,
{
    let tail = name + (if with_git { git_suffix() } else { Seq::<char>::empty() });
    let s = prefix + seq!['/'] + tail;
    assert(s == prefix + seq!['/'] + name + (if with_git { git_suffix() } else { Seq::<char>::empty() }));
    let i: int = prefix.len() as int + 1;
    assert(s[i - 1] == '/');
    assert forall|j: int| i <= j < s.len() implies s[j] != '/' by {
        assert(s[j] == tail[j - i]);
        if j - i < name.len() {
            assert(tail[j - i] == name[j - i]);
            if name[j - i] == '/' {
                assert(name.contains('/'));
            }
        } else {
            assert(tail[j - i] == git_suffix()[j - i - name.len()]);
        }
    }
    lemma_after_last_from(s, '/', i);
    assert(s.skip(i) == tail);
    if with_git {
        assert(tail.skip(tail.len() - 4) == git_suffix());
        assert(tail.take(tail.len() - 4) == name);
        assert(trim_end_all(tail, git_suffix()) == trim_end_all(name, git_suffix()));
    } else {
        assert(tail == name);
    }
    assert(!(0 < git_suffix().len() <= name.len() && name.skip(name.len() - git_suffix().len()) == git_suffix()));
}

/// Taking the plugin name of a plugin name changes nothing.
pub proof fn law_plugin_name_idempotent(source: Seq<char>)
    ensures
        spec_plugin_name(spec_plugin_name(source)) == spec_plugin_name(source),
{
    let p = spec_plugin_name(source);
    law_plugin_name_is_bare(source);
    lemma_after_last_of_sep_free(p, '/');
}

/// A shared library name has as many characters as the plugin name and holds no `-`.
pub proof fn law_so_name_has_no_dash(name: Seq<char>)
    ensures
        spec_so_name(name).len() == name.len(),
        !spec_so_name(name).contains('-'),
{
    let r = spec_so_name(name);
    if r.contains('-') {
        let j = choose|j: int| 0 <= j < r.len() && r[j] == '-';
        assert(r[j] == (if name[j] == '-' { '_' } else { name[j] }));
    }
}

} // verus!
