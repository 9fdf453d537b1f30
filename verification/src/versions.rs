//! Version strings: the one a Cargo manifest declares, the major part that
//! decides whether a plugin's shared contract matches the core's, and when a
//! remote version is an update.
use vstd::prelude::*;
use crate::scan::{lemma_scan_concat, prefix_before, after_first, starts_with, lemma_after_first_shorter, find_char, range_starts_with};
use crate::text::{chars_of, string_from_range, text_eq};

verus! {

/// `line` without one trailing carriage return.
pub open spec fn strip_cr(line: Seq<char>) -> Seq<char> {
    if line.len() > 0 && line.last() == '\r' {
        line.drop_last()
    } else {
        line
    }
}

/// The first line of a non-empty `s`, as `str::lines` yields it: up to the
/// first line feed, less a carriage return that stood right before it.
pub open spec fn first_line(s: Seq<char>) -> Seq<char> {
    if s.contains('\n') {
        strip_cr(prefix_before(s, '\n'))
    } else {
        s
    }
}

/// The key that a manifest's version line begins with.
pub open spec fn version_key() -> Seq<char> {
    seq!['v', 'e', 'r', 's', 'i', 'o', 'n']
}

/// The second piece of `line.split('"')`: the text between the first and the
/// second double quote (or up to the end); none when the line has no quote.
pub open spec fn quoted_value(line: Seq<char>) -> Option<Seq<char>> {
    if line.contains('"') {
        Some(prefix_before(after_first(line, '"'), '"'))
    } else {
        None
    }
}

/// The version that the manifest text `s` declares: the quoted value of its
/// first line that begins with `version`; none when no line does or that
/// line holds no quote.
pub open spec fn manifest_version(s: Seq<char>) -> Option<Seq<char>>
    decreases s.len(),
{
    if s.len() == 0 {
        None
    } else {
        let line = first_line(s);
        if starts_with(line, version_key()) {
            quoted_value(line)
        } else {
            proof {
                lemma_after_first_shorter(s, '\n');
            }
            manifest_version(after_first(s, '\n'))
        }
    }
}

/// The major part of a version: the text before its first `.`.
pub open spec fn spec_major_version(v: Seq<char>) -> Seq<char> {
    prefix_before(v, '.')
}

/// The quoted value of the line `v[from..to]`.
fn quoted_in(v: &Vec<char>, from: usize, to: usize) -> (res: Option<String>)
    requires
        from <= to <= v.len(),
    ensures
        res matches Some(r) ==> quoted_value(v@.subrange(from as int, to as int)) == Some(r@),
        res is None ==> quoted_value(v@.subrange(from as int, to as int)) is None,
{
    let q1 = find_char(v, from, to, '"');
    if q1 == to {
        return None;
    }
    let q2 = find_char(v, q1 + 1, to, '"');
    Some(string_from_range(v, q1 + 1, q2))
}

/// Returns the version that a Cargo manifest declares: in its first line that
/// begins with `version`, the text between the first two double quotes.
pub fn read_manifest_version(content: &str) -> (res: Option<String>)
    ensures
        res matches Some(r) ==> manifest_version(content@) == Some(r@),
        res is None ==> manifest_version(content@) is None,
{
    let v = chars_of(content);
    let key: Vec<char> = vec!['v', 'e', 'r', 's', 'i', 'o', 'n'];
    assert(key@ == version_key());
    let mut pos: usize = 0;
    assert(v@.skip(0) == v@);
    while pos < v.len()
        invariant
            pos <= v.len(),
            v@ == content@,
            key@ == version_key(),
            manifest_version(v@) == manifest_version(v@.skip(pos as int)),
        decreases v.len() - pos,
    {
        let ghost s = v@.skip(pos as int);
        assert(s == v@.subrange(pos as int, v.len() as int));
        let q = find_char(&v, pos, v.len(), '\n');
        let mut end = q;
        if q < v.len() && q > pos && v[q - 1] == '\r' {
            end = q - 1;
        }
        assert(first_line(s) == v@.subrange(pos as int, end as int)) by {
            if q < v.len() {
                if q > pos && v@[q - 1] == '\r' {
                    assert(v@.subrange(pos as int, q as int).drop_last()
                        == v@.subrange(pos as int, q - 1));
                }
            }
        }
        if range_starts_with(&v, pos, end, &key) {
            return quoted_in(&v, pos, end);
        }
        if q == v.len() {
            assert(after_first(s, '\n') == Seq::<char>::empty());
            assert(manifest_version(Seq::<char>::empty()) is None);
            return None;
        }
        assert(v@.subrange(q + 1, v.len() as int) == v@.skip(q + 1));
        pos = q + 1;
    }
    None
}

/// Returns the major part of a version: the text before its first `.`.
pub fn major_version(version: &str) -> (res: String)
    ensures
        res@ == spec_major_version(version@),
{
    let v = chars_of(version);
    let q = find_char(&v, 0, v.len(), '.');
    assert(v@.subrange(0, v.len() as int) == v@);
    string_from_range(&v, 0, q)
}

/// Whether a plugin built against the shared contract `plugin_shared` can be
/// loaded by a core built against `core_shared`: their major parts agree.
pub fn shared_versions_compatible(core_shared: &str, plugin_shared: &str) -> (res: bool)
    ensures
        res == (spec_major_version(core_shared@) == spec_major_version(plugin_shared@)),
{
    let a = major_version(core_shared);
    let b = major_version(plugin_shared);
    text_eq(a.as_str(), b.as_str())
}

/// Returns the remote version when it is known and differs from the version
/// that runs now; `None` otherwise.
pub fn pending_update(remote: Option<String>, current: &str) -> (res: Option<String>)
    ensures
        res == (match remote {
            Some(r) => if r@ != current@ { Some(r) } else { None },
            None => None,
        }),
{
    match remote {
        Some(r) => {
            if text_eq(r.as_str(), current) {
                None
            } else {
                Some(r)
            }
        },
        None => None,
    }
}

proof fn lemma_version_line_first(v: Seq<char>, rest: Seq<char>)
    requires
        !v.contains('\n'),
    ensures
        first_line("version = \""@ + v + "\"\n"@ + rest) == "version = \""@ + v + seq!['"'],
{
    reveal_strlit("version = \"");
    reveal_strlit("\"\n");
    let head = "version = \""@;
    let q = seq!['"'];
    let nl = seq!['\n'] + rest;
    let s = head + v + "\"\n"@ + rest;
    assert(!head.contains('\n')) by {
        if head.contains('\n') {
            let j = choose|j: int| 0 <= j < head.len() && head[j] == '\n';
        }
    }
    assert(!q.contains('\n')) by {
        if q.contains('\n') {
            let j = choose|j: int| 0 <= j < q.len() && q[j] == '\n';
        }
    }
    assert(s == head + (v + (q + nl)));
    lemma_scan_concat(head, v + (q + nl), '\n');
    lemma_scan_concat(v, q + nl, '\n');
    lemma_scan_concat(q, nl, '\n');
    assert(nl[0] == '\n');
    assert(prefix_before(nl, '\n') == Seq::<char>::empty());
    assert(q + Seq::<char>::empty() == q);
    assert(head + (v + q) == head + v + q);
}

proof fn lemma_version_line_value(v: Seq<char>)
    requires
        !v.contains('"'),
    ensures
        starts_with("version = \""@ + v + seq!['"'], version_key()),
        quoted_value("version = \""@ + v + seq!['"']) == Some(v),
{
    reveal_strlit("version = \"");
    let head = "version = \""@;
    let q = seq!['"'];
    let line = head + v + q;
    assert(line.take(7) == version_key());
    let pre = head.take(10);
    assert(!pre.contains('"')) by {
        if pre.contains('"') {
            let j = choose|j: int| 0 <= j < pre.len() && pre[j] == '"';
        }
    }
    assert(line == pre + (q + (v + q)));
    lemma_scan_concat(pre, q + (v + q), '"');
    assert((q + (v + q))[0] == '"');
    assert(after_first(q + (v + q), '"') == v + q);
    lemma_scan_concat(v, q, '"');
    assert(prefix_before(q, '"') == Seq::<char>::empty());
    assert(v + Seq::<char>::empty() == v);
}

/// What a manifest's version line says is what is read back: a manifest
/// that begins with the line `version = "v"` declares `v`, whatever follows,
/// for every `v` without quote or line break.
pub proof fn law_manifest_version_roundtrip(v: Seq<char>, rest: Seq<char>)
    requires
        !v.contains('"'),
        !v.contains('\n'),
    ensures
        manifest_version("version = \""@ + v + "\"\n"@ + rest) == Some(v),
{
    lemma_version_line_first(v, rest);
    lemma_version_line_value(v);
    reveal_strlit("version = \"");
    assert(("version = \""@ + v + "\"\n"@ + rest).len() > 0);
}

/// Whether two versions are compatible depends only on what precedes their
/// first `.`: a major part followed by any rest keeps that major part.
pub proof fn law_major_ignores_rest(major: Seq<char>, rest: Seq<char>)
    requires
        !major.contains('.'),
    ensures
        spec_major_version(major + seq!['.'] + rest) == major,
{
    lemma_scan_concat(major, seq!['.'] + rest, '.');
    assert(major + seq!['.'] + rest == major + (seq!['.'] + rest));
    assert(prefix_before(seq!['.'] + rest, '.') == Seq::<char>::empty());
    assert(major + Seq::<char>::empty() == major);
}

} // verus!
