//! The sections that `~/.basalto/config.toml` must hold, and how a config
//! text is completed with the default of each missing one.
use vstd::prelude::*;
use crate::scan::{contains_text, contains_chars, starts_with};
use crate::layout::skeleton_dirs;
use crate::text::{chars_of, text_eq};

verus! {

/// What setup does on the file system before it completes the config.
pub struct SetupPlan {
    /// The directories to create.
    pub create_dirs: Vec<String>,
    /// Whether to announce that the folders are being initialised.
    pub announce: bool,
    /// Whether to create an empty config file.
    pub create_config: bool,
}

/// Returns what setup does under `home`: when `~/.basalto` does not exist
/// it creates the plugin-declaration, plugin-cache and library-cache
/// directories and says so; when the config file does not exist it creates
/// it empty.
pub fn setup_plan(home: &str, basalto_exists: bool, config_exists: bool) -> (plan: SetupPlan)
    ensures
        plan.announce == !basalto_exists,
        plan.create_config == !config_exists,
        basalto_exists ==> plan.create_dirs@.len() == 0,
        !basalto_exists ==> {
            &&& plan.create_dirs@.len() == 3
            &&& plan.create_dirs@[0]@ == home@ + "/.basalto/plugins"@
            &&& plan.create_dirs@[1]@ == home@ + "/.basalto/cache/plugins"@
            &&& plan.create_dirs@[2]@ == home@ + "/.basalto/cache/library"@
        },
{
    let create_dirs = if basalto_exists { Vec::new() } else { skeleton_dirs(home) };
    SetupPlan { create_dirs, announce: !basalto_exists, create_config: !config_exists }
}

/// How many sections the config file must hold.
pub const REQUIRED_SECTIONS: usize = 3;

/// The header of the `i`-th required section.
pub open spec fn section_header(i: int) -> Seq<char> {
    if i == 0 {
        "[library]"@
    } else if i == 1 {
        "[editors]"@
    } else {
        "[core]"@
    }
}

/// The default text of the `i`-th required section.
pub open spec fn section_default(i: int) -> Seq<char> {
    if i == 0 {
        "[library]\nurl = \"\"\nbranch = \"main\"\n"@
    } else if i == 1 {
        "[editors]\navailable = [\"nvim\"]\n"@
    } else {
        "[core]\nsource = \"git@github.com:ShadeC0der/basalto-core.git\"\n"@
    }
}

/// `content` after the first `n` required sections were checked in order,
/// each missing one appended as a line break, its default and a line break.
pub open spec fn with_sections(content: Seq<char>, n: nat) -> Seq<char>
    decreases n,
{
    if n == 0 {
        content
    } else {
        let prev = with_sections(content, (n - 1) as nat);
        if contains_text(prev, section_header(n - 1)) {
            prev
        } else {
            prev + "\n"@ + section_default(n - 1) + "\n"@
        }
    }
}

/// The header and default text of the `i`-th required section.
pub fn required_section(i: usize) -> (r: (&'static str, &'static str))
    requires
        i < REQUIRED_SECTIONS,
    ensures
        r.0@ == section_header(i as int),
        r.1@ == section_default(i as int),
{
    if i == 0 {
        ("[library]", "[library]\nurl = \"\"\nbranch = \"main\"\n")
    } else if i == 1 {
        ("[editors]", "[editors]\navailable = [\"nvim\"]\n")
    } else {
        ("[core]", "[core]\nsource = \"git@github.com:ShadeC0der/basalto-core.git\"\n")
    }
}

/// Returns the config text completed with every required section it lacks:
/// for each section in order whose header does not occur in the text, a line
/// break, the section's default and a line break are appended.
pub fn ensure_sections(content: &str) -> (res: String)
    ensures
        res@ == with_sections(content@, REQUIRED_SECTIONS as nat),
{
    let mut res = content.to_owned();
    let mut i: usize = 0;
    while i < REQUIRED_SECTIONS
        invariant
            i <= REQUIRED_SECTIONS,
            res@ == with_sections(content@, i as nat),
        decreases REQUIRED_SECTIONS - i,
    {
        let (header, default) = required_section(i);
        let hay = chars_of(res.as_str());
        let needle = chars_of(header);
        if !contains_chars(&hay, &needle) {
            res.append("\n");
            res.append(default);
            res.append("\n");
        }
        i += 1;
    }
    res
}

/// Returns the completed config text when it differs from `content` (some
/// required section was missing, so the file must be written again), and
/// `None` when `content` already holds every required section.
pub fn completed_config(content: &str) -> (res: Option<String>)
    ensures
        res matches Some(r) ==> r@ == with_sections(content@, REQUIRED_SECTIONS as nat)
            && r@ != content@,
        res is None ==> with_sections(content@, REQUIRED_SECTIONS as nat) == content@,
{
    let done = ensure_sections(content);
    if text_eq(done.as_str(), content) {
        None
    } else {
        Some(done)
    }
}

proof fn lemma_contains_extend(s: Seq<char>, t: Seq<char>, p: Seq<char>)
    requires
        contains_text(s, p),
    ensures
        contains_text(s + t, p),
{
    let i = choose|i: int| 0 <= i <= s.len() - p.len() && #[trigger] s.subrange(i, i + p.len()) == p;
    assert((s + t).subrange(i, i + p.len()) == s.subrange(i, i + p.len()));
}

proof fn lemma_default_starts_with_header(i: int)
    requires
        0 <= i < REQUIRED_SECTIONS,
    ensures
        starts_with(section_default(i), section_header(i)),
{
    reveal_strlit("[library]");
    reveal_strlit("[library]\nurl = \"\"\nbranch = \"main\"\n");
    reveal_strlit("[editors]");
    reveal_strlit("[editors]\navailable = [\"nvim\"]\n");
    reveal_strlit("[core]");
    reveal_strlit("[core]\nsource = \"git@github.com:ShadeC0der/basalto-core.git\"\n");
    assert(section_default(i).take(section_header(i).len() as int) == section_header(i));
}

proof fn lemma_appended_holds_header(prev: Seq<char>, i: int)
    requires
        0 <= i < REQUIRED_SECTIONS,
    ensures
        contains_text(prev + "\n"@ + section_default(i) + "\n"@, section_header(i)),
{
    reveal_strlit("\n");
    lemma_default_starts_with_header(i);
    let s = prev + "\n"@ + section_default(i) + "\n"@;
    let h = section_header(i);
    let at: int = prev.len() as int + 1;
    assert(s.subrange(at, at + h.len()) == h);
}

proof fn lemma_sections_grow(content: Seq<char>, n: nat)
    requires
        n <= REQUIRED_SECTIONS,
    ensures
        starts_with(with_sections(content, n), content),
        forall|i: int| 0 <= i < n ==> contains_text(with_sections(content, n), #[trigger] section_header(i)),
    decreases n,
{
    if n == 0 {
        assert(content.take(content.len() as int) == content);
    } else {
        let prev = with_sections(content, (n - 1) as nat);
        lemma_sections_grow(content, (n - 1) as nat);
        if !contains_text(prev, section_header(n - 1)) {
            let t = "\n"@ + section_default(n - 1) + "\n"@;
            assert(prev + "\n"@ + section_default(n - 1) + "\n"@ == prev + t);
            lemma_appended_holds_header(prev, n - 1);
            assert forall|i: int| 0 <= i < n implies contains_text(prev + t, #[trigger] section_header(i)) by {
                if i < n - 1 {
                    lemma_contains_extend(prev, t, section_header(i));
                }
            }
            assert((prev + t).take(content.len() as int) == prev.take(content.len() as int));
        }
    }
}

proof fn lemma_sections_stable(content: Seq<char>, n: nat)
    requires
        n <= REQUIRED_SECTIONS,
        forall|i: int| 0 <= i < n ==> contains_text(content, #[trigger] section_header(i)),
    ensures
        with_sections(content, n) == content,
    decreases n,
{
    if n > 0 {
        lemma_sections_stable(content, (n - 1) as nat);
    }
}

/// Once completed, the config text holds the header of every required
/// section and begins with the text it was before.
pub proof fn law_sections_complete(content: Seq<char>)
    ensures
        forall|i: int| 0 <= i < REQUIRED_SECTIONS ==>
            contains_text(with_sections(content, REQUIRED_SECTIONS as nat), #[trigger] section_header(i)),
        starts_with(with_sections(content, REQUIRED_SECTIONS as nat), content),
{
    lemma_sections_grow(content, REQUIRED_SECTIONS as nat);
}

/// Completing a config text a second time changes nothing.
pub proof fn law_sections_idempotent(content: Seq<char>)
    ensures
        with_sections(with_sections(content, REQUIRED_SECTIONS as nat), REQUIRED_SECTIONS as nat)
            == with_sections(content, REQUIRED_SECTIONS as nat),
{
    let r = with_sections(content, REQUIRED_SECTIONS as nat);
    lemma_sections_grow(content, REQUIRED_SECTIONS as nat);
    lemma_sections_stable(r, REQUIRED_SECTIONS as nat);
}

} // verus!
