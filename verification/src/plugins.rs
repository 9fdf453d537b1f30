//! Plugin declarations (`~/.basalto/plugins/*.toml`) and which of them the
//! `version` command lists.
use vstd::prelude::*;
use crate::naming::ends_with;
use crate::text::{chars_of, text_eq};

verus! {

/// One declared plugin: its git address, the branch to build and whether it
/// is loaded.
pub struct PluginConf {
    pub source: String,
    pub branch: String,
    pub enabled: bool,
}

/// The ending of a plugin declaration's file name.
pub open spec fn toml_suffix() -> Seq<char> {
    seq!['.', 't', 'o', 'm', 'l']
}

/// Whether a file of the plugins directory is a plugin declaration: its
/// name matches `*.toml`, so it ends with `.toml` and does not begin with a
/// dot.
pub open spec fn is_declaration_name(name: Seq<char>) -> bool {
    ends_with(name, toml_suffix()) && !(name.len() > 0 && name[0] == '.')
}

/// Returns whether the file called `file_name` in the plugins directory
/// declares a plugin.
pub fn is_plugin_declaration(file_name: &str) -> (res: bool)
    ensures
        res == is_declaration_name(file_name@),
        res == (file_name@.len() >= 5
            && file_name@.subrange(file_name@.len() - 5, file_name@.len() as int) == seq!['.', 't', 'o', 'm', 'l']
            && file_name@[0] != '.'),
{
    proof {
        let n = file_name@;
        if n.len() >= 5 {
            assert(n.skip(n.len() - 5) == n.subrange(n.len() - 5, n.len() as int));
        }
    }
    let v = chars_of(file_name);
    let suffix: Vec<char> = vec!['.', 't', 'o', 'm', 'l'];
    assert(suffix@ == toml_suffix());
    if v.len() < 5 || v[0] == '.' {
        return false;
    }
    let start = v.len() - 5;
    let mut k: usize = 0;
    while k < 5
        invariant
            v@ == file_name@,
            start + 5 == v.len(),
            suffix@ == toml_suffix(),
            k <= 5,
            forall|j: int| 0 <= j < k ==> v@[start + j] == suffix@[j],
        decreases 5 - k,
    {
        if v[start + k] != suffix[k] {
            assert(v@.skip(start as int)[k as int] == v@[start + k]);
            return false;
        }
        k += 1;
    }
    assert(v@.skip(start as int) == toml_suffix());
    true
}

/// The flags that the `version` command understands.
#[derive(PartialEq, Eq, Structural)]
pub struct VersionFlags {
    /// `--check`: look for updates.
    pub check: bool,
    /// `--active`: list enabled plugins only.
    pub active: bool,
    /// `--inactive`: list disabled plugins only.
    pub inactive: bool,
}

/// Whether some argument is exactly `flag`.
pub open spec fn has_flag(args: Seq<&str>, flag: Seq<char>) -> bool {
    exists|i: int| 0 <= i < args.len() && #[trigger] args[i]@ == flag
}

/// Returns whether some argument is exactly `flag`.
pub fn contains_arg(args: &[&str], flag: &str) -> (res: bool)
    ensures
        res == has_flag(args@, flag@),
{
    let mut i: usize = 0;
    while i < args.len()
        invariant
            i <= args.len(),
            forall|j: int| 0 <= j < i ==> args@[j]@ != flag@,
        decreases args.len() - i,
    {
        if text_eq(args[i], flag) {
            return true;
        }
        i += 1;
    }
    false
}

/// Returns which of `--check`, `--active` and `--inactive` the arguments hold.
pub fn version_flags(args: &[&str]) -> (flags: VersionFlags)
    ensures
        flags.check == has_flag(args@, "--check"@),
        flags.active == has_flag(args@, "--active"@),
        flags.inactive == has_flag(args@, "--inactive"@),
{
    VersionFlags {
        check: contains_arg(args, "--check"),
        active: contains_arg(args, "--active"),
        inactive: contains_arg(args, "--inactive"),
    }
}

/// Whether a plugin enabled or not (`enabled`) is listed under `flags`:
/// `--active` lists the enabled ones, otherwise `--inactive` the disabled
/// ones, otherwise all.
pub open spec fn is_listed(flags: VersionFlags, enabled: bool) -> bool {
    if flags.active {
        enabled
    } else if flags.inactive {
        !enabled
    } else {
        true
    }
}

/// The positions, in order, of the plugins among the first `n` that `flags` lists.
pub open spec fn listed_positions(plugins: Seq<PluginConf>, flags: VersionFlags, n: nat) -> Seq<usize>
    decreases n,
{
    if n == 0 {
        Seq::empty()
    } else {
        let prev = listed_positions(plugins, flags, (n - 1) as nat);
        if is_listed(flags, plugins[n - 1].enabled) {
            prev.push((n - 1) as usize)
        } else {
            prev
        }
    }
}

/// Returns the positions, in order, of the plugins that `flags` lists.
pub fn select_plugins(plugins: &[PluginConf], flags: &VersionFlags) -> (res: Vec<usize>)
    ensures
        res@ == listed_positions(plugins@, *flags, plugins@.len()),
        forall|p: int| 0 <= p < plugins@.len() ==> (#[trigger] res@.contains(p as usize) <==> (
            if flags.active {
                plugins@[p].enabled
            } else if flags.inactive {
                !plugins@[p].enabled
            } else {
                true
            })),
{
    let mut res: Vec<usize> = Vec::new();
    let mut i: usize = 0;
    while i < plugins.len()
        invariant
            i <= plugins.len(),
            res@ == listed_positions(plugins@, *flags, i as nat),
        decreases plugins.len() - i,
    {
        let listed = if flags.active {
            plugins[i].enabled
        } else if flags.inactive {
            !plugins[i].enabled
        } else {
            true
        };
        if listed {
            res.push(i);
        }
        i += 1;
    }
    proof {
        law_listed_by_state(plugins@, *flags);
    }
    res
}

proof fn lemma_listed_positions(plugins: Seq<PluginConf>, flags: VersionFlags, n: nat)
    requires
        n <= plugins.len() <= usize::MAX,
    ensures
        forall|k: int| 0 <= k < listed_positions(plugins, flags, n).len() ==> {
            let p = #[trigger] listed_positions(plugins, flags, n)[k];
            &&& p < n
            &&& is_listed(flags, plugins[p as int].enabled)
        },
        forall|k: int, l: int| 0 <= k < l < listed_positions(plugins, flags, n).len() ==>
            #[trigger] listed_positions(plugins, flags, n)[k] < #[trigger] listed_positions(plugins, flags, n)[l],
        forall|p: int| 0 <= p < n && is_listed(flags, #[trigger] plugins[p].enabled) ==>
            listed_positions(plugins, flags, n).contains(p as usize),
    decreases n,
{
    if n > 0 {
        lemma_listed_positions(plugins, flags, (n - 1) as nat);
        let prev = listed_positions(plugins, flags, (n - 1) as nat);
        let cur = listed_positions(plugins, flags, n);
        assert forall|k: int, l: int| 0 <= k < l < cur.len() implies #[trigger] cur[k] < #[trigger] cur[l] by {
            if l == prev.len() {
                assert(prev[k] < n - 1);
            } else {
                assert(prev[k] < prev[l]);
            }
        }
        assert forall|p: int| 0 <= p < n && is_listed(flags, #[trigger] plugins[p].enabled) implies
            listed_positions(plugins, flags, n).contains(p as usize) by {
            if p < n - 1 {
                let k = choose|k: int| 0 <= k < prev.len() && prev[k] == p as usize;
                if is_listed(flags, plugins[n - 1].enabled) {
                    assert(prev.push((n - 1) as usize)[k] == p as usize);
                }
            } else {
                assert(prev.push((n - 1) as usize)[prev.len() as int] == p as usize);
            }
        }
    }
}

/// The `version` command lists exactly the plugins its flags ask for, each
/// once and in the order they were declared: with `--active` the enabled
/// ones, else with `--inactive` the disabled ones, else all of them.
pub proof fn law_listed_plugins(plugins: Seq<PluginConf>, flags: VersionFlags)
    requires
        plugins.len() <= usize::MAX,
    ensures
        forall|k: int| 0 <= k < listed_positions(plugins, flags, plugins.len()).len() ==> {
            let p = #[trigger] listed_positions(plugins, flags, plugins.len())[k];
            &&& p < plugins.len()
            &&& is_listed(flags, plugins[p as int].enabled)
        },
        forall|k: int, l: int| 0 <= k < l < listed_positions(plugins, flags, plugins.len()).len() ==>
            #[trigger] listed_positions(plugins, flags, plugins.len())[k]
                < #[trigger] listed_positions(plugins, flags, plugins.len())[l],
        forall|p: int| 0 <= p < plugins.len() && is_listed(flags, #[trigger] plugins[p].enabled) ==>
            listed_positions(plugins, flags, plugins.len()).contains(p as usize),
{
    lemma_listed_positions(plugins, flags, plugins.len());
}

/// Which plugins `version` lists depends on their state alone, never on
/// `--check`: with `--active` exactly the enabled ones, otherwise with
/// `--inactive` exactly the disabled ones, otherwise every one.
pub proof fn law_listed_by_state(plugins: Seq<PluginConf>, flags: VersionFlags)
    requires
        plugins.len() <= usize::MAX,
    ensures
        forall|p: int| 0 <= p < plugins.len() ==> (
            #[trigger] listed_positions(plugins, flags, plugins.len()).contains(p as usize) <==> (
                if flags.active {
                    plugins[p].enabled
                } else if flags.inactive {
                    !plugins[p].enabled
                } else {
                    true
                }
            )),
{
    lemma_listed_positions(plugins, flags, plugins.len());
    let l = listed_positions(plugins, flags, plugins.len());
    assert forall|p: int| 0 <= p < plugins.len() implies (
        #[trigger] l.contains(p as usize) <==> (
            if flags.active {
                plugins[p].enabled
            } else if flags.inactive {
                !plugins[p].enabled
            } else {
                true
            }
        )) by {
        if l.contains(p as usize) {
            let k = choose|k: int| 0 <= k < l.len() && l[k] == p as usize;
            assert(l[k] == p as usize);
        }
        if is_listed(flags, plugins[p].enabled) {
            assert(l.contains(p as usize));
        }
    }
}

/// The file `name` + `.toml` is a plugin declaration for every non-empty
/// `name` that does not begin with a dot, whatever its characters; and every declaration's name ends with `.toml`
/// and does not begin with a dot.
pub proof fn law_toml_files_are_declarations(name: Seq<char>, file: Seq<char>)
    ensures
        (name.len() > 0 && name[0] != '.') ==> is_declaration_name(name + seq!['.', 't', 'o', 'm', 'l']),
        is_declaration_name(file) ==> (
            file.len() >= 5
            && file.subrange(file.len() - 5, file.len() as int) == seq!['.', 't', 'o', 'm', 'l']
            && file[0] != '.'),
{
    let f = name + seq!['.', 't', 'o', 'm', 'l'];
    assert(f.skip(f.len() - 5) == seq!['.', 't', 'o', 'm', 'l']);
    if name.len() > 0 {
        assert(f[0] == name[0]);
    }
    if is_declaration_name(file) {
        assert(file.skip(file.len() - 5) == file.subrange(file.len() - 5, file.len() as int));
    }
}

} // verus!
