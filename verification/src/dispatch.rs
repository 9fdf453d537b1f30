//! Which plugin answers which command, and where a command line goes.
use vstd::prelude::*;
use crate::text::text_eq;

verus! {

/// Whether no two entries name the same command.
pub open spec fn keys_unique(entries: Seq<(String, usize)>) -> bool {
    forall|i: int, j: int| 0 <= i < j < entries.len() ==> #[trigger] entries[i].0@ != #[trigger] entries[j].0@
}

/// The map from command to plugin that the entries spell out.
pub open spec fn entries_map(entries: Seq<(String, usize)>) -> Map<Seq<char>, usize>
    decreases entries.len(),
{
    if entries.len() == 0 {
        Map::empty()
    } else {
        entries_map(entries.drop_last()).insert(entries.last().0@, entries.last().1)
    }
}

/// Whether `commands` offers the command `k`.
pub open spec fn offers(commands: Seq<String>, k: Seq<char>) -> bool {
    exists|j: int| 0 <= j < commands.len() && #[trigger] commands[j]@ == k
}

/// The commands that loaded plugins offer, each tied to the position of the
/// plugin that answers it.
pub struct CommandTable {
    entries: Vec<(String, usize)>,
}

impl View for CommandTable {
    type V = Map<Seq<char>, usize>;

    closed spec fn view(&self) -> Map<Seq<char>, usize> {
        entries_map(self.entries@)
    }
}

proof fn lemma_entries_map_at(entries: Seq<(String, usize)>, i: int)
    requires
        keys_unique(entries),
        0 <= i < entries.len(),
    ensures
        entries_map(entries).contains_key(entries[i].0@),
        entries_map(entries)[entries[i].0@] == entries[i].1,
    decreases entries.len(),
{
    if i < entries.len() - 1 {
        let d = entries.drop_last();
        assert(keys_unique(d)) by {
            assert forall|a: int, b: int| 0 <= a < b < d.len() implies #[trigger] d[a].0@ != #[trigger] d[b].0@ by {
                assert(entries[a].0@ != entries[b].0@);
            }
        }
        lemma_entries_map_at(d, i);
        assert(entries[i].0@ != entries.last().0@);
    }
}

proof fn lemma_entries_map_absent(entries: Seq<(String, usize)>, k: Seq<char>)
    requires
        forall|i: int| 0 <= i < entries.len() ==> #[trigger] entries[i].0@ != k,
    ensures
        !entries_map(entries).contains_key(k),
    decreases entries.len(),
{
    if entries.len() > 0 {
        let d = entries.drop_last();
        assert forall|i: int| 0 <= i < d.len() implies #[trigger] d[i].0@ != k by {
            assert(entries[i].0@ != k);
        }
        lemma_entries_map_absent(d, k);
        assert(entries.last().0@ != k);
    }
}

proof fn lemma_entries_map_update(entries: Seq<(String, usize)>, i: int, e: (String, usize))
    requires
        keys_unique(entries),
        0 <= i < entries.len(),
        entries[i].0@ == e.0@,
    ensures
        entries_map(entries.update(i, e)) == entries_map(entries).insert(e.0@, e.1),
        keys_unique(entries.update(i, e)),
    decreases entries.len(),
{
    let u = entries.update(i, e);
    assert(keys_unique(u)) by {
        assert forall|a: int, b: int| 0 <= a < b < u.len() implies #[trigger] u[a].0@ != #[trigger] u[b].0@ by {
            assert(entries[a].0@ != entries[b].0@);
        }
    }
    if i == entries.len() - 1 {
        assert(u.drop_last() == entries.drop_last());
        assert(entries_map(u) == entries_map(entries).insert(e.0@, e.1));
    } else {
        let d = entries.drop_last();
        assert(keys_unique(d)) by {
            assert forall|a: int, b: int| 0 <= a < b < d.len() implies #[trigger] d[a].0@ != #[trigger] d[b].0@ by {
                assert(entries[a].0@ != entries[b].0@);
            }
        }
        lemma_entries_map_update(d, i, e);
        assert(u.drop_last() == d.update(i, e));
        assert(entries.last().0@ != e.0@);
        assert(entries_map(u) == entries_map(entries).insert(e.0@, e.1));
    }
}

/// Position of the entry for `command`, if there is one.
fn find_entry(entries: &Vec<(String, usize)>, command: &str) -> (res: Option<usize>)
    ensures
        res matches Some(i) ==> i < entries@.len() && entries@[i as int].0@ == command@,
        res is None ==> forall|i: int| 0 <= i < entries@.len() ==> #[trigger] entries@[i].0@ != command@,
{
    let mut i: usize = 0;
    while i < entries.len()
        invariant
            i <= entries@.len(),
            forall|j: int| 0 <= j < i ==> #[trigger] entries@[j].0@ != command@,
        decreases entries.len() - i,
    {
        if text_eq(entries[i].0.as_str(), command) {
            return Some(i);
        }
        i += 1;
    }
    None
}

impl CommandTable {
    /// No two entries name the same command.
    #[verifier::type_invariant]
    spec fn wf(&self) -> bool {
        keys_unique(self.entries@)
    }

    /// Returns a table with no command.
    pub fn new() -> (t: CommandTable)
        ensures
            t@ == Map::<Seq<char>, usize>::empty(),
    {
        CommandTable { entries: Vec::new() }
    }

    /// Returns the plugin that answers `command`, if any.
    pub fn lookup(&self, command: &str) -> (res: Option<usize>)
        ensures
            res == (if self@.contains_key(command@) { Some(self@[command@]) } else { None }),
    {
        proof {
            use_type_invariant(self);
        }
        match find_entry(&self.entries, command) {
            Some(i) => {
                proof {
                    lemma_entries_map_at(self.entries@, i as int);
                }
                Some(self.entries[i].1)
            },
            None => {
                proof {
                    lemma_entries_map_absent(self.entries@, command@);
                }
                None
            },
        }
    }

    /// Ties `command` to `plugin`; a command already in the table moves to
    /// the new plugin.
    pub fn insert(&mut self, command: String, plugin: usize)
        ensures
            final(self)@ == old(self)@.insert(command@, plugin),
    {
        proof {
            use_type_invariant(&*self);
        }
        let mut entries: Vec<(String, usize)> = Vec::new();
        std::mem::swap(&mut entries, &mut self.entries);
        let ghost prev = entries@;
        let found = find_entry(&entries, command.as_str());
        if let Some(i) = found {
            proof {
                lemma_entries_map_update(prev, i as int, (command, plugin));
            }
            entries.set(i, (command, plugin));
        } else {
            entries.push((command, plugin));
            proof {
                assert(entries@.drop_last() == prev);
                assert forall|a: int, b: int| 0 <= a < b < entries@.len() implies
                    #[trigger] entries@[a].0@ != #[trigger] entries@[b].0@ by {
                    if b == prev.len() {
                        assert(prev[a].0@ != command@);
                    } else {
                        assert(prev[a].0@ != prev[b].0@);
                    }
                }
            }
        }
        self.entries = entries;
    }

    /// Ties every command in `commands` to `plugin`, in order.
    pub fn register_plugin(&mut self, commands: &Vec<String>, plugin: usize)
        ensures
            forall|k: Seq<char>| #[trigger] final(self)@.contains_key(k) <==>
                (old(self)@.contains_key(k) || offers(commands@, k)),
            forall|k: Seq<char>| offers(commands@, k) ==> #[trigger] final(self)@[k] == plugin,
            forall|k: Seq<char>| !offers(commands@, k) ==> #[trigger] final(self)@[k] == old(self)@[k],
    {
        let ghost start = self@;
        let mut i: usize = 0;
        while i < commands.len()
            invariant
                i <= commands.len(),
                forall|k: Seq<char>| #[trigger] self@.contains_key(k) <==>
                    (start.contains_key(k) || offers(commands@.take(i as int), k)),
                forall|k: Seq<char>| offers(commands@.take(i as int), k) ==> #[trigger] self@[k] == plugin,
                forall|k: Seq<char>| !offers(commands@.take(i as int), k) ==> #[trigger] self@[k] == start[k],
            decreases commands.len() - i,
        {
            let c = commands[i].clone();
            self.insert(c, plugin);
            proof {
                let t = commands@.take(i + 1);
                assert(t == commands@.take(i as int).push(commands@[i as int]));
                assert forall|k: Seq<char>| offers(t, k) <==> (offers(commands@.take(i as int), k) || k == commands@[i as int]@) by {
                    if offers(t, k) {
                        let j = choose|j: int| 0 <= j < t.len() && #[trigger] t[j]@ == k;
                        if j < i {
                            assert(commands@.take(i as int)[j] == t[j]);
                        }
                    }
                    if offers(commands@.take(i as int), k) {
                        let j = choose|j: int| 0 <= j < i && #[trigger] commands@.take(i as int)[j]@ == k;
                        assert(t[j] == commands@.take(i as int)[j]);
                    }
                    if k == commands@[i as int]@ {
                        assert(t[i as int]@ == k);
                    }
                }
            }
            i += 1;
        }
        assert(commands@.take(commands.len() as int) == commands@);
    }

}

/// The commands that the core answers itself.
#[derive(PartialEq, Eq, Structural)]
pub enum Builtin {
    Version,
    Update,
    Help,
    ClearCache,
}

/// Where a command line goes.
#[derive(PartialEq, Eq, Structural)]
pub enum Route {
    /// No command was given: show how to call the program.
    Usage,
    /// A command that the core answers.
    Builtin(Builtin),
    /// A command answered by the plugin at this position.
    Plugin(usize),
    /// A command that nobody answers.
    Unknown,
}

/// The built-in command called `c`, if there is one.
pub open spec fn builtin_named(c: Seq<char>) -> Option<Builtin> {
    if c == "version"@ {
        Some(Builtin::Version)
    } else if c == "update"@ {
        Some(Builtin::Update)
    } else if c == "help"@ {
        Some(Builtin::Help)
    } else if c == "clear-cache"@ {
        Some(Builtin::ClearCache)
    } else {
        None
    }
}

/// Where the command line `args` (the program's name first) goes: nowhere
/// without a command; to the core for a built-in command; else to the plugin
/// that offers the command, if one does.
pub open spec fn spec_route(args: Seq<String>, table: Map<Seq<char>, usize>) -> Route {
    if args.len() < 2 {
        Route::Usage
    } else {
        let c = args[1]@;
        match builtin_named(c) {
            Some(b) => Route::Builtin(b),
            None => if table.contains_key(c) {
                Route::Plugin(table[c])
            } else {
                Route::Unknown
            },
        }
    }
}

/// Returns the built-in command called `c`, if there is one.
pub fn find_builtin(c: &str) -> (res: Option<Builtin>)
    ensures
        res == builtin_named(c@),
{
    if text_eq(c, "version") {
        Some(Builtin::Version)
    } else if text_eq(c, "update") {
        Some(Builtin::Update)
    } else if text_eq(c, "help") {
        Some(Builtin::Help)
    } else if text_eq(c, "clear-cache") {
        Some(Builtin::ClearCache)
    } else {
        None
    }
}

/// Returns where the command line `args` (the program's name first) goes.
pub fn route(args: &[String], table: &CommandTable) -> (r: Route)
    ensures
        r == spec_route(args@, table@),
        args@.len() < 2 ==> r == Route::Usage,
        args@.len() >= 2 && args@[1]@ == "version"@ ==> r == Route::Builtin(Builtin::Version),
        args@.len() >= 2 && args@[1]@ == "update"@ ==> r == Route::Builtin(Builtin::Update),
        args@.len() >= 2 && args@[1]@ == "help"@ ==> r == Route::Builtin(Builtin::Help),
        args@.len() >= 2 && args@[1]@ == "clear-cache"@ ==> r == Route::Builtin(Builtin::ClearCache),
        (args@.len() >= 2 && args@[1]@ != "version"@ && args@[1]@ != "update"@ && args@[1]@ != "help"@
            && args@[1]@ != "clear-cache"@) ==> r == (if table@.contains_key(args@[1]@) {
            Route::Plugin(table@[args@[1]@])
        } else {
            Route::Unknown
        }),
{
    proof {
        reveal_strlit("version");
        reveal_strlit("update");
        reveal_strlit("help");
        reveal_strlit("clear-cache");
        assert("version"@.len() == 7 && "update"@.len() == 6 && "help"@.len() == 4 && "clear-cache"@.len() == 11);
    }
    if args.len() < 2 {
        return Route::Usage;
    }
    let c = args[1].as_str();
    match find_builtin(c) {
        Some(b) => Route::Builtin(b),
        None => match table.lookup(c) {
            Some(p) => Route::Plugin(p),
            None => Route::Unknown,
        },
    }
}

/// Returns whether some argument asks for the core's version (`--version`).
pub fn wants_core_version(args: &[String]) -> (res: bool)
    ensures
        res == exists|i: int| 0 <= i < args@.len() && #[trigger] args@[i]@ == "--version"@,
{
    let mut i: usize = 0;
    while i < args.len()
        invariant
            i <= args.len(),
            forall|j: int| 0 <= j < i ==> #[trigger] args@[j]@ != "--version"@,
        decreases args.len() - i,
    {
        if text_eq(args[i].as_str(), "--version") {
            return true;
        }
        i += 1;
    }
    false
}

/// A built-in command is answered by the core whatever plugin offers a
/// command of the same name.
pub proof fn law_builtins_shadow_plugins(args: Seq<String>, table: Map<Seq<char>, usize>)
    requires
        args.len() >= 2,
        builtin_named(args[1]@) is Some,
    ensures
        spec_route(args, table) == Route::Builtin(builtin_named(args[1]@)->0),
{
}

/// A command tied to a plugin is then routed to that plugin, unless it is
/// built in; the commands of other plugins keep their routes.
pub proof fn law_route_after_insert(
    args: Seq<String>,
    table: Map<Seq<char>, usize>,
    command: Seq<char>,
    plugin: usize,
)
    requires
        args.len() >= 2,
    ensures
        args[1]@ == command && builtin_named(command) is None ==>
            spec_route(args, table.insert(command, plugin)) == Route::Plugin(plugin),
        args[1]@ != command ==>
            spec_route(args, table.insert(command, plugin)) == spec_route(args, table),
{
}

} // verus!
