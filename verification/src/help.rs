//! The text that the `help` command prints: the built-in commands, then the
//! commands of each enabled plugin, drawn as a tree.
use vstd::prelude::*;
use crate::contract::{CommandHelp, FlagHelp};
use crate::report::{branch, lines_view, padded, pad_right, tree_branch};

verus! {

/// What the help knows of one enabled plugin: its name and, when its loaded
/// instance was found, how it describes its commands.
pub struct PluginHelp {
    pub name: String,
    pub commands: Option<Vec<CommandHelp>>,
}

/// The indentation of a flag under its command: a vertical bar unless the
/// command is the last item of the tree.
pub open spec fn flag_indent(parent_is_last: bool) -> Seq<char> {
    if parent_is_last {
        "    "@
    } else {
        "│   "@
    }
}

/// The line shown for a flag.
pub open spec fn flag_line(f: FlagHelp, parent_is_last: bool, is_last: bool) -> Seq<char> {
    flag_indent(parent_is_last) + branch(is_last) + "  "@ + padded(f.name@, 14) + " "@ + f.description@
}

/// The lines shown for the first `n` flags of a command.
pub open spec fn flag_lines(flags: Seq<FlagHelp>, parent_is_last: bool, n: nat) -> Seq<Seq<char>>
    decreases n,
{
    if n == 0 {
        Seq::empty()
    } else {
        flag_lines(flags, parent_is_last, (n - 1) as nat).push(
            flag_line(flags[n - 1], parent_is_last, n == flags.len()),
        )
    }
}

/// The line shown for a command.
pub open spec fn command_line(c: CommandHelp, is_last: bool) -> Seq<char> {
    branch(is_last) + " "@ + padded(c.name@, 18) + " "@ + c.description@
}

/// The lines shown for a command and its flags.
pub open spec fn command_lines(c: CommandHelp, is_last: bool) -> Seq<Seq<char>> {
    seq![command_line(c, is_last)] + flag_lines(c.flags@, is_last, c.flags@.len())
}

/// The lines shown for the first `n` commands of a list; the last command of
/// the list closes the tree when `closes` holds.
pub open spec fn commands_lines(cmds: Seq<CommandHelp>, closes: bool, n: nat) -> Seq<Seq<char>>
    decreases n,
{
    if n == 0 {
        Seq::empty()
    } else {
        commands_lines(cmds, closes, (n - 1) as nat) + command_lines(cmds[n - 1], closes && n == cmds.len())
    }
}

/// The lines shown for an enabled plugin: a blank line, its name, then its
/// commands when its instance was found.
pub open spec fn section_lines(p: PluginHelp) -> Seq<Seq<char>> {
    seq![Seq::<char>::empty(), p.name@ + ":"@] + match p.commands {
        Some(c) => commands_lines(c@, true, c@.len()),
        None => Seq::empty(),
    }
}

/// The lines shown for the first `n` enabled plugins.
pub open spec fn sections_lines(ps: Seq<PluginHelp>, n: nat) -> Seq<Seq<char>>
    decreases n,
{
    if n == 0 {
        Seq::empty()
    } else {
        sections_lines(ps, (n - 1) as nat) + section_lines(ps[n - 1])
    }
}

/// Everything the `help` command prints: the core's version and a blank
/// line, the built-in commands (the last one closes the tree when no plugin
/// follows), then each enabled plugin.
pub open spec fn help_lines(version: Seq<char>, builtins: Seq<CommandHelp>, plugins: Seq<PluginHelp>) -> Seq<Seq<char>> {
    seq!["basalto v"@ + version, Seq::<char>::empty()]
        + commands_lines(builtins, plugins.len() == 0, builtins.len())
        + sections_lines(plugins, plugins.len())
}

proof fn lemma_push_line(lines: Seq<String>, s: String)
    ensures
        lines_view(lines.push(s)) == lines_view(lines).push(s@),
{
    assert(lines_view(lines.push(s)) == lines_view(lines).push(s@));
}

fn push_line(lines: &mut Vec<String>, s: String)
    ensures
        lines_view(final(lines)@) == lines_view(old(lines)@).push(s@),
{
    proof {
        lemma_push_line(lines@, s);
    }
    lines.push(s);
}

fn flag_text(f: &FlagHelp, parent_is_last: bool, is_last: bool) -> (res: String)
    ensures
        res@ == flag_line(*f, parent_is_last, is_last),
{
    let mut res = if parent_is_last { "    ".to_owned() } else { "│   ".to_owned() };
    res.append(tree_branch(is_last));
    res.append("  ");
    let name = pad_right(f.name.as_str(), 14);
    res.append(name.as_str());
    res.append(" ");
    res.append(f.description.as_str());
    res
}

fn push_command(lines: &mut Vec<String>, c: &CommandHelp, is_last: bool)
    ensures
        lines_view(final(lines)@) == lines_view(old(lines)@) + command_lines(*c, is_last),
{
    let ghost start = lines_view(lines@);
    let mut head = tree_branch(is_last).to_owned();
    head.append(" ");
    let name = pad_right(c.name.as_str(), 18);
    head.append(name.as_str());
    head.append(" ");
    head.append(c.description.as_str());
    push_line(lines, head);
    let total = c.flags.len();
    let mut i: usize = 0;
    while i < total
        invariant
            total == c.flags@.len(),
            i <= total,
            lines_view(lines@) == start + seq![command_line(*c, is_last)] + flag_lines(c.flags@, is_last, i as nat),
        decreases total - i,
    {
        let line = flag_text(&c.flags[i], is_last, i + 1 == total);
        push_line(lines, line);
        i += 1;
    }
}

fn push_commands(lines: &mut Vec<String>, cmds: &Vec<CommandHelp>, closes: bool)
    ensures
        lines_view(final(lines)@) == lines_view(old(lines)@) + commands_lines(cmds@, closes, cmds@.len()),
{
    let ghost start = lines_view(lines@);
    let total = cmds.len();
    let mut i: usize = 0;
    while i < total
        invariant
            total == cmds@.len(),
            i <= total,
            lines_view(lines@) == start + commands_lines(cmds@, closes, i as nat),
        decreases total - i,
    {
        push_command(lines, &cmds[i], closes && i + 1 == total);
        i += 1;
    }
}

/// Returns the lines that the `help` command prints.
pub fn help_report(version: &str, builtins: &Vec<CommandHelp>, plugins: &Vec<PluginHelp>) -> (lines: Vec<String>)
    ensures
        lines_view(lines@) == help_lines(version@, builtins@, plugins@),
{
    let mut lines: Vec<String> = Vec::new();
    let mut title = "basalto v".to_owned();
    title.append(version);
    push_line(&mut lines, title);
    push_line(&mut lines, String::new());
    push_commands(&mut lines, builtins, plugins.len() == 0);
    let ghost start = lines_view(lines@);
    let total = plugins.len();
    let mut i: usize = 0;
    while i < total
        invariant
            total == plugins@.len(),
            i <= total,
            lines_view(lines@) == start + sections_lines(plugins@, i as nat),
        decreases total - i,
    {
        let p = &plugins[i];
        push_line(&mut lines, String::new());
        let mut head = p.name.clone();
        head.append(":");
        push_line(&mut lines, head);
        match &p.commands {
            Some(c) => push_commands(&mut lines, c, true),
            None => {},
        }
        i += 1;
    }
    lines
}

/// Returns how the built-in commands are described in the help: every
/// command that the core answers, each with its flags.
pub fn builtin_help() -> (cmds: Vec<CommandHelp>)
    ensures
        cmds@.len() == 4,
        cmds@[0].name@ == "version"@,
        cmds@[0].description@ == "Muestra la version del core y los plugins"@,
        cmds@[0].flags@.len() == 3,
        cmds@[0].flags@[0].name@ == "--active"@,
        cmds@[0].flags@[0].description@ == "Solo plugins activos"@,
        cmds@[0].flags@[1].name@ == "--inactive"@,
        cmds@[0].flags@[1].description@ == "Solo plugins inactivos"@,
        cmds@[0].flags@[2].name@ == "--check"@,
        cmds@[0].flags@[2].description@ == "Verifica actualizaciones disponibles"@,
        cmds@[1].name@ == "update"@,
        cmds@[1].description@ == "Actualiza todos los plugins y el core"@,
        cmds@[1].flags@.len() == 1,
        cmds@[1].flags@[0].name@ == "--clean"@,
        cmds@[1].flags@[0].description@ == "Limpia el cache antes de actualizar (reinstalacion completa)"@,
        cmds@[2].name@ == "help"@,
        cmds@[2].description@ == "Muestra este mensaje"@,
        cmds@[2].flags@.len() == 0,
        cmds@[3].name@ == "clear-cache"@,
        cmds@[3].description@ == "Muestra el tamanio del cache y pide confirmacion para borrarlo"@,
        cmds@[3].flags@.len() == 1,
        cmds@[3].flags@[0].name@ == "--yes"@,
        cmds@[3].flags@[0].description@ == "Borra el cache sin pedir confirmacion"@,
{
    let mut version_flags: Vec<FlagHelp> = Vec::new();
    version_flags.push(FlagHelp { name: "--active".to_owned(), description: "Solo plugins activos".to_owned() });
    version_flags.push(FlagHelp { name: "--inactive".to_owned(), description: "Solo plugins inactivos".to_owned() });
    version_flags.push(FlagHelp {
        name: "--check".to_owned(),
        description: "Verifica actualizaciones disponibles".to_owned(),
    });
    let mut cmds: Vec<CommandHelp> = Vec::new();
    cmds.push(CommandHelp {
        name: "version".to_owned(),
        description: "Muestra la version del core y los plugins".to_owned(),
        flags: version_flags,
    });
    let mut update_flags: Vec<FlagHelp> = Vec::new();
    update_flags.push(FlagHelp {
        name: "--clean".to_owned(),
        description: "Limpia el cache antes de actualizar (reinstalacion completa)".to_owned(),
    });
    cmds.push(CommandHelp {
        name: "update".to_owned(),
        description: "Actualiza todos los plugins y el core".to_owned(),
        flags: update_flags,
    });
    cmds.push(CommandHelp {
        name: "help".to_owned(),
        description: "Muestra este mensaje".to_owned(),
        flags: Vec::new(),
    });
    let mut clear_flags: Vec<FlagHelp> = Vec::new();
    clear_flags.push(FlagHelp { name: "--yes".to_owned(), description: "Borra el cache sin pedir confirmacion".to_owned() });
    cmds.push(CommandHelp {
        name: "clear-cache".to_owned(),
        description: "Muestra el tamanio del cache y pide confirmacion para borrarlo".to_owned(),
        flags: clear_flags,
    });
    cmds
}

} // verus!
