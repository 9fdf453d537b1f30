//! The text that the `version` and `help` commands print, line by line.
use vstd::prelude::*;
use crate::text::push_char;

verus! {

/// `n` spaces.
pub open spec fn spaces(n: nat) -> Seq<char> {
    Seq::new(n, |i: int| ' ')
}

/// `s` left-aligned in a field of `width` characters (as `{:<width}` prints it).
pub open spec fn padded(s: Seq<char>, width: nat) -> Seq<char> {
    if s.len() < width {
        s + spaces((width - s.len()) as nat)
    } else {
        s
    }
}

/// The branch drawn before an item of a tree: a corner for the last one.
pub open spec fn branch(is_last: bool) -> Seq<char> {
    if is_last {
        "└──"@
    } else {
        "├──"@
    }
}

/// The views of a list of lines.
pub open spec fn lines_view(lines: Seq<String>) -> Seq<Seq<char>> {
    lines.map_values(|l: String| l@)
}

/// Returns `s` left-aligned in a field of `width` characters.
pub fn pad_right(s: &str, width: usize) -> (res: String)
    ensures
        res@ == padded(s@, width as nat),
{
    let mut res = s.to_owned();
    let n = s.unicode_len();
    if n < width {
        let mut k = n;
        while k < width
            invariant
                n <= k <= width,
                n == s@.len(),
                res@ == s@ + spaces((k - n) as nat),
            decreases width - k,
        {
            push_char(&mut res, ' ');
            assert(spaces((k + 1 - n) as nat) == spaces((k - n) as nat).push(' '));
            k += 1;
        }
    }
    res
}

/// Returns the branch drawn before an item of a tree.
pub fn tree_branch(is_last: bool) -> (res: &'static str)
    ensures
        res@ == branch(is_last),
{
    if is_last {
        "└──"
    } else {
        "├──"
    }
}

/// What the `version` command shows of one plugin.
pub struct PluginRow {
    pub name: String,
    pub version: String,
    pub enabled: bool,
    /// The version it could be updated to, when updates were looked for and one exists.
    pub update: Option<String>,
}

/// The state shown for a plugin: the update it can take, or whether it is enabled.
pub open spec fn status_text(row: PluginRow) -> Seq<char> {
    match row.update {
        Some(n) => "-> v"@ + n@ + " (actualizar)"@,
        None => if row.enabled {
            "activo"@
        } else {
            "inactivo"@
        },
    }
}

/// The line shown for a plugin.
pub open spec fn row_line(row: PluginRow, is_last: bool) -> Seq<char> {
    branch(is_last) + " "@ + row.name@ + " v"@ + row.version@ + " ("@ + status_text(row) + ")"@
}

/// The line shown for the core, with the update it can take if one is known.
pub open spec fn core_line(core_version: Seq<char>, update: Option<Seq<char>>) -> Seq<char> {
    match update {
        Some(n) => "basalto-core v"@ + core_version + " -> v"@ + n + " (actualizar)"@,
        None => "basalto-core v"@ + core_version,
    }
}

/// A plugin's line shows the update it can take whenever it carries one,
/// enabled or not; only without an update does it show `activo` for an
/// enabled plugin and `inactivo` for a disabled one.
pub proof fn law_row_status(row: PluginRow, is_last: bool)
    ensures
        row.update is Some ==> row_line(row, is_last) == branch(is_last) + " "@ + row.name@ + " v"@ + row.version@
            + " ("@ + ("-> v"@ + row.update.unwrap()@ + " (actualizar)"@) + ")"@,
        (row.update is None && row.enabled) ==> row_line(row, is_last) == branch(is_last) + " "@ + row.name@
            + " v"@ + row.version@ + " ("@ + "activo"@ + ")"@,
        (row.update is None && !row.enabled) ==> row_line(row, is_last) == branch(is_last) + " "@ + row.name@
            + " v"@ + row.version@ + " ("@ + "inactivo"@ + ")"@,
{
}

/// Returns the line shown for the core.
pub fn core_version_line(core_version: &str, update: &Option<String>) -> (res: String)
    ensures
        res@ == core_line(core_version@, match update { Some(n) => Some(n@), None => None }),
{
    let mut res = "basalto-core v".to_owned();
    res.append(core_version);
    match update {
        Some(n) => {
            res.append(" -> v");
            res.append(n.as_str());
            res.append(" (actualizar)");
        },
        None => {},
    }
    res
}

/// Returns the line shown for a plugin.
pub fn plugin_row_line(row: &PluginRow, is_last: bool) -> (res: String)
    ensures
        res@ == row_line(*row, is_last),
        row.update is Some ==> res@ == branch(is_last) + " "@ + row.name@ + " v"@ + row.version@ + " ("@
            + ("-> v"@ + row.update.unwrap()@ + " (actualizar)"@) + ")"@,
        (row.update is None && row.enabled) ==> res@ == branch(is_last) + " "@ + row.name@ + " v"@
            + row.version@ + " ("@ + "activo"@ + ")"@,
        (row.update is None && !row.enabled) ==> res@ == branch(is_last) + " "@ + row.name@ + " v"@
            + row.version@ + " ("@ + "inactivo"@ + ")"@,
{
    proof {
        law_row_status(*row, is_last);
    }
    let mut res = tree_branch(is_last).to_owned();
    res.append(" ");
    res.append(row.name.as_str());
    res.append(" v");
    res.append(row.version.as_str());
    res.append(" (");
    match &row.update {
        Some(n) => {
            res.append("-> v");
            res.append(n.as_str());
            res.append(" (actualizar)");
        },
        None => {
            if row.enabled {
                res.append("activo");
            } else {
                res.append("inactivo");
            }
        },
    }
    res.append(")");
    res
}

/// Returns what the `version` command prints: the core's line, then one
/// line per listed plugin, the last one drawn with a corner.
pub fn version_report(core_version: &str, core_update: &Option<String>, rows: &Vec<PluginRow>) -> (lines: Vec<String>)
    ensures
        lines@.len() == rows@.len() + 1,
        lines@[0]@ == core_line(core_version@, match core_update { Some(n) => Some(n@), None => None }),
        forall|i: int| 0 <= i < rows@.len() ==>
            #[trigger] lines@[i + 1]@ == row_line(rows@[i], i + 1 == rows@.len()),
{
    let mut lines: Vec<String> = Vec::new();
    lines.push(core_version_line(core_version, core_update));
    let total = rows.len();
    let mut i: usize = 0;
    while i < total
        invariant
            total == rows@.len(),
            i <= total,
            lines@.len() == i + 1,
            lines@[0]@ == core_line(core_version@, match core_update { Some(n) => Some(n@), None => None }),
            forall|j: int| 0 <= j < i ==> #[trigger] lines@[j + 1]@ == row_line(rows@[j], j + 1 == rows@.len()),
        decreases total - i,
    {
        let line = plugin_row_line(&rows[i], i + 1 == total);
        lines.push(line);
        i += 1;
    }
    lines
}

} // verus!
