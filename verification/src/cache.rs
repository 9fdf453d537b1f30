//! What the `clear-cache` command does and says.
use vstd::prelude::*;
use crate::plugins::{contains_arg, has_flag};
use crate::size::{byte_text, formatear_bytes};

verus! {

/// What `clear-cache` does.
#[derive(PartialEq, Eq, Structural)]
pub enum CacheAction {
    /// There is no cache: say so.
    AlreadyEmpty,
    /// Show what would be removed and how to confirm.
    AskConfirmation,
    /// Remove the cache and recreate its empty directories.
    Clear,
}

/// Returns what `clear-cache` does: nothing without a cache, and without
/// `--yes` only ask for confirmation.
pub fn cache_action(cache_exists: bool, args: &[&str]) -> (res: CacheAction)
    ensures
        res == (if !cache_exists {
            CacheAction::AlreadyEmpty
        } else if !has_flag(args@, "--yes"@) {
            CacheAction::AskConfirmation
        } else {
            CacheAction::Clear
        }),
{
    if !cache_exists {
        CacheAction::AlreadyEmpty
    } else if !contains_arg(args, "--yes") {
        CacheAction::AskConfirmation
    } else {
        CacheAction::Clear
    }
}

/// Returns the lines that ask to confirm removing the cache at `cache_dir`,
/// which holds `size` bytes.
pub fn confirmation_lines(cache_dir: &str, size: u64) -> (lines: Vec<String>)
    ensures
        lines@.len() == 5,
        lines@[0]@ == "Se borrara: "@ + cache_dir@,
        lines@[1]@ == "Tamanio:    "@ + byte_text(size as nat),
        lines@[2]@ == Seq::<char>::empty(),
        lines@[3]@ == "Los plugins se volvera a clonar y compilar la proxima vez que se usen."@,
        lines@[4]@ == "Para confirmar: basalto clear-cache --yes"@,
{
    let mut first = "Se borrara: ".to_owned();
    first.append(cache_dir);
    let mut second = "Tamanio:    ".to_owned();
    let shown = formatear_bytes(size);
    second.append(shown.as_str());
    let mut lines: Vec<String> = Vec::new();
    lines.push(first);
    lines.push(second);
    lines.push(String::new());
    lines.push("Los plugins se volvera a clonar y compilar la proxima vez que se usen.".to_owned());
    lines.push("Para confirmar: basalto clear-cache --yes".to_owned());
    lines
}

/// Returns the message shown once a cache of `size` bytes was removed.
pub fn cleared_message(size: u64) -> (res: String)
    ensures
        res@ == "✓ Cache limpiado  ("@ + byte_text(size as nat) + " liberados)"@,
{
    let mut res = "✓ Cache limpiado  (".to_owned();
    let shown = formatear_bytes(size);
    res.append(shown.as_str());
    res.append(" liberados)");
    res
}

} // verus!
