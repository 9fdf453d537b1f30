//! What the version and update commands conclude from the manifests they read.
use vstd::prelude::*;
use crate::plugins::{contains_arg, has_flag};
use crate::versions::{manifest_version, pending_update, read_manifest_version};

verus! {

/// The version shown for a cached plugin: the one its manifest declares, or
/// `?` when the manifest could not be read or declares none.
pub open spec fn shown_version(manifest: Option<Seq<char>>) -> Seq<char> {
    match manifest {
        Some(text) => match manifest_version(text) {
            Some(v) => v,
            None => "?"@,
        },
        None => "?"@,
    }
}

/// The version offered by a manifest read elsewhere (none when it could not
/// be read), when it differs from the version `current` that runs.
pub open spec fn offered_update(manifest: Option<Seq<char>>, current: Seq<char>) -> Option<Seq<char>> {
    match manifest {
        Some(text) => match manifest_version(text) {
            Some(v) => if v != current { Some(v) } else { None },
            None => None,
        },
        None => None,
    }
}

/// Returns the version shown for a cached plugin whose manifest text is
/// `manifest` (none when it could not be read).
pub fn plugin_version_text(manifest: Option<&str>) -> (res: String)
    ensures
        res@ == shown_version(match manifest { Some(t) => Some(t@), None => None }),
{
    match manifest {
        Some(text) => match read_manifest_version(text) {
            Some(v) => v,
            None => "?".to_owned(),
        },
        None => "?".to_owned(),
    }
}

/// Returns the version that the manifest `manifest` offers when it differs
/// from `current`; `None` when the manifest could not be read, declares no
/// version, or declares `current`.
pub fn update_from_manifest(manifest: Option<&str>, current: &str) -> (res: Option<String>)
    ensures
        (match res { Some(v) => Some(v@), None => None }) == offered_update(
            match manifest { Some(t) => Some(t@), None => None },
            current@,
        ),
        manifest is None ==> res is None,
        manifest is Some ==> match manifest_version(manifest.unwrap()@) {
            Some(v) => if v != current@ {
                res is Some && res.unwrap()@ == v
            } else {
                res is None
            },
            None => res is None,
        },
{
    match manifest {
        Some(text) => pending_update(read_manifest_version(text), current),
        None => None,
    }
}

/// A manifest that declares a version other than the one that runs offers
/// exactly that version; nothing is offered only when there is no manifest,
/// it declares no version, or it declares the running one.
pub proof fn law_any_other_version_is_offered(text: Seq<char>, current: Seq<char>)
    ensures
        (manifest_version(text) is Some && manifest_version(text).unwrap() != current)
            ==> offered_update(Some(text), current) == manifest_version(text),
        (manifest_version(text) is None || manifest_version(text) == Some(current))
            ==> offered_update(Some(text), current) is None,
        offered_update(None, current) is None,
{
}

/// What `update` does with one declared plugin.
#[derive(PartialEq, Eq, Structural)]
pub enum UpdateAction {
    /// Leave it: it is not cached and the update is not a clean one.
    Skip,
    /// Pull its repository and rebuild it.
    Pull,
    /// Clone its repository and build it.
    Install,
}

/// What `update` does before it goes through the plugins.
pub struct UpdateStart {
    /// Remove the cache (and recreate its empty directories).
    pub clear_cache: bool,
    /// The update is a clean one: everything is installed again.
    pub clean: bool,
}

/// Returns how `update` starts: a clean update (`--clean`) clears the
/// cache first, so that every plugin and the core are installed again.
pub fn update_start(args: &[&str]) -> (res: UpdateStart)
    ensures
        res.clean == has_flag(args@, "--clean"@),
        res.clear_cache == res.clean,
{
    let clean = contains_arg(args, "--clean");
    UpdateStart { clear_cache: clean, clean }
}

/// What `update` does with one plugin, in a clean update or not, given
/// whether its checkout is cached.
pub open spec fn spec_plugin_update_action(clean: bool, cached: bool) -> UpdateAction {
    if clean {
        UpdateAction::Install
    } else if cached {
        UpdateAction::Pull
    } else {
        UpdateAction::Skip
    }
}

/// Returns what `update` does with a plugin whose checkout is `cached` or
/// not: a clean update installs every plugin anew (the cache was cleared);
/// otherwise a cached plugin is pulled and rebuilt and one that is not
/// cached is skipped.
pub fn plugin_update_action(clean: bool, cached: bool) -> (res: UpdateAction)
    ensures
        res == spec_plugin_update_action(clean, cached),
{
    if clean {
        UpdateAction::Install
    } else if cached {
        UpdateAction::Pull
    } else {
        UpdateAction::Skip
    }
}

/// A clean update clears the cache and installs every plugin again,
/// whatever was cached before.
pub proof fn law_clean_update_reinstalls(args: Seq<&str>, cached: bool)
    requires
        has_flag(args, "--clean"@),
    ensures
        spec_plugin_update_action(has_flag(args, "--clean"@), cached) == UpdateAction::Install,
{
}

/// How the core's sources are brought up to date.
#[derive(PartialEq, Eq, Structural)]
pub enum CoreSourceAction {
    /// Clone them into the cache.
    Clone,
    /// Pull the cached checkout.
    Pull,
}

/// Returns how the core's sources are brought up to date: cloned when they
/// are not cached (or the update is a clean one, which cleared the cache),
/// pulled otherwise.
pub fn core_source_action(clean: bool, cached: bool) -> (res: CoreSourceAction)
    ensures
        res == (if clean || !cached { CoreSourceAction::Clone } else { CoreSourceAction::Pull }),
{
    if clean || !cached {
        CoreSourceAction::Clone
    } else {
        CoreSourceAction::Pull
    }
}

} // verus!
