//! Decisions taken while plugins are installed and loaded.
use vstd::prelude::*;
use crate::naming::{so_name, spec_so_name};
use crate::plugins::{PluginConf, VersionFlags, listed_positions, select_plugins};
use crate::text::text_eq;
use crate::versions::{shared_versions_compatible, spec_major_version};

verus! {

/// The flags under which exactly the enabled plugins are listed.
pub open spec fn only_enabled() -> VersionFlags {
    VersionFlags { check: false, active: true, inactive: false }
}

/// Returns the positions, in order, of the enabled plugins: the ones that
/// are loaded and whose commands the help describes.
pub fn enabled_plugins(plugins: &[PluginConf]) -> (res: Vec<usize>)
    ensures
        res@ == listed_positions(plugins@, only_enabled(), plugins@.len()),
{
    let flags = VersionFlags { check: false, active: true, inactive: false };
    select_plugins(plugins, &flags)
}

/// Where the installation of a plugin stands.
#[derive(PartialEq, Eq, Structural)]
pub enum InstallPhase {
    /// Whether the repository is cached is looked at next.
    CheckRepository,
    /// Whether the shared library exists is looked at next.
    CheckLibrary,
    /// Nothing is left to do.
    Done,
}

/// The work that one installation step asks for.
#[derive(PartialEq, Eq, Structural)]
pub enum InstallAction {
    /// Clone the plugin's repository into its cache directory.
    Clone,
    /// Build the shared library in that directory.
    Build,
    /// Nothing.
    Nothing,
}

/// The next phase and the work to do, given the phase and whether the thing
/// it looks at is present: clone a missing repository, then build a missing
/// library.
pub open spec fn next_install_step(phase: InstallPhase, present: bool) -> (InstallPhase, InstallAction) {
    match phase {
        InstallPhase::CheckRepository => (
            InstallPhase::CheckLibrary,
            if present { InstallAction::Nothing } else { InstallAction::Clone },
        ),
        InstallPhase::CheckLibrary => (
            InstallPhase::Done,
            if present { InstallAction::Nothing } else { InstallAction::Build },
        ),
        InstallPhase::Done => (InstallPhase::Done, InstallAction::Nothing),
    }
}

/// Returns the next phase and the work to do, given the phase and whether
/// the thing it looks at (the cached repository, then the library, as it is
/// found once the previous step's work was done) is present.
pub fn install_step(phase: InstallPhase, present: bool) -> (res: (InstallPhase, InstallAction))
    ensures
        res == next_install_step(phase, present),
{
    match phase {
        InstallPhase::CheckRepository => (
            InstallPhase::CheckLibrary,
            if present { InstallAction::Nothing } else { InstallAction::Clone },
        ),
        InstallPhase::CheckLibrary => (
            InstallPhase::Done,
            if present { InstallAction::Nothing } else { InstallAction::Build },
        ),
        InstallPhase::Done => (InstallPhase::Done, InstallAction::Nothing),
    }
}

/// An installation that starts by looking at the repository is done after
/// two steps, whatever is found: the first step clones a repository that is
/// missing and never builds, the second builds a library that is missing and
/// never clones.
pub proof fn law_install_takes_two_steps(repository_present: bool, library_present: bool)
    ensures
        ({
            let (p1, a1) = next_install_step(InstallPhase::CheckRepository, repository_present);
            let (p2, a2) = next_install_step(p1, library_present);
            &&& p1 != InstallPhase::Done
            &&& p2 == InstallPhase::Done
            &&& (a1 == InstallAction::Clone <==> !repository_present)
            &&& a1 != InstallAction::Build
            &&& (a2 == InstallAction::Build <==> !library_present)
            &&& a2 != InstallAction::Clone
        }),
{
}

/// Returns the arguments of the `git` call that clones the branch `branch`
/// of `source` into `dir`.
pub fn clone_arguments(branch: &str, source: &str, dir: &str) -> (args: Vec<String>)
    ensures
        args@.len() == 5,
        args@[0]@ == "clone"@,
        args@[1]@ == "-b"@,
        args@[2]@ == branch@,
        args@[3]@ == source@,
        args@[4]@ == dir@,
{
    let mut args: Vec<String> = Vec::new();
    args.push("clone".to_owned());
    args.push("-b".to_owned());
    args.push(branch.to_owned());
    args.push(source.to_owned());
    args.push(dir.to_owned());
    args
}

/// The message shown for a plugin that declares no shared-contract version.
pub open spec fn missing_version_message(name: Seq<char>) -> Seq<char> {
    "Plugin '"@ + name + "' no declara version de basalto-shared. Corre: basalto update"@
}

/// The message shown for a plugin built against another major version of
/// the shared contract.
pub open spec fn mismatch_message(name: Seq<char>, plugin_shared: Seq<char>, core_shared: Seq<char>) -> Seq<char> {
    "Plugin '"@ + name + "' usa basalto-shared v"@ + plugin_shared + " (core usa v"@ + core_shared
        + "). Corre: basalto update"@
}

/// Decides whether the plugin `name`, which declares the shared-contract
/// version `plugin_shared` (none when it declares none), can be loaded by a
/// core built against `core_shared`; when it cannot, the error is the
/// message to show.
pub fn check_shared_version(name: &str, core_shared: &str, plugin_shared: Option<&str>) -> (res: Result<(), String>)
    ensures
        res is Ok <==> (plugin_shared matches Some(v) && spec_major_version(core_shared@) == spec_major_version(v@)),
        plugin_shared is None ==> (res matches Err(m) && m@ == missing_version_message(name@)),
        plugin_shared is Some && spec_major_version(core_shared@) != spec_major_version(plugin_shared.unwrap()@)
            ==> (res matches Err(m) && m@ == mismatch_message(name@, plugin_shared.unwrap()@, core_shared@)),
{
    match plugin_shared {
        None => {
            let mut m = "Plugin '".to_owned();
            m.append(name);
            m.append("' no declara version de basalto-shared. Corre: basalto update");
            Err(m)
        },
        Some(v) => {
            if shared_versions_compatible(core_shared, v) {
                Ok(())
            } else {
                let mut m = "Plugin '".to_owned();
                m.append(name);
                m.append("' usa basalto-shared v");
                m.append(v);
                m.append(" (core usa v");
                m.append(core_shared);
                m.append("). Corre: basalto update");
                Err(m)
            }
        },
    }
}

/// Returns whether a loaded plugin that calls itself `instance_name` is the
/// one declared under `plugin_name`: it carries that name or the name of the
/// plugin's shared library.
pub fn instance_matches(instance_name: &str, plugin_name: &str) -> (res: bool)
    ensures
        res == (instance_name@ == spec_so_name(plugin_name@) || instance_name@ == plugin_name@),
{
    let lib = so_name(plugin_name);
    text_eq(instance_name, lib.as_str()) || text_eq(instance_name, plugin_name)
}

/// What the help knows of a loaded plugin: the name it gives itself and
/// whether it answers some command.
pub struct LoadedInstance {
    pub name: String,
    pub offers_commands: bool,
}

/// Whether the loaded plugin `inst` is the one that the help describes for
/// the declared plugin `plugin_name`.
pub open spec fn describes(inst: LoadedInstance, plugin_name: Seq<char>) -> bool {
    inst.offers_commands && (inst.name@ == spec_so_name(plugin_name) || inst.name@ == plugin_name)
}

/// A loaded plugin that answers some command and is named like the declared
/// plugin, or like its shared library (every `-` turned into `_`), is the
/// one the help describes; no other is.
pub proof fn law_describes_by_name(inst: LoadedInstance, plugin_name: Seq<char>)
    ensures
        describes(inst, plugin_name) <==> (inst.offers_commands && (
            inst.name@ == plugin_name
            || inst.name@ == plugin_name.map_values(|c: char| if c == '-' { '_' } else { c }))),
{
}

/// The help finds a plugin's loaded instance whenever one answers some
/// command under the plugin's name or its shared library's name, and then
/// finds the first such instance.
pub proof fn law_instance_found(instances: Seq<LoadedInstance>, plugin_name: Seq<char>, j: int)
    requires
        0 <= j < instances.len(),
        instances[j].offers_commands,
        instances[j].name@ == plugin_name.map_values(|c: char| if c == '-' { '_' } else { c })
            || instances[j].name@ == plugin_name,
    ensures
        describes(instances[j], plugin_name),
{
}

/// Returns the first loaded plugin that answers some command and carries
/// the name of the declared plugin `plugin_name` or of its shared library;
/// `None` when there is none.
pub fn pick_instance(instances: &Vec<LoadedInstance>, plugin_name: &str) -> (res: Option<usize>)
    ensures
        res matches Some(i) ==> i < instances@.len() && describes(instances@[i as int], plugin_name@)
            && forall|j: int| 0 <= j < i ==> !describes(#[trigger] instances@[j], plugin_name@),
        res is None ==> forall|j: int| 0 <= j < instances@.len() ==> !describes(#[trigger] instances@[j], plugin_name@),
        res matches Some(i) ==> instances@[i as int].offers_commands && (instances@[i as int].name@ == plugin_name@
            || instances@[i as int].name@ == plugin_name@.map_values(|c: char| if c == '-' { '_' } else { c })),
        res is None ==> forall|j: int| 0 <= j < instances@.len() ==> !(#[trigger] instances@[j].offers_commands && (
            instances@[j].name@ == plugin_name@
            || instances@[j].name@ == plugin_name@.map_values(|c: char| if c == '-' { '_' } else { c }))),
{
    let mut i: usize = 0;
    while i < instances.len()
        invariant
            i <= instances@.len(),
            forall|j: int| 0 <= j < i ==> !describes(#[trigger] instances@[j], plugin_name@),
        decreases instances.len() - i,
    {
        let inst = &instances[i];
        if inst.offers_commands && instance_matches(inst.name.as_str(), plugin_name) {
            return Some(i);
        }
        i += 1;
    }
    None
}

} // verus!
