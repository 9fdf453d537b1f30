//! Where things live under the user's home directory.
use vstd::prelude::*;
use crate::naming::{so_name, spec_so_name};

verus! {

/// Returns `~/.basalto`.
pub fn basalto_dir(home: &str) -> (res: String)
    ensures
        res@ == home@ + "/.basalto"@,
{
    let mut res = home.to_owned();
    res.append("/.basalto");
    res
}

/// Returns `~/.basalto/config.toml`.
pub fn config_path(home: &str) -> (res: String)
    ensures
        res@ == home@ + "/.basalto/config.toml"@,
{
    let mut res = home.to_owned();
    res.append("/.basalto/config.toml");
    res
}

/// Returns `~/.basalto/plugins/`, the directory of plugin declarations.
pub fn plugins_dir(home: &str) -> (res: String)
    ensures
        res@ == home@ + "/.basalto/plugins/"@,
{
    let mut res = home.to_owned();
    res.append("/.basalto/plugins/");
    res
}

/// Returns `~/.basalto/cache`.
pub fn cache_dir(home: &str) -> (res: String)
    ensures
        res@ == home@ + "/.basalto/cache"@,
{
    let mut res = home.to_owned();
    res.append("/.basalto/cache");
    res
}

/// Returns `~/.basalto/cache/core`, where the core's sources are kept.
pub fn core_cache_dir(home: &str) -> (res: String)
    ensures
        res@ == home@ + "/.basalto/cache/core"@,
{
    let mut res = home.to_owned();
    res.append("/.basalto/cache/core");
    res
}

/// Returns the directories that setup creates and that clearing the cache
/// recreates: the plugin declarations, the plugin cache and the library cache.
pub fn skeleton_dirs(home: &str) -> (res: Vec<String>)
    ensures
        res@.len() == 3,
        res@[0]@ == home@ + "/.basalto/plugins"@,
        res@[1]@ == home@ + "/.basalto/cache/plugins"@,
        res@[2]@ == home@ + "/.basalto/cache/library"@,
{
    let mut a = home.to_owned();
    a.append("/.basalto/plugins");
    let mut b = home.to_owned();
    b.append("/.basalto/cache/plugins");
    let mut c = home.to_owned();
    c.append("/.basalto/cache/library");
    let mut res: Vec<String> = Vec::new();
    res.push(a);
    res.push(b);
    res.push(c);
    res
}

/// Returns the directory where the plugin `name` is cloned and built.
pub fn plugin_dir(home: &str, name: &str) -> (res: String)
    ensures
        res@ == home@ + "/.basalto/cache/plugins/"@ + name@,
{
    let mut res = home.to_owned();
    res.append("/.basalto/cache/plugins/");
    res.append(name);
    res
}

/// Returns the path of the manifest of the cached plugin `name`.
pub fn plugin_manifest_path(home: &str, name: &str) -> (res: String)
    ensures
        res@ == home@ + "/.basalto/cache/plugins/"@ + name@ + "/Cargo.toml"@,
{
    let mut res = plugin_dir(home, name);
    res.append("/Cargo.toml");
    res
}

/// Returns the path of the shared library that building the plugin `name`
/// produces: `lib` and the name with `-` turned into `_`, then `.so`.
pub fn plugin_library_path(home: &str, name: &str) -> (res: String)
    ensures
        res@ == home@ + "/.basalto/cache/plugins/"@ + name@ + "/target/release/lib"@
            + spec_so_name(name@) + ".so"@,
{
    let lib = so_name(name);
    let mut res = plugin_dir(home, name);
    res.append("/target/release/lib");
    res.append(lib.as_str());
    res.append(".so");
    res
}

/// Returns the path of a manifest inside the directory `dir`.
pub fn manifest_in(dir: &str) -> (res: String)
    ensures
        res@ == dir@ + "/Cargo.toml"@,
{
    let mut res = dir.to_owned();
    res.append("/Cargo.toml");
    res
}

} // verus!
