use basalto::layout::{
    basalto_dir, cache_dir, config_path, core_cache_dir, manifest_in, plugin_dir, plugin_library_path,
    plugin_manifest_path, plugins_dir, skeleton_dirs,
};
use basalto::naming::{plugin_name, so_name};

#[test]
fn plugin_name_from_ssh_source() {
    assert_eq!(plugin_name("git@github.com:usuario/mi-plugin.git"), "mi-plugin");
}

#[test]
fn plugin_name_from_https_source() {
    assert_eq!(plugin_name("https://github.com/ShadeC0der/basalto-library"), "basalto-library");
}

#[test]
fn plugin_name_strips_every_git_suffix() {
    assert_eq!(plugin_name("host/repo.git.git"), "repo");
    assert_eq!(plugin_name("host/.git"), "");
}

#[test]
fn plugin_name_without_slash() {
    assert_eq!(plugin_name("plugin.git"), "plugin");
    assert_eq!(plugin_name(""), "");
    assert_eq!(plugin_name("trailing/"), "");
}

#[test]
fn plugin_name_matches_split_and_trim() {
    for source in ["a/b/c.git", "x.gitx", "a/.gi", "git@h:o/r.GIT", "a/b.git/c", "ñ/ü-plugin.git"] {
        let expected = source.split('/').next_back().unwrap().trim_end_matches(".git");
        assert_eq!(plugin_name(source), expected);
    }
}

#[test]
fn plugin_name_is_idempotent() {
    let once = plugin_name("git@github.com:u/p.git");
    assert_eq!(plugin_name(&once), once);
}

#[test]
fn so_name_replaces_dashes() {
    assert_eq!(so_name("mi-plugin-buses"), "mi_plugin_buses");
    assert_eq!(so_name("plain"), "plain");
    assert_eq!(so_name(""), "");
}

#[test]
fn layout_paths() {
    assert_eq!(basalto_dir("/home/u"), "/home/u/.basalto");
    assert_eq!(config_path("/home/u"), "/home/u/.basalto/config.toml");
    assert_eq!(plugins_dir("/home/u"), "/home/u/.basalto/plugins/");
    assert_eq!(cache_dir("/home/u"), "/home/u/.basalto/cache");
    assert_eq!(core_cache_dir("/home/u"), "/home/u/.basalto/cache/core");
    assert_eq!(plugin_dir("/home/u", "p"), "/home/u/.basalto/cache/plugins/p");
    assert_eq!(plugin_manifest_path("/home/u", "p"), "/home/u/.basalto/cache/plugins/p/Cargo.toml");
    assert_eq!(manifest_in("/x/core"), "/x/core/Cargo.toml");
    assert_eq!(
        skeleton_dirs("/h"),
        vec![
            "/h/.basalto/plugins".to_string(),
            "/h/.basalto/cache/plugins".to_string(),
            "/h/.basalto/cache/library".to_string()
        ]
    );
}

#[test]
fn library_path_uses_underscored_name() {
    assert_eq!(
        plugin_library_path("/home/u", "mi-plugin"),
        "/home/u/.basalto/cache/plugins/mi-plugin/target/release/libmi_plugin.so"
    );
}
