use basalto::cache::{cache_action, cleared_message, confirmation_lines, CacheAction};
use basalto::config::{read_core, Config, CoreConfig, Library, TuiConfig};
use basalto::contract::{CommandHelp, FlagHelp, SHARED_VERSION};
use basalto::dispatch::{route, wants_core_version, Builtin, CommandTable, Route};
use basalto::help::{builtin_help, help_report, PluginHelp};
use basalto::loader::{
    check_shared_version, clone_arguments, enabled_plugins, install_step, instance_matches, pick_instance, InstallAction,
    InstallPhase, LoadedInstance,
};
use basalto::plugins::{contains_arg, is_plugin_declaration, select_plugins, version_flags, PluginConf, VersionFlags};
use basalto::updates::{core_source_action, plugin_update_action, update_start, CoreSourceAction, UpdateAction};
use basalto::setup::{completed_config, setup_plan};
use basalto::report::{pad_right, tree_branch, version_report, PluginRow};

fn plugin(source: &str, enabled: bool) -> PluginConf {
    PluginConf { source: source.to_string(), branch: "main".to_string(), enabled }
}

fn args(v: &[&str]) -> Vec<String> {
    v.iter().map(|s| s.to_string()).collect()
}

#[test]
fn flags_of_version_command() {
    let f = version_flags(&["--check", "--inactive"]);
    assert!(f.check && f.inactive && !f.active);
    let f = version_flags(&[]);
    assert!(!f.check && !f.inactive && !f.active);
    assert!(contains_arg(&["a", "--yes"], "--yes"));
    assert!(!contains_arg(&["--yes!"], "--yes"));
}

#[test]
fn listing_plugins_by_state() {
    let ps = vec![plugin("a/x", true), plugin("a/y", false), plugin("a/z", true)];
    let all = VersionFlags { check: false, active: false, inactive: false };
    let active = VersionFlags { check: false, active: true, inactive: false };
    let inactive = VersionFlags { check: true, active: false, inactive: true };
    let both = VersionFlags { check: false, active: true, inactive: true };
    assert_eq!(select_plugins(&ps, &all), vec![0, 1, 2]);
    assert_eq!(select_plugins(&ps, &active), vec![0, 2]);
    assert_eq!(select_plugins(&ps, &inactive), vec![1]);
    assert_eq!(select_plugins(&ps, &both), vec![0, 2]);
    assert_eq!(enabled_plugins(&ps), vec![0, 2]);
}

#[test]
fn command_table_last_plugin_wins() {
    let mut t = CommandTable::new();
    t.register_plugin(&args(&["add", "show"]), 0);
    t.register_plugin(&args(&["show", "push"]), 1);
    assert_eq!(t.lookup("add"), Some(0));
    assert_eq!(t.lookup("show"), Some(1));
    assert_eq!(t.lookup("push"), Some(1));
    assert_eq!(t.lookup("edit"), None);
    t.insert("edit".to_string(), 4);
    assert_eq!(t.lookup("edit"), Some(4));
}

#[test]
fn routing_command_lines() {
    let mut t = CommandTable::new();
    t.register_plugin(&args(&["add", "version"]), 2);
    assert!(route(&args(&["basalto"]), &t) == Route::Usage);
    assert!(route(&args(&["basalto", "version", "--check"]), &t) == Route::Builtin(Builtin::Version));
    assert!(route(&args(&["basalto", "update"]), &t) == Route::Builtin(Builtin::Update));
    assert!(route(&args(&["basalto", "help"]), &t) == Route::Builtin(Builtin::Help));
    assert!(route(&args(&["basalto", "clear-cache"]), &t) == Route::Builtin(Builtin::ClearCache));
    assert!(route(&args(&["basalto", "tui"]), &t) == Route::Unknown);
    assert!(route(&args(&["basalto", "add", "x"]), &t) == Route::Plugin(2));
    assert!(route(&args(&["basalto", "nope"]), &t) == Route::Unknown);
}

#[test]
fn core_version_flag_anywhere() {
    assert!(wants_core_version(&args(&["basalto", "x", "--version"])));
    assert!(wants_core_version(&args(&["--version"])));
    assert!(!wants_core_version(&args(&["basalto", "version"])));
}

#[test]
fn shared_version_checks() {
    assert!(check_shared_version("p", "0.1.0", Some("0.4.2")).is_ok());
    assert_eq!(
        check_shared_version("p", "0.1.0", None),
        Err("Plugin 'p' no declara version de basalto-shared. Corre: basalto update".to_string())
    );
    assert_eq!(
        check_shared_version("p", "0.1.0", Some("1.0.0")),
        Err("Plugin 'p' usa basalto-shared v1.0.0 (core usa v0.1.0). Corre: basalto update".to_string())
    );
    assert!(check_shared_version("p", SHARED_VERSION, Some(SHARED_VERSION)).is_ok());
}

#[test]
fn installing_plugins() {
    assert!(install_step(InstallPhase::CheckRepository, false) == (InstallPhase::CheckLibrary, InstallAction::Clone));
    assert!(install_step(InstallPhase::CheckRepository, true) == (InstallPhase::CheckLibrary, InstallAction::Nothing));
    assert!(install_step(InstallPhase::CheckLibrary, false) == (InstallPhase::Done, InstallAction::Build));
    assert!(install_step(InstallPhase::CheckLibrary, true) == (InstallPhase::Done, InstallAction::Nothing));
    assert!(install_step(InstallPhase::Done, false) == (InstallPhase::Done, InstallAction::Nothing));
    assert_eq!(clone_arguments("main", "git@h:u/p.git", "/d"), args(&["clone", "-b", "main", "git@h:u/p.git", "/d"]));
}

#[test]
fn matching_loaded_instances() {
    assert!(instance_matches("mi_plugin", "mi-plugin"));
    assert!(instance_matches("mi-plugin", "mi-plugin"));
    assert!(!instance_matches("other", "mi-plugin"));
}

#[test]
fn padding_and_branches() {
    assert_eq!(pad_right("ab", 5), "ab   ");
    assert_eq!(pad_right("abcdef", 3), "abcdef");
    assert_eq!(pad_right("ñ", 3), format!("{:<3}", "ñ"));
    assert_eq!(tree_branch(true), "└──");
    assert_eq!(tree_branch(false), "├──");
}

#[test]
fn version_report_lines() {
    let rows = vec![
        PluginRow { name: "a".to_string(), version: "1.0".to_string(), enabled: true, update: None },
        PluginRow { name: "b".to_string(), version: "?".to_string(), enabled: false, update: None },
        PluginRow { name: "c".to_string(), version: "0.1".to_string(), enabled: true, update: Some("0.2".to_string()) },
    ];
    let lines = version_report("0.1.0", &Some("0.2.0".to_string()), &rows);
    assert_eq!(
        lines,
        vec![
            "basalto-core v0.1.0 -> v0.2.0 (actualizar)".to_string(),
            "├── a v1.0 (activo)".to_string(),
            "├── b v? (inactivo)".to_string(),
            "└── c v0.1 (-> v0.2 (actualizar))".to_string(),
        ]
    );
    assert_eq!(version_report("0.1.0", &None, &Vec::new()), vec!["basalto-core v0.1.0".to_string()]);
}

fn reference_help(version: &str, builtins: &[CommandHelp], plugins: &[PluginHelp]) -> Vec<String> {
    fn flags(out: &mut Vec<String>, flags: &[FlagHelp], parent_is_last: bool) {
        let indent = if parent_is_last { "    " } else { "│   " };
        for (i, f) in flags.iter().enumerate() {
            let prefix = if i + 1 == flags.len() { "└──" } else { "├──" };
            out.push(format!("{}{}  {:<14} {}", indent, prefix, f.name, f.description));
        }
    }
    let mut out = vec![format!("basalto v{}", version), String::new()];
    for (i, c) in builtins.iter().enumerate() {
        let is_last = i + 1 == builtins.len() && plugins.is_empty();
        let prefix = if is_last { "└──" } else { "├──" };
        out.push(format!("{} {:<18} {}", prefix, c.name, c.description));
        flags(&mut out, &c.flags, is_last);
    }
    for p in plugins {
        out.push(String::new());
        out.push(format!("{}:", p.name));
        if let Some(cmds) = &p.commands {
            for (i, c) in cmds.iter().enumerate() {
                let is_last = i + 1 == cmds.len();
                let prefix = if is_last { "└──" } else { "├──" };
                out.push(format!("{} {:<18} {}", prefix, c.name, c.description));
                flags(&mut out, &c.flags, is_last);
            }
        }
    }
    out
}

#[test]
fn help_without_plugins() {
    let b = builtin_help();
    let lines = help_report("0.1.0", &b, &Vec::new());
    assert_eq!(lines[0], "basalto v0.1.0");
    assert_eq!(lines[1], "");
    assert_eq!(lines[2], "├── version            Muestra la version del core y los plugins");
    assert_eq!(lines[3], "│   ├──  --active       Solo plugins activos");
    assert_eq!(lines[5], "│   └──  --check        Verifica actualizaciones disponibles");
    assert_eq!(lines[6], "├── update             Actualiza todos los plugins y el core");
    assert_eq!(lines[7], "│   └──  --clean        Limpia el cache antes de actualizar (reinstalacion completa)");
    assert_eq!(lines[8], "├── help               Muestra este mensaje");
    assert_eq!(lines[9], "└── clear-cache        Muestra el tamanio del cache y pide confirmacion para borrarlo");
    assert_eq!(lines[10], "    └──  --yes          Borra el cache sin pedir confirmacion");
    assert_eq!(lines.len(), 11);
    assert_eq!(lines, reference_help("0.1.0", &b, &[]));
}

#[test]
fn help_with_plugins() {
    let b = builtin_help();
    let plugins = vec![
        PluginHelp {
            name: "basalto-library".to_string(),
            commands: Some(vec![
                CommandHelp {
                    name: "add".to_string(),
                    description: "Agrega".to_string(),
                    flags: vec![FlagHelp { name: "--force".to_string(), description: "Sin preguntar".to_string() }],
                },
                CommandHelp { name: "show".to_string(), description: "Muestra".to_string(), flags: Vec::new() },
            ]),
        },
        PluginHelp { name: "missing".to_string(), commands: None },
    ];
    let lines = help_report("0.1.0", &b, &plugins);
    assert_eq!(lines, reference_help("0.1.0", &b, &plugins));
    assert!(lines.contains(&"├── help               Muestra este mensaje".to_string()));
    assert!(lines.contains(&"basalto-library:".to_string()));
    assert_eq!(lines.last().unwrap(), "missing:");
}

#[test]
fn clear_cache_decisions_and_texts() {
    assert!(cache_action(false, &["--yes"]) == CacheAction::AlreadyEmpty);
    assert!(cache_action(true, &[]) == CacheAction::AskConfirmation);
    assert!(cache_action(true, &["--yes"]) == CacheAction::Clear);
    let lines = confirmation_lines("/h/.basalto/cache", 2048);
    assert_eq!(lines[0], "Se borrara: /h/.basalto/cache");
    assert_eq!(lines[1], "Tamanio:    2.0 KB");
    assert_eq!(lines[2], "");
    assert_eq!(lines[4], "Para confirmar: basalto clear-cache --yes");
    assert_eq!(cleared_message(512), "✓ Cache limpiado  (512 B liberados)");
}

#[test]
fn core_section_of_config() {
    let config = Config {
        library: Library { url: "u".to_string(), branch: "main".to_string() },
        core: CoreConfig { source: "git@h:c.git".to_string() },
        tui: Some(TuiConfig { source: "t".to_string() }),
    };
    assert_eq!(read_core(config).source, "git@h:c.git");
}

#[test]
fn help_names_every_builtin_command() {
    let b = builtin_help();
    let names: Vec<&str> = b.iter().map(|c| c.name.as_str()).collect();
    assert_eq!(names, vec!["version", "update", "help", "clear-cache"]);
    for name in names {
        assert!(route(&args(&["basalto", name]), &CommandTable::new()) != Route::Unknown);
    }
}

#[test]
fn update_actions() {
    let start = update_start(&["--clean"]);
    assert!(start.clean && start.clear_cache);
    let start = update_start(&[]);
    assert!(!start.clean && !start.clear_cache);
    assert!(plugin_update_action(false, true) == UpdateAction::Pull);
    assert!(plugin_update_action(true, true) == UpdateAction::Install);
    assert!(plugin_update_action(true, false) == UpdateAction::Install);
    assert!(plugin_update_action(false, false) == UpdateAction::Skip);
}

#[test]
fn plugin_declaration_files() {
    assert!(is_plugin_declaration("mi-plugin.toml"));
    assert!(!is_plugin_declaration("README.md"));
    assert!(!is_plugin_declaration("plugin.toml.bak"));
    assert!(!is_plugin_declaration(".hidden.toml"));
    assert!(!is_plugin_declaration("toml"));
    assert!(is_plugin_declaration("ü.toml"));
}

#[test]
fn core_sources_cloned_or_pulled() {
    assert!(core_source_action(false, true) == CoreSourceAction::Pull);
    assert!(core_source_action(false, false) == CoreSourceAction::Clone);
    assert!(core_source_action(true, true) == CoreSourceAction::Clone);
}

#[test]
fn setup_plans() {
    let p = setup_plan("/h", false, false);
    assert!(p.announce && p.create_config);
    assert_eq!(
        p.create_dirs,
        vec!["/h/.basalto/plugins".to_string(), "/h/.basalto/cache/plugins".to_string(), "/h/.basalto/cache/library".to_string()]
    );
    let p = setup_plan("/h", true, true);
    assert!(!p.announce && !p.create_config && p.create_dirs.is_empty());
    assert_eq!(completed_config("[library]\n[editors]\n[core]\n"), None);
    assert_eq!(completed_config("[library]\n[editors]\n"), Some("[library]\n[editors]\n\n[core]\nsource = \"git@github.com:ShadeC0der/basalto-core.git\"\n\n".to_string()));
}

#[test]
fn picking_the_described_instance() {
    let loaded = vec![
        LoadedInstance { name: "mi_plugin".to_string(), offers_commands: false },
        LoadedInstance { name: "other".to_string(), offers_commands: true },
        LoadedInstance { name: "mi-plugin".to_string(), offers_commands: true },
        LoadedInstance { name: "mi_plugin".to_string(), offers_commands: true },
    ];
    assert_eq!(pick_instance(&loaded, "mi-plugin"), Some(2));
    assert_eq!(pick_instance(&loaded, "absent"), None);
    assert_eq!(pick_instance(&Vec::new(), "mi-plugin"), None);
}
