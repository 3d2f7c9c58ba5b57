use argvus_calendar::config::themes::theme_names;
use argvus_calendar::config::paths::{export_refusal, paths_from_homes, resolve_paths, socket_path};
use argvus_calendar::config::toml_merge::{layered_config_tree, TomlEntries, TomlTree};
use argvus_calendar::error::ArgvusError;
use argvus_calendar::config::settings::{
    active_theme, active_theme_contents, editor_terminal_command, effective_config_file,
    events_enabled_contents,
    load_events_enabled, read_events_enabled, service_events_enabled, AppConfig,
};

#[test]
fn unsupported_language_falls_back() {
    let mut config = AppConfig::default();
    config.locale.language = "xx-YY".to_string();
    assert_eq!(AppConfig::validate(config).locale.language, "auto");
}

#[test]
fn auto_language_is_kept() {
    let mut config = AppConfig::default();
    config.locale.language = "auto".to_string();
    assert_eq!(AppConfig::validate(config).locale.language, "auto");
}

#[test]
fn font_size_is_clamped() {
    let mut config = AppConfig::default();
    config.appearance.font_size = 99;
    assert_eq!(AppConfig::validate(config).appearance.font_size, 32);
}

#[test]
fn editor_terminal_command_prepends_sudo() {
    let mut config = AppConfig::default();
    config.editor.command = "vim".to_string();
    config.editor.args = vec!["-c".to_string(), "set nu".to_string()];
    config.terminal.command = "foot".to_string();
    let (program, args) = editor_terminal_command(
        &config,
        "/etc/argvus-calendar/config.toml",
        None,
        None,
        None,
    );
    assert_eq!(program, "foot");
    assert_eq!(
        args,
        [
            "-e",
            "sudo",
            "vim",
            "-c",
            "set nu",
            "/etc/argvus-calendar/config.toml"
        ]
    );
}

#[test]
fn editor_terminal_command_falls_back_to_environment_then_defaults() {
    let config = AppConfig::default();
    let (program, args) = editor_terminal_command(
        &config,
        "/etc/x.toml",
        Some("hx".to_string()),
        Some("vi".to_string()),
        Some("alacritty".to_string()),
    );
    assert_eq!(program, "alacritty");
    assert_eq!(args, ["-e", "sudo", "hx", "/etc/x.toml"]);
    let (program, args) = editor_terminal_command(&config, "/etc/x.toml", None, None, None);
    assert_eq!(program, "kitty");
    assert_eq!(args, ["-e", "sudo", "nano", "/etc/x.toml"]);
}

#[test]
fn effective_config_prefers_user_file() {
    let paths = paths_from_homes("/d", "/s", "/c", "/g");
    assert_eq!(effective_config_file(&paths, false), paths.config_file);
    assert_eq!(effective_config_file(&paths, true), paths.user_config_file);
}

#[test]
fn validated_defaults_are_unchanged() {
    let config = AppConfig::validate(AppConfig::default());
    let default = AppConfig::default();
    assert_eq!(config.appearance.font_family, default.appearance.font_family);
    assert_eq!(config.appearance.font_size, default.appearance.font_size);
    assert_eq!(config.locale.language, "auto");
    assert_eq!(config.calendar.week_start, default.calendar.week_start);
}

#[test]
fn validation_is_idempotent_on_examples() {
    let mut config = AppConfig::default();
    config.appearance.font_size = 3;
    config.calendar.week_start = "friday".to_string();
    let once = AppConfig::validate(config);
    assert_eq!(once.appearance.font_size, 8);
    assert_eq!(once.calendar.week_start, "monday");
    let twice = AppConfig::validate(once.clone());
    assert_eq!(twice.appearance.font_size, once.appearance.font_size);
    assert_eq!(twice.calendar.week_start, once.calendar.week_start);
}

#[test]
fn events_flag_is_read_and_written() {
    assert_eq!(read_events_enabled(" yes\n"), Some(true));
    assert_eq!(read_events_enabled("off"), Some(false));
    assert_eq!(read_events_enabled("maybe"), None);
    assert_eq!(read_events_enabled(events_enabled_contents(true)), Some(true));
    assert_eq!(read_events_enabled(events_enabled_contents(false)), Some(false));
    let config = AppConfig::default();
    assert_eq!(load_events_enabled(Some("0"), &config), false);
    assert!(!config.calendar.show_events);
    assert!(!load_events_enabled(None, &config));
    assert!(!load_events_enabled(Some("maybe"), &config));
    assert!(load_events_enabled(Some("yes"), &config));
    assert!(!service_events_enabled(None));
    assert!(!service_events_enabled(Some("maybe")));
    assert!(service_events_enabled(Some("1\n")));
    assert!(!service_events_enabled(Some("false")));
}

#[test]
fn paths_follow_xdg_variables_and_home() {
    let paths = resolve_paths(
        Some("/xdg/data".to_string()),
        None,
        None,
        None,
        Some("/home/ana".to_string()),
    )
    .unwrap();
    assert_eq!(paths.data_dir, "/xdg/data/argvus-calendar");
    assert_eq!(paths.cache_dir, "/home/ana/.cache/argvus-calendar");
    assert_eq!(socket_path(&paths), "/home/ana/.cache/argvus-calendar/argvus-calendar.sock");
    assert!(resolve_paths(None, None, None, None, None).is_err());
}

#[test]
fn active_theme_must_still_be_installed() {
    let installed = vec!["argvus-dark".to_string(), "argvus-light".to_string()];
    assert_eq!(active_theme(Some("argvus-light\n"), &installed), Some("argvus-light".to_string()));
    assert_eq!(active_theme(Some("gone"), &installed), None);
    assert_eq!(active_theme(Some("   "), &installed), None);
    assert_eq!(active_theme(None, &installed), None);
}

#[test]
fn theme_names_are_the_sorted_css_stems() {
    let files: Vec<String> = ["zeta.css", "README", ".css", "alpha.css", "b.min.css", "notes.CSS", "Beta.css"]
        .iter()
        .map(|s| s.to_string())
        .collect();
    assert_eq!(theme_names(&files), vec!["Beta", "alpha", "b.min", "zeta"]);
    assert!(theme_names(&Vec::new()).is_empty());
}

#[test]
fn a_written_theme_reads_back_as_active() {
    let installed = vec!["argvus-dark".to_string(), "argvus-light".to_string()];
    let written = active_theme_contents("argvus-light");
    assert_eq!(written, "argvus-light\n");
    assert_eq!(active_theme(Some(&written), &installed), Some("argvus-light".to_string()));
    let gone = active_theme_contents("argvus-sepia");
    assert_eq!(active_theme(Some(&gone), &installed), None);
}

fn entry<'a>(tree: &'a TomlTree, key: &str) -> Option<&'a TomlTree> {
    let TomlTree::Table(entries) = tree else { return None };
    let mut entries: &TomlEntries = entries;
    while let TomlEntries::Cons(k, v, rest) = entries {
        if k == key {
            return Some(&**v);
        }
        entries = &**rest;
    }
    None
}

fn leaf(tree: Option<&TomlTree>) -> Option<String> {
    match tree {
        Some(TomlTree::Leaf(v)) => Some(v.to_string()),
        _ => None,
    }
}

#[test]
fn user_settings_are_laid_over_the_system_ones() {
    let system = "[appearance]\nfont_family = \"monospace\"\nfont_size = 12\n[calendar]\nweek_start = \"monday\"\n";
    let user = "[appearance]\nfont_size = 16\n";
    let tree = layered_config_tree(system, Some(user)).unwrap();
    let appearance = entry(&tree, "appearance");
    assert_eq!(leaf(appearance.and_then(|a| entry(a, "font_size"))), Some("16".to_string()));
    assert_eq!(leaf(appearance.and_then(|a| entry(a, "font_family"))), Some("\"monospace\"".to_string()));
    let calendar = entry(&tree, "calendar");
    assert_eq!(leaf(calendar.and_then(|c| entry(c, "week_start"))), Some("\"monday\"".to_string()));
    let alone = layered_config_tree(system, None).unwrap();
    assert_eq!(leaf(entry(&alone, "appearance").and_then(|a| entry(a, "font_size"))), Some("12".to_string()));
    assert!(layered_config_tree(system, Some("[appearance")).is_err());
}

#[test]
fn exports_never_write_over_configuration_or_themes() {
    let paths = paths_from_homes("/d", "/s", "/c", "/g");
    match export_refusal("/tmp/out", true, &paths) {
        Some(ArgvusError::Configuration(m)) => assert_eq!(m, "/tmp/out is a directory"),
        other => panic!("unexpected {other:?}"),
    }
    for protected in [&paths.config_file, &paths.user_config_file, &paths.theme_file, &paths.active_argvus_theme_file] {
        match export_refusal(protected, false, &paths) {
            Some(ArgvusError::Configuration(m)) => assert!(m.ends_with(" is a configuration or theme file")),
            other => panic!("unexpected {other:?}"),
        }
    }
    let in_themes = format!("{}/dark.css", paths.theme_dir);
    assert!(export_refusal(&in_themes, false, &paths).is_some());
    assert!(export_refusal("/home/me/calendar.ics", false, &paths).is_none());
}
