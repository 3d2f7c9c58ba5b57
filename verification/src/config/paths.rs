//! Where the popup keeps its configuration, data, state and cache files.
use vstd::prelude::*;

use crate::error::ArgvusError;
use crate::text::{chars_of, concat, starts_with, str_eq, string_of};

verus! {

/// `path` appended to `base` as `Path::join` does on Unix: an absolute
/// `path` replaces `base`; otherwise a `/` separates them unless `base` is
/// empty or already ends with one.
pub open spec fn join_path(base: Seq<char>, path: Seq<char>) -> Seq<char> {
    if path.len() > 0 && path[0] == '/' {
        path
    } else if base.len() == 0 || base.last() == '/' {
        base + path
    } else {
        base + "/"@ + path
    }
}

/// `path` appended to `base` (`Path::join`).
pub fn join(base: &str, path: &str) -> (r: String)
    ensures
        r@ == join_path(base@, path@),
{
    let b = chars_of(base);
    let p = chars_of(path);
    if p.len() > 0 && p[0] == '/' {
        return string_of(p.as_slice());
    }
    if b.len() == 0 || b[b.len() - 1] == '/' {
        let r = concat(b.as_slice(), p.as_slice());
        string_of(r.as_slice())
    } else {
        let slash = chars_of("/");
        let a = concat(b.as_slice(), slash.as_slice());
        let r = concat(a.as_slice(), p.as_slice());
        string_of(r.as_slice())
    }
}

/// The files and directories the popup uses.
#[derive(Clone, Debug)]
pub struct Paths {
    pub config_dir: String,
    pub data_dir: String,
    pub state_dir: String,
    pub cache_dir: String,
    pub database: String,
    pub config_file: String,
    pub legacy_settings_file: String,
    pub user_config_file: String,
    pub user_style: String,
    pub theme_file: String,
    pub theme_dir: String,
    pub cache_theme_file: String,
    pub active_argvus_theme_file: String,
    pub events_enabled_file: String,
}

/// The system-wide configuration directory.
pub open spec fn system_config_dir() -> Seq<char> {
    "/etc/argvus-calendar"@
}

/// The base directory that an XDG variable selects: its value when set,
/// otherwise `fallback` under the home directory.
pub open spec fn xdg_home_spec(
    value: Option<Seq<char>>,
    home: Option<Seq<char>>,
    fallback: Seq<char>,
) -> Option<Seq<char>> {
    match value {
        Some(v) => Some(v),
        None => match home {
            Some(h) => Some(join_path(h, fallback)),
            None => None,
        },
    }
}

/// The view of an optional string.
pub open spec fn opt_str(v: Option<String>) -> Option<Seq<char>> {
    match v {
        Some(s) => Some(s@),
        None => None,
    }
}

/// The base directory for an XDG variable whose value is `value`; an error
/// when the variable is unset and `HOME` is unset too.
pub fn xdg_home(value: Option<String>, home: &Option<String>, fallback: &str) -> (r: Result<
    String,
    ArgvusError,
>)
    ensures
        match xdg_home_spec(opt_str(value), opt_str(*home), fallback@) {
            Some(p) => r matches Ok(s) && s@ == p,
            None => r matches Err(ArgvusError::Configuration(m)) && m@ == "HOME is not set"@,
        },
{
    match value {
        Some(v) => Ok(v),
        None => match home {
            Some(h) => Ok(join(h.as_str(), fallback)),
            None => {
                let m = chars_of("HOME is not set");
                Err(ArgvusError::Configuration(string_of(m.as_slice())))
            },
        },
    }
}

/// The paths of the popup, given the base directories for data, state,
/// cache and user configuration.
pub open spec fn paths_spec(
    data_home: Seq<char>,
    state_home: Seq<char>,
    cache_home: Seq<char>,
    config_home: Seq<char>,
    p: Paths,
) -> bool {
    let config_dir = system_config_dir();
    let data_dir = join_path(data_home, "argvus-calendar"@);
    let state_dir = join_path(state_home, "argvus-calendar"@);
    let cache_dir = join_path(cache_home, "argvus-calendar"@);
    &&& p.config_dir@ == config_dir
    &&& p.data_dir@ == data_dir
    &&& p.state_dir@ == state_dir
    &&& p.cache_dir@ == cache_dir
    &&& p.database@ == join_path(data_dir, "calendar.db"@)
    &&& p.config_file@ == join_path(config_dir, "config.toml"@)
    &&& p.legacy_settings_file@ == join_path(config_dir, "settings.toml"@)
    &&& p.user_config_file@ == join_path(
        join_path(config_home, "argvus-calendar"@),
        "config.toml"@,
    )
    &&& p.user_style@ == join_path(config_dir, "style.css"@)
    &&& p.theme_file@ == join_path(config_dir, "theme.css"@)
    &&& p.theme_dir@ == join_path(config_dir, "themes"@)
    &&& p.cache_theme_file@ == join_path(cache_dir, "theme.css"@)
    &&& p.active_argvus_theme_file@ == join_path(
        join_path(config_home, "argvus"@),
        ".active-theme"@,
    )
    &&& p.events_enabled_file@ == join_path(cache_dir, "events-enabled"@)
}

/// Builds the paths from the base directories for data, state, cache and
/// user configuration.
pub fn paths_from_homes(data_home: &str, state_home: &str, cache_home: &str, config_home: &str) -> (p: Paths)
    ensures
        paths_spec(data_home@, state_home@, cache_home@, config_home@, p),
{
    let config_dir = owned("/etc/argvus-calendar");
    let data_dir = join(data_home, "argvus-calendar");
    let state_dir = join(state_home, "argvus-calendar");
    let cache_dir = join(cache_home, "argvus-calendar");
    let user_dir = join(config_home, "argvus-calendar");
    let argvus_dir = join(config_home, "argvus");
    Paths {
        database: join(data_dir.as_str(), "calendar.db"),
        config_file: join(config_dir.as_str(), "config.toml"),
        legacy_settings_file: join(config_dir.as_str(), "settings.toml"),
        user_config_file: join(user_dir.as_str(), "config.toml"),
        user_style: join(config_dir.as_str(), "style.css"),
        theme_file: join(config_dir.as_str(), "theme.css"),
        theme_dir: join(config_dir.as_str(), "themes"),
        cache_theme_file: join(cache_dir.as_str(), "theme.css"),
        active_argvus_theme_file: join(argvus_dir.as_str(), ".active-theme"),
        events_enabled_file: join(cache_dir.as_str(), "events-enabled"),
        config_dir,
        data_dir,
        state_dir,
        cache_dir,
    }
}

fn owned(s: &str) -> (r: String)
    ensures
        r@ == s@,
{
    let v = chars_of(s);
    string_of(v.as_slice())
}

/// Resolves the paths from the values of `XDG_DATA_HOME`, `XDG_STATE_HOME`,
/// `XDG_CACHE_HOME`, `XDG_CONFIG_HOME` and `HOME`.
pub fn resolve_paths(
    xdg_data_home: Option<String>,
    xdg_state_home: Option<String>,
    xdg_cache_home: Option<String>,
    xdg_config_home: Option<String>,
    home: Option<String>,
) -> (r: Result<Paths, ArgvusError>)
    ensures
        match (
            xdg_home_spec(opt_str(xdg_data_home), opt_str(home), ".local/share"@),
            xdg_home_spec(opt_str(xdg_state_home), opt_str(home), ".local/state"@),
            xdg_home_spec(opt_str(xdg_cache_home), opt_str(home), ".cache"@),
            xdg_home_spec(opt_str(xdg_config_home), opt_str(home), ".config"@),
        ) {
            (Some(d), Some(s), Some(c), Some(g)) => r matches Ok(p) && paths_spec(d, s, c, g, p),
            _ => r is Err,
        },
{
    let data_home = xdg_home(xdg_data_home, &home, ".local/share")?;
    let state_home = xdg_home(xdg_state_home, &home, ".local/state")?;
    let cache_home = xdg_home(xdg_cache_home, &home, ".cache")?;
    let config_home = xdg_home(xdg_config_home, &home, ".config")?;
    Ok(
        paths_from_homes(
            data_home.as_str(),
            state_home.as_str(),
            cache_home.as_str(),
            config_home.as_str(),
        ),
    )
}

/// The IPC socket of the running popup.
pub fn socket_path(paths: &Paths) -> (r: String)
    ensures
        r@ == join_path(paths.cache_dir@, "argvus-calendar.sock"@),
{
    join(paths.cache_dir.as_str(), "argvus-calendar.sock")
}

/// The configuration and theme files an export must not write over.
pub open spec fn protected_files(p: Paths) -> Seq<Seq<char>> {
    seq![
        p.config_file@,
        p.legacy_settings_file@,
        p.user_config_file@,
        p.user_style@,
        p.theme_file@,
        p.cache_theme_file@,
        p.active_argvus_theme_file@,
    ]
}

/// Whether `path` names something inside the directory `dir`.
pub open spec fn under_dir(path: Seq<char>, dir: Seq<char>) -> bool {
    let d = dir + seq!['/'];
    d.len() <= path.len() && path.subrange(0, d.len() as int) == d
}

/// Whether an export to `path` would write over a configuration or theme
/// file: one of `protected_files`, or a file in the theme directory.
pub open spec fn export_refused(path: Seq<char>, p: Paths) -> bool {
    protected_files(p).contains(path) || under_dir(path, p.theme_dir@)
}

/// Why an export to `path` is refused, if it is: `path` is a directory
/// (`is_dir`), or a configuration or theme file (`export_refused`).
pub fn export_refusal(path: &str, is_dir: bool, paths: &Paths) -> (r: Option<ArgvusError>)
    ensures
        is_dir ==> (r matches Some(e) && e matches ArgvusError::Configuration(m) && m@ == path@
            + " is a directory"@),
        !is_dir && export_refused(path@, *paths) ==> (r matches Some(e)
            && e matches ArgvusError::Configuration(m) && m@ == path@
            + " is a configuration or theme file"@),
        !is_dir && !export_refused(path@, *paths) ==> r is None,
{
    let pv = chars_of(path);
    if is_dir {
        let tail = chars_of(" is a directory");
        let all = concat(pv.as_slice(), tail.as_slice());
        return Some(ArgvusError::Configuration(string_of(all.as_slice())));
    }
    let protected = str_eq(path, paths.config_file.as_str()) || str_eq(
        path,
        paths.legacy_settings_file.as_str(),
    ) || str_eq(path, paths.user_config_file.as_str()) || str_eq(path, paths.user_style.as_str())
        || str_eq(path, paths.theme_file.as_str()) || str_eq(path, paths.cache_theme_file.as_str())
        || str_eq(path, paths.active_argvus_theme_file.as_str());
    let dv = chars_of(paths.theme_dir.as_str());
    let slash: Vec<char> = vec!['/'];
    let prefix = concat(dv.as_slice(), slash.as_slice());
    let prefix_text = string_of(prefix.as_slice());
    let inside = starts_with(pv.as_slice(), prefix_text.as_str());
    proof {
        let ps = protected_files(*paths);
        assert(ps[0] == paths.config_file@);
        assert(ps[1] == paths.legacy_settings_file@);
        assert(ps[2] == paths.user_config_file@);
        assert(ps[3] == paths.user_style@);
        assert(ps[4] == paths.theme_file@);
        assert(ps[5] == paths.cache_theme_file@);
        assert(ps[6] == paths.active_argvus_theme_file@);
        assert(protected ==> ps.contains(path@));
        assert(ps.contains(path@) ==> protected) by {
            if ps.contains(path@) {
                let k = choose|k: int| 0 <= k < ps.len() && ps[k] == path@;
                assert(0 <= k < 7);
            }
        }
        assert(prefix@ =~= paths.theme_dir@ + seq!['/']);
    }
    if protected || inside {
        let tail = chars_of(" is a configuration or theme file");
        let all = concat(pv.as_slice(), tail.as_slice());
        return Some(ArgvusError::Configuration(string_of(all.as_slice())));
    }
    None
}

} // verus!
