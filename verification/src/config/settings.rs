//! The settings model, its defaults and its validation.
use vstd::prelude::*;

use crate::calendar::date::WeekStart;
use crate::config::paths::Paths;
use crate::text::{
    chars_of, concat, eq_str, is_ws, string_of, trim, trim_end, trim_start, trimmed, views,
};

verus! {

/// Font settings.
#[derive(Clone, Debug)]
pub struct AppearanceConfig {
    pub font_family: String,
    pub font_size: u8,
}

/// Display language: `auto`, `en-US` or `pt-BR`.
#[derive(Clone, Debug)]
pub struct LocaleConfig {
    pub language: String,
}

/// Calendar behaviour.
#[derive(Clone, Debug)]
pub struct CalendarConfig {
    pub week_start: String,
    pub show_events: bool,
    pub default_event_duration_minutes: i64,
    pub default_reminder_minutes: i64,
    pub sync_interval_minutes: u64,
}

/// The editor used to open the configuration file.
#[derive(Clone, Debug)]
pub struct EditorConfig {
    pub command: String,
    pub args: Vec<String>,
}

/// The terminal the editor runs in.
#[derive(Clone, Debug)]
pub struct TerminalConfig {
    pub command: String,
    pub args: Vec<String>,
}

/// All settings of the popup.
#[derive(Clone, Debug)]
pub struct AppConfig {
    pub appearance: AppearanceConfig,
    pub locale: LocaleConfig,
    pub calendar: CalendarConfig,
    pub editor: EditorConfig,
    pub terminal: TerminalConfig,
}

/// Whether a language value is one the popup knows.
pub open spec fn known_language(v: Seq<char>) -> bool {
    v == "auto"@ || v == "en-US"@ || v == "pt-BR"@
}

/// Whether a week-start value is one the popup knows.
pub open spec fn known_week_start(v: Seq<char>) -> bool {
    v == "monday"@ || v == "sunday"@
}

/// The smallest font size.
pub const MIN_FONT_SIZE: u8 = 8;

/// The largest font size.
pub const MAX_FONT_SIZE: u8 = 32;

/// `v` clamped to `lo..=hi`.
pub open spec fn clamp(v: int, lo: int, hi: int) -> int {
    if v < lo {
        lo
    } else if v > hi {
        hi
    } else {
        v
    }
}

/// The default font family.
pub fn default_font_family() -> (r: String)
    ensures
        r@ == "monospace"@,
{
    owned("monospace")
}

/// The default font size.
pub fn default_font_size() -> (r: u8)
    ensures
        r == 12,
{
    12
}

/// The default language, which follows the system locale.
pub fn default_language() -> (r: String)
    ensures
        r@ == "auto"@,
{
    owned("auto")
}

/// The default first day of the week.
pub fn default_week_start() -> (r: String)
    ensures
        r@ == "monday"@,
{
    owned("monday")
}

/// Events and reminders are off by default, until the user enables them.
pub fn default_show_events() -> (r: bool)
    ensures
        !r,
{
    false
}

/// The default length of a new event, in minutes.
pub fn default_event_duration() -> (r: i64)
    ensures
        r == 60,
{
    60
}

/// The default reminder, in minutes before the start.
pub fn default_reminder() -> (r: i64)
    ensures
        r == 10,
{
    10
}

/// The default sync interval, in minutes.
pub fn default_sync_interval() -> (r: u64)
    ensures
        r == 15,
{
    15
}

fn owned(s: &str) -> (r: String)
    ensures
        r@ == s@,
{
    let v = chars_of(s);
    string_of(v.as_slice())
}

/// Whether `c` holds the default settings.
pub open spec fn is_default_config(c: AppConfig) -> bool {
    &&& c.appearance.font_family@ == "monospace"@
    &&& c.appearance.font_size == 12
    &&& c.locale.language@ == "auto"@
    &&& c.calendar.week_start@ == "monday"@
    &&& !c.calendar.show_events
    &&& c.calendar.default_event_duration_minutes == 60
    &&& c.calendar.default_reminder_minutes == 10
    &&& c.calendar.sync_interval_minutes == 15
    &&& c.editor.command@.len() == 0
    &&& c.editor.args@.len() == 0
    &&& c.terminal.command@.len() == 0
    &&& c.terminal.args@.len() == 0
}

impl Default for AppConfig {
    fn default() -> (r: AppConfig)
        ensures
            is_default_config(r),
    {
        AppConfig {
            appearance: AppearanceConfig {
                font_family: default_font_family(),
                font_size: default_font_size(),
            },
            locale: LocaleConfig { language: default_language() },
            calendar: CalendarConfig {
                week_start: default_week_start(),
                show_events: default_show_events(),
                default_event_duration_minutes: default_event_duration(),
                default_reminder_minutes: default_reminder(),
                sync_interval_minutes: default_sync_interval(),
            },
            editor: EditorConfig { command: String::new(), args: Vec::new() },
            terminal: TerminalConfig { command: String::new(), args: Vec::new() },
        }
    }
}

/// What `validate` makes of a configuration: the font size is clamped to
/// 8..=32, an unknown language becomes `auto`, an unknown week start
/// becomes `monday`, and everything else is kept.
pub open spec fn validated(c: AppConfig, r: AppConfig) -> bool {
    &&& r.appearance.font_size == clamp(c.appearance.font_size as int, 8, 32)
    &&& r.appearance.font_family == c.appearance.font_family
    &&& r.locale.language@ == (if known_language(c.locale.language@) {
        c.locale.language@
    } else {
        "auto"@
    })
    &&& r.calendar.week_start@ == (if known_week_start(c.calendar.week_start@) {
        c.calendar.week_start@
    } else {
        "monday"@
    })
    &&& r.calendar.show_events == c.calendar.show_events
    &&& r.calendar.default_event_duration_minutes == c.calendar.default_event_duration_minutes
    &&& r.calendar.default_reminder_minutes == c.calendar.default_reminder_minutes
    &&& r.calendar.sync_interval_minutes == c.calendar.sync_interval_minutes
    &&& r.editor == c.editor
    &&& r.terminal == c.terminal
}

/// Validation keeps a week start that names a supported first day of the
/// week: `monday` and `sunday` come out as they went in.
pub proof fn lemma_validate_keeps_supported_week_starts(c: AppConfig, r: AppConfig)
    requires
        validated(c, r),
        c.calendar.week_start@ == "monday"@ || c.calendar.week_start@ == "sunday"@,
    ensures
        r.calendar.week_start@ == c.calendar.week_start@,
{
}

/// Validation never changes the day the week starts on: the validated
/// configuration starts the week on Sunday exactly when the given one does.
pub proof fn lemma_validate_keeps_week_start_day(c: AppConfig, r: AppConfig)
    requires
        validated(c, r),
    ensures
        (r.calendar.week_start@ == "sunday"@) == (c.calendar.week_start@ == "sunday"@),
{
    reveal_strlit("monday");
    reveal_strlit("sunday");
    if c.calendar.week_start@ == "sunday"@ {
        assert(known_week_start(c.calendar.week_start@));
    }
    assert("monday"@ != "sunday"@) by {
        assert("monday"@[0] != "sunday"@[0]);
    }
}

/// Whether a configuration is already valid.
pub open spec fn is_valid_config(c: AppConfig) -> bool {
    &&& 8 <= c.appearance.font_size <= 32
    &&& known_language(c.locale.language@)
    &&& known_week_start(c.calendar.week_start@)
}

impl AppConfig {
    /// The first day of the week: Sunday for `sunday`, Monday otherwise.
    pub fn week_start(&self) -> (r: WeekStart)
        ensures
            r == (if self.calendar.week_start@ == "sunday"@ {
                WeekStart::Sunday
            } else {
                WeekStart::Monday
            }),
    {
        let w = chars_of(self.calendar.week_start.as_str());
        if eq_str(w.as_slice(), "sunday") {
            WeekStart::Sunday
        } else {
            WeekStart::Monday
        }
    }

    /// Brings every setting into its valid range.
    pub fn validate(config: AppConfig) -> (r: AppConfig)
        ensures
            validated(config, r),
            is_valid_config(r),
    {
        let mut config = config;
        let ghost original = config;
        if config.appearance.font_size < 8 {
            config.appearance.font_size = 8;
        } else if config.appearance.font_size > 32 {
            config.appearance.font_size = 32;
        }
        let lang = chars_of(config.locale.language.as_str());
        if !(eq_str(lang.as_slice(), "auto") || eq_str(lang.as_slice(), "en-US") || eq_str(
            lang.as_slice(),
            "pt-BR",
        )) {
            config.locale.language = owned("auto");
        }
        let week = chars_of(config.calendar.week_start.as_str());
        if !(eq_str(week.as_slice(), "monday") || eq_str(week.as_slice(), "sunday")) {
            config.calendar.week_start = owned("monday");
        }
        assert(validated(original, config));
        config
    }
}

/// Validating twice changes nothing more than validating once.
pub proof fn lemma_validate_idempotent(c: AppConfig, r: AppConfig, s: AppConfig)
    requires
        validated(c, r),
        validated(r, s),
    ensures
        s.appearance.font_size == r.appearance.font_size,
        s.locale.language@ == r.locale.language@,
        s.calendar.week_start@ == r.calendar.week_start@,
{
    reveal_strlit("auto");
    reveal_strlit("monday");
}

/// What a stored events/reminders flag reads as: `true`, `1`, `yes`, `on`
/// enable, `false`, `0`, `no`, `off` disable (surrounding white space
/// ignored); anything else is no answer.
pub open spec fn events_flag(value: Seq<char>) -> Option<bool> {
    let t = trim(value);
    if t == "true"@ || t == "1"@ || t == "yes"@ || t == "on"@ {
        Some(true)
    } else if t == "false"@ || t == "0"@ || t == "no"@ || t == "off"@ {
        Some(false)
    } else {
        None
    }
}

/// Reads the stored events/reminders flag.
pub fn read_events_enabled(value: &str) -> (r: Option<bool>)
    ensures
        r == events_flag(value@),
{
    let t = trimmed(value);
    let t = t.as_slice();
    if eq_str(t, "true") || eq_str(t, "1") || eq_str(t, "yes") || eq_str(t, "on") {
        Some(true)
    } else if eq_str(t, "false") || eq_str(t, "0") || eq_str(t, "no") || eq_str(t, "off") {
        Some(false)
    } else {
        None
    }
}

/// The flag that the flag file's contents give; `None` when the file
/// cannot be read or gives no answer.
pub open spec fn stored_flag(contents: Option<&str>) -> Option<bool> {
    match contents {
        Some(c) => events_flag(c@),
        None => None,
    }
}

/// Whether events and reminders are on for the popup: the stored flag
/// (`contents` of the flag file, `None` when it cannot be read) when it
/// answers, otherwise the legacy `show_events` setting, which is off unless
/// the user turned it on: missing state leaves events off.
pub fn load_events_enabled(contents: Option<&str>, config: &AppConfig) -> (r: bool)
    ensures
        r == match stored_flag(contents) {
            Some(b) => b,
            None => config.calendar.show_events,
        },
{
    let stored = match contents {
        Some(c) => read_events_enabled(c),
        None => None,
    };
    match stored {
        Some(b) => b,
        None => config.calendar.show_events,
    }
}

/// Whether the reminder service should run: only when the stored flag
/// enables it; a missing or unrecognised flag leaves it off until the user
/// enables events.
pub fn service_events_enabled(contents: Option<&str>) -> (r: bool)
    ensures
        r == (stored_flag(contents) == Some(true)),
{
    let stored = match contents {
        Some(c) => read_events_enabled(c),
        None => None,
    };
    match stored {
        Some(b) => b,
        None => false,
    }
}

/// The text written to the flag file.
pub fn events_enabled_contents(enabled: bool) -> (r: &'static str)
    ensures
        r@ == (if enabled {
            "true\n"@
        } else {
            "false\n"@
        }),
{
    if enabled {
        "true\n"
    } else {
        "false\n"
    }
}

/// Writing the flag and reading it back gives the flag.
pub proof fn lemma_events_flag_round_trip(enabled: bool)
    ensures
        events_flag(if enabled {
            "true\n"@
        } else {
            "false\n"@
        }) == Some(enabled),
{
    reveal_strlit("true\n");
    reveal_strlit("false\n");
    reveal_strlit("true");
    reveal_strlit("false");
    reveal_strlit("1");
    reveal_strlit("yes");
    reveal_strlit("on");
    let s = if enabled {
        "true\n"@
    } else {
        "false\n"@
    };
    let t = s.drop_last();
    assert(trim_start(s) == s);
    assert(trim_end(t) == t);
    assert(trim(s) =~= t);
    if enabled {
        assert(t =~= "true"@);
    } else {
        assert(t =~= "false"@);
        assert(t != "1"@);
        assert(t != "yes"@);
        assert(t != "on"@);
        assert(t.len() != "true"@.len());
    }
}

/// The configuration file in effect: the user's when it exists, else the
/// system-wide one.
pub fn effective_config_file(paths: &Paths, user_file_exists: bool) -> (r: String)
    ensures
        r@ == (if user_file_exists {
            paths.user_config_file@
        } else {
            paths.config_file@
        }),
{
    if user_file_exists {
        owned(paths.user_config_file.as_str())
    } else {
        owned(paths.config_file.as_str())
    }
}

/// The program and arguments of the command that opens the system-wide
/// configuration in an editor: `<terminal> [terminal args] -e sudo <editor>
/// [editor args] <path>`.  The editor is the configured one, else `$VISUAL`,
/// else `$EDITOR`, else `nano`; the terminal is the configured one, else
/// `$TERMINAL`, else `kitty`.
pub open spec fn command_spec(
    config: AppConfig,
    path: Seq<char>,
    visual: Option<Seq<char>>,
    editor_var: Option<Seq<char>>,
    terminal_var: Option<Seq<char>>,
    program: Seq<char>,
    args: Seq<Seq<char>>,
) -> bool {
    let editor = if trim(config.editor.command@).len() > 0 {
        config.editor.command@
    } else {
        match visual {
            Some(v) => v,
            None => match editor_var {
                Some(e) => e,
                None => "nano"@,
            },
        }
    };
    let terminal = if trim(config.terminal.command@).len() > 0 {
        config.terminal.command@
    } else {
        match terminal_var {
            Some(t) => t,
            None => "kitty"@,
        }
    };
    &&& program == terminal
    &&& args == views(config.terminal.args@) + seq!["-e"@, "sudo"@, editor] + views(
        config.editor.args@,
    ) + seq![path]
}

fn copy_string(s: &String) -> (r: String)
    ensures
        r@ == s@,
{
    let v = chars_of(s.as_str());
    string_of(v.as_slice())
}

fn copy_strings(v: &Vec<String>) -> (r: Vec<String>)
    ensures
        views(r@) == views(v@),
{
    let mut r: Vec<String> = Vec::new();
    let mut i: usize = 0;
    while i < v.len()
        invariant
            i <= v.len(),
            views(r@) == views(v@.take(i as int)),
        decreases v.len() - i,
    {
        r.push(copy_string(&v[i]));
        assert(views(v@.take(i + 1)) =~= views(v@.take(i as int)).push(v@[i as int]@));
        assert(views(r@) =~= views(v@.take(i + 1)));
        i = i + 1;
    }
    assert(v@.take(v.len() as int) =~= v@);
    r
}

/// The editor command: the program and its arguments, given the values of
/// `VISUAL`, `EDITOR` and `TERMINAL`.
pub fn editor_terminal_command(
    config: &AppConfig,
    path: &str,
    visual: Option<String>,
    editor_var: Option<String>,
    terminal_var: Option<String>,
) -> (r: (String, Vec<String>))
    ensures
        command_spec(
            *config,
            path@,
            crate::config::paths::opt_str(visual),
            crate::config::paths::opt_str(editor_var),
            crate::config::paths::opt_str(terminal_var),
            r.0@,
            views(r.1@),
        ),
{
    let editor = if trimmed(config.editor.command.as_str()).len() > 0 {
        copy_string(&config.editor.command)
    } else {
        match visual {
            Some(v) => v,
            None => match editor_var {
                Some(e) => e,
                None => owned("nano"),
            },
        }
    };
    let terminal = if trimmed(config.terminal.command.as_str()).len() > 0 {
        copy_string(&config.terminal.command)
    } else {
        match terminal_var {
            Some(t) => t,
            None => owned("kitty"),
        }
    };
    let ghost ev = editor@;
    let ghost tv = terminal@;
    let mut args = copy_strings(&config.terminal.args);
    let ghost base = views(args@);
    args.push(owned("-e"));
    args.push(owned("sudo"));
    args.push(editor);
    let ghost mid = views(args@);
    assert(mid =~= base + seq!["-e"@, "sudo"@, editor@]);
    let extra = copy_strings(&config.editor.args);
    let mut i: usize = 0;
    while i < extra.len()
        invariant
            i <= extra.len(),
            views(args@) == mid + views(extra@.take(i as int)),
        decreases extra.len() - i,
    {
        let ghost before = views(args@);
        args.push(copy_string(&extra[i]));
        assert(views(args@) =~= before.push(extra@[i as int]@));
        assert(views(extra@.take(i + 1)) =~= views(extra@.take(i as int)).push(
            extra@[i as int]@,
        ));
        i = i + 1;
    }
    assert(extra@.take(extra.len() as int) =~= extra@);
    let ghost before = views(args@);
    args.push(owned(path));
    assert(views(args@) =~= before.push(path@));
    assert(views(args@) =~= views(config.terminal.args@) + seq!["-e"@, "sudo"@, ev]
        + views(config.editor.args@) + seq![path@]);
    (terminal, args)
}

/// The active theme: the trimmed contents of the theme file, when not
/// empty and among the installed themes.
pub open spec fn active_theme_spec(contents: Option<Seq<char>>, installed: Seq<Seq<char>>) -> Option<
    Seq<char>,
> {
    match contents {
        Some(c) => if trim(c).len() > 0 && installed.contains(trim(c)) {
            Some(trim(c))
        } else {
            None
        },
        None => None,
    }
}

/// The active theme named by the theme file's contents, when it is still
/// installed.
pub fn active_theme(contents: Option<&str>, installed: &Vec<String>) -> (r: Option<String>)
    ensures
        match r {
            Some(t) => active_theme_spec(
                match contents {
                    Some(c) => Some(c@),
                    None => None,
                },
                views(installed@),
            ) == Some(t@),
            None => active_theme_spec(
                match contents {
                    Some(c) => Some(c@),
                    None => None,
                },
                views(installed@),
            ) is None,
        },
{
    let c = match contents {
        Some(c) => c,
        None => return None,
    };
    let name = trimmed(c);
    if name.len() == 0 {
        return None;
    }
    let mut i: usize = 0;
    while i < installed.len()
        invariant
            contents == Some(c),
            i <= installed.len(),
            name@ == trim(c@),
            name@.len() > 0,
            forall|k: int| 0 <= k < i ==> #[trigger] installed@[k]@ != name@,
        decreases installed.len() - i,
    {
        if eq_str(name.as_slice(), installed[i].as_str()) {
            assert(views(installed@)[i as int] == name@);
            assert(views(installed@).contains(name@));
            assert(trim(c@).len() > 0);
            let r = string_of(name.as_slice());
            assert(active_theme_spec(Some(c@), views(installed@)) == Some(r@));
            assert(contents == Some(c));
            return Some(r);
        }
        i = i + 1;
    }
    assert(!views(installed@).contains(name@)) by {
        if views(installed@).contains(name@) {
            let k = choose|k: int| 0 <= k < views(installed@).len() && views(installed@)[k] == name@;
            assert(installed@[k]@ != name@);
        }
    }
    None
}

/// The text written to the theme file to make `name` the active theme: the
/// name and a line end.
pub fn active_theme_contents(name: &str) -> (r: String)
    ensures
        r@ == name@ + "\n"@,
{
    let v = chars_of(name);
    let nl = chars_of("\n");
    let all = concat(v.as_slice(), nl.as_slice());
    string_of(all.as_slice())
}

/// Writing a theme name that starts and ends with no white space and is
/// installed, then reading the theme file back, gives that name as the
/// active theme.
pub proof fn lemma_active_theme_round_trip(name: Seq<char>, installed: Seq<Seq<char>>)
    requires
        name.len() > 0,
        !is_ws(name[0]),
        !is_ws(name.last()),
        installed.contains(name),
    ensures
        active_theme_spec(Some(name + "\n"@), installed) == Some(name),
{
    reveal_strlit("\n");
    let written = name + "\n"@;
    assert(written[0] == name[0]);
    assert(trim_start(written) == written);
    assert(written.drop_last() =~= name);
    assert(is_ws(written.last()));
    assert(trim_end(written) == trim_end(name));
    assert(trim_end(name) == name);
    assert(trim(written) == name);
}

} // verus!
