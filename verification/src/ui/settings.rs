//! The editable snapshot of the settings shown on the settings screen.
use vstd::prelude::*;

use crate::config::settings::{
    clamp, is_default_config, known_language, AppConfig, AppearanceConfig, CalendarConfig,
    EditorConfig, LocaleConfig, TerminalConfig,
};
use crate::text::{
    all_words, chars_of, eq_str, join, join_with_spaces, lemma_words_of_join, split_whitespace,
    string_of, trim, trimmed, views, words,
};

verus! {

/// The values of the settings form.
#[derive(Clone, Debug)]
pub struct SettingsDraft {
    pub font_family: String,
    pub font_size: u32,
    pub theme: String,
    pub language: String,
    pub week_start: String,
    pub show_events: bool,
    pub default_event_duration_minutes: i64,
    pub default_reminder_minutes: i64,
    pub sync_interval_minutes: u64,
    pub editor_command: String,
    pub editor_args: String,
    pub terminal_command: String,
    pub terminal_args: String,
}

/// The language value a draft saves: `pt-BR` and `en-US` are kept, anything
/// else becomes `auto`.
pub open spec fn saved_language(v: Seq<char>) -> Seq<char> {
    if v == "pt-BR"@ {
        "pt-BR"@
    } else if v == "en-US"@ {
        "en-US"@
    } else {
        "auto"@
    }
}

/// The settings a draft saves.
pub open spec fn draft_config(d: SettingsDraft, c: AppConfig) -> bool {
    &&& c.appearance.font_family@ == (if trim(d.font_family@).len() == 0 {
        "monospace"@
    } else {
        d.font_family@
    })
    &&& c.appearance.font_size == clamp(d.font_size as int, 8, 32)
    &&& c.locale.language@ == saved_language(d.language@)
    &&& c.calendar.week_start@ == (if d.week_start@ == "sunday"@ {
        "sunday"@
    } else {
        "monday"@
    })
    &&& c.calendar.show_events == d.show_events
    &&& c.calendar.default_event_duration_minutes == (if d.default_event_duration_minutes < 0 {
        0
    } else {
        d.default_event_duration_minutes
    })
    &&& c.calendar.default_reminder_minutes == (if d.default_reminder_minutes < 0 {
        0
    } else {
        d.default_reminder_minutes
    })
    &&& c.calendar.sync_interval_minutes == (if d.sync_interval_minutes < 1 {
        1
    } else {
        d.sync_interval_minutes
    })
    &&& c.editor.command@ == d.editor_command@
    &&& views(c.editor.args@) == words(d.editor_args@)
    &&& c.terminal.command@ == d.terminal_command@
    &&& views(c.terminal.args@) == words(d.terminal_args@)
}

fn copy(s: &String) -> (r: String)
    ensures
        r@ == s@,
{
    let v = chars_of(s.as_str());
    string_of(v.as_slice())
}

fn owned(s: &str) -> (r: String)
    ensures
        r@ == s@,
{
    let v = chars_of(s);
    string_of(v.as_slice())
}

impl SettingsDraft {
    /// A draft of the current settings, the active theme and the
    /// events/reminders switch.
    pub fn from_config(settings: &AppConfig, theme: &str, events_enabled: bool) -> (d: SettingsDraft)
        ensures
            d.font_family@ == settings.appearance.font_family@,
            d.font_size == settings.appearance.font_size,
            d.theme@ == theme@,
            d.language@ == settings.locale.language@,
            d.week_start@ == settings.calendar.week_start@,
            d.show_events == events_enabled,
            d.default_event_duration_minutes == settings.calendar.default_event_duration_minutes,
            d.default_reminder_minutes == settings.calendar.default_reminder_minutes,
            d.sync_interval_minutes == settings.calendar.sync_interval_minutes,
            d.editor_command@ == settings.editor.command@,
            d.editor_args@ == join(views(settings.editor.args@), " "@),
            d.terminal_command@ == settings.terminal.command@,
            d.terminal_args@ == join(views(settings.terminal.args@), " "@),
    {
        SettingsDraft {
            font_family: copy(&settings.appearance.font_family),
            font_size: settings.appearance.font_size as u32,
            theme: owned(theme),
            language: copy(&settings.locale.language),
            week_start: copy(&settings.calendar.week_start),
            show_events: events_enabled,
            default_event_duration_minutes: settings.calendar.default_event_duration_minutes,
            default_reminder_minutes: settings.calendar.default_reminder_minutes,
            sync_interval_minutes: settings.calendar.sync_interval_minutes,
            editor_command: copy(&settings.editor.command),
            editor_args: join_with_spaces(&settings.editor.args),
            terminal_command: copy(&settings.terminal.command),
            terminal_args: join_with_spaces(&settings.terminal.args),
        }
    }

    /// The settings this draft saves: a blank font family becomes
    /// `monospace`, the font size is clamped to 8..=32, an unknown language
    /// becomes `auto`, an unknown week start `monday`, negative lengths 0,
    /// the sync interval at least 1, and the argument lines are split at
    /// white space.
    pub fn into_config(self) -> (c: AppConfig)
        ensures
            draft_config(self, c),
    {
        let ghost d = self;
        let font_family = if trimmed(self.font_family.as_str()).len() == 0 {
            owned("monospace")
        } else {
            self.font_family
        };
        let font_size: u8 = if self.font_size < 8 {
            8
        } else if self.font_size > 32 {
            32
        } else {
            self.font_size as u8
        };
        let lang = chars_of(self.language.as_str());
        let language = if eq_str(lang.as_slice(), "pt-BR") {
            owned("pt-BR")
        } else if eq_str(lang.as_slice(), "en-US") {
            owned("en-US")
        } else {
            owned("auto")
        };
        let week = chars_of(self.week_start.as_str());
        let week_start = if eq_str(week.as_slice(), "sunday") {
            owned("sunday")
        } else {
            owned("monday")
        };
        let editor_args = split_whitespace(self.editor_args.as_str());
        let terminal_args = split_whitespace(self.terminal_args.as_str());
        AppConfig {
            appearance: AppearanceConfig { font_family, font_size },
            locale: LocaleConfig { language },
            calendar: CalendarConfig {
                week_start,
                show_events: self.show_events,
                default_event_duration_minutes: if self.default_event_duration_minutes < 0 {
                    0
                } else {
                    self.default_event_duration_minutes
                },
                default_reminder_minutes: if self.default_reminder_minutes < 0 {
                    0
                } else {
                    self.default_reminder_minutes
                },
                sync_interval_minutes: if self.sync_interval_minutes < 1 {
                    1
                } else {
                    self.sync_interval_minutes
                },
            },
            editor: EditorConfig { command: self.editor_command, args: editor_args },
            terminal: TerminalConfig { command: self.terminal_command, args: terminal_args },
        }
    }
}

/// Whether saving a draft of `c` gives `c` back: the font family is not
/// blank, the values are in range, and every argument is a non-empty word.
pub open spec fn survives_draft(c: AppConfig) -> bool {
    &&& trim(c.appearance.font_family@).len() > 0
    &&& 8 <= c.appearance.font_size <= 32
    &&& known_language(c.locale.language@)
    &&& (c.calendar.week_start@ == "monday"@ || c.calendar.week_start@ == "sunday"@)
    &&& c.calendar.default_event_duration_minutes >= 0
    &&& c.calendar.default_reminder_minutes >= 0
    &&& c.calendar.sync_interval_minutes >= 1
    &&& all_words(views(c.editor.args@))
    &&& all_words(views(c.terminal.args@))
}

/// Opening the settings screen and saving it unchanged keeps every
/// setting, with the switch as the events/reminders state.
pub proof fn lemma_draft_round_trip(c: AppConfig, d: SettingsDraft, r: AppConfig)
    requires
        survives_draft(c),
        d.font_family@ == c.appearance.font_family@,
        d.font_size == c.appearance.font_size,
        d.language@ == c.locale.language@,
        d.week_start@ == c.calendar.week_start@,
        d.default_event_duration_minutes == c.calendar.default_event_duration_minutes,
        d.default_reminder_minutes == c.calendar.default_reminder_minutes,
        d.sync_interval_minutes == c.calendar.sync_interval_minutes,
        d.editor_command@ == c.editor.command@,
        d.editor_args@ == join(views(c.editor.args@), " "@),
        d.terminal_command@ == c.terminal.command@,
        d.terminal_args@ == join(views(c.terminal.args@), " "@),
        draft_config(d, r),
    ensures
        r.appearance.font_family@ == c.appearance.font_family@,
        r.appearance.font_size == c.appearance.font_size,
        r.locale.language@ == c.locale.language@,
        r.calendar.week_start@ == c.calendar.week_start@,
        r.calendar.show_events == d.show_events,
        r.calendar.default_event_duration_minutes == c.calendar.default_event_duration_minutes,
        r.calendar.default_reminder_minutes == c.calendar.default_reminder_minutes,
        r.calendar.sync_interval_minutes == c.calendar.sync_interval_minutes,
        r.editor.command@ == c.editor.command@,
        views(r.editor.args@) == views(c.editor.args@),
        r.terminal.command@ == c.terminal.command@,
        views(r.terminal.args@) == views(c.terminal.args@),
{
    lemma_words_of_join(views(c.editor.args@));
    lemma_words_of_join(views(c.terminal.args@));
    reveal_strlit("auto");
    reveal_strlit("pt-BR");
    reveal_strlit("en-US");
    reveal_strlit("monday");
    reveal_strlit("sunday");
    assert("auto"@.len() != "pt-BR"@.len());
    assert("auto"@.len() != "en-US"@.len());
    assert("monday"@[0] != "sunday"@[0]);
}

} // verus!
