//! The popup's state machine: what each message does to the shown month,
//! the selected day and the current view, and what the shell around it
//! must do next.
use vstd::prelude::*;

use crate::calendar::date::{
    checked_add_days, checked_sub_days, date_before, first_of_month, next_month,
    next_month_spec, previous_month, previous_month_spec, shift_year_clamped, shift_year_spec,
    Date, MAX_YEAR, MIN_YEAR,
};
use crate::calendar::event::CalendarEvent;
use crate::config::settings::AppConfig;
use crate::ipc::{IpcCommand, IpcMessage};
use crate::ui::editor::EditorDraft;
use crate::ui::popup::can_create_event;
use crate::ui::settings::SettingsDraft;

verus! {

/// What the popup shows.
#[derive(Clone, Debug)]
pub enum ViewState {
    Calendar,
    Editor(Box<EditorDraft>),
    Settings(Box<SettingsDraft>),
}

/// Back to the calendar view.
pub fn cancel_editor(view: &mut ViewState)
    ensures
        *final(view) is Calendar,
{
    *view = ViewState::Calendar;
}

/// A message from the popup's widgets or from the IPC listener.
#[derive(Debug)]
pub enum AppMsg {
    PreviousMonth,
    NextMonth,
    PreviousYear,
    NextYear,
    Today,
    MoveDays(i64),
    SelectDay(Date),
    OpenNewEvent,
    OpenEditEvent(i64),
    EditorTitle(String),
    EditorLocation(String),
    EditorDescription(String),
    EditorStartHour(u32),
    EditorStartMinute(u32),
    EditorEndHour(u32),
    EditorEndMinute(u32),
    EditorAllDay(bool),
    EditorReminderEnabled(bool),
    EditorReminderHours(u32),
    EditorReminderMinutes(u32),
    EditorRepeatAllDay(bool),
    EditorRepeatHours(u32),
    EditorRepeatMinutes(u32),
    SaveEditor,
    DeleteEvent,
    CancelEditor,
    OpenConfig,
    OpenSettings,
    CancelSettings,
    SaveSettings,
    SettingsFontFamily(String),
    SettingsFontSize(u32),
    SettingsTheme(String),
    SettingsLanguage(String),
    SettingsWeekStart(String),
    SettingsShowEvents(bool),
    SettingsDefaultDuration(i64),
    SettingsDefaultReminder(i64),
    SettingsSyncInterval(u64),
    SettingsEditorCommand(String),
    SettingsEditorArgs(String),
    SettingsTerminalCommand(String),
    SettingsTerminalArgs(String),
    ReloadConfig,
    Toggle(Option<(i32, i32)>),
    Show(Option<(i32, i32)>),
    Hide,
    ClickOutside,
    ReloadTheme,
}

/// What the shell around the state machine must do after a message.
#[derive(Debug)]
pub enum Effect {
    /// Look up the event with this id and, when found, open it with
    /// `open_edit_event`.
    LoadEventForEdit(i64),
    /// Store the event of this draft.
    SaveEditor(EditorDraft),
    /// Mark the event with this id deleted.
    DeleteEvent(i64),
    /// Open the configuration file in an editor.
    OpenConfig,
    /// Read the active theme and open the settings with `open_settings`.
    LoadSettings,
    /// Store these saved settings, then call `apply_settings`.
    SaveSettings(SettingsDraft),
    /// Load the configuration again and reapply it.
    ReloadConfig,
    /// Hide the popup window.
    HidePopup,
    /// Load the style sheets.
    LoadCss,
    /// Position and present the popup window.
    PresentPopup,
    /// Load the events of the selected day and the event days of the month.
    ReloadEvents,
}

/// The state of the popup.
#[derive(Debug)]
pub struct AppState {
    pub month: Date,
    pub selected: Date,
    pub events_enabled: bool,
    pub fixed_position: Option<(i32, i32)>,
    pub view: ViewState,
    pub default_reminder_minutes: i64,
}

impl AppState {
    /// The shown month is the first of a month, and both dates are valid.
    pub open spec fn wf(&self) -> bool {
        self.month.valid() && self.month.day == 1 && self.selected.valid()
    }

    /// A popup on `today`'s month with the calendar view.
    pub fn new(today: Date, events_enabled: bool, default_reminder_minutes: i64, fixed_position: Option<(i32, i32)>) -> (s: AppState)
        requires
            today.valid(),
        ensures
            s.wf(),
            s.selected == today,
            s.month == today.first_of_month_spec(),
            s.events_enabled == events_enabled,
            s.fixed_position == fixed_position,
            s.view is Calendar,
            s.default_reminder_minutes == default_reminder_minutes,
    {
        AppState {
            month: first_of_month(today),
            selected: today,
            events_enabled,
            fixed_position,
            view: ViewState::Calendar,
            default_reminder_minutes,
        }
    }
}

/// Whether a message changes nothing the event lists depend on, so the
/// events need not be loaded again.
pub open spec fn keeps_events(msg: AppMsg) -> bool {
    match msg {
        AppMsg::Toggle(_) | AppMsg::Show(_) | AppMsg::Hide | AppMsg::ClickOutside
        | AppMsg::ReloadTheme | AppMsg::OpenConfig | AppMsg::OpenSettings
        | AppMsg::CancelSettings | AppMsg::SaveSettings | AppMsg::ReloadConfig
        | AppMsg::OpenEditEvent(_) | AppMsg::EditorTitle(_) | AppMsg::EditorLocation(_)
        | AppMsg::EditorDescription(_) | AppMsg::EditorStartHour(_)
        | AppMsg::EditorStartMinute(_) | AppMsg::EditorEndHour(_) | AppMsg::EditorEndMinute(_)
        | AppMsg::EditorAllDay(_) | AppMsg::EditorReminderEnabled(_)
        | AppMsg::EditorReminderHours(_) | AppMsg::EditorReminderMinutes(_)
        | AppMsg::EditorRepeatAllDay(_) | AppMsg::EditorRepeatHours(_)
        | AppMsg::EditorRepeatMinutes(_) | AppMsg::SettingsFontFamily(_)
        | AppMsg::SettingsFontSize(_) | AppMsg::SettingsTheme(_) | AppMsg::SettingsLanguage(_)
        | AppMsg::SettingsWeekStart(_) | AppMsg::SettingsShowEvents(_)
        | AppMsg::SettingsDefaultDuration(_) | AppMsg::SettingsDefaultReminder(_)
        | AppMsg::SettingsSyncInterval(_) | AppMsg::SettingsEditorCommand(_)
        | AppMsg::SettingsEditorArgs(_) | AppMsg::SettingsTerminalCommand(_)
        | AppMsg::SettingsTerminalArgs(_) => true,
        _ => false,
    }
}

/// Whether a message can be handled in a state: the navigation stays within
/// the supported years.
pub open spec fn handles(s: AppState, msg: AppMsg) -> bool {
    match msg {
        AppMsg::PreviousMonth => !(s.month.month == 1 && s.month.year == MIN_YEAR),
        AppMsg::NextMonth => !(s.month.month == 12 && s.month.year == MAX_YEAR),
        AppMsg::PreviousYear => s.selected.year > MIN_YEAR,
        AppMsg::NextYear => s.selected.year < MAX_YEAR,
        AppMsg::SelectDay(d) => d.valid(),
        _ => true,
    }
}

/// Whether a message can be handled in a state (see `handles`).
pub fn can_handle(s: &AppState, msg: &AppMsg) -> (r: bool)
    requires
        s.wf(),
    ensures
        r == handles(*s, *msg),
{
    match msg {
        AppMsg::PreviousMonth => !(s.month.month == 1 && s.month.year == MIN_YEAR),
        AppMsg::NextMonth => !(s.month.month == 12 && s.month.year == MAX_YEAR),
        AppMsg::PreviousYear => s.selected.year > MIN_YEAR,
        AppMsg::NextYear => s.selected.year < MAX_YEAR,
        AppMsg::SelectDay(d) => Date::from_ymd_opt(d.year, d.month, d.day).is_some(),
        _ => true,
    }
}

fn take_view(view: &mut ViewState) -> (v: ViewState)
    ensures
        v == *old(view),
        *final(view) is Calendar,
{
    let mut v = ViewState::Calendar;
    std::mem::swap(&mut v, view);
    v
}

/// Applies `change` to the editor draft, when the editor is shown.
fn edit_draft(view: &mut ViewState, change: EditorChange)
    ensures
        match *old(view) {
            ViewState::Editor(d) => *final(view) == ViewState::Editor(Box::new(changed_draft(*d, change))),
            other => *final(view) == other,
        },
{
    let v = take_view(view);
    *view = match v {
        ViewState::Editor(d) => {
            let mut d = *d;
            apply_change(&mut d, change);
            ViewState::Editor(Box::new(d))
        },
        other => other,
    };
}

/// One field of the editor draft set to a new value.
pub enum EditorChange {
    Title(String),
    Location(String),
    Description(String),
    StartHour(u32),
    StartMinute(u32),
    EndHour(u32),
    EndMinute(u32),
    AllDay(bool),
    ReminderEnabled(bool),
    ReminderHours(u32),
    ReminderMinutes(u32),
    RepeatAllDay(bool),
    RepeatHours(u32),
    RepeatMinutes(u32),
}

/// The draft with one field changed.
pub open spec fn changed_draft(d: EditorDraft, c: EditorChange) -> EditorDraft {
    match c {
        EditorChange::Title(v) => EditorDraft { title: v, ..d },
        EditorChange::Location(v) => EditorDraft { location: v, ..d },
        EditorChange::Description(v) => EditorDraft { description: v, ..d },
        EditorChange::StartHour(v) => EditorDraft { start_hour: v, ..d },
        EditorChange::StartMinute(v) => EditorDraft { start_minute: v, ..d },
        EditorChange::EndHour(v) => EditorDraft { end_hour: v, ..d },
        EditorChange::EndMinute(v) => EditorDraft { end_minute: v, ..d },
        EditorChange::AllDay(v) => EditorDraft { all_day: v, ..d },
        EditorChange::ReminderEnabled(v) => EditorDraft { reminder_enabled: v, ..d },
        EditorChange::ReminderHours(v) => EditorDraft { reminder_hours: v, ..d },
        EditorChange::ReminderMinutes(v) => EditorDraft { reminder_minutes: v, ..d },
        EditorChange::RepeatAllDay(v) => EditorDraft { repeat_all_day: v, ..d },
        EditorChange::RepeatHours(v) => EditorDraft { repeat_hours: v, ..d },
        EditorChange::RepeatMinutes(v) => EditorDraft { repeat_minutes: v, ..d },
    }
}

fn apply_change(d: &mut EditorDraft, change: EditorChange)
    ensures
        *final(d) == changed_draft(*old(d), change),
{
    match change {
        EditorChange::Title(v) => d.title = v,
        EditorChange::Location(v) => d.location = v,
        EditorChange::Description(v) => d.description = v,
        EditorChange::StartHour(v) => d.start_hour = v,
        EditorChange::StartMinute(v) => d.start_minute = v,
        EditorChange::EndHour(v) => d.end_hour = v,
        EditorChange::EndMinute(v) => d.end_minute = v,
        EditorChange::AllDay(v) => d.all_day = v,
        EditorChange::ReminderEnabled(v) => d.reminder_enabled = v,
        EditorChange::ReminderHours(v) => d.reminder_hours = v,
        EditorChange::ReminderMinutes(v) => d.reminder_minutes = v,
        EditorChange::RepeatAllDay(v) => d.repeat_all_day = v,
        EditorChange::RepeatHours(v) => d.repeat_hours = v,
        EditorChange::RepeatMinutes(v) => d.repeat_minutes = v,
    }
}

/// Applies a change to the editor draft, when the editor is shown.
pub fn update_draft(view: &mut ViewState, change: EditorChange)
    ensures
        match *old(view) {
            ViewState::Editor(d) => *final(view) == ViewState::Editor(Box::new(changed_draft(*d, change))),
            other => *final(view) == other,
        },
{
    edit_draft(view, change)
}


/// One field of the settings draft set to a new value.
pub enum SettingsChange {
    FontFamily(String),
    FontSize(u32),
    Theme(String),
    Language(String),
    WeekStart(String),
    ShowEvents(bool),
    DefaultDuration(i64),
    DefaultReminder(i64),
    SyncInterval(u64),
    EditorCommand(String),
    EditorArgs(String),
    TerminalCommand(String),
    TerminalArgs(String),
}

/// The settings draft with one field changed.
pub open spec fn changed_settings(d: SettingsDraft, c: SettingsChange) -> SettingsDraft {
    match c {
        SettingsChange::FontFamily(v) => SettingsDraft { font_family: v, ..d },
        SettingsChange::FontSize(v) => SettingsDraft { font_size: v, ..d },
        SettingsChange::Theme(v) => SettingsDraft { theme: v, ..d },
        SettingsChange::Language(v) => SettingsDraft { language: v, ..d },
        SettingsChange::WeekStart(v) => SettingsDraft { week_start: v, ..d },
        SettingsChange::ShowEvents(v) => SettingsDraft { show_events: v, ..d },
        SettingsChange::DefaultDuration(v) => SettingsDraft {
            default_event_duration_minutes: v,
            ..d
        },
        SettingsChange::DefaultReminder(v) => SettingsDraft { default_reminder_minutes: v, ..d },
        SettingsChange::SyncInterval(v) => SettingsDraft { sync_interval_minutes: v, ..d },
        SettingsChange::EditorCommand(v) => SettingsDraft { editor_command: v, ..d },
        SettingsChange::EditorArgs(v) => SettingsDraft { editor_args: v, ..d },
        SettingsChange::TerminalCommand(v) => SettingsDraft { terminal_command: v, ..d },
        SettingsChange::TerminalArgs(v) => SettingsDraft { terminal_args: v, ..d },
    }
}

fn apply_settings_change(d: &mut SettingsDraft, change: SettingsChange)
    ensures
        *final(d) == changed_settings(*old(d), change),
{
    match change {
        SettingsChange::FontFamily(v) => d.font_family = v,
        SettingsChange::FontSize(v) => d.font_size = v,
        SettingsChange::Theme(v) => d.theme = v,
        SettingsChange::Language(v) => d.language = v,
        SettingsChange::WeekStart(v) => d.week_start = v,
        SettingsChange::ShowEvents(v) => d.show_events = v,
        SettingsChange::DefaultDuration(v) => d.default_event_duration_minutes = v,
        SettingsChange::DefaultReminder(v) => d.default_reminder_minutes = v,
        SettingsChange::SyncInterval(v) => d.sync_interval_minutes = v,
        SettingsChange::EditorCommand(v) => d.editor_command = v,
        SettingsChange::EditorArgs(v) => d.editor_args = v,
        SettingsChange::TerminalCommand(v) => d.terminal_command = v,
        SettingsChange::TerminalArgs(v) => d.terminal_args = v,
    }
}

/// Applies a change to the settings draft, when the settings are shown.
pub fn update_settings_draft(view: &mut ViewState, change: SettingsChange)
    ensures
        match *old(view) {
            ViewState::Settings(d) => *final(view) == ViewState::Settings(
                Box::new(changed_settings(*d, change)),
            ),
            other => *final(view) == other,
        },
{
    let v = take_view(view);
    *view = match v {
        ViewState::Settings(d) => {
            let mut d = *d;
            apply_settings_change(&mut d, change);
            ViewState::Settings(Box::new(d))
        },
        other => other,
    };
}

/// The editor change a message makes, when it is an editor field message.
pub open spec fn editor_change_of(msg: AppMsg) -> Option<EditorChange> {
    match msg {
        AppMsg::EditorTitle(v) => Some(EditorChange::Title(v)),
        AppMsg::EditorLocation(v) => Some(EditorChange::Location(v)),
        AppMsg::EditorDescription(v) => Some(EditorChange::Description(v)),
        AppMsg::EditorStartHour(v) => Some(EditorChange::StartHour(v)),
        AppMsg::EditorStartMinute(v) => Some(EditorChange::StartMinute(v)),
        AppMsg::EditorEndHour(v) => Some(EditorChange::EndHour(v)),
        AppMsg::EditorEndMinute(v) => Some(EditorChange::EndMinute(v)),
        AppMsg::EditorAllDay(v) => Some(EditorChange::AllDay(v)),
        AppMsg::EditorReminderEnabled(v) => Some(EditorChange::ReminderEnabled(v)),
        AppMsg::EditorReminderHours(v) => Some(EditorChange::ReminderHours(v)),
        AppMsg::EditorReminderMinutes(v) => Some(EditorChange::ReminderMinutes(v)),
        AppMsg::EditorRepeatAllDay(v) => Some(EditorChange::RepeatAllDay(v)),
        AppMsg::EditorRepeatHours(v) => Some(EditorChange::RepeatHours(v)),
        AppMsg::EditorRepeatMinutes(v) => Some(EditorChange::RepeatMinutes(v)),
        _ => None,
    }
}

/// The settings change a message makes, when it is a settings field message.
pub open spec fn settings_change_of(msg: AppMsg) -> Option<SettingsChange> {
    match msg {
        AppMsg::SettingsFontFamily(v) => Some(SettingsChange::FontFamily(v)),
        AppMsg::SettingsFontSize(v) => Some(SettingsChange::FontSize(v)),
        AppMsg::SettingsTheme(v) => Some(SettingsChange::Theme(v)),
        AppMsg::SettingsLanguage(v) => Some(SettingsChange::Language(v)),
        AppMsg::SettingsWeekStart(v) => Some(SettingsChange::WeekStart(v)),
        AppMsg::SettingsShowEvents(v) => Some(SettingsChange::ShowEvents(v)),
        AppMsg::SettingsDefaultDuration(v) => Some(SettingsChange::DefaultDuration(v)),
        AppMsg::SettingsDefaultReminder(v) => Some(SettingsChange::DefaultReminder(v)),
        AppMsg::SettingsSyncInterval(v) => Some(SettingsChange::SyncInterval(v)),
        AppMsg::SettingsEditorCommand(v) => Some(SettingsChange::EditorCommand(v)),
        AppMsg::SettingsEditorArgs(v) => Some(SettingsChange::EditorArgs(v)),
        AppMsg::SettingsTerminalCommand(v) => Some(SettingsChange::TerminalCommand(v)),
        AppMsg::SettingsTerminalArgs(v) => Some(SettingsChange::TerminalArgs(v)),
        _ => None,
    }
}

/// The date with day number `n`.
pub open spec fn date_with_number(n: int) -> Date {
    choose|d: Date| d.valid() && d.day_number() == n
}

/// Whether `n` holds the same state as `o` apart from the month, the
/// selected day and the view.
pub open spec fn same_settings(o: AppState, n: AppState) -> bool {
    &&& n.events_enabled == o.events_enabled
    &&& n.fixed_position == o.fixed_position
    &&& n.default_reminder_minutes == o.default_reminder_minutes
}

/// Whether `n` shows `month` with `selected` and keeps the rest of `o`.
pub open spec fn navigated(o: AppState, n: AppState, month: Date, selected: Date) -> bool {
    same_settings(o, n) && n.month == month && n.selected == selected && n.view == o.view
}

/// Whether `n` keeps the dates of `o` and shows `view`.
pub open spec fn viewing(o: AppState, n: AppState, view: ViewState) -> bool {
    same_settings(o, n) && n.month == o.month && n.selected == o.selected && n.view == view
}

/// Whether `d` is the draft of a new event on `date`.
pub open spec fn is_new_draft(d: EditorDraft, date: Date, default_reminder_minutes: i64) -> bool {
    &&& d.kind is New
    &&& d.date == date
    &&& d.title@.len() == 0
    &&& d.location@.len() == 0
    &&& d.description@.len() == 0
    &&& d.start_hour == 9 && d.start_minute == 0
    &&& d.end_hour == 10 && d.end_minute == 0
    &&& !d.all_day
    &&& d.reminder_enabled
    &&& d.reminder_hours == crate::ui::editor::default_lead(default_reminder_minutes) / 60
    &&& d.reminder_minutes == crate::ui::editor::default_lead(default_reminder_minutes) % 60
    &&& !d.repeat_all_day
    &&& d.repeat_hours == 2 && d.repeat_minutes == 0
}

/// What a message does: the new state `n` and the effects `fx` (before the
/// final reload of the events, which every message that can change them
/// asks for).
#[verifier::opaque]
pub open spec fn handled(
    o: AppState,
    msg: AppMsg,
    today: Date,
    visible: bool,
    n: AppState,
    fx: Seq<Effect>,
) -> bool {
    match msg {
        AppMsg::PreviousMonth => navigated(o, n, previous_month_spec(o.month), o.selected) && fx
            == Seq::<Effect>::empty(),
        AppMsg::NextMonth => navigated(o, n, next_month_spec(o.month), o.selected) && fx
            == Seq::<Effect>::empty(),
        AppMsg::PreviousYear => {
            let sel = shift_year_spec(o.selected, -1);
            navigated(o, n, sel.first_of_month_spec(), sel) && fx == Seq::<Effect>::empty()
        },
        AppMsg::NextYear => {
            let sel = shift_year_spec(o.selected, 1);
            navigated(o, n, sel.first_of_month_spec(), sel) && fx == Seq::<Effect>::empty()
        },
        AppMsg::Today => navigated(o, n, today.first_of_month_spec(), today) && fx
            == Seq::<Effect>::empty(),
        AppMsg::MoveDays(days) => {
            let target = o.selected.day_number() + days;
            let moved = crate::calendar::date::min_day_number() <= target
                <= crate::calendar::date::max_day_number();
            &&& moved ==> navigated(
                o,
                n,
                date_with_number(target).first_of_month_spec(),
                date_with_number(target),
            )
            &&& !moved ==> navigated(o, n, o.month, o.selected)
            &&& fx == Seq::<Effect>::empty()
        },
        AppMsg::SelectDay(d) => navigated(o, n, d.first_of_month_spec(), d) && fx
            == Seq::<Effect>::empty(),
        AppMsg::OpenNewEvent => {
            &&& fx == Seq::<Effect>::empty()
            &&& if o.events_enabled && !date_before(o.selected, today) {
                &&& same_settings(o, n) && n.month == o.month && n.selected == o.selected
                &&& n.view matches ViewState::Editor(d) && is_new_draft(
                    *d,
                    o.selected,
                    o.default_reminder_minutes,
                )
            } else {
                viewing(o, n, o.view)
            }
        },
        AppMsg::OpenEditEvent(id) => viewing(o, n, o.view) && fx == (if o.events_enabled {
            seq![Effect::LoadEventForEdit(id)]
        } else {
            Seq::<Effect>::empty()
        }),
        AppMsg::SaveEditor => match o.view {
            ViewState::Editor(d) => viewing(o, n, ViewState::Calendar) && fx == seq![
                Effect::SaveEditor(*d),
            ],
            _ => viewing(o, n, o.view) && fx == Seq::<Effect>::empty(),
        },
        AppMsg::DeleteEvent => match o.view {
            ViewState::Editor(d) => viewing(o, n, ViewState::Calendar) && fx == (match d.kind {
                crate::ui::editor::EditorKind::Edit(e) => match e.id {
                    Some(id) => seq![Effect::DeleteEvent(id)],
                    None => Seq::<Effect>::empty(),
                },
                _ => Seq::<Effect>::empty(),
            }),
            _ => viewing(o, n, o.view) && fx == Seq::<Effect>::empty(),
        },
        AppMsg::CancelEditor | AppMsg::CancelSettings => viewing(o, n, ViewState::Calendar) && fx
            == Seq::<Effect>::empty(),
        AppMsg::OpenConfig => viewing(o, n, o.view) && fx == seq![Effect::OpenConfig],
        AppMsg::OpenSettings => viewing(o, n, o.view) && fx == seq![Effect::LoadSettings],
        AppMsg::SaveSettings => match o.view {
            ViewState::Settings(d) => viewing(o, n, ViewState::Calendar) && fx == seq![
                Effect::SaveSettings(*d),
            ],
            _ => viewing(o, n, o.view) && fx == Seq::<Effect>::empty(),
        },
        AppMsg::ReloadConfig => viewing(o, n, ViewState::Calendar) && fx == seq![
            Effect::ReloadConfig,
        ],
        AppMsg::Toggle(pos) => if visible {
            viewing(o, n, ViewState::Calendar) && fx == seq![Effect::HidePopup]
        } else {
            &&& n.events_enabled == o.events_enabled
            &&& n.default_reminder_minutes == o.default_reminder_minutes
            &&& n.fixed_position == pos
            &&& n.month == o.month && n.selected == o.selected
            &&& n.view is Calendar
            &&& fx == seq![Effect::LoadCss, Effect::PresentPopup]
        },
        AppMsg::Show(pos) => {
            &&& n.events_enabled == o.events_enabled
            &&& n.default_reminder_minutes == o.default_reminder_minutes
            &&& n.fixed_position == pos
            &&& n.month == o.month && n.selected == o.selected
            &&& n.view == (if visible {
                o.view
            } else {
                ViewState::Calendar
            })
            &&& fx == seq![Effect::LoadCss, Effect::PresentPopup]
        },
        AppMsg::Hide | AppMsg::ClickOutside => viewing(o, n, ViewState::Calendar) && fx == seq![
            Effect::HidePopup,
        ],
        AppMsg::ReloadTheme => viewing(o, n, o.view) && fx == seq![Effect::LoadCss],
        _ => {
            &&& fx == Seq::<Effect>::empty()
            &&& match (editor_change_of(msg), settings_change_of(msg)) {
                (Some(c), _) => viewing(
                    o,
                    n,
                    match o.view {
                        ViewState::Editor(d) => ViewState::Editor(Box::new(changed_draft(*d, c))),
                        other => other,
                    },
                ),
                (_, Some(c)) => viewing(
                    o,
                    n,
                    match o.view {
                        ViewState::Settings(d) => ViewState::Settings(
                            Box::new(changed_settings(*d, c)),
                        ),
                        other => other,
                    },
                ),
                _ => false,
            }
        },
    }
}

/// The effects of a message: its own, then a reload of the events unless
/// the message cannot change them.
pub open spec fn with_reload(msg: AppMsg, fx: Seq<Effect>) -> Seq<Effect> {
    if keeps_events(msg) {
        fx
    } else {
        fx.push(Effect::ReloadEvents)
    }
}

/// Handles one message: updates the state and returns what the shell must
/// do, in order.
pub fn update(state: &mut AppState, msg: AppMsg, today: Date, visible: bool) -> (effects: Vec<Effect>)
    requires
        old(state).wf(),
        handles(*old(state), msg),
        today.valid(),
    ensures
        final(state).wf(),
        exists|fx: Seq<Effect>|
            handled(*old(state), msg, today, visible, *final(state), fx) && effects@
                == with_reload(msg, fx),
{
    let reload = !keeps_events_exec(&msg);
    let ghost o = *state;
    let ghost m = msg;
    let mut effects = step(state, msg, today, visible);
    let ghost fx = effects@;
    if reload {
        effects.push(Effect::ReloadEvents);
    }
    assert(handled(o, m, today, visible, *state, fx) && effects@ == with_reload(m, fx));
    effects
}

fn step(state: &mut AppState, msg: AppMsg, today: Date, visible: bool) -> (effects: Vec<Effect>)
    requires
        old(state).wf(),
        handles(*old(state), msg),
        today.valid(),
    ensures
        final(state).wf(),
        handled(*old(state), msg, today, visible, *final(state), effects@),
{
    match msg {
        AppMsg::PreviousMonth | AppMsg::NextMonth | AppMsg::PreviousYear | AppMsg::NextYear
        | AppMsg::Today | AppMsg::MoveDays(_) | AppMsg::SelectDay(_) => {
            navigate(state, msg, today)
        },
        AppMsg::OpenNewEvent => open_new_event(state, today),
        AppMsg::SaveEditor | AppMsg::DeleteEvent | AppMsg::SaveSettings => close_draft(state, msg),
        AppMsg::OpenEditEvent(_) | AppMsg::CancelEditor | AppMsg::CancelSettings
        | AppMsg::OpenConfig | AppMsg::OpenSettings | AppMsg::ReloadConfig => misc_step(state, msg),
        AppMsg::Toggle(_) | AppMsg::Show(_) | AppMsg::Hide | AppMsg::ClickOutside
        | AppMsg::ReloadTheme => popup_step(state, msg, visible),
        _ => {
            edit_step(state, msg);
            Vec::new()
        },
    }
}

fn misc_step(state: &mut AppState, msg: AppMsg) -> (effects: Vec<Effect>)
    requires
        old(state).wf(),
        msg is OpenEditEvent || msg is CancelEditor || msg is CancelSettings || msg is OpenConfig
            || msg is OpenSettings || msg is ReloadConfig,
    ensures
        final(state).wf(),
        forall|t: Date, v: bool| handled(*old(state), msg, t, v, *final(state), effects@),
{
    proof {
        reveal(handled);
    }
    match msg {
        AppMsg::OpenEditEvent(id) => {
            let mut effects: Vec<Effect> = Vec::new();
            if state.events_enabled {
                effects.push(Effect::LoadEventForEdit(id));
            }
            effects
        },
        AppMsg::CancelEditor | AppMsg::CancelSettings => {
            state.view = ViewState::Calendar;
            Vec::new()
        },
        AppMsg::OpenConfig => {
            let mut effects: Vec<Effect> = Vec::new();
            effects.push(Effect::OpenConfig);
            effects
        },
        AppMsg::OpenSettings => {
            let mut effects: Vec<Effect> = Vec::new();
            effects.push(Effect::LoadSettings);
            effects
        },
        AppMsg::ReloadConfig => {
            state.view = ViewState::Calendar;
            let mut effects: Vec<Effect> = Vec::new();
            effects.push(Effect::ReloadConfig);
            effects
        },
        _ => Vec::new(),
    }
}

fn navigate(state: &mut AppState, msg: AppMsg, today: Date) -> (effects: Vec<Effect>)
    requires
        old(state).wf(),
        handles(*old(state), msg),
        today.valid(),
        msg is PreviousMonth || msg is NextMonth || msg is PreviousYear || msg is NextYear
            || msg is Today || msg is MoveDays || msg is SelectDay,
    ensures
        final(state).wf(),
        effects@ == Seq::<Effect>::empty(),
        handled(*old(state), msg, today, false, *final(state), effects@),
        forall|v: bool| handled(*old(state), msg, today, v, *final(state), effects@),
{
    proof {
        reveal(handled);
    }
    let ghost o = *state;
    match msg {
        AppMsg::PreviousMonth => {
            state.month = previous_month(state.month);
        },
        AppMsg::NextMonth => {
            state.month = next_month(state.month);
        },
        AppMsg::PreviousYear => {
            state.selected = shift_year_clamped(state.selected, -1);
            state.month = first_of_month(state.selected);
        },
        AppMsg::NextYear => {
            state.selected = shift_year_clamped(state.selected, 1);
            state.month = first_of_month(state.selected);
        },
        AppMsg::Today => {
            state.selected = today;
            state.month = first_of_month(today);
        },
        AppMsg::MoveDays(days) => {
            let next = if days < 0 {
                let back: u64 = if days == i64::MIN {
                    0x8000_0000_0000_0000u64
                } else {
                    (-days) as u64
                };
                checked_sub_days(state.selected, back)
            } else {
                checked_add_days(state.selected, days as u64)
            };
            match next {
                Some(d) => {
                    proof {
                        let target = o.selected.day_number() + days;
                        assert(d.valid() && d.day_number() == target);
                        crate::calendar::date::lemma_day_number_injective(
                            d,
                            date_with_number(target),
                        );
                    }
                    state.selected = d;
                    state.month = first_of_month(d);
                },
                None => {},
            }
        },
        AppMsg::SelectDay(date) => {
            state.selected = date;
            state.month = first_of_month(date);
        },
        _ => {},
    }
    Vec::new()
}

fn open_new_event(state: &mut AppState, today: Date) -> (effects: Vec<Effect>)
    requires
        old(state).wf(),
        today.valid(),
    ensures
        final(state).wf(),
        forall|v: bool| handled(*old(state), AppMsg::OpenNewEvent, today, v, *final(state), effects@),
{
    proof {
        reveal(handled);
    }
    if state.events_enabled && can_create_event(state.selected, today) {
        state.view = ViewState::Editor(
            Box::new(EditorDraft::new(state.selected, state.default_reminder_minutes)),
        );
    }
    Vec::new()
}

fn close_draft(state: &mut AppState, msg: AppMsg) -> (effects: Vec<Effect>)
    requires
        old(state).wf(),
        msg is SaveEditor || msg is DeleteEvent || msg is SaveSettings,
    ensures
        final(state).wf(),
        forall|t: Date, v: bool| handled(*old(state), msg, t, v, *final(state), effects@),
{
    proof {
        reveal(handled);
    }
    let mut effects: Vec<Effect> = Vec::new();
    let v = take_view(&mut state.view);
    match msg {
        AppMsg::SaveEditor => match v {
            ViewState::Editor(d) => {
                effects.push(Effect::SaveEditor(*d));
            },
            other => {
                state.view = other;
            },
        },
        AppMsg::DeleteEvent => match v {
            ViewState::Editor(d) => {
                match d.kind {
                    crate::ui::editor::EditorKind::Edit(e) => match e.id {
                        Some(id) => effects.push(Effect::DeleteEvent(id)),
                        None => {},
                    },
                    _ => {},
                }
            },
            other => {
                state.view = other;
            },
        },
        _ => match v {
            ViewState::Settings(d) => {
                effects.push(Effect::SaveSettings(*d));
            },
            other => {
                state.view = other;
            },
        },
    }
    effects
}

fn popup_step(state: &mut AppState, msg: AppMsg, visible: bool) -> (effects: Vec<Effect>)
    requires
        old(state).wf(),
        msg is Toggle || msg is Show || msg is Hide || msg is ClickOutside || msg is ReloadTheme,
    ensures
        final(state).wf(),
        forall|t: Date| handled(*old(state), msg, t, visible, *final(state), effects@),
{
    proof {
        reveal(handled);
    }
    let mut effects: Vec<Effect> = Vec::new();
    match msg {
        AppMsg::Toggle(pos) => {
            if visible {
                state.view = ViewState::Calendar;
                effects.push(Effect::HidePopup);
            } else {
                state.fixed_position = pos;
                state.view = ViewState::Calendar;
                effects.push(Effect::LoadCss);
                effects.push(Effect::PresentPopup);
                assert(effects@ == seq![Effect::LoadCss, Effect::PresentPopup]);
            }
        },
        AppMsg::Show(pos) => {
            state.fixed_position = pos;
            if !visible {
                state.view = ViewState::Calendar;
            }
            effects.push(Effect::LoadCss);
            effects.push(Effect::PresentPopup);
            assert(effects@ == seq![Effect::LoadCss, Effect::PresentPopup]);
        },
        AppMsg::ReloadTheme => {
            effects.push(Effect::LoadCss);
        },
        _ => {
            state.view = ViewState::Calendar;
            effects.push(Effect::HidePopup);
        },
    }
    effects
}

fn edit_step(state: &mut AppState, msg: AppMsg)
    requires
        old(state).wf(),
        editor_change_of(msg) is Some || settings_change_of(msg) is Some,
    ensures
        final(state).wf(),
        forall|t: Date, v: bool| handled(*old(state), msg, t, v, *final(state), Seq::<Effect>::empty()),
{
    proof {
        reveal(handled);
    }
    match msg {
        AppMsg::EditorTitle(v) => update_draft(&mut state.view, EditorChange::Title(v)),
        AppMsg::EditorLocation(v) => update_draft(&mut state.view, EditorChange::Location(v)),
        AppMsg::EditorDescription(v) => update_draft(
            &mut state.view,
            EditorChange::Description(v),
        ),
        AppMsg::EditorStartHour(v) => update_draft(&mut state.view, EditorChange::StartHour(v)),
        AppMsg::EditorStartMinute(v) => update_draft(
            &mut state.view,
            EditorChange::StartMinute(v),
        ),
        AppMsg::EditorEndHour(v) => update_draft(&mut state.view, EditorChange::EndHour(v)),
        AppMsg::EditorEndMinute(v) => update_draft(&mut state.view, EditorChange::EndMinute(v)),
        AppMsg::EditorAllDay(v) => update_draft(&mut state.view, EditorChange::AllDay(v)),
        AppMsg::EditorReminderEnabled(v) => update_draft(
            &mut state.view,
            EditorChange::ReminderEnabled(v),
        ),
        AppMsg::EditorReminderHours(v) => update_draft(
            &mut state.view,
            EditorChange::ReminderHours(v),
        ),
        AppMsg::EditorReminderMinutes(v) => update_draft(
            &mut state.view,
            EditorChange::ReminderMinutes(v),
        ),
        AppMsg::EditorRepeatAllDay(v) => update_draft(
            &mut state.view,
            EditorChange::RepeatAllDay(v),
        ),
        AppMsg::EditorRepeatHours(v) => update_draft(
            &mut state.view,
            EditorChange::RepeatHours(v),
        ),
        AppMsg::EditorRepeatMinutes(v) => update_draft(
            &mut state.view,
            EditorChange::RepeatMinutes(v),
        ),
        AppMsg::SettingsFontFamily(v) => update_settings_draft(
            &mut state.view,
            SettingsChange::FontFamily(v),
        ),
        AppMsg::SettingsFontSize(v) => update_settings_draft(
            &mut state.view,
            SettingsChange::FontSize(v),
        ),
        AppMsg::SettingsTheme(v) => update_settings_draft(
            &mut state.view,
            SettingsChange::Theme(v),
        ),
        AppMsg::SettingsLanguage(v) => update_settings_draft(
            &mut state.view,
            SettingsChange::Language(v),
        ),
        AppMsg::SettingsWeekStart(v) => update_settings_draft(
            &mut state.view,
            SettingsChange::WeekStart(v),
        ),
        AppMsg::SettingsShowEvents(v) => update_settings_draft(
            &mut state.view,
            SettingsChange::ShowEvents(v),
        ),
        AppMsg::SettingsDefaultDuration(v) => update_settings_draft(
            &mut state.view,
            SettingsChange::DefaultDuration(v),
        ),
        AppMsg::SettingsDefaultReminder(v) => update_settings_draft(
            &mut state.view,
            SettingsChange::DefaultReminder(v),
        ),
        AppMsg::SettingsSyncInterval(v) => update_settings_draft(
            &mut state.view,
            SettingsChange::SyncInterval(v),
        ),
        AppMsg::SettingsEditorCommand(v) => update_settings_draft(
            &mut state.view,
            SettingsChange::EditorCommand(v),
        ),
        AppMsg::SettingsEditorArgs(v) => update_settings_draft(
            &mut state.view,
            SettingsChange::EditorArgs(v),
        ),
        AppMsg::SettingsTerminalCommand(v) => update_settings_draft(
            &mut state.view,
            SettingsChange::TerminalCommand(v),
        ),
        AppMsg::SettingsTerminalArgs(v) => update_settings_draft(
            &mut state.view,
            SettingsChange::TerminalArgs(v),
        ),
        _ => {},
    }
}

/// Opens the editor on a stored event's draft, when events are enabled;
/// the shell calls it after `Effect::LoadEventForEdit` found the event.
pub fn open_edit_event(state: &mut AppState, draft: EditorDraft)
    requires
        old(state).wf(),
    ensures
        final(state).wf(),
        old(state).events_enabled ==> viewing(
            *old(state),
            *final(state),
            ViewState::Editor(Box::new(draft)),
        ),
        !old(state).events_enabled ==> *final(state) == *old(state),
{
    if state.events_enabled {
        state.view = ViewState::Editor(Box::new(draft));
    }
}

/// Opens the settings view on a draft of the current settings; the shell
/// calls it after `Effect::LoadSettings`.
pub fn open_settings(state: &mut AppState, draft: SettingsDraft)
    requires
        old(state).wf(),
    ensures
        final(state).wf(),
        viewing(*old(state), *final(state), ViewState::Settings(Box::new(draft))),
{
    state.view = ViewState::Settings(Box::new(draft));
}

/// Adopts saved or reloaded settings: the default reminder of new drafts
/// and, for saved settings, the events/reminders switch. Returns whether
/// the switch changed, in which case the shell stores it and starts or
/// stops the reminder service.
pub fn adopt_settings(state: &mut AppState, settings: &AppConfig, saved: bool) -> (switched: bool)
    requires
        old(state).wf(),
    ensures
        final(state).wf(),
        final(state).month == old(state).month,
        final(state).selected == old(state).selected,
        final(state).view == old(state).view,
        final(state).fixed_position == old(state).fixed_position,
        final(state).default_reminder_minutes == settings.calendar.default_reminder_minutes,
        switched == (saved && old(state).events_enabled != settings.calendar.show_events),
        final(state).events_enabled == (if saved {
            settings.calendar.show_events
        } else {
            old(state).events_enabled
        }),
{
    state.default_reminder_minutes = settings.calendar.default_reminder_minutes;
    if saved && state.events_enabled != settings.calendar.show_events {
        state.events_enabled = settings.calendar.show_events;
        true
    } else {
        false
    }
}

/// The theme the settings view shows: the active one, else the first one
/// installed, else none.
pub fn settings_theme(active: Option<String>, installed: Vec<String>) -> (theme: String)
    ensures
        theme@ == (match active {
            Some(t) => t@,
            None => if installed@.len() > 0 {
                installed@[0]@
            } else {
                Seq::<char>::empty()
            },
        }),
{
    match active {
        Some(t) => t,
        None => {
            let mut installed = installed;
            if installed.len() > 0 {
                installed.swap_remove(0)
            } else {
                String::new()
            }
        },
    }
}

/// A draft of a new event is only ever opened on a selected day that is
/// not before today, and only with events enabled.
pub proof fn lemma_new_event_not_in_past(
    o: AppState,
    today: Date,
    visible: bool,
    n: AppState,
    fx: Seq<Effect>,
)
    requires
        handled(o, AppMsg::OpenNewEvent, today, visible, n, fx),
        !(o.view is Editor),
    ensures
        n.view is Editor ==> o.events_enabled && !date_before(n.selected, today) && (
        n.view matches ViewState::Editor(d) && d.kind is New && d.date == n.selected),
{
    reveal(handled);
}

/// Hiding the popup, by message or by a click outside it, always leaves the
/// calendar view shown and keeps the shown month and selected day.
pub proof fn lemma_hide_returns_to_calendar(
    o: AppState,
    msg: AppMsg,
    today: Date,
    visible: bool,
    n: AppState,
    fx: Seq<Effect>,
)
    requires
        msg is Hide || msg is ClickOutside || msg is CancelEditor || msg is CancelSettings,
        handled(o, msg, today, visible, n, fx),
    ensures
        n.view is Calendar,
        n.month == o.month,
        n.selected == o.selected,
        same_settings(o, n),
{
    reveal(handled);
}

/// A change of one editor field only changes that field of the draft:
/// the dates, the settings and the other views stay as they were.
pub proof fn lemma_field_change_is_local(
    o: AppState,
    msg: AppMsg,
    today: Date,
    visible: bool,
    n: AppState,
    fx: Seq<Effect>,
)
    requires
        editor_change_of(msg) is Some,
        handled(o, msg, today, visible, n, fx),
    ensures
        fx.len() == 0,
        n.month == o.month,
        n.selected == o.selected,
        same_settings(o, n),
        !(o.view is Editor) ==> n.view == o.view,
        o.view matches ViewState::Editor(d) ==> n.view == ViewState::Editor(
            Box::new(changed_draft(*d, editor_change_of(msg)->0)),
        ),
{
    reveal(handled);
}

/// Moving to the next month and back shows the month shown before, and
/// keeps the selected day.
pub proof fn lemma_next_previous_month_round_trip(
    s0: AppState,
    today: Date,
    visible: bool,
    s1: AppState,
    fx1: Seq<Effect>,
    s2: AppState,
    fx2: Seq<Effect>,
)
    requires
        s0.wf(),
        handles(s0, AppMsg::NextMonth),
        handled(s0, AppMsg::NextMonth, today, visible, s1, fx1),
        handled(s1, AppMsg::PreviousMonth, today, visible, s2, fx2),
    ensures
        s2.month == s0.month,
        s2.selected == s0.selected,
        s2.view == s0.view,
        same_settings(s0, s2),
{
    reveal(handled);
    crate::calendar::date::lemma_next_then_previous_month(s0.month);
}

/// The message of a command received from another instance.
pub fn message_of_command(message: IpcMessage) -> (r: AppMsg)
    ensures
        r == (match message.command {
            IpcCommand::Toggle => AppMsg::Toggle(message.position),
            IpcCommand::Show => AppMsg::Show(message.position),
            IpcCommand::Hide => AppMsg::Hide,
            IpcCommand::ReloadTheme => AppMsg::ReloadTheme,
            IpcCommand::ReloadConfig => AppMsg::ReloadConfig,
        }),
{
    match message.command {
        IpcCommand::Toggle => AppMsg::Toggle(message.position),
        IpcCommand::Show => AppMsg::Show(message.position),
        IpcCommand::Hide => AppMsg::Hide,
        IpcCommand::ReloadTheme => AppMsg::ReloadTheme,
        IpcCommand::ReloadConfig => AppMsg::ReloadConfig,
    }
}

/// The keys the popup answers to.
#[derive(Clone, Copy, Debug, PartialEq, Eq, Structural)]
pub enum PopupKey {
    Escape,
    /// `t` or `T`.
    T,
    /// `n` or `N`.
    N,
    Left,
    Right,
    PageUp,
    PageDown,
    Other,
}

/// The message a key press sends: Escape hides the popup; while an editor
/// field has the focus, the other keys belong to it; `t` shows today, `n`
/// opens a new event, the arrows move a day, Page Up/Down a month, or a
/// year with Control.
pub fn key_message(key: PopupKey, control: bool, editor_focused: bool) -> (r: Option<AppMsg>)
    ensures
        key is Escape ==> r == Some(AppMsg::Hide),
        !(key is Escape) && editor_focused ==> r is None,
        !(key is Escape) && !editor_focused ==> r == (match key {
            PopupKey::T => Some(AppMsg::Today),
            PopupKey::N => Some(AppMsg::OpenNewEvent),
            PopupKey::Left => Some(AppMsg::MoveDays(-1i64)),
            PopupKey::Right => Some(AppMsg::MoveDays(1i64)),
            PopupKey::PageUp => Some(if control {
                AppMsg::PreviousYear
            } else {
                AppMsg::PreviousMonth
            }),
            PopupKey::PageDown => Some(if control {
                AppMsg::NextYear
            } else {
                AppMsg::NextMonth
            }),
            _ => None,
        }),
{
    if key == PopupKey::Escape {
        return Some(AppMsg::Hide);
    }
    if editor_focused {
        return None;
    }
    match key {
        PopupKey::T => Some(AppMsg::Today),
        PopupKey::N => Some(AppMsg::OpenNewEvent),
        PopupKey::Left => Some(AppMsg::MoveDays(-1i64)),
        PopupKey::Right => Some(AppMsg::MoveDays(1i64)),
        PopupKey::PageUp => Some(if control {
            AppMsg::PreviousYear
        } else {
            AppMsg::PreviousMonth
        }),
        PopupKey::PageDown => Some(if control {
            AppMsg::NextYear
        } else {
            AppMsg::NextMonth
        }),
        _ => None,
    }
}

fn keeps_events_exec(msg: &AppMsg) -> (r: bool)
    ensures
        r == keeps_events(*msg),
{
    match msg {
        AppMsg::Toggle(_) | AppMsg::Show(_) | AppMsg::Hide | AppMsg::ClickOutside
        | AppMsg::ReloadTheme | AppMsg::OpenConfig | AppMsg::OpenSettings
        | AppMsg::CancelSettings | AppMsg::SaveSettings | AppMsg::ReloadConfig
        | AppMsg::OpenEditEvent(_) | AppMsg::EditorTitle(_) | AppMsg::EditorLocation(_)
        | AppMsg::EditorDescription(_) | AppMsg::EditorStartHour(_)
        | AppMsg::EditorStartMinute(_) | AppMsg::EditorEndHour(_) | AppMsg::EditorEndMinute(_)
        | AppMsg::EditorAllDay(_) | AppMsg::EditorReminderEnabled(_)
        | AppMsg::EditorReminderHours(_) | AppMsg::EditorReminderMinutes(_)
        | AppMsg::EditorRepeatAllDay(_) | AppMsg::EditorRepeatHours(_)
        | AppMsg::EditorRepeatMinutes(_) | AppMsg::SettingsFontFamily(_)
        | AppMsg::SettingsFontSize(_) | AppMsg::SettingsTheme(_) | AppMsg::SettingsLanguage(_)
        | AppMsg::SettingsWeekStart(_) | AppMsg::SettingsShowEvents(_)
        | AppMsg::SettingsDefaultDuration(_) | AppMsg::SettingsDefaultReminder(_)
        | AppMsg::SettingsSyncInterval(_) | AppMsg::SettingsEditorCommand(_)
        | AppMsg::SettingsEditorArgs(_) | AppMsg::SettingsTerminalCommand(_)
        | AppMsg::SettingsTerminalArgs(_) => true,
        _ => false,
    }
}

} // verus!
