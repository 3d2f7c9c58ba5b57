//! Display language detection and the popup's translated texts.
use vstd::prelude::*;

use crate::calendar::date::{Date, WeekStart};
use crate::text::{chars_of, concat, decimal, int_to_chars, is_ws, string_of, trim, trimmed, two_digit_chars, two_digits, eq_str};

verus! {

/// A supported display language.
#[derive(Clone, Copy, Debug, PartialEq, Eq, Structural)]
pub enum Language {
    EnUs,
    PtBr,
}

/// Whether a locale tag names Portuguese: its first segment (before `.` or
/// `@`), with `_` read as `-` and lower-cased, starts with `pt`.
pub open spec fn is_portuguese_tag(tag: Seq<char>) -> bool {
    tag.len() >= 2 && (tag[0] == 'p' || tag[0] == 'P') && (tag[1] == 't' || tag[1] == 'T')
}

/// The language of a locale tag.
pub open spec fn language_of_tag(tag: Seq<char>) -> Language {
    if is_portuguese_tag(tag) {
        Language::PtBr
    } else {
        Language::EnUs
    }
}

/// What one locale variable decides: `None` when it is unset or blank (the
/// next variable decides), English for `C` and `POSIX`, else its language.
pub open spec fn variable_decision(value: Option<Seq<char>>) -> Option<Language> {
    match value {
        None => None,
        Some(v) => {
            let t = trim(v);
            if t.len() == 0 {
                None
            } else if t == "C"@ || t == "POSIX"@ {
                Some(Language::EnUs)
            } else {
                Some(language_of_tag(t))
            }
        },
    }
}

/// The language detected from `LC_ALL`, `LC_MESSAGES` and `LANG`, in that
/// order of precedence; English when none decides.
pub open spec fn detected_language(
    lc_all: Option<Seq<char>>,
    lc_messages: Option<Seq<char>>,
    lang: Option<Seq<char>>,
) -> Language {
    match variable_decision(lc_all) {
        Some(l) => l,
        None => match variable_decision(lc_messages) {
            Some(l) => l,
            None => match variable_decision(lang) {
                Some(l) => l,
                None => Language::EnUs,
            },
        },
    }
}

/// The view of an optional string.
pub open spec fn opt_view(v: Option<String>) -> Option<Seq<char>> {
    match v {
        Some(s) => Some(s@),
        None => None,
    }
}

/// The language a configured value selects: `pt-BR` and `en-US` are
/// explicit; anything else (such as `auto`) follows the detected language.
pub open spec fn resolved_language(configured: Seq<char>, detected: Language) -> Language {
    if configured == "pt-BR"@ {
        Language::PtBr
    } else if configured == "en-US"@ {
        Language::EnUs
    } else {
        detected
    }
}

impl Language {
    /// Resolves the configured language; explicit values win over the
    /// language detected from the locale environment.
    pub fn resolve(configured: &str, detected: Language) -> (r: Language)
        ensures
            r == resolved_language(configured@, detected),
    {
        let c = chars_of(configured);
        if eq_str(c.as_slice(), "pt-BR") {
            Language::PtBr
        } else if eq_str(c.as_slice(), "en-US") {
            Language::EnUs
        } else {
            detected
        }
    }

    /// What one locale variable decides.
    fn decide(value: &Option<String>) -> (r: Option<Language>)
        ensures
            r == variable_decision(opt_view(*value)),
    {
        match value {
            None => None,
            Some(v) => {
                let t = trimmed(v.as_str());
                if t.len() == 0 {
                    None
                } else if eq_str(t.as_slice(), "C") || eq_str(t.as_slice(), "POSIX") {
                    Some(Language::EnUs)
                } else {
                    Some(Language::from_locale_chars(t.as_slice()))
                }
            },
        }
    }

    /// Detects the display language from the values of `LC_ALL`,
    /// `LC_MESSAGES` and `LANG`: the first one that is set and not blank
    /// decides; `C` and `POSIX` are English; English when none is set.
    pub fn detect_with(
        lc_all: Option<String>,
        lc_messages: Option<String>,
        lang: Option<String>,
    ) -> (r: Language)
        ensures
            r == detected_language(opt_view(lc_all), opt_view(lc_messages), opt_view(lang)),
    {
        match Language::decide(&lc_all) {
            Some(l) => l,
            None => match Language::decide(&lc_messages) {
                Some(l) => l,
                None => match Language::decide(&lang) {
                    Some(l) => l,
                    None => Language::EnUs,
                },
            },
        }
    }

    fn from_locale_chars(tag: &[char]) -> (r: Language)
        ensures
            r == language_of_tag(tag@),
    {
        if tag.len() >= 2 && (tag[0] == 'p' || tag[0] == 'P') && (tag[1] == 't' || tag[1] == 'T') {
            Language::PtBr
        } else {
            Language::EnUs
        }
    }

    /// Maps a locale tag such as `pt_BR.UTF-8` or `pt-BR` onto a supported
    /// language; anything that is not Portuguese is English.
    pub fn from_locale_tag(tag: &str) -> (r: Language)
        ensures
            r == language_of_tag(tag@),
    {
        let t = chars_of(tag);
        Language::from_locale_chars(t.as_slice())
    }
}

/// A translatable text of the popup.
#[derive(Clone, Copy, Debug, PartialEq, Eq, Structural)]
pub enum Text {
    Today,
    AddEvent,
    NewEvent,
    EditEvent,
    Save,
    Cancel,
    Title,
    Location,
    Description,
    Date,
    StartTime,
    EndTime,
    Reminder,
    Repeat,
    Before,
    HourShort,
    MinuteShort,
    AllDay,
    NoEvents,
    Events,
    Delete,
    Settings,
    PreviousMonth,
    NextMonth,
    PreviousYear,
    NextYear,
    Back,
    PastDate,
    FontFamily,
    FontSize,
    Theme,
    Language,
    WeekStart,
    DefaultDuration,
    DefaultReminder,
    SyncEvery,
    Command,
    Args,
    EditConfigFile,
    Terminal,
    Editor,
}

/// The English wording of a text.
pub open spec fn english_text(t: Text) -> Seq<char> {
    match t {
        Text::Today => "Today"@,
        Text::AddEvent => "+ EVENT"@,
        Text::NewEvent => "NEW EVENT"@,
        Text::EditEvent => "EDIT EVENT"@,
        Text::Save => "SAVE"@,
        Text::Cancel => "CANCEL"@,
        Text::Title => "TITLE"@,
        Text::Location => "LOCATION"@,
        Text::Description => "DESCRIPTION"@,
        Text::Date => "DATE"@,
        Text::StartTime => "START TIME"@,
        Text::EndTime => "END TIME"@,
        Text::Reminder => "REMINDER"@,
        Text::Repeat => "REPEAT"@,
        Text::Before => "BEFORE"@,
        Text::HourShort => "H"@,
        Text::MinuteShort => "M"@,
        Text::AllDay => "ALL DAY"@,
        Text::NoEvents => "NO EVENTS"@,
        Text::Events => "Events"@,
        Text::Delete => "DELETE"@,
        Text::Settings => "Settings"@,
        Text::PreviousMonth => "Previous month"@,
        Text::NextMonth => "Next month"@,
        Text::PreviousYear => "Previous year"@,
        Text::NextYear => "Next year"@,
        Text::Back => "Back"@,
        Text::PastDate => "Past dates cannot receive new events"@,
        Text::FontFamily => "FONT FAMILY"@,
        Text::FontSize => "FONT SIZE"@,
        Text::Theme => "THEME"@,
        Text::Language => "LANGUAGE"@,
        Text::WeekStart => "WEEK STARTS"@,
        Text::DefaultDuration => "DEFAULT LENGTH (MIN)"@,
        Text::DefaultReminder => "DEFAULT REMINDER (MIN)"@,
        Text::SyncEvery => "SYNC EVERY"@,
        Text::Command => "COMMAND"@,
        Text::Args => "ARGS"@,
        Text::EditConfigFile => "Edit config file"@,
        Text::Terminal => "TERMINAL"@,
        Text::Editor => "EDITOR"@,
    }
}

/// The Brazilian Portuguese wording of a text.
pub open spec fn portuguese_text(t: Text) -> Seq<char> {
    match t {
        Text::Today => "Hoje"@,
        Text::AddEvent => "+ EVENTO"@,
        Text::NewEvent => "NOVO EVENTO"@,
        Text::EditEvent => "EDITAR EVENTO"@,
        Text::Save => "SALVAR"@,
        Text::Cancel => "CANCELAR"@,
        Text::Title => "TÍTULO"@,
        Text::Location => "LOCAL"@,
        Text::Description => "DESCRIÇÃO"@,
        Text::Date => "DATA"@,
        Text::StartTime => "HORA INICIAL"@,
        Text::EndTime => "HORA FINAL"@,
        Text::Reminder => "LEMBRETE"@,
        Text::Repeat => "REPETIR"@,
        Text::Before => "ANTES"@,
        Text::HourShort => "H"@,
        Text::MinuteShort => "M"@,
        Text::AllDay => "DIA INTEIRO"@,
        Text::NoEvents => "NENHUM EVENTO"@,
        Text::Events => "Eventos"@,
        Text::Delete => "EXCLUIR"@,
        Text::Settings => "Configurações"@,
        Text::PreviousMonth => "Mês anterior"@,
        Text::NextMonth => "Próximo mês"@,
        Text::PreviousYear => "Ano anterior"@,
        Text::NextYear => "Próximo ano"@,
        Text::Back => "Voltar"@,
        Text::PastDate => "Datas anteriores não aceitam novos eventos"@,
        Text::FontFamily => "FAMÍLIA DA FONTE"@,
        Text::FontSize => "TAMANHO DA FONTE"@,
        Text::Theme => "TEMA"@,
        Text::Language => "IDIOMA"@,
        Text::WeekStart => "SEMANA COMEÇA"@,
        Text::DefaultDuration => "DURAÇÃO PADRÃO (MIN)"@,
        Text::DefaultReminder => "LEMBRETE PADRÃO (MIN)"@,
        Text::SyncEvery => "SINCRONIZAR A CADA"@,
        Text::Command => "COMANDO"@,
        Text::Args => "ARGUMENTOS"@,
        Text::EditConfigFile => "Editar arquivo de configuração"@,
        Text::Terminal => "TERMINAL"@,
        Text::Editor => "EDITOR"@,
    }
}

/// The wording of a text in a language.
pub open spec fn text_in(language: Language, t: Text) -> Seq<char> {
    match language {
        Language::EnUs => english_text(t),
        Language::PtBr => portuguese_text(t),
    }
}

fn english(t: Text) -> (r: &'static str)
    ensures
        r@ == english_text(t),
{
    match t {
        Text::Today => "Today",
        Text::AddEvent => "+ EVENT",
        Text::NewEvent => "NEW EVENT",
        Text::EditEvent => "EDIT EVENT",
        Text::Save => "SAVE",
        Text::Cancel => "CANCEL",
        Text::Title => "TITLE",
        Text::Location => "LOCATION",
        Text::Description => "DESCRIPTION",
        Text::Date => "DATE",
        Text::StartTime => "START TIME",
        Text::EndTime => "END TIME",
        Text::Reminder => "REMINDER",
        Text::Repeat => "REPEAT",
        Text::Before => "BEFORE",
        Text::HourShort => "H",
        Text::MinuteShort => "M",
        Text::AllDay => "ALL DAY",
        Text::NoEvents => "NO EVENTS",
        Text::Events => "Events",
        Text::Delete => "DELETE",
        Text::Settings => "Settings",
        Text::PreviousMonth => "Previous month",
        Text::NextMonth => "Next month",
        Text::PreviousYear => "Previous year",
        Text::NextYear => "Next year",
        Text::Back => "Back",
        Text::PastDate => "Past dates cannot receive new events",
        Text::FontFamily => "FONT FAMILY",
        Text::FontSize => "FONT SIZE",
        Text::Theme => "THEME",
        Text::Language => "LANGUAGE",
        Text::WeekStart => "WEEK STARTS",
        Text::DefaultDuration => "DEFAULT LENGTH (MIN)",
        Text::DefaultReminder => "DEFAULT REMINDER (MIN)",
        Text::SyncEvery => "SYNC EVERY",
        Text::Command => "COMMAND",
        Text::Args => "ARGS",
        Text::EditConfigFile => "Edit config file",
        Text::Terminal => "TERMINAL",
        Text::Editor => "EDITOR",
    }
}

fn portuguese(t: Text) -> (r: &'static str)
    ensures
        r@ == portuguese_text(t),
{
    match t {
        Text::Today => "Hoje",
        Text::AddEvent => "+ EVENTO",
        Text::NewEvent => "NOVO EVENTO",
        Text::EditEvent => "EDITAR EVENTO",
        Text::Save => "SALVAR",
        Text::Cancel => "CANCELAR",
        Text::Title => "TÍTULO",
        Text::Location => "LOCAL",
        Text::Description => "DESCRIÇÃO",
        Text::Date => "DATA",
        Text::StartTime => "HORA INICIAL",
        Text::EndTime => "HORA FINAL",
        Text::Reminder => "LEMBRETE",
        Text::Repeat => "REPETIR",
        Text::Before => "ANTES",
        Text::HourShort => "H",
        Text::MinuteShort => "M",
        Text::AllDay => "DIA INTEIRO",
        Text::NoEvents => "NENHUM EVENTO",
        Text::Events => "Eventos",
        Text::Delete => "EXCLUIR",
        Text::Settings => "Configurações",
        Text::PreviousMonth => "Mês anterior",
        Text::NextMonth => "Próximo mês",
        Text::PreviousYear => "Ano anterior",
        Text::NextYear => "Próximo ano",
        Text::Back => "Voltar",
        Text::PastDate => "Datas anteriores não aceitam novos eventos",
        Text::FontFamily => "FAMÍLIA DA FONTE",
        Text::FontSize => "TAMANHO DA FONTE",
        Text::Theme => "TEMA",
        Text::Language => "IDIOMA",
        Text::WeekStart => "SEMANA COMEÇA",
        Text::DefaultDuration => "DURAÇÃO PADRÃO (MIN)",
        Text::DefaultReminder => "LEMBRETE PADRÃO (MIN)",
        Text::SyncEvery => "SINCRONIZAR A CADA",
        Text::Command => "COMANDO",
        Text::Args => "ARGUMENTOS",
        Text::EditConfigFile => "Editar arquivo de configuração",
        Text::Terminal => "TERMINAL",
        Text::Editor => "EDITOR",
    }
}

/// The name of month `m` (1 to 12) in capitals.
pub open spec fn month_name_in(language: Language, m: int) -> Seq<char> {
    match language {
        Language::EnUs => if m == 1 {
            "JANUARY"@
        } else if m == 2 {
            "FEBRUARY"@
        } else if m == 3 {
            "MARCH"@
        } else if m == 4 {
            "APRIL"@
        } else if m == 5 {
            "MAY"@
        } else if m == 6 {
            "JUNE"@
        } else if m == 7 {
            "JULY"@
        } else if m == 8 {
            "AUGUST"@
        } else if m == 9 {
            "SEPTEMBER"@
        } else if m == 10 {
            "OCTOBER"@
        } else if m == 11 {
            "NOVEMBER"@
        } else if m == 12 {
            "DECEMBER"@
        } else {
            ""@
        },
        Language::PtBr => if m == 1 {
            "JANEIRO"@
        } else if m == 2 {
            "FEVEREIRO"@
        } else if m == 3 {
            "MARÇO"@
        } else if m == 4 {
            "ABRIL"@
        } else if m == 5 {
            "MAIO"@
        } else if m == 6 {
            "JUNHO"@
        } else if m == 7 {
            "JULHO"@
        } else if m == 8 {
            "AGOSTO"@
        } else if m == 9 {
            "SETEMBRO"@
        } else if m == 10 {
            "OUTUBRO"@
        } else if m == 11 {
            "NOVEMBRO"@
        } else if m == 12 {
            "DEZEMBRO"@
        } else {
            ""@
        },
    }
}

/// The three-letter abbreviation of month `m` (1 to 12).
pub open spec fn month_abbrev_in(language: Language, m: int) -> Seq<char> {
    match language {
        Language::EnUs => if m == 1 {
            "JAN"@
        } else if m == 2 {
            "FEB"@
        } else if m == 3 {
            "MAR"@
        } else if m == 4 {
            "APR"@
        } else if m == 5 {
            "MAY"@
        } else if m == 6 {
            "JUN"@
        } else if m == 7 {
            "JUL"@
        } else if m == 8 {
            "AUG"@
        } else if m == 9 {
            "SEP"@
        } else if m == 10 {
            "OCT"@
        } else if m == 11 {
            "NOV"@
        } else if m == 12 {
            "DEC"@
        } else {
            ""@
        },
        Language::PtBr => if m == 1 {
            "JAN"@
        } else if m == 2 {
            "FEV"@
        } else if m == 3 {
            "MAR"@
        } else if m == 4 {
            "ABR"@
        } else if m == 5 {
            "MAI"@
        } else if m == 6 {
            "JUN"@
        } else if m == 7 {
            "JUL"@
        } else if m == 8 {
            "AGO"@
        } else if m == 9 {
            "SET"@
        } else if m == 10 {
            "OUT"@
        } else if m == 11 {
            "NOV"@
        } else if m == 12 {
            "DEZ"@
        } else {
            ""@
        },
    }
}

/// The three-letter name of weekday `i` counted from Monday (0 to 6).
pub open spec fn weekday_name_in(language: Language, i: int) -> Seq<char> {
    match language {
        Language::EnUs => if i == 0 {
            "MON"@
        } else if i == 1 {
            "TUE"@
        } else if i == 2 {
            "WED"@
        } else if i == 3 {
            "THU"@
        } else if i == 4 {
            "FRI"@
        } else if i == 5 {
            "SAT"@
        } else {
            "SUN"@
        },
        Language::PtBr => if i == 0 {
            "SEG"@
        } else if i == 1 {
            "TER"@
        } else if i == 2 {
            "QUA"@
        } else if i == 3 {
            "QUI"@
        } else if i == 4 {
            "SEX"@
        } else if i == 5 {
            "SÁB"@
        } else {
            "DOM"@
        },
    }
}

/// The column headers of the month grid, Monday first.
pub open spec fn weekday_headers_in(language: Language) -> Seq<Seq<char>> {
    match language {
        Language::EnUs => seq!["MO"@, "TU"@, "WE"@, "TH"@, "FR"@, "SA"@, "SU"@],
        Language::PtBr => seq!["SEG"@, "TER"@, "QUA"@, "QUI"@, "SEX"@, "SÁB"@, "DOM"@],
    }
}

/// The views of an array of string slices.
pub open spec fn label_views(a: [&'static str; 7]) -> Seq<Seq<char>> {
    a@.map_values(|s: &'static str| s@)
}

/// The texts of the popup in one language.
#[derive(Clone, Copy, Debug)]
pub struct I18n {
    pub language: Language,
}

impl I18n {
    /// Texts in `language`.
    pub fn new(language: Language) -> (r: I18n)
        ensures
            r.language == language,
    {
        I18n { language }
    }

    /// The wording of `text`.
    pub fn text(self, text: Text) -> (r: &'static str)
        ensures
            r@ == text_in(self.language, text),
    {
        match self.language {
            Language::EnUs => english(text),
            Language::PtBr => portuguese(text),
        }
    }

    /// The name of month `month` in capitals.
    pub fn month_name(self, month: u32) -> (r: &'static str)
        requires
            month <= 12,
        ensures
            r@ == month_name_in(self.language, month as int),
    {
        match self.language {
            Language::EnUs => if month == 1 {
                "JANUARY"
            } else if month == 2 {
                "FEBRUARY"
            } else if month == 3 {
                "MARCH"
            } else if month == 4 {
                "APRIL"
            } else if month == 5 {
                "MAY"
            } else if month == 6 {
                "JUNE"
            } else if month == 7 {
                "JULY"
            } else if month == 8 {
                "AUGUST"
            } else if month == 9 {
                "SEPTEMBER"
            } else if month == 10 {
                "OCTOBER"
            } else if month == 11 {
                "NOVEMBER"
            } else if month == 12 {
                "DECEMBER"
            } else {
                ""
            },
            Language::PtBr => if month == 1 {
                "JANEIRO"
            } else if month == 2 {
                "FEVEREIRO"
            } else if month == 3 {
                "MARÇO"
            } else if month == 4 {
                "ABRIL"
            } else if month == 5 {
                "MAIO"
            } else if month == 6 {
                "JUNHO"
            } else if month == 7 {
                "JULHO"
            } else if month == 8 {
                "AGOSTO"
            } else if month == 9 {
                "SETEMBRO"
            } else if month == 10 {
                "OUTUBRO"
            } else if month == 11 {
                "NOVEMBRO"
            } else if month == 12 {
                "DEZEMBRO"
            } else {
                ""
            },
        }
    }

    /// The three-letter abbreviation of month `month`.
    pub fn month_abbrev(self, month: u32) -> (r: &'static str)
        requires
            month <= 12,
        ensures
            r@ == month_abbrev_in(self.language, month as int),
    {
        match self.language {
            Language::EnUs => if month == 1 {
                "JAN"
            } else if month == 2 {
                "FEB"
            } else if month == 3 {
                "MAR"
            } else if month == 4 {
                "APR"
            } else if month == 5 {
                "MAY"
            } else if month == 6 {
                "JUN"
            } else if month == 7 {
                "JUL"
            } else if month == 8 {
                "AUG"
            } else if month == 9 {
                "SEP"
            } else if month == 10 {
                "OCT"
            } else if month == 11 {
                "NOV"
            } else if month == 12 {
                "DEC"
            } else {
                ""
            },
            Language::PtBr => if month == 1 {
                "JAN"
            } else if month == 2 {
                "FEV"
            } else if month == 3 {
                "MAR"
            } else if month == 4 {
                "ABR"
            } else if month == 5 {
                "MAI"
            } else if month == 6 {
                "JUN"
            } else if month == 7 {
                "JUL"
            } else if month == 8 {
                "AGO"
            } else if month == 9 {
                "SET"
            } else if month == 10 {
                "OUT"
            } else if month == 11 {
                "NOV"
            } else if month == 12 {
                "DEZ"
            } else {
                ""
            },
        }
    }

    /// The three-letter name of the weekday `monday_index` days after Monday.
    pub fn weekday_name(self, monday_index: u32) -> (r: &'static str)
        requires
            monday_index < 7,
        ensures
            r@ == weekday_name_in(self.language, monday_index as int),
    {
        match self.language {
            Language::EnUs => if monday_index == 0 {
                "MON"
            } else if monday_index == 1 {
                "TUE"
            } else if monday_index == 2 {
                "WED"
            } else if monday_index == 3 {
                "THU"
            } else if monday_index == 4 {
                "FRI"
            } else if monday_index == 5 {
                "SAT"
            } else {
                "SUN"
            },
            Language::PtBr => if monday_index == 0 {
                "SEG"
            } else if monday_index == 1 {
                "TER"
            } else if monday_index == 2 {
                "QUA"
            } else if monday_index == 3 {
                "QUI"
            } else if monday_index == 4 {
                "SEX"
            } else if monday_index == 5 {
                "SÁB"
            } else {
                "DOM"
            },
        }
    }

    /// The column headers of the month grid, Monday first.
    pub fn weekday_headers(self) -> (r: [&'static str; 7])
        ensures
            label_views(r) == weekday_headers_in(self.language),
    {
        let r = match self.language {
            Language::EnUs => ["MO", "TU", "WE", "TH", "FR", "SA", "SU"],
            Language::PtBr => ["SEG", "TER", "QUA", "QUI", "SEX", "SÁB", "DOM"],
        };
        assert(label_views(r) =~= weekday_headers_in(self.language));
        r
    }

    /// The title of the month of `date`, such as `AUGUST 2026`.
    pub fn month_title(self, date: Date) -> (r: String)
        requires
            date.valid(),
        ensures
            r@ == month_name_in(self.language, date.month as int) + " "@ + decimal(
                date.year as int,
            ),
    {
        let name = chars_of(self.month_name(date.month));
        let space = chars_of(" ");
        let year = int_to_chars(date.year as i64);
        let a = concat(name.as_slice(), space.as_slice());
        let b = concat(a.as_slice(), year.as_slice());
        string_of(b.as_slice())
    }

    /// The agenda heading of `date`, such as `TUE 11 AUG`.
    pub fn agenda_date(self, date: Date) -> (r: String)
        requires
            date.valid(),
        ensures
            r@ == weekday_name_in(self.language, date.days_from_monday()) + " "@ + two_digits(
                date.day as nat,
            ) + " "@ + month_abbrev_in(self.language, date.month as int),
    {
        let monday = WeekStart::Monday.offset_for(date);
        let name = chars_of(self.weekday_name(monday));
        let space = chars_of(" ");
        let day = two_digit_chars(date.day);
        let abbrev = chars_of(self.month_abbrev(date.month));
        let a = concat(name.as_slice(), space.as_slice());
        let b = concat(a.as_slice(), day.as_slice());
        let c = concat(b.as_slice(), space.as_slice());
        let d = concat(c.as_slice(), abbrev.as_slice());
        string_of(d.as_slice())
    }
}

} // verus!
