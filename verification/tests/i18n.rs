use argvus_calendar::calendar::date::Date;
use argvus_calendar::i18n::{I18n, Language, Text};

fn date(year: i32, month: u32, day: u32) -> Date {
    Date { year, month, day }
}

#[test]
fn english_months_and_weekdays() {
    let i18n = I18n::new(Language::EnUs);
    let d = date(2026, 8, 11);
    assert_eq!(i18n.month_title(d), "AUGUST 2026");
    assert_eq!(i18n.agenda_date(d), "TUE 11 AUG");
    assert_eq!(i18n.weekday_headers()[0], "MO");
    assert_eq!(i18n.text(Text::StartTime), "START TIME");
    assert_eq!(i18n.text(Text::EndTime), "END TIME");
}

#[test]
fn portuguese_months_and_weekdays() {
    let i18n = I18n::new(Language::PtBr);
    let january = date(2026, 1, 5);
    let august = date(2026, 8, 11);
    let march = date(2026, 3, 7);
    assert_eq!(i18n.month_title(january), "JANEIRO 2026");
    assert_eq!(i18n.month_title(august), "AGOSTO 2026");
    assert_eq!(i18n.month_title(march), "MARÇO 2026");
    assert_eq!(i18n.agenda_date(august), "TER 11 AGO");
    assert_eq!(i18n.weekday_headers()[5], "SÁB");
    assert_eq!(i18n.text(Text::StartTime), "HORA INICIAL");
    assert_eq!(i18n.text(Text::EndTime), "HORA FINAL");
}

#[test]
fn unsupported_language_falls_back_to_english() {
    // An unknown setting follows the detected language.
    let detected = Language::detect_with(None, None, None);
    assert_eq!(detected, Language::EnUs);
    assert_eq!(Language::resolve("xx-YY", detected), detected);
    let detected = Language::detect_with(None, None, Some("pt_BR.UTF-8".to_string()));
    assert_eq!(Language::resolve("xx-YY", detected), Language::PtBr);
}

#[test]
fn locale_tags_map_to_supported_languages() {
    assert_eq!(Language::from_locale_tag("pt_BR.UTF-8"), Language::PtBr);
    assert_eq!(Language::from_locale_tag("pt-BR"), Language::PtBr);
    assert_eq!(Language::from_locale_tag("PT"), Language::PtBr);
    assert_eq!(Language::from_locale_tag("en_US.UTF-8"), Language::EnUs);
    assert_eq!(Language::from_locale_tag("es_ES.UTF-8"), Language::EnUs);
    assert_eq!(Language::from_locale_tag(""), Language::EnUs);
}

#[test]
fn auto_detection_follows_locale_precedence() {
    // An empty LC_ALL is treated as unset, so LANG decides.
    assert_eq!(
        Language::detect_with(Some(String::new()), None, Some("pt_BR.UTF-8".to_string())),
        Language::PtBr
    );
    // LC_MESSAGES outranks LANG.
    assert_eq!(
        Language::detect_with(
            None,
            Some("en_US.UTF-8".to_string()),
            Some("pt_BR.UTF-8".to_string())
        ),
        Language::EnUs
    );
    assert_eq!(
        Language::detect_with(Some("C".to_string()), None, Some("pt_BR.UTF-8".to_string())),
        Language::EnUs
    );
    assert_eq!(Language::detect_with(None, None, None), Language::EnUs);
}

#[test]
fn explicit_language_beats_auto_detection() {
    assert_eq!(Language::resolve("pt-BR", Language::EnUs), Language::PtBr);
    assert_eq!(Language::resolve("en-US", Language::PtBr), Language::EnUs);
}

#[test]
fn auto_setting_follows_the_detected_language() {
    assert_eq!(Language::resolve("auto", Language::PtBr), Language::PtBr);
    assert_eq!(Language::resolve("auto", Language::EnUs), Language::EnUs);
}

#[test]
fn month_names_and_abbreviations() {
    let en = I18n::new(Language::EnUs);
    assert_eq!(en.month_name(12), "DECEMBER");
    assert_eq!(en.month_abbrev(1), "JAN");
    assert_eq!(en.weekday_name(6), "SUN");
    let pt = I18n::new(Language::PtBr);
    assert_eq!(pt.month_name(12), "DEZEMBRO");
    assert_eq!(pt.month_abbrev(2), "FEV");
}
