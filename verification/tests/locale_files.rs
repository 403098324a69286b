use citationberg::DisambiguationRule;
use citationberg::Locale;
use citationberg::LocaleCode;
use citationberg::LocaleFile;
use citationberg::SortDirection;
use citationberg::SortKey;
use citationberg::taxonomy::Variable;
use citationberg::taxonomy::StandardVariable;

#[test]
fn locale_from_file_keeps_language() {
    let file = LocaleFile {
        version: "1.0".to_string(),
        lang: LocaleCode::en_us(),
        info: None,
        terms: None,
        date: vec![],
        style_options: None,
    };
    let locale = Locale::from_file(file);
    assert_eq!(locale.lang, Some(LocaleCode::en_us()));
}

#[test]
fn locale_file_requires_language() {
    let locale = Locale {
        lang: Some(LocaleCode::en_us()),
        info: None,
        terms: None,
        date: vec![],
        style_options: None,
    };
    let file = LocaleFile::from_locale(locale).unwrap();
    assert_eq!(file.version, "1.0");
    assert_eq!(file.lang, LocaleCode::en_us());

    let nameless = Locale {
        lang: None,
        info: None,
        terms: None,
        date: vec![],
        style_options: None,
    };
    assert!(LocaleFile::from_locale(nameless).is_err());
}

#[test]
fn disambiguation_rules() {
    assert!(DisambiguationRule::AllNames.allows_full_first_names());
    assert!(!DisambiguationRule::AllNamesWithInitials.allows_full_first_names());
    assert!(DisambiguationRule::ByCite.allows_full_first_names());
    assert!(DisambiguationRule::AllNames.allows_multiple_names());
    assert!(!DisambiguationRule::PrimaryName.allows_multiple_names());
    assert!(!DisambiguationRule::PrimaryNameWithInitials.allows_multiple_names());
}

#[test]
fn sort_key_direction() {
    let key = SortKey::Variable {
        variable: Variable::Standard(StandardVariable::Title),
        sort_direction: SortDirection::Descending,
    };
    assert_eq!(key.sort_direction(), SortDirection::Descending);
    let by_macro = SortKey::MacroName {
        name: "author".to_string(),
        names_min: None,
        names_use_first: None,
        names_use_last: None,
        sort_direction: SortDirection::Ascending,
    };
    assert_eq!(by_macro.sort_direction(), SortDirection::Ascending);
}
