use citationberg::BaseLanguage;
use citationberg::LocaleCode;

#[test]
fn fallback_bare_language() {
    assert_eq!(
        LocaleCode("en".to_string()).fallback(),
        Some(LocaleCode("en-US".to_string()))
    );
    assert_eq!(
        LocaleCode("de".to_string()).fallback(),
        Some(LocaleCode("de-DE".to_string()))
    );
}

#[test]
fn fallback_region_qualified_is_none() {
    assert_eq!(LocaleCode("en-US".to_string()).fallback(), None);
}

#[test]
fn fallback_unknown_is_none() {
    assert_eq!(LocaleCode("xx".to_string()).fallback(), None);
    assert_eq!(LocaleCode("english".to_string()).fallback(), None);
    assert_eq!(LocaleCode("x-klingon".to_string()).fallback(), None);
}

#[test]
fn fallback_base_of_qualified_tag() {
    // The base language is taken from the first part, so a region-tagged
    // code that differs from the canonical one still falls back.
    assert_eq!(
        LocaleCode("en-GB".to_string()).fallback(),
        Some(LocaleCode("en-US".to_string()))
    );
}

#[test]
fn parse_base_iso() {
    match LocaleCode("de-AT".to_string()).parse_base() {
        Some(BaseLanguage::Iso639_1(code)) => assert_eq!(code, "de"),
        other => panic!("expected a two-letter base language, got {:?}", other),
    }
}

#[test]
fn parse_base_iana_and_unregistered() {
    match LocaleCode("i-klingon".to_string()).parse_base() {
        Some(BaseLanguage::Iana(code)) => assert_eq!(code, "klingon"),
        other => panic!("expected an IANA code, got {:?}", other),
    }
    match LocaleCode("x-private".to_string()).parse_base() {
        Some(BaseLanguage::Unregistered(code)) => assert_eq!(code, "private"),
        other => panic!("expected an unregistered code, got {:?}", other),
    }
    assert!(LocaleCode("x-toolongcode".to_string()).parse_base().is_none());
    assert!(LocaleCode("i-".to_string()).parse_base().is_none());
    assert!(LocaleCode("abc".to_string()).parse_base().is_none());
}

#[test]
fn base_language_as_str() {
    let base = LocaleCode("fr-CA".to_string()).parse_base().unwrap();
    assert_eq!(base.as_str(), "fr");
}

#[test]
fn extensions_after_base() {
    let code = LocaleCode("zh-Hans-CN".to_string());
    assert_eq!(code.extensions(), vec!["Hans".to_string(), "CN".to_string()]);
    let private = LocaleCode("x-a-b".to_string());
    assert_eq!(private.extensions(), vec!["b".to_string()]);
    let bare = LocaleCode("en".to_string());
    assert!(bare.extensions().is_empty());
}

#[test]
fn english_detection() {
    assert!(LocaleCode("en".to_string()).is_english());
    assert!(LocaleCode("en-GB".to_string()).is_english());
    assert!(LocaleCode::en_us().is_english());
    assert!(!LocaleCode("eng".to_string()).is_english());
    assert!(!LocaleCode("de".to_string()).is_english());
}

#[test]
fn en_us_constant() {
    assert_eq!(LocaleCode::en_us(), LocaleCode("en-US".to_string()));
}
