use citationberg::GrammarGender;
use citationberg::Locale;
use citationberg::LocalizedTerm;
use citationberg::OrdinalLookup;
use citationberg::OrdinalMatch;
use citationberg::TermForm;
use citationberg::Terms;
use citationberg::taxonomy::OtherTerm;
use citationberg::taxonomy::Term;

fn term(name: Term, text: &str) -> LocalizedTerm {
    LocalizedTerm {
        name,
        localization: Some(text.to_string()),
        single: None,
        multiple: None,
        form: TermForm::Long,
        match_: None,
        gender: None,
        gender_form: None,
    }
}

fn legacy_terms() -> Vec<LocalizedTerm> {
    vec![
        term(Term::Other(OtherTerm::OrdinalN(1)), "st"),
        term(Term::Other(OtherTerm::OrdinalN(2)), "nd"),
        term(Term::Other(OtherTerm::OrdinalN(3)), "rd"),
        term(Term::Other(OtherTerm::OrdinalN(4)), "th"),
    ]
}

#[test]
fn legacy_lookup_teens_use_class_four() {
    let l = OrdinalLookup::new(legacy_terms());
    assert_eq!(l.lookup(11, None), Some("th"));
    assert_eq!(l.lookup(12, None), Some("th"));
    assert_eq!(l.lookup(13, None), Some("th"));
}

#[test]
fn legacy_lookup_last_digit_one_uses_class_one() {
    let l = OrdinalLookup::new(legacy_terms());
    assert_eq!(l.lookup(1, None), Some("st"));
    assert_eq!(l.lookup(21, None), Some("st"));
    assert_eq!(l.lookup(101, None), Some("st"));
}

#[test]
fn legacy_lookup_other_digits() {
    let l = OrdinalLookup::new(legacy_terms());
    assert_eq!(l.lookup(2, None), Some("nd"));
    assert_eq!(l.lookup(33, None), Some("rd"));
    assert_eq!(l.lookup(0, None), Some("th"));
    assert_eq!(l.lookup(7, None), Some("th"));
}

#[test]
fn generic_ordinal_disables_legacy() {
    let mut terms = legacy_terms();
    terms.push(term(Term::Other(OtherTerm::Ordinal), "."));
    let l = OrdinalLookup::new(terms);
    // With the generic term defined, 11 matches no per-digit term (the
    // last digit is 1, matched against the one-valued term), and the
    // generic term always matches.
    assert_eq!(l.lookup(11, None), Some("st"));
}

#[test]
fn declared_match_rules() {
    let mut two_digits = term(Term::Other(OtherTerm::OrdinalN(12)), "teenth");
    two_digits.match_ = Some(OrdinalMatch::LastTwoDigits);
    let whole = {
        let mut t = term(Term::Other(OtherTerm::OrdinalN(3)), "exactly-third");
        t.match_ = Some(OrdinalMatch::WholeNumber);
        t
    };
    let l = OrdinalLookup::new(vec![two_digits, whole]);
    assert_eq!(l.lookup(112, None), Some("teenth"));
    assert_eq!(l.lookup(3, None), Some("exactly-third"));
    assert_eq!(l.lookup(13, None), None);
}

#[test]
fn gender_preference() {
    let mut fem = term(Term::Other(OtherTerm::OrdinalN(1)), "ra");
    fem.gender = Some(GrammarGender::Feminine);
    let mut masc = term(Term::Other(OtherTerm::OrdinalN(1)), "ro");
    masc.gender = Some(GrammarGender::Masculine);
    let l = OrdinalLookup::new(vec![fem, masc]);
    assert_eq!(l.lookup(1, Some(GrammarGender::Feminine)), Some("ra"));
    assert_eq!(l.lookup(1, Some(GrammarGender::Masculine)), Some("ro"));
}

#[test]
fn lookup_long_exact_for_small_numbers() {
    let terms = vec![
        term(Term::Other(OtherTerm::LongOrdinal(1)), "first"),
        term(Term::Other(OtherTerm::LongOrdinal(2)), "second"),
        term(Term::Other(OtherTerm::LongOrdinal(10)), "tenth"),
    ];
    let l = OrdinalLookup::new(terms);
    assert_eq!(l.lookup_long(1), Some("first"));
    assert_eq!(l.lookup_long(2), Some("second"));
    assert_eq!(l.lookup_long(10), Some("tenth"));
    // Above ten the declared rule applies: the default matches the last
    // two digits.
    assert_eq!(l.lookup_long(101), Some("first"));
    assert_eq!(l.lookup_long(55), None);
}

#[test]
fn empty_lookup_finds_nothing() {
    let l = OrdinalLookup::empty();
    assert_eq!(l.lookup(1, None), None);
    assert_eq!(l.lookup_long(1), None);
}

#[test]
fn locale_ordinals_requires_ordinal_terms() {
    let without = Locale {
        lang: None,
        info: None,
        terms: Some(Terms { terms: vec![term(Term::Other(OtherTerm::And), "and")] }),
        date: vec![],
        style_options: None,
    };
    assert!(without.ordinals().is_none());

    let with = Locale {
        lang: None,
        info: None,
        terms: Some(Terms { terms: legacy_terms() }),
        date: vec![],
        style_options: None,
    };
    let l = with.ordinals().expect("ordinal terms exist");
    assert_eq!(l.lookup(21, None), Some("st"));
}

#[test]
fn locale_term_lookup() {
    let mut short = term(Term::Other(OtherTerm::And), "&");
    short.form = TermForm::Short;
    let locale = Locale {
        lang: None,
        info: None,
        terms: Some(Terms { terms: vec![term(Term::Other(OtherTerm::And), "and"), short] }),
        date: vec![],
        style_options: None,
    };
    let long = locale.term(Term::Other(OtherTerm::And), TermForm::Long).unwrap();
    assert_eq!(long.single(), Some("and"));
    let short = locale.term(Term::Other(OtherTerm::And), TermForm::Short).unwrap();
    assert_eq!(short.single(), Some("&"));
    assert!(locale.term(Term::Other(OtherTerm::And), TermForm::Verb).is_none());
    assert!(locale.term(Term::Other(OtherTerm::EtAl), TermForm::Long).is_none());
}

#[test]
fn term_form_fallback_chain() {
    assert_eq!(TermForm::Long.fallback(), None);
    assert_eq!(TermForm::Short.fallback(), Some(TermForm::Long));
    assert_eq!(TermForm::Verb.fallback(), Some(TermForm::Long));
    assert_eq!(TermForm::VerbShort.fallback(), Some(TermForm::Verb));
    assert_eq!(TermForm::Symbol.fallback(), Some(TermForm::Short));
}

#[test]
fn singular_and_plural_fall_back_to_localization() {
    let mut t = term(Term::Other(OtherTerm::And), "and");
    assert_eq!(t.single(), Some("and"));
    assert_eq!(t.multiple(), Some("and"));
    t.single = Some("one".to_string());
    t.multiple = Some("many".to_string());
    assert_eq!(t.single(), Some("one"));
    assert_eq!(t.multiple(), Some("many"));
}
