use citationberg::taxonomy::Kind;
use citationberg::taxonomy::Locator;
use citationberg::taxonomy::NumberVariable;
use citationberg::taxonomy::OtherTerm;
use citationberg::taxonomy::Term;
use citationberg::taxonomy::Variable;

#[test]
fn lexically_same_pairs() {
    assert!(Term::Locator(Locator::Page)
        .is_lexically_same(Term::NumberVariable(NumberVariable::Page)));
    assert!(Term::NumberVariable(NumberVariable::Page)
        .is_lexically_same(Term::Locator(Locator::Page)));
    assert!(Term::Locator(Locator::Book).is_lexically_same(Term::Kind(Kind::Book)));
    assert!(Term::Kind(Kind::Book).is_lexically_same(Term::Kind(Kind::Book)));
    assert!(!Term::Locator(Locator::Page)
        .is_lexically_same(Term::NumberVariable(NumberVariable::Volume)));
    assert!(!Term::Locator(Locator::Act).is_lexically_same(Term::Kind(Kind::Book)));
}

#[test]
fn term_fallback_long_ordinals() {
    assert_eq!(
        Term::Other(OtherTerm::LongOrdinal(7)).term_fallback(),
        Term::Other(OtherTerm::OrdinalN(7))
    );
    assert_eq!(
        Term::Other(OtherTerm::And).term_fallback(),
        Term::Other(OtherTerm::And)
    );
}

#[test]
fn ordinal_classification() {
    assert!(Term::Other(OtherTerm::Ordinal).is_ordinal());
    assert!(Term::Other(OtherTerm::OrdinalN(5)).is_ordinal());
    assert!(Term::Other(OtherTerm::LongOrdinal(5)).is_ordinal());
    assert!(!Term::Other(OtherTerm::And).is_ordinal());
    assert!(!Term::Kind(Kind::Book).is_ordinal());

    assert!(Term::Other(OtherTerm::OrdinalN(5)).is_n_ordinal());
    assert!(!Term::Other(OtherTerm::Ordinal).is_n_ordinal());
}

#[test]
fn gendered_terms() {
    assert!(Term::Other(OtherTerm::Month03).is_gendered());
    assert!(Term::Other(OtherTerm::OrdinalN(1)).is_gendered());
    assert!(!Term::Other(OtherTerm::And).is_gendered());
    assert!(!Term::Kind(Kind::Book).is_gendered());
}

#[test]
fn month_and_season_lookup() {
    assert_eq!(OtherTerm::month(0), Some(OtherTerm::Month01));
    assert_eq!(OtherTerm::month(11), Some(OtherTerm::Month12));
    assert_eq!(OtherTerm::month(12), None);
    assert_eq!(OtherTerm::season(0), Some(OtherTerm::Season01));
    assert_eq!(OtherTerm::season(3), Some(OtherTerm::Season04));
    assert_eq!(OtherTerm::season(4), None);
}

#[test]
fn number_of_variables() {
    assert!(Variable::Number(NumberVariable::NumberOfPages).is_number_of_variable());
    assert!(Variable::Number(NumberVariable::NumberOfVolumes).is_number_of_variable());
    assert!(!Variable::Number(NumberVariable::Page).is_number_of_variable());
    assert!(!Variable::Standard(citationberg::taxonomy::StandardVariable::Title)
        .is_number_of_variable());
    assert!(NumberVariable::NumberOfPages.is_number_of_variable());
    assert!(!NumberVariable::Volume.is_number_of_variable());
}
