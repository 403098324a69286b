use citationberg::taxonomy::DateVariable;
use citationberg::taxonomy::Kind;
use citationberg::taxonomy::Locator;
use citationberg::taxonomy::NameVariable;
use citationberg::taxonomy::NumberVariable;
use citationberg::taxonomy::OtherTerm;
use citationberg::taxonomy::StandardVariable;
use citationberg::taxonomy::TermConversionError;
use citationberg::taxonomy::Variable;

#[test]
fn kind_names_decode() {
    assert_eq!(Kind::from_str("article-journal"), Ok(Kind::ArticleJournal));
    assert_eq!(Kind::from_str("legal_case"), Ok(Kind::LegalCase));
    assert_eq!(Kind::from_str("map"), Ok(Kind::GeographicMap));
    assert_eq!(Kind::from_str("webpage"), Ok(Kind::Webpage));
    assert_eq!(Kind::from_str("unknown-kind"), Err(()));
    assert_eq!(Kind::from_str(""), Err(()));
}

#[test]
fn locator_names_decode() {
    assert_eq!(Locator::from_str("page"), Ok(Locator::Page));
    assert_eq!(Locator::from_str("sub verbo"), Ok(Locator::SubVerbo));
    assert_eq!(Locator::from_str("sub-verbo"), Ok(Locator::SubVerbo));
    assert_eq!(Locator::from_str("custom"), Err(()));
}

#[test]
fn other_term_plain_names() {
    assert_eq!(OtherTerm::from_str("ordinal"), Ok(OtherTerm::Ordinal));
    assert_eq!(OtherTerm::from_str("et-al"), Ok(OtherTerm::EtAl));
    assert_eq!(OtherTerm::from_str("and others"), Ok(OtherTerm::AndOthers));
    assert_eq!(OtherTerm::from_str("and-others"), Ok(OtherTerm::AndOthers));
    assert_eq!(
        OtherTerm::from_str("political_science"),
        Ok(OtherTerm::PoliticalScience)
    );
    assert_eq!(
        OtherTerm::from_str("gibberish"),
        Err(TermConversionError::Unknown)
    );
}

#[test]
fn other_term_numbered_names() {
    assert_eq!(OtherTerm::from_str("month-01"), Ok(OtherTerm::Month01));
    assert_eq!(OtherTerm::from_str("month-12"), Ok(OtherTerm::Month12));
    assert_eq!(
        OtherTerm::from_str("month-13"),
        Err(TermConversionError::OutOfRange)
    );
    assert_eq!(
        OtherTerm::from_str("month-0"),
        Err(TermConversionError::OutOfRange)
    );
    assert_eq!(OtherTerm::from_str("season-04"), Ok(OtherTerm::Season04));
    assert_eq!(
        OtherTerm::from_str("season-5"),
        Err(TermConversionError::OutOfRange)
    );
    assert_eq!(OtherTerm::from_str("ordinal-07"), Ok(OtherTerm::OrdinalN(7)));
    assert_eq!(OtherTerm::from_str("ordinal-99"), Ok(OtherTerm::OrdinalN(99)));
    assert_eq!(
        OtherTerm::from_str("ordinal-100"),
        Err(TermConversionError::OutOfRange)
    );
    assert_eq!(
        OtherTerm::from_str("long-ordinal-10"),
        Ok(OtherTerm::LongOrdinal(10))
    );
    assert_eq!(
        OtherTerm::from_str("long-ordinal-11"),
        Err(TermConversionError::OutOfRange)
    );
}

#[test]
fn other_term_number_parsing_quirks() {
    // Unsigned parsing accepts a leading plus, and distinguishes a value
    // beyond a byte from an unparseable one.
    assert_eq!(OtherTerm::from_str("ordinal-+7"), Ok(OtherTerm::OrdinalN(7)));
    assert_eq!(
        OtherTerm::from_str("ordinal-999"),
        Err(TermConversionError::OutOfRange)
    );
    assert_eq!(
        OtherTerm::from_str("ordinal-x"),
        Err(TermConversionError::Unknown)
    );
    assert_eq!(
        OtherTerm::from_str("ordinal-"),
        Err(TermConversionError::Unknown)
    );
    assert_eq!(
        OtherTerm::from_str("month--1"),
        Err(TermConversionError::Unknown)
    );
}

#[test]
fn serialized_names_round_trip() {
    let samples = vec![
        OtherTerm::Ordinal,
        OtherTerm::OrdinalN(7),
        OtherTerm::OrdinalN(42),
        OtherTerm::LongOrdinal(3),
        OtherTerm::Month01,
        OtherTerm::Month12,
        OtherTerm::Season02,
        OtherTerm::EtAl,
        OtherTerm::AvailableAt,
        OtherTerm::PoliticalScience,
        OtherTerm::WorkingPaper,
    ];
    for term in samples {
        let name = term.name_str();
        assert_eq!(OtherTerm::from_str(&name), Ok(term), "name {:?}", name);
    }
}

#[test]
fn serialized_names_literal_cases() {
    assert_eq!(OtherTerm::OrdinalN(7).name_str(), "ordinal-07");
    assert_eq!(OtherTerm::OrdinalN(42).name_str(), "ordinal-42");
    assert_eq!(OtherTerm::LongOrdinal(10).name_str(), "long-ordinal-10");
    assert_eq!(OtherTerm::Month09.name_str(), "month-09");
    assert_eq!(OtherTerm::InPress.name_str(), "in press");
}

#[test]
fn variable_names() {
    assert_eq!(StandardVariable::DOI.name_str(), "DOI");
    assert_eq!(StandardVariable::ArchiveLocation.name_str(), "archive_location");
    assert_eq!(NumberVariable::NumberOfPages.name_str(), "number-of-pages");
    assert_eq!(DateVariable::OriginalDate.name_str(), "original-date");
    assert_eq!(NameVariable::EditorTranslator.name_str(), "editortranslator");
    assert_eq!(
        Variable::Name(NameVariable::ScriptWriter).name_str(),
        "script-writer"
    );
}

#[test]
fn conversion_error_messages() {
    assert_eq!(TermConversionError::OutOfRange.message(), "value out of range");
    assert_eq!(TermConversionError::Unknown.message(), "unknown term");
}
