use citationberg::Citation;
use citationberg::Bibliography;
use citationberg::DemoteNonDroppingParticle;
use citationberg::IndependentStyleSettings;
use citationberg::InfoLink;
use citationberg::InfoLinkRel;
use citationberg::InheritableNameOptions;
use citationberg::Layout;
use citationberg::LocalString;
use citationberg::PurgeLevel;
use citationberg::RawStyle;
use citationberg::Style;
use citationberg::StyleAttribution;
use citationberg::StyleClass;
use citationberg::StyleInfo;
use citationberg::StyleValidationError;

fn empty_options() -> InheritableNameOptions {
    InheritableNameOptions {
        and: None,
        name_delimiter: None,
        names_delimiter: None,
        delimiter_precedes_et_al: None,
        delimiter_precedes_last: None,
        et_al_min: None,
        et_al_use_first: None,
        et_al_subsequent_min: None,
        et_al_subsequent_use_first: None,
        et_al_use_last: None,
        name_form: None,
        initialize: None,
        initialize_with: None,
        name_as_sort_order: None,
        sort_separator: None,
    }
}

fn info(links: Vec<InfoLink>) -> StyleInfo {
    StyleInfo {
        authors: vec![StyleAttribution {
            name: "Jane Roe".to_string(),
            email: Some("jane@example.org".to_string()),
            uri: Some("https://example.org/jane".to_string()),
        }],
        contibutors: vec![],
        category: vec![],
        field: vec![],
        id: "https://example.org/styles/demo".to_string(),
        issn: vec!["1234-5678".to_string()],
        eissn: Some("8765-4321".to_string()),
        issnl: None,
        link: links,
        published: None,
        rights: None,
        summary: None,
        title: LocalString { lang: None, value: "Demo Style".to_string() },
        title_short: None,
        updated: None,
    }
}

fn settings() -> IndependentStyleSettings {
    IndependentStyleSettings {
        class: StyleClass::InText,
        initialize_with_hyphen: true,
        page_range_format: None,
        demote_non_dropping_particle: DemoteNonDroppingParticle::DisplayAndSort,
        options: empty_options(),
    }
}

fn parent_link() -> InfoLink {
    InfoLink {
        href: "https://example.org/styles/parent".to_string(),
        rel: InfoLinkRel::IndependentParent,
        description: None,
        locale: None,
    }
}

fn raw(
    citation: Option<Citation>,
    bibliography: Option<Bibliography>,
    settings: Option<IndependentStyleSettings>,
    links: Vec<InfoLink>,
) -> RawStyle {
    RawStyle {
        info: info(links),
        default_locale: None,
        version: "1.0".to_string(),
        citation,
        bibliography,
        independent_settings: settings,
        macros: vec![],
        locale: vec![],
    }
}

fn citation() -> Citation {
    Citation::with_layout(Layout::with_elements(vec![]))
}

fn bibliography() -> Bibliography {
    Bibliography::with_layout(Layout::with_elements(vec![]))
}

#[test]
fn validate_independent() {
    let style = Style::from_raw(raw(Some(citation()), None, Some(settings()), vec![]));
    match style {
        Ok(Style::Independent(i)) => {
            assert_eq!(i.info.title.value, "Demo Style");
            assert_eq!(i.version, "1.0");
        }
        other => panic!("expected an independent style, got {:?}", other),
    }
}

#[test]
fn validate_missing_class_attr() {
    let style = Style::from_raw(raw(Some(citation()), None, None, vec![]));
    assert_eq!(style, Err(StyleValidationError::MissingClassAttr));
}

#[test]
fn validate_bibliography_without_citation() {
    let style = Style::from_raw(raw(None, Some(bibliography()), None, vec![parent_link()]));
    assert_eq!(style, Err(StyleValidationError::MissingCitation));
}

#[test]
fn validate_dependent() {
    let style = Style::from_raw(raw(None, None, None, vec![parent_link()]));
    match style {
        Ok(Style::Dependent(d)) => {
            assert_eq!(d.parent_link.href, "https://example.org/styles/parent");
        }
        other => panic!("expected a dependent style, got {:?}", other),
    }
}

#[test]
fn validate_missing_parent() {
    let no_parent = InfoLink {
        href: "https://example.org/doc".to_string(),
        rel: InfoLinkRel::Documentation,
        description: None,
        locale: None,
    };
    let style = Style::from_raw(raw(None, None, None, vec![no_parent]));
    assert_eq!(style, Err(StyleValidationError::MissingParent));
}

#[test]
fn parent_link_takes_first() {
    let mut second = parent_link();
    second.href = "https://example.org/styles/other".to_string();
    let r = raw(None, None, None, vec![parent_link(), second]);
    let link = r.parent_link().expect("a parent link should be found");
    assert_eq!(link.href, "https://example.org/styles/parent");
}

#[test]
fn purge_basic_keeps_names() {
    let mut style = Style::from_raw(raw(
        Some(citation()),
        None,
        Some(settings()),
        vec![parent_link()],
    ))
    .unwrap();
    style.purge(PurgeLevel::Basic);
    let info = style.info();
    assert_eq!(info.authors.len(), 1);
    assert_eq!(info.authors[0].name, "Jane Roe");
    assert_eq!(info.authors[0].email, None);
    assert_eq!(info.authors[0].uri, None);
    assert!(info.issn.is_empty());
    assert_eq!(info.eissn, None);
    assert_eq!(info.link.len(), 1);
}

#[test]
fn purge_full_drops_names() {
    let mut style = Style::from_raw(raw(Some(citation()), None, Some(settings()), vec![]))
        .unwrap();
    style.purge(PurgeLevel::Full);
    let info = style.info();
    assert!(info.authors.is_empty());
    assert_eq!(info.rights, None);
    assert_eq!(info.title.value, "Demo Style");
}

#[test]
fn validation_error_messages() {
    assert!(StyleValidationError::MissingCitation.message().contains("cs:citation"));
    assert!(StyleValidationError::MissingParent.message().contains("independent-parent"));
    assert!(StyleValidationError::MissingClassAttr.message().contains("class"));
}

#[test]
fn citation_delimiters() {
    let mut c = citation();
    assert_eq!(c.get_year_suffix_delimiter(), "");
    c.layout.delimiter = Some("; ".to_string());
    assert_eq!(c.get_year_suffix_delimiter(), "; ");
    c.year_suffix_delimiter = Some(", ".to_string());
    assert_eq!(c.get_year_suffix_delimiter(), ", ");
    assert_eq!(c.get_after_collapse_delimiter(), "; ");
    assert_eq!(Citation::default_near_note_distance(), 5);
}

#[test]
fn settings_defaults() {
    assert!(IndependentStyleSettings::default_initialize_with_hyphen());
}

#[test]
fn independent_style_round_trips_through_raw() {
    let style = Style::from_raw(raw(Some(citation()), None, Some(settings()), vec![]))
        .unwrap();
    let Style::Independent(independent) = style else {
        panic!("expected an independent style");
    };
    let again = Style::from_raw(RawStyle::from_independent(independent));
    assert!(matches!(again, Ok(Style::Independent(_))));
}

#[test]
fn dependent_style_round_trips_through_raw() {
    let style = Style::from_raw(raw(None, None, None, vec![parent_link()])).unwrap();
    let Style::Dependent(dependent) = style else {
        panic!("expected a dependent style");
    };
    let href = dependent.parent_link.href.clone();
    let again = Style::from_raw(RawStyle::from_dependent(dependent));
    match again {
        Ok(Style::Dependent(d)) => assert_eq!(d.parent_link.href, href),
        other => panic!("expected a dependent style, got {:?}", other),
    }
}
