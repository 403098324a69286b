use citationberg::Choose;
use citationberg::ChooseBranch;
use citationberg::ChooseMatch;
use citationberg::ChooseTest;
use citationberg::CslMacro;
use citationberg::DateAnyForm;
use citationberg::DateDayForm;
use citationberg::DateMonthForm;
use citationberg::DatePartName;
use citationberg::DateParts;
use citationberg::DateStrongAnyForm;
use citationberg::Formatting;
use citationberg::FontStyle;
use citationberg::FontWeight;
use citationberg::Layout;
use citationberg::LayoutRenderingElement;
use citationberg::LongShortForm;
use citationberg::Names;
use citationberg::Text;
use citationberg::TextCase;
use citationberg::TextTarget;
use citationberg::taxonomy::Kind;
use citationberg::taxonomy::NameVariable;
use citationberg::taxonomy::Variable;

fn text_macro(name: &str) -> LayoutRenderingElement {
    LayoutRenderingElement::Text(Text::with_target(TextTarget::Macro {
        name: name.to_string(),
    }))
}

fn names_element() -> LayoutRenderingElement {
    LayoutRenderingElement::Names(Names::with_variables(vec![NameVariable::Author]))
}

#[test]
fn find_direct_names_element() {
    let layout = Layout::with_elements(vec![names_element()]);
    let found = layout.find_variable_element(Variable::Name(NameVariable::Author), &vec![]);
    assert!(matches!(found, Some(LayoutRenderingElement::Names(_))));
    let missed = layout.find_variable_element(Variable::Name(NameVariable::Editor), &vec![]);
    assert!(missed.is_none());
}

#[test]
fn find_through_macro() {
    let layout = Layout::with_elements(vec![text_macro("contributors")]);
    let macros = vec![CslMacro {
        name: "contributors".to_string(),
        children: vec![names_element()],
    }];
    let found = layout.find_variable_element(Variable::Name(NameVariable::Author), &macros);
    assert!(matches!(found, Some(LayoutRenderingElement::Names(_))));
}

#[test]
fn find_through_macro_chain() {
    let layout = Layout::with_elements(vec![text_macro("outer")]);
    let macros = vec![
        CslMacro { name: "outer".to_string(), children: vec![text_macro("inner")] },
        CslMacro { name: "inner".to_string(), children: vec![names_element()] },
    ];
    let found = layout.find_variable_element(Variable::Name(NameVariable::Author), &macros);
    assert!(matches!(found, Some(LayoutRenderingElement::Names(_))));
}

#[test]
fn cyclic_macro_reference_finds_nothing() {
    let layout = Layout::with_elements(vec![text_macro("a")]);
    let macros = vec![
        CslMacro { name: "a".to_string(), children: vec![text_macro("b")] },
        CslMacro { name: "b".to_string(), children: vec![text_macro("a")] },
    ];
    let found = layout.find_variable_element(Variable::Name(NameVariable::Author), &macros);
    assert!(found.is_none());
}

#[test]
fn undefined_macro_finds_nothing() {
    let layout = Layout::with_elements(vec![text_macro("missing")]);
    let found = layout.find_variable_element(Variable::Name(NameVariable::Author), &vec![]);
    assert!(found.is_none());
}

fn empty_branch() -> ChooseBranch {
    ChooseBranch {
        disambiguate: None,
        is_numeric: None,
        is_uncertain_date: None,
        locator: None,
        position: None,
        type_: None,
        variable: None,
        match_: ChooseMatch::All,
        children: vec![],
    }
}

#[test]
fn branch_test_picks_first_set_field() {
    let mut branch = empty_branch();
    branch.type_ = Some(vec![Kind::Book]);
    branch.variable = Some(vec![Variable::Name(NameVariable::Author)]);
    match branch.test() {
        Some(ChooseTest::Type(kinds)) => assert_eq!(kinds, &vec![Kind::Book]),
        other => panic!("expected a type test, got {:?}", other),
    }
}

#[test]
fn branch_test_disambiguate() {
    let mut branch = empty_branch();
    branch.disambiguate = Some(true);
    branch.type_ = Some(vec![Kind::Book]);
    assert!(matches!(branch.test(), Some(ChooseTest::Disambiguate)));
    branch.disambiguate = Some(false);
    assert!(branch.test().is_none());
}

#[test]
fn branch_without_test() {
    assert!(empty_branch().test().is_none());
}

#[test]
fn match_modes() {
    let outcomes = vec![true, false, true];
    assert!(!ChooseMatch::All.test(&outcomes));
    assert!(ChooseMatch::Any.test(&outcomes));
    assert!(!ChooseMatch::NoneOf.test(&outcomes));

    let all = vec![true, true];
    assert!(ChooseMatch::All.test(&all));
    let none = vec![false, false];
    assert!(!ChooseMatch::Any.test(&none));
    assert!(ChooseMatch::NoneOf.test(&none));

    let empty: Vec<bool> = vec![];
    assert!(ChooseMatch::All.test(&empty));
    assert!(!ChooseMatch::Any.test(&empty));
    assert!(ChooseMatch::NoneOf.test(&empty));
}

#[test]
fn choose_branches_order() {
    let mut second = empty_branch();
    second.disambiguate = Some(true);
    let choose = Choose {
        if_: empty_branch(),
        else_if: vec![second],
        otherwise: None,
        delimiter: None,
    };
    let branches = choose.branches();
    assert_eq!(branches.len(), 2);
    assert!(branches[0].disambiguate.is_none());
    assert_eq!(branches[1].disambiguate, Some(true));
}

#[test]
fn date_forms_resolve_with_defaults() {
    assert_eq!(
        DateStrongAnyForm::for_name(DatePartName::Day, None),
        DateStrongAnyForm::Day(DateDayForm::Numeric)
    );
    // A long form does not apply to a day and falls back to numeric.
    assert_eq!(
        DateStrongAnyForm::for_name(DatePartName::Day, Some(DateAnyForm::Long)),
        DateStrongAnyForm::Day(DateDayForm::Numeric)
    );
    assert_eq!(
        DateStrongAnyForm::for_name(DatePartName::Day, Some(DateAnyForm::Ordinal)),
        DateStrongAnyForm::Day(DateDayForm::Ordinal)
    );
    assert_eq!(
        DateStrongAnyForm::for_name(DatePartName::Month, Some(DateAnyForm::Short)),
        DateStrongAnyForm::Month(DateMonthForm::Short)
    );
    // An ordinal form does not apply to a month.
    assert_eq!(
        DateStrongAnyForm::for_name(DatePartName::Month, Some(DateAnyForm::Ordinal)),
        DateStrongAnyForm::Month(DateMonthForm::Long)
    );
    assert_eq!(
        DateStrongAnyForm::for_name(DatePartName::Year, Some(DateAnyForm::Short)),
        DateStrongAnyForm::Year(LongShortForm::Short)
    );
    assert_eq!(
        DateStrongAnyForm::for_name(DatePartName::Year, Some(DateAnyForm::Ordinal)),
        DateStrongAnyForm::Year(LongShortForm::Long)
    );
}

#[test]
fn date_parts_coverage() {
    assert!(DateParts::YearMonthDay.has_month());
    assert!(DateParts::YearMonthDay.has_day());
    assert!(DateParts::YearMonth.has_month());
    assert!(!DateParts::YearMonth.has_day());
    assert!(!DateParts::Year.has_month());
    assert!(!DateParts::Year.has_day());
}

#[test]
fn formatting_merge() {
    let over = Formatting {
        font_style: Some(FontStyle::Italic),
        font_variant: None,
        font_weight: None,
        text_decoration: None,
        vertical_align: None,
    };
    let base = Formatting {
        font_style: Some(FontStyle::Normal),
        font_variant: None,
        font_weight: Some(FontWeight::Bold),
        text_decoration: None,
        vertical_align: None,
    };
    let merged = over.apply(base);
    assert_eq!(merged.font_style, Some(FontStyle::Italic));
    assert_eq!(merged.font_weight, Some(FontWeight::Bold));
    assert!(!merged.is_empty());
    assert!(Formatting::default().is_empty());
}

#[test]
fn text_case_language_independence() {
    assert!(TextCase::Lowercase.is_language_independent());
    assert!(TextCase::Uppercase.is_language_independent());
    assert!(TextCase::CapitalizeFirst.is_language_independent());
    assert!(TextCase::CapitalizeAll.is_language_independent());
    assert!(!TextCase::SentenceCase.is_language_independent());
    assert!(!TextCase::TitleCase.is_language_independent());
}
