use citationberg::Date;
use citationberg::DateAnyForm;
use citationberg::DateDayForm;
use citationberg::DateForm;
use citationberg::DatePart;
use citationberg::DatePartName;
use citationberg::DateStrongAnyForm;
use citationberg::Affixes;
use citationberg::Formatting;
use citationberg::Layout;
use citationberg::LayoutRenderingElement;
use citationberg::Name;
use citationberg::NameLabelPosition;
use citationberg::NamePart;
use citationberg::NamePartName;
use citationberg::Names;
use citationberg::NamesChild;
use citationberg::Number;
use citationberg::NumberForm;
use citationberg::Text;
use citationberg::TextTarget;
use citationberg::VariablelessLabel;
use citationberg::LabelPluralize;
use citationberg::TermForm;
use citationberg::taxonomy::DateVariable;
use citationberg::taxonomy::NameVariable;
use citationberg::taxonomy::NumberVariable;
use citationberg::taxonomy::Variable;

fn date(variable: Option<DateVariable>) -> Date {
    Date {
        variable,
        form: None,
        parts: None,
        date_part: vec![],
        formatting: Formatting::default(),
        affixes: Affixes::default(),
        delimiter: None,
        display: None,
        text_case: None,
    }
}

fn number(variable: NumberVariable) -> Number {
    Number {
        variable,
        form: NumberForm::Numeric,
        formatting: Formatting::default(),
        affixes: Affixes::default(),
        display: None,
        text_case: None,
    }
}

#[test]
fn element_find_matches_date_and_number() {
    let d = LayoutRenderingElement::Date(date(Some(DateVariable::Issued)));
    assert!(d
        .find_variable_element(Variable::Date(DateVariable::Issued), &vec![])
        .is_some());
    assert!(d
        .find_variable_element(Variable::Date(DateVariable::Accessed), &vec![])
        .is_none());
    let undated = LayoutRenderingElement::Date(date(None));
    assert!(undated
        .find_variable_element(Variable::Date(DateVariable::Issued), &vec![])
        .is_none());

    let n = LayoutRenderingElement::Number(number(NumberVariable::Volume));
    assert!(n
        .find_variable_element(Variable::Number(NumberVariable::Volume), &vec![])
        .is_some());
    assert!(n
        .find_variable_element(Variable::Number(NumberVariable::Page), &vec![])
        .is_none());
}

#[test]
fn text_find_matches_variable_target() {
    let t = Text::with_target(TextTarget::Variable {
        var: Variable::Number(NumberVariable::Page),
        form: Default::default(),
    });
    assert!(t
        .find_variable_element(Variable::Number(NumberVariable::Page), &vec![])
        .is_some());
    assert!(t
        .find_variable_element(Variable::Number(NumberVariable::Volume), &vec![])
        .is_none());
    let term_text = Text::with_target(TextTarget::Value { val: "ibid".to_string() });
    assert!(term_text
        .find_variable_element(Variable::Number(NumberVariable::Page), &vec![])
        .is_none());
}

#[test]
fn date_localization() {
    assert!(!date(None).is_localized());
    let mut d = date(None);
    d.form = Some(DateForm::Numeric);
    assert!(d.is_localized());
}

#[test]
fn date_part_form_resolution() {
    let part = DatePart {
        name: DatePartName::Day,
        form: Some(DateAnyForm::Ordinal),
        range_delimiter: None,
        formatting: Formatting::default(),
        affixes: Affixes::default(),
        strip_periods: false,
        text_case: None,
    };
    assert_eq!(part.form(), DateStrongAnyForm::Day(DateDayForm::Ordinal));
}

#[test]
fn layout_new_rolls_in_attributes() {
    let layout = Layout::new(
        vec![],
        Formatting::default(),
        Some(Affixes { prefix: Some("[".to_string()), suffix: Some("]".to_string()) }),
        Some(", ".to_string()),
    );
    assert_eq!(layout.prefix, Some("[".to_string()));
    assert_eq!(layout.suffix, Some("]".to_string()));
    assert_eq!(layout.delimiter, Some(", ".to_string()));
}

fn label() -> VariablelessLabel {
    VariablelessLabel {
        form: TermForm::Long,
        plural: LabelPluralize::Contextual,
        formatting: Formatting::default(),
        affixes: Affixes::default(),
        text_case: None,
        strip_periods: false,
    }
}

#[test]
fn names_label_position() {
    let mut names = Names::with_variables(vec![NameVariable::Author]);
    names.children = vec![NamesChild::Label(label()), NamesChild::Name(Name::default())];
    let (_, pos) = names.label().unwrap();
    assert_eq!(pos, NameLabelPosition::BeforeName);

    names.children = vec![NamesChild::Name(Name::default()), NamesChild::Label(label())];
    let (_, pos) = names.label().unwrap();
    assert_eq!(pos, NameLabelPosition::AfterName);
}

#[test]
fn name_part_lookup() {
    let part = |which: NamePartName| NamePart {
        name: which,
        formatting: Formatting::default(),
        affixes: Affixes::default(),
        text_case: None,
    };
    let mut name = Name::default();
    assert!(name.name_part_given().is_none());
    name.parts = vec![part(NamePartName::Family), part(NamePartName::Given)];
    assert_eq!(name.name_part_given().unwrap().name, NamePartName::Given);
    assert_eq!(name.name_part_family().unwrap().name, NamePartName::Family);
}
