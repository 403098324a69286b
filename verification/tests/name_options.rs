use citationberg::DelimiterBehavior;
use citationberg::InheritableNameOptions;
use citationberg::Name;
use citationberg::NameAnd;
use citationberg::NameForm;
use citationberg::Names;
use citationberg::NamesChild;
use citationberg::taxonomy::NameVariable;

fn unset() -> InheritableNameOptions {
    InheritableNameOptions {
        and: None,
        name_delimiter: None,
        names_delimiter: None,
        delimiter_precedes_et_al: None,
        delimiter_precedes_last: None,
        et_al_min: None,
        et_al_use_first: None,
        et_al_subsequent_min: None,
        et_al_subsequent_use_first: None,
        et_al_use_last: None,
        name_form: None,
        initialize: None,
        initialize_with: None,
        name_as_sort_order: None,
        sort_separator: None,
    }
}

#[test]
fn apply_prefers_child_where_set() {
    let parent = InheritableNameOptions {
        and: Some(NameAnd::Text),
        et_al_min: Some(5),
        et_al_use_first: Some(3),
        name_delimiter: Some("; ".to_string()),
        ..unset()
    };
    let child = InheritableNameOptions {
        and: Some(NameAnd::Symbol),
        et_al_min: Some(7),
        initialize: Some(false),
        ..unset()
    };
    let merged = parent.apply(&child);
    // Wherever the child sets a field, the merge equals the child.
    assert_eq!(merged.and, Some(NameAnd::Symbol));
    assert_eq!(merged.et_al_min, Some(7));
    assert_eq!(merged.initialize, Some(false));
    // Everywhere else it equals the parent.
    assert_eq!(merged.et_al_use_first, Some(3));
    assert_eq!(merged.name_delimiter, Some("; ".to_string()));
    assert_eq!(merged.names_delimiter, None);
}

#[test]
fn name_options_fill_defaults() {
    let name = Name::default();
    let o = name.options(&unset());
    assert_eq!(o.delimiter, ", ");
    assert_eq!(o.sort_separator, ", ");
    assert_eq!(o.form, NameForm::Long);
    assert!(o.initialize);
    assert!(!o.et_al_use_last);
    assert_eq!(o.delimiter_precedes_et_al, DelimiterBehavior::Contextual);
    assert_eq!(o.delimiter_precedes_last, DelimiterBehavior::Contextual);
    assert_eq!(o.et_al_min, None);
}

#[test]
fn suppression_thresholds() {
    let name = Name::default();
    let inherited = InheritableNameOptions {
        et_al_min: Some(3),
        et_al_use_first: Some(1),
        ..unset()
    };
    let o = name.options(&inherited);
    // Three names trigger et al.: only the first survives.
    assert!(!o.is_suppressed(0, 3, false));
    assert!(o.is_suppressed(1, 3, false));
    assert!(o.is_suppressed(2, 3, false));
    // Two names stay under the minimum.
    assert!(!o.is_suppressed(1, 2, false));
}

#[test]
fn suppression_subsequent_thresholds() {
    let name = Name::default();
    let inherited = InheritableNameOptions {
        et_al_min: Some(10),
        et_al_use_first: Some(9),
        et_al_subsequent_min: Some(2),
        et_al_subsequent_use_first: Some(1),
        ..unset()
    };
    let o = name.options(&inherited);
    assert!(!o.is_suppressed(1, 3, false));
    assert!(o.is_suppressed(1, 3, true));
}

#[test]
fn use_last_never_suppresses_final_name() {
    let name = Name::default();
    let inherited = InheritableNameOptions {
        et_al_min: Some(2),
        et_al_use_first: Some(1),
        et_al_use_last: Some(true),
        ..unset()
    };
    let o = name.options(&inherited);
    // The middle names are suppressed, but never the last.
    assert!(o.is_suppressed(1, 5, false));
    assert!(o.is_suppressed(3, 5, false));
    assert!(!o.is_suppressed(4, 5, false));
}

#[test]
fn unset_thresholds_never_trigger() {
    let name = Name::default();
    let o = name.options(&unset());
    assert!(!o.is_suppressed(0, 100, false));
    assert!(!o.is_suppressed(99, 100, true));
}

#[test]
fn names_with_variables_declares_nothing() {
    let names = Names::with_variables(vec![NameVariable::Author]);
    assert_eq!(names.variable, vec![NameVariable::Author]);
    assert!(names.children.is_empty());
    assert_eq!(names.options(), unset());
    assert!(names.name().is_none());
    assert!(names.et_al().is_none());
    assert!(names.label().is_none());
    assert!(names.substitute().is_none());
}

#[test]
fn names_delimiter_cascade() {
    let mut names = Names::with_variables(vec![NameVariable::Author]);
    let inherited = InheritableNameOptions {
        name_delimiter: Some("; ".to_string()),
        ..unset()
    };
    assert_eq!(names.delimiter(&inherited), "; ");
    names.delimiter = Some(" / ".to_string());
    assert_eq!(names.delimiter(&inherited), " / ");
    assert_eq!(names.delimiter(&unset()), " / ");
}

#[test]
fn from_names_substitute_inherits() {
    let mut parent = Names::with_variables(vec![NameVariable::Author]);
    parent.et_al_min = Some(4);
    parent.prefix = Some("(".to_string());
    parent.children = vec![NamesChild::Name(Name::default())];
    let mut child = Names::with_variables(vec![]);
    child.et_al_use_first = Some(2);

    let merged = parent.from_names_substitute(&child);
    // The child declares no variable, so the parent's is used, and the
    // child's overrides win over the parent's options.
    assert_eq!(merged.variable, vec![NameVariable::Author]);
    assert_eq!(merged.et_al_min, Some(4));
    assert_eq!(merged.et_al_use_first, Some(2));
    assert_eq!(merged.prefix, Some("(".to_string()));
    assert_eq!(merged.children.len(), 1);
}

#[test]
fn from_names_substitute_keeps_complete_child() {
    let parent = Names::with_variables(vec![NameVariable::Author]);
    let mut child = Names::with_variables(vec![NameVariable::Editor]);
    child.children = vec![NamesChild::Name(Name::default())];
    let merged = parent.from_names_substitute(&child);
    assert_eq!(merged.variable, vec![NameVariable::Editor]);
    assert_eq!(merged.children.len(), 1);
}
