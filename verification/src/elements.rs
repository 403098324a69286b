//! Rendering elements: the recursive tree of formatting instructions that a
//! layout holds, and the conditional branching construct.

use vstd::prelude::*;

use crate::formatting::Affixes;
use crate::formatting::Display;
use crate::formatting::FontStyle;
use crate::formatting::FontVariant;
use crate::formatting::FontWeight;
use crate::formatting::Formatting;
use crate::formatting::TextCase;
use crate::formatting::TextDecoration;
use crate::formatting::ToAffixes;
use crate::formatting::ToFormatting;
use crate::formatting::VerticalAlign;
use crate::locale::TermForm;
use crate::names::Names;
use crate::names::eq_names;
use crate::taxonomy::DateVariable;
use crate::taxonomy::Kind;
use crate::taxonomy::Locator;
use crate::taxonomy::NumberVariable;
use crate::taxonomy::Term;
use crate::taxonomy::Variable;
use crate::util::clone_string_opt;
use crate::util::str_eq;

verus! {

/// A formatting rule.
#[derive(Debug, Eq, PartialEq, Hash)]
pub struct Layout {
    /// Parts of the rule.
    pub elements: Vec<LayoutRenderingElement>,
    /// Set the font style.
    pub font_style: Option<FontStyle>,
    /// Choose normal or small caps.
    pub font_variant: Option<FontVariant>,
    /// Set the font weight.
    pub font_weight: Option<FontWeight>,
    /// Choose underlining.
    pub text_decoration: Option<TextDecoration>,
    /// Choose vertical alignment.
    pub vertical_align: Option<VerticalAlign>,
    /// The prefix.
    pub prefix: Option<String>,
    /// The suffix.
    pub suffix: Option<String>,
    /// Delimit pieces of the output.
    pub delimiter: Option<String>,
}

/// Possible parts of a formatting rule.
#[derive(Debug, Eq, PartialEq, Hash)]
pub enum LayoutRenderingElement {
    /// Insert a term or variable.
    Text(Text),
    /// Format a date.
    Date(Date),
    /// Format a number.
    Number(Number),
    /// Format a list of names.
    Names(Names),
    /// Prints a label for a variable.
    Label(Label),
    /// Container for rendering elements.
    Group(Group),
    /// Conditional rendering.
    Choose(Choose),
}

/// Rendering elements.
#[derive(Debug, Eq, PartialEq, Hash)]
pub enum RenderingElement {
    /// A layout element.
    Layout(Layout),
    /// Other rendering elements.
    Other(LayoutRenderingElement),
}

/// Print a term or variable.
#[derive(Debug, Eq, PartialEq, Hash)]
pub struct Text {
    /// The term or variable to print.
    pub target: TextTarget,
    /// Override formatting style.
    pub formatting: Formatting,
    /// Add prefix and suffix.
    pub affixes: Affixes,
    /// Set layout level.
    pub display: Option<Display>,
    /// Whether to wrap this text in quotes.
    pub quotes: bool,
    /// Remove periods from the output.
    pub strip_periods: bool,
    /// Transform the text case.
    pub text_case: Option<TextCase>,
}

/// Various kinds of text targets.
#[derive(Debug, Eq, PartialEq, Hash)]
pub enum TextTarget {
    /// Prints the value of a variable.
    Variable {
        /// The variable to print.
        var: Variable,
        /// The form of the variable.
        form: LongShortForm,
    },
    /// Prints the text output of a macro.
    Macro {
        /// The name of the macro.
        name: String,
    },
    /// Prints a localized term.
    Term {
        /// The term to print.
        term: Term,
        /// The form of the term.
        form: TermForm,
        /// Whether the term is pluralized.
        plural: bool,
    },
    /// Prints a given string.
    Value {
        /// The string to print.
        val: String,
    },
}

/// Formats a date.
#[derive(Debug, Eq, PartialEq, Hash)]
pub struct Date {
    /// The date to format.
    pub variable: Option<DateVariable>,
    /// How the localized date should be formatted.
    pub form: Option<DateForm>,
    /// Which parts of the localized date should be included.
    pub parts: Option<DateParts>,
    /// Override the default date parts. Also specifies the order of the
    /// parts if `form` is unset.
    pub date_part: Vec<DatePart>,
    /// Override formatting style.
    pub formatting: Formatting,
    /// Add prefix and suffix. Ignored when this defines a localized date
    /// format.
    pub affixes: Affixes,
    /// Delimit pieces of the output. Ignored when this defines a localized
    /// date format.
    pub delimiter: Option<String>,
    /// Set layout level.
    pub display: Option<Display>,
    /// Transform the text case.
    pub text_case: Option<TextCase>,
}

impl Date {
    /// Whether this is a localized or a standalone date.
    pub fn is_localized(&self) -> (r: bool)
        ensures
            r == (self.form is Some),
    {
        self.form.is_some()
    }
}

/// Localized date formats.
#[derive(Debug, Copy, Clone, Eq, PartialEq, Hash, Structural)]
pub enum DateForm {
    /// “12-15-2005”
    Numeric,
    /// “December 15, 2005”
    Text,
}

/// Which parts of a date should be included.
#[allow(missing_docs)]
#[derive(Debug, Default, Copy, Clone, Eq, PartialEq, Hash, Structural)]
pub enum DateParts {
    Year,
    YearMonth,
    #[default]
    YearMonthDay,
}

impl DateParts {
    /// Check if the date shall contain a month.
    pub fn has_month(self) -> (r: bool)
        ensures
            r == (self is YearMonth || self is YearMonthDay),
    {
        matches!(self, Self::YearMonth | Self::YearMonthDay)
    }

    /// Check if the date shall contain a day.
    pub fn has_day(self) -> (r: bool)
        ensures
            r == (self is YearMonthDay),
    {
        matches!(self, Self::YearMonthDay)
    }
}

/// Override the default date parts.
#[derive(Debug, Eq, PartialEq, Hash)]
pub struct DatePart {
    /// Kind of the date part.
    pub name: DatePartName,
    /// Form of the date part.
    pub form: Option<DateAnyForm>,
    /// The string used to delimit two date parts.
    pub range_delimiter: Option<String>,
    /// Override formatting style.
    pub formatting: Formatting,
    /// Add prefix and suffix. Ignored when this defines a localized date
    /// format.
    pub affixes: Affixes,
    /// Remove periods from the date part.
    pub strip_periods: bool,
    /// Transform the text case.
    pub text_case: Option<TextCase>,
}

impl DatePart {
    /// Retrieve the form.
    pub fn form(&self) -> (r: DateStrongAnyForm)
        ensures
            r == spec_for_name(self.name, self.form),
    {
        DateStrongAnyForm::for_name(self.name, self.form)
    }
}

impl Clone for DatePart {
    fn clone(&self) -> (r: Self)
        ensures
            r == *self,
    {
        DatePart {
            name: self.name,
            form: self.form,
            range_delimiter: clone_string_opt(&self.range_delimiter),
            formatting: self.formatting,
            affixes: self.affixes.clone(),
            strip_periods: self.strip_periods,
            text_case: self.text_case,
        }
    }
}

/// The kind of a date part with its `form` attribute.
#[allow(missing_docs)]
#[derive(Debug, Copy, Clone, Eq, PartialEq, Hash, Structural)]
pub enum DatePartName {
    Day,
    Month,
    Year,
}

/// Any allowable date part format.
#[derive(Debug, Copy, Clone, Eq, PartialEq, Hash, Structural)]
pub enum DateAnyForm {
    /// “1”
    Numeric,
    /// “01”
    NumericLeadingZeros,
    /// “1st”
    Ordinal,
    /// “January”
    Long,
    /// “Jan.”
    Short,
}

/// Strongly typed date part formats.
#[allow(missing_docs)]
#[derive(Debug, Copy, Clone, Eq, PartialEq, Hash, Structural)]
pub enum DateStrongAnyForm {
    Day(DateDayForm),
    Month(DateMonthForm),
    Year(LongShortForm),
}

/// The day form that a requested form resolves to: forms that do not apply
/// to a day fall back to the plain numeric default.
pub open spec fn spec_form_for_day(f: DateAnyForm) -> DateDayForm {
    match f {
        DateAnyForm::NumericLeadingZeros => DateDayForm::NumericLeadingZeros,
        DateAnyForm::Ordinal => DateDayForm::Ordinal,
        _ => DateDayForm::Numeric,
    }
}

/// The month form that a requested form resolves to: forms that do not
/// apply to a month fall back to the long default.
pub open spec fn spec_form_for_month(f: DateAnyForm) -> DateMonthForm {
    match f {
        DateAnyForm::Short => DateMonthForm::Short,
        DateAnyForm::Numeric => DateMonthForm::Numeric,
        DateAnyForm::NumericLeadingZeros => DateMonthForm::NumericLeadingZeros,
        _ => DateMonthForm::Long,
    }
}

/// The year form that a requested form resolves to.
pub open spec fn spec_form_for_year(f: DateAnyForm) -> LongShortForm {
    match f {
        DateAnyForm::Short => LongShortForm::Short,
        _ => LongShortForm::Long,
    }
}

/// The strongly typed form of a date part: the requested form where it
/// applies to the component, else the component's default.
pub open spec fn spec_for_name(name: DatePartName, form: Option<DateAnyForm>) -> DateStrongAnyForm {
    match name {
        DatePartName::Day => DateStrongAnyForm::Day(
            match form {
                Some(f) => spec_form_for_day(f),
                None => DateDayForm::Numeric,
            },
        ),
        DatePartName::Month => DateStrongAnyForm::Month(
            match form {
                Some(f) => spec_form_for_month(f),
                None => DateMonthForm::Long,
            },
        ),
        DatePartName::Year => DateStrongAnyForm::Year(
            match form {
                Some(f) => spec_form_for_year(f),
                None => LongShortForm::Long,
            },
        ),
    }
}

impl DateStrongAnyForm {
    /// Get a strongly typed date form for a name.
    pub fn for_name(name: DatePartName, form: Option<DateAnyForm>) -> (r: Self)
        ensures
            r == spec_for_name(name, form),
    {
        match name {
            DatePartName::Day => Self::Day(
                match form {
                    Some(f) => f.form_for_day(),
                    None => DateDayForm::Numeric,
                },
            ),
            DatePartName::Month => Self::Month(
                match form {
                    Some(f) => f.form_for_month(),
                    None => DateMonthForm::Long,
                },
            ),
            DatePartName::Year => Self::Year(
                match form {
                    Some(f) => f.form_for_year(),
                    None => LongShortForm::Long,
                },
            ),
        }
    }
}

impl DateAnyForm {
    /// Retrieve the form for a day.
    pub fn form_for_day(self) -> (r: DateDayForm)
        ensures
            r == spec_form_for_day(self),
    {
        match self {
            Self::NumericLeadingZeros => DateDayForm::NumericLeadingZeros,
            Self::Ordinal => DateDayForm::Ordinal,
            _ => DateDayForm::Numeric,
        }
    }

    /// Retrieve the form for a month.
    pub fn form_for_month(self) -> (r: DateMonthForm)
        ensures
            r == spec_form_for_month(self),
    {
        match self {
            Self::Short => DateMonthForm::Short,
            Self::Numeric => DateMonthForm::Numeric,
            Self::NumericLeadingZeros => DateMonthForm::NumericLeadingZeros,
            _ => DateMonthForm::Long,
        }
    }

    /// Retrieve the form for a year.
    pub fn form_for_year(self) -> (r: LongShortForm)
        ensures
            r == spec_form_for_year(self),
    {
        match self {
            Self::Short => LongShortForm::Short,
            _ => LongShortForm::Long,
        }
    }
}

/// How a day is formatted.
#[derive(Debug, Copy, Clone, Default, Eq, PartialEq, Hash, Structural)]
pub enum DateDayForm {
    /// “1”
    #[default]
    Numeric,
    /// “01”
    NumericLeadingZeros,
    /// “1st”
    Ordinal,
}

/// How a month is formatted.
#[derive(Debug, Copy, Clone, Default, Eq, PartialEq, Hash, Structural)]
pub enum DateMonthForm {
    /// “January”
    #[default]
    Long,
    /// “Jan.”
    Short,
    /// “1”
    Numeric,
    /// “01”
    NumericLeadingZeros,
}

/// Whether to format something in long or short form.
#[allow(missing_docs)]
#[derive(Debug, Default, Copy, Clone, Eq, PartialEq, Hash, Structural)]
pub enum LongShortForm {
    #[default]
    Long,
    Short,
}

/// Renders a number.
#[derive(Debug, Eq, PartialEq, Hash)]
pub struct Number {
    /// The variable whose value is used.
    pub variable: NumberVariable,
    /// How the number is formatted.
    pub form: NumberForm,
    /// Override formatting style.
    pub formatting: Formatting,
    /// Add prefix and suffix.
    pub affixes: Affixes,
    /// Set layout level.
    pub display: Option<Display>,
    /// Transform the text case.
    pub text_case: Option<TextCase>,
}

/// How a number is formatted.
#[derive(Debug, Default, Copy, Clone, Eq, PartialEq, Hash, Structural)]
pub enum NumberForm {
    /// “1”
    #[default]
    Numeric,
    /// “1st”
    Ordinal,
    /// “first”
    LongOrdinal,
    /// “I”
    Roman,
}

/// Print a label for a number variable.
#[derive(Debug, Eq, PartialEq, Hash)]
pub struct Label {
    /// The variable for which to print the label.
    pub variable: NumberVariable,
    /// The form of the label.
    pub label: VariablelessLabel,
}

/// A label without its variable.
#[derive(Debug, Eq, PartialEq, Hash)]
pub struct VariablelessLabel {
    /// What variant of label is chosen.
    pub form: TermForm,
    /// How to pluralize the label.
    pub plural: LabelPluralize,
    /// Override formatting style.
    pub formatting: Formatting,
    /// Add prefix and suffix.
    pub affixes: Affixes,
    /// Transform the text case.
    pub text_case: Option<TextCase>,
    /// Remove periods from the output.
    pub strip_periods: bool,
}

impl Clone for VariablelessLabel {
    fn clone(&self) -> (r: Self)
        ensures
            r == *self,
    {
        VariablelessLabel {
            form: self.form,
            plural: self.plural,
            formatting: self.formatting,
            affixes: self.affixes.clone(),
            text_case: self.text_case,
            strip_periods: self.strip_periods,
        }
    }
}

/// How to pluralize a label.
#[derive(Debug, Default, Copy, Clone, Eq, PartialEq, Hash, Structural)]
pub enum LabelPluralize {
    /// Match plurality of the variable.
    #[default]
    Contextual,
    /// Always use the plural form.
    Always,
    /// Always use the singular form.
    Never,
}

/// A group of formatting instructions that is only shown if no variable is
/// referenced or at least one referenced variable is populated.
#[derive(Debug, Eq, PartialEq, Hash)]
pub struct Group {
    /// The formatting instructions.
    pub children: Vec<LayoutRenderingElement>,
    /// Set the font style.
    pub font_style: Option<FontStyle>,
    /// Choose normal or small caps.
    pub font_variant: Option<FontVariant>,
    /// Set the font weight.
    pub font_weight: Option<FontWeight>,
    /// Choose underlining.
    pub text_decoration: Option<TextDecoration>,
    /// Choose vertical alignment.
    pub vertical_align: Option<VerticalAlign>,
    /// The prefix.
    pub prefix: Option<String>,
    /// The suffix.
    pub suffix: Option<String>,
    /// Delimit pieces of the output.
    pub delimiter: Option<String>,
    /// Set layout level.
    pub display: Option<Display>,
}

/// A conditional group of formatting instructions.
#[derive(Debug, Eq, PartialEq, Hash)]
pub struct Choose {
    /// If branch of the conditional group.
    pub if_: ChooseBranch,
    /// Other branches of the conditional group. The first matching branch
    /// is used.
    pub else_if: Vec<ChooseBranch>,
    /// The formatting instructions to use if no branch matches.
    pub otherwise: Option<ElseBranch>,
    /// The delimiter between rendering elements in the chosen branch.
    pub delimiter: Option<String>,
}

/// A single branch of a conditional group.
#[derive(Debug, Eq, PartialEq, Hash)]
pub struct ChooseBranch {
    /// Other than this choose, two elements would result in the same
    /// rendering.
    pub disambiguate: Option<bool>,
    /// The variable contains numeric data.
    pub is_numeric: Option<Vec<Variable>>,
    /// The variable contains an approximate date.
    pub is_uncertain_date: Option<Vec<DateVariable>>,
    /// The locator matches the given type.
    pub locator: Option<Vec<Locator>>,
    /// Tests the position of this citation in the citations to the same
    /// item. Only ever true for citations.
    pub position: Option<Vec<TestPosition>>,
    /// Tests whether the item is of a certain type.
    pub type_: Option<Vec<Kind>>,
    /// Tests whether the default form of this variable is non-empty.
    pub variable: Option<Vec<Variable>>,
    /// How to handle the set of tests.
    pub match_: ChooseMatch,
    /// The formatting instructions to use if the condition matches.
    pub children: Vec<LayoutRenderingElement>,
}

/// Whether a test extracted from a branch is the branch's single active
/// test: the first set test field wins, and a false disambiguate flag
/// yields no test at all.
pub open spec fn spec_branch_test_some(b: ChooseBranch, t: ChooseTest) -> bool {
    match t {
        ChooseTest::Disambiguate => b.disambiguate == Some(true),
        ChooseTest::IsNumeric(v) => b.disambiguate is None && b.is_numeric == Some(*v),
        ChooseTest::IsUncertainDate(v) => b.disambiguate is None && b.is_numeric is None
            && b.is_uncertain_date == Some(*v),
        ChooseTest::Locator(v) => b.disambiguate is None && b.is_numeric is None
            && b.is_uncertain_date is None && b.locator == Some(*v),
        ChooseTest::Position(v) => b.disambiguate is None && b.is_numeric is None
            && b.is_uncertain_date is None && b.locator is None && b.position == Some(*v),
        ChooseTest::Type(v) => b.disambiguate is None && b.is_numeric is None
            && b.is_uncertain_date is None && b.locator is None && b.position is None && b.type_
            == Some(*v),
        ChooseTest::Variable(v) => b.disambiguate is None && b.is_numeric is None
            && b.is_uncertain_date is None && b.locator is None && b.position is None && b.type_
            is None && b.variable == Some(*v),
    }
}

/// Whether a branch carries no active test: a false disambiguate flag, or
/// no test field set at all.
pub open spec fn spec_branch_test_none(b: ChooseBranch) -> bool {
    ||| b.disambiguate == Some(false)
    ||| (b.disambiguate is None && b.is_numeric is None && b.is_uncertain_date is None
        && b.locator is None && b.position is None && b.type_ is None && b.variable is None)
}

impl ChooseBranch {
    /// Retrieve the test of this branch. Valid CSL files must return `Some`
    /// here.
    pub fn test(&self) -> (r: Option<ChooseTest<'_>>)
        ensures
            match r {
                Some(t) => spec_branch_test_some(*self, t),
                None => spec_branch_test_none(*self),
            },
    {
        if let Some(disambiguate) = self.disambiguate {
            if !disambiguate {
                None
            } else {
                Some(ChooseTest::Disambiguate)
            }
        } else if let Some(is_numeric) = &self.is_numeric {
            Some(ChooseTest::IsNumeric(is_numeric))
        } else if let Some(is_uncertain_date) = &self.is_uncertain_date {
            Some(ChooseTest::IsUncertainDate(is_uncertain_date))
        } else if let Some(locator) = &self.locator {
            Some(ChooseTest::Locator(locator))
        } else if let Some(position) = &self.position {
            Some(ChooseTest::Position(position))
        } else if let Some(type_) = &self.type_ {
            Some(ChooseTest::Type(type_))
        } else if let Some(variable) = &self.variable {
            Some(ChooseTest::Variable(variable))
        } else {
            None
        }
    }
}

/// The formatting instructions to use if no branch matches.
#[derive(Debug, Eq, PartialEq, Hash)]
pub struct ElseBranch {
    /// The formatting instructions.
    pub children: Vec<LayoutRenderingElement>,
}

/// A single test in a conditional group.
#[derive(Debug, Clone, Eq, PartialEq, Hash)]
pub enum ChooseTest<'a> {
    /// Other than this choose, two elements would result in the same
    /// rendering.
    Disambiguate,
    /// The variable contains numeric data.
    IsNumeric(&'a Vec<Variable>),
    /// The variable contains an approximate date.
    IsUncertainDate(&'a Vec<DateVariable>),
    /// The locator matches the given type.
    Locator(&'a Vec<Locator>),
    /// Tests the position of this citation in the citations to the same
    /// item. Only ever true for citations.
    Position(&'a Vec<TestPosition>),
    /// Tests whether the item is of a certain type.
    Type(&'a Vec<Kind>),
    /// Tests whether the default form of this variable is non-empty.
    Variable(&'a Vec<Variable>),
}

/// Possible positions of a citation in the citations to the same item.
#[derive(Debug, Copy, Clone, Eq, PartialEq, Hash, Structural)]
pub enum TestPosition {
    /// The first citation to the item.
    First,
    /// Previously cited.
    Subsequent,
    /// Directly following a citation to the same item but the locators
    /// don't necessarily match.
    IbidWithLocator,
    /// Directly following a citation to the same item with the same
    /// locators.
    Ibid,
    /// Other citation within `near-note-distance` of the same item.
    NearNote,
}

/// How to handle the set of tests in a conditional group.
#[derive(Debug, Default, Copy, Clone, Eq, PartialEq, Hash, Structural)]
pub enum ChooseMatch {
    /// All tests must match.
    #[default]
    All,
    /// At least one test must match.
    Any,
    /// No test must match.
    NoneOf,
}

impl ChooseMatch {
    /// Check whether the list of test outcomes passes this match type.
    pub fn test(self, tests: &Vec<bool>) -> (r: bool)
        ensures
            self is All ==> r == (forall|i: int| 0 <= i < tests@.len() ==> tests@[i]),
            self is Any ==> r == (exists|i: int| 0 <= i < tests@.len() && tests@[i]),
            self is NoneOf ==> r == (forall|i: int| 0 <= i < tests@.len() ==> !tests@[i]),
    {
        let mut any = false;
        let mut all = true;
        let mut i: usize = 0;
        while i < tests.len()
            invariant
                i <= tests@.len(),
                any == (exists|j: int| 0 <= j < i && tests@[j]),
                all == (forall|j: int| 0 <= j < i ==> tests@[j]),
            decreases tests@.len() - i,
        {
            if tests[i] {
                any = true;
            } else {
                all = false;
            }
            i += 1;
        }
        match self {
            Self::All => all,
            Self::Any => any,
            Self::NoneOf => !any,
        }
    }
}

/// A reusable set of formatting instructions.
#[derive(Debug, Eq, PartialEq, Hash)]
pub struct CslMacro {
    /// The name of the macro.
    pub name: String,
    /// The formatting instructions.
    pub children: Vec<LayoutRenderingElement>,
}

/// What to do if the name variable is empty.
#[derive(Debug, Eq, PartialEq, Hash)]
pub struct Substitute {
    /// The layout to use instead.
    pub children: Vec<LayoutRenderingElement>,
}

// Content equality for the recursive element tree. Two values are congruent
// when every field agrees; vectors are compared by their contents.

/// Content equality of rendering elements.
pub open spec fn eq_element(a: LayoutRenderingElement, b: LayoutRenderingElement) -> bool
    decreases a,
{
    match (a, b) {
        (LayoutRenderingElement::Text(x), LayoutRenderingElement::Text(y)) => x == y,
        (LayoutRenderingElement::Date(x), LayoutRenderingElement::Date(y)) => eq_date(x, y),
        (LayoutRenderingElement::Number(x), LayoutRenderingElement::Number(y)) => x == y,
        (LayoutRenderingElement::Names(x), LayoutRenderingElement::Names(y)) => eq_names(x, y),
        (LayoutRenderingElement::Label(x), LayoutRenderingElement::Label(y)) => x == y,
        (LayoutRenderingElement::Group(x), LayoutRenderingElement::Group(y)) => eq_group(x, y),
        (LayoutRenderingElement::Choose(x), LayoutRenderingElement::Choose(y)) => eq_choose(x, y),
        _ => false,
    }
}

/// Content equality of element sequences.
pub open spec fn eq_elements(a: Seq<LayoutRenderingElement>, b: Seq<LayoutRenderingElement>) -> bool
    decreases a,
{
    a.len() == b.len() && forall|i: int|
        0 <= i < a.len() ==> eq_element(#[trigger] a[i], b[i])
}

/// Content equality of dates.
pub open spec fn eq_date(a: Date, b: Date) -> bool {
    &&& a.variable == b.variable
    &&& a.form == b.form
    &&& a.parts == b.parts
    &&& a.date_part@ == b.date_part@
    &&& a.formatting == b.formatting
    &&& a.affixes == b.affixes
    &&& a.delimiter == b.delimiter
    &&& a.display == b.display
    &&& a.text_case == b.text_case
}

/// Content equality of groups.
pub open spec fn eq_group(a: Group, b: Group) -> bool
    decreases a,
{
    &&& eq_elements(a.children@, b.children@)
    &&& a.font_style == b.font_style
    &&& a.font_variant == b.font_variant
    &&& a.font_weight == b.font_weight
    &&& a.text_decoration == b.text_decoration
    &&& a.vertical_align == b.vertical_align
    &&& a.prefix == b.prefix
    &&& a.suffix == b.suffix
    &&& a.delimiter == b.delimiter
    &&& a.display == b.display
}

/// Content equality of conditional branches.
pub open spec fn eq_branch(a: ChooseBranch, b: ChooseBranch) -> bool
    decreases a,
{
    &&& a.disambiguate == b.disambiguate
    &&& opt_vec_view(a.is_numeric) == opt_vec_view(b.is_numeric)
    &&& opt_vec_view(a.is_uncertain_date) == opt_vec_view(b.is_uncertain_date)
    &&& opt_vec_view(a.locator) == opt_vec_view(b.locator)
    &&& opt_vec_view(a.position) == opt_vec_view(b.position)
    &&& opt_vec_view(a.type_) == opt_vec_view(b.type_)
    &&& opt_vec_view(a.variable) == opt_vec_view(b.variable)
    &&& a.match_ == b.match_
    &&& eq_elements(a.children@, b.children@)
}

/// Content equality of conditional groups.
pub open spec fn eq_choose(a: Choose, b: Choose) -> bool
    decreases a,
{
    &&& eq_branch(a.if_, b.if_)
    &&& a.else_if@.len() == b.else_if@.len()
    &&& forall|i: int| 0 <= i < a.else_if@.len() ==> eq_branch(#[trigger] a.else_if@[i], b.else_if@[i])
    &&& match (a.otherwise, b.otherwise) {
        (None, None) => true,
        (Some(x), Some(y)) => eq_elements(x.children@, y.children@),
        _ => false,
    }
    &&& a.delimiter == b.delimiter
}

/// Content equality of layouts.
pub open spec fn eq_layout(a: Layout, b: Layout) -> bool {
    &&& eq_elements(a.elements@, b.elements@)
    &&& a.font_style == b.font_style
    &&& a.font_variant == b.font_variant
    &&& a.font_weight == b.font_weight
    &&& a.text_decoration == b.text_decoration
    &&& a.vertical_align == b.vertical_align
    &&& a.prefix == b.prefix
    &&& a.suffix == b.suffix
    &&& a.delimiter == b.delimiter
}

/// The contents of an optional vector.
pub open spec fn opt_vec_view<T>(o: Option<Vec<T>>) -> Option<Seq<T>> {
    match o {
        Some(v) => Some(v@),
        None => None,
    }
}

/// Clone a vector of rendering elements; each entry of the copy has the
/// same content as the original's.
pub fn clone_elements(v: &Vec<LayoutRenderingElement>) -> (r: Vec<LayoutRenderingElement>)
    ensures
        r@.len() == v@.len(),
        forall|i: int| 0 <= i < v@.len() ==> eq_element(#[trigger] r@[i], v@[i]),
    decreases v@,
{
    let mut r: Vec<LayoutRenderingElement> = Vec::new();
    let n = v.len();
    let mut i: usize = 0;
    while i < n
        invariant
            i <= n,
            n == v@.len(),
            r@.len() == i,
            forall|j: int| 0 <= j < i ==> eq_element(#[trigger] r@[j], v@[j]),
        decreases n - i,
    {
        r.push(v[i].clone());
        i += 1;
    }
    r
}

fn clone_branches(v: &Vec<ChooseBranch>) -> (r: Vec<ChooseBranch>)
    ensures
        r@.len() == v@.len(),
        forall|i: int| 0 <= i < v@.len() ==> eq_branch(#[trigger] r@[i], v@[i]),
    decreases v@,
{
    let mut r: Vec<ChooseBranch> = Vec::new();
    let n = v.len();
    let mut i: usize = 0;
    while i < n
        invariant
            i <= n,
            n == v@.len(),
            r@.len() == i,
            forall|j: int| 0 <= j < i ==> eq_branch(#[trigger] r@[j], v@[j]),
        decreases n - i,
    {
        r.push(v[i].clone());
        i += 1;
    }
    r
}

fn clone_date_parts(v: &Vec<DatePart>) -> (r: Vec<DatePart>)
    ensures
        r@ == v@,
{
    let r = v.clone();
    proof {
        assert forall|i: int| 0 <= i < r@.len() implies r@[i] == v@[i] by {
            assert(cloned::<DatePart>(v@[i], r@[i]));
        }
        assert(r@ =~= v@);
    }
    r
}

fn clone_variable_vec_opt(o: &Option<Vec<Variable>>) -> (r: Option<Vec<Variable>>)
    ensures
        opt_vec_view(r) == opt_vec_view(*o),
{
    match o {
        Some(v) => {
            let c = v.clone();
            proof {
                assert forall|i: int| 0 <= i < c@.len() implies c@[i] == v@[i] by {
                    assert(cloned::<Variable>(v@[i], c@[i]));
                }
                assert(c@ =~= v@);
            }
            Some(c)
        },
        None => None,
    }
}

fn clone_date_variable_vec_opt(o: &Option<Vec<DateVariable>>) -> (r: Option<Vec<DateVariable>>)
    ensures
        opt_vec_view(r) == opt_vec_view(*o),
{
    match o {
        Some(v) => {
            let c = v.clone();
            proof {
                assert forall|i: int| 0 <= i < c@.len() implies c@[i] == v@[i] by {
                    assert(cloned::<DateVariable>(v@[i], c@[i]));
                }
                assert(c@ =~= v@);
            }
            Some(c)
        },
        None => None,
    }
}

fn clone_locator_vec_opt(o: &Option<Vec<Locator>>) -> (r: Option<Vec<Locator>>)
    ensures
        opt_vec_view(r) == opt_vec_view(*o),
{
    match o {
        Some(v) => {
            let c = v.clone();
            proof {
                assert forall|i: int| 0 <= i < c@.len() implies c@[i] == v@[i] by {
                    assert(cloned::<Locator>(v@[i], c@[i]));
                }
                assert(c@ =~= v@);
            }
            Some(c)
        },
        None => None,
    }
}

fn clone_position_vec_opt(o: &Option<Vec<TestPosition>>) -> (r: Option<Vec<TestPosition>>)
    ensures
        opt_vec_view(r) == opt_vec_view(*o),
{
    match o {
        Some(v) => {
            let c = v.clone();
            proof {
                assert forall|i: int| 0 <= i < c@.len() implies c@[i] == v@[i] by {
                    assert(cloned::<TestPosition>(v@[i], c@[i]));
                }
                assert(c@ =~= v@);
            }
            Some(c)
        },
        None => None,
    }
}

fn clone_kind_vec_opt(o: &Option<Vec<Kind>>) -> (r: Option<Vec<Kind>>)
    ensures
        opt_vec_view(r) == opt_vec_view(*o),
{
    match o {
        Some(v) => {
            let c = v.clone();
            proof {
                assert forall|i: int| 0 <= i < c@.len() implies c@[i] == v@[i] by {
                    assert(cloned::<Kind>(v@[i], c@[i]));
                }
                assert(c@ =~= v@);
            }
            Some(c)
        },
        None => None,
    }
}

impl Clone for TextTarget {
    fn clone(&self) -> (r: Self)
        ensures
            r == *self,
    {
        match self {
            TextTarget::Variable { var, form } => TextTarget::Variable { var: *var, form: *form },
            TextTarget::Macro { name } => TextTarget::Macro { name: name.clone() },
            TextTarget::Term { term, form, plural } => TextTarget::Term {
                term: *term,
                form: *form,
                plural: *plural,
            },
            TextTarget::Value { val } => TextTarget::Value { val: val.clone() },
        }
    }
}

impl Clone for Text {
    fn clone(&self) -> (r: Self)
        ensures
            r == *self,
    {
        Text {
            target: self.target.clone(),
            formatting: self.formatting,
            affixes: self.affixes.clone(),
            display: self.display,
            quotes: self.quotes,
            strip_periods: self.strip_periods,
            text_case: self.text_case,
        }
    }
}

impl Clone for Date {
    fn clone(&self) -> (r: Self)
        ensures
            eq_date(r, *self),
    {
        Date {
            variable: self.variable,
            form: self.form,
            parts: self.parts,
            date_part: clone_date_parts(&self.date_part),
            formatting: self.formatting,
            affixes: self.affixes.clone(),
            delimiter: clone_string_opt(&self.delimiter),
            display: self.display,
            text_case: self.text_case,
        }
    }
}

impl Clone for Number {
    fn clone(&self) -> (r: Self)
        ensures
            r == *self,
    {
        Number {
            variable: self.variable,
            form: self.form,
            formatting: self.formatting,
            affixes: self.affixes.clone(),
            display: self.display,
            text_case: self.text_case,
        }
    }
}

impl Clone for Label {
    fn clone(&self) -> (r: Self)
        ensures
            r == *self,
    {
        Label { variable: self.variable, label: self.label.clone() }
    }
}

impl Clone for Group {
    fn clone(&self) -> (r: Self)
        ensures
            eq_group(r, *self),
        decreases *self,
    {
        Group {
            children: clone_elements(&self.children),
            font_style: self.font_style,
            font_variant: self.font_variant,
            font_weight: self.font_weight,
            text_decoration: self.text_decoration,
            vertical_align: self.vertical_align,
            prefix: clone_string_opt(&self.prefix),
            suffix: clone_string_opt(&self.suffix),
            delimiter: clone_string_opt(&self.delimiter),
            display: self.display,
        }
    }
}

impl Clone for ChooseBranch {
    fn clone(&self) -> (r: Self)
        ensures
            eq_branch(r, *self),
        decreases *self,
    {
        ChooseBranch {
            disambiguate: self.disambiguate,
            is_numeric: clone_variable_vec_opt(&self.is_numeric),
            is_uncertain_date: clone_date_variable_vec_opt(&self.is_uncertain_date),
            locator: clone_locator_vec_opt(&self.locator),
            position: clone_position_vec_opt(&self.position),
            type_: clone_kind_vec_opt(&self.type_),
            variable: clone_variable_vec_opt(&self.variable),
            match_: self.match_,
            children: clone_elements(&self.children),
        }
    }
}

impl Clone for ElseBranch {
    fn clone(&self) -> (r: Self)
        ensures
            eq_elements(r.children@, self.children@),
        decreases *self,
    {
        ElseBranch { children: clone_elements(&self.children) }
    }
}

impl Clone for Choose {
    fn clone(&self) -> (r: Self)
        ensures
            eq_choose(r, *self),
        decreases *self,
    {
        Choose {
            if_: self.if_.clone(),
            else_if: clone_branches(&self.else_if),
            otherwise: match &self.otherwise {
                Some(e) => Some(e.clone()),
                None => None,
            },
            delimiter: clone_string_opt(&self.delimiter),
        }
    }
}

impl Clone for Substitute {
    fn clone(&self) -> (r: Self)
        ensures
            eq_elements(r.children@, self.children@),
        decreases *self,
    {
        Substitute { children: clone_elements(&self.children) }
    }
}

impl Clone for CslMacro {
    fn clone(&self) -> (r: Self)
        ensures
            r.name == self.name,
            eq_elements(r.children@, self.children@),
    {
        CslMacro { name: self.name.clone(), children: clone_elements(&self.children) }
    }
}

impl Clone for LayoutRenderingElement {
    fn clone(&self) -> (r: Self)
        ensures
            eq_element(r, *self),
        decreases *self,
    {
        match self {
            LayoutRenderingElement::Text(t) => LayoutRenderingElement::Text(t.clone()),
            LayoutRenderingElement::Date(d) => LayoutRenderingElement::Date(d.clone()),
            LayoutRenderingElement::Number(n) => LayoutRenderingElement::Number(n.clone()),
            LayoutRenderingElement::Names(n) => LayoutRenderingElement::Names(n.clone()),
            LayoutRenderingElement::Label(l) => LayoutRenderingElement::Label(l.clone()),
            LayoutRenderingElement::Group(g) => LayoutRenderingElement::Group(g.clone()),
            LayoutRenderingElement::Choose(c) => LayoutRenderingElement::Choose(c.clone()),
        }
    }
}

impl Clone for Layout {
    fn clone(&self) -> (r: Self)
        ensures
            eq_layout(r, *self),
    {
        Layout {
            elements: clone_elements(&self.elements),
            font_style: self.font_style,
            font_variant: self.font_variant,
            font_weight: self.font_weight,
            text_decoration: self.text_decoration,
            vertical_align: self.vertical_align,
            prefix: clone_string_opt(&self.prefix),
            suffix: clone_string_opt(&self.suffix),
            delimiter: clone_string_opt(&self.delimiter),
        }
    }
}

impl Layout {
    /// Return a layout.
    pub fn new(
        elements: Vec<LayoutRenderingElement>,
        formatting: Formatting,
        affixes: Option<Affixes>,
        delimiter: Option<String>,
    ) -> (r: Self)
        ensures
            r.elements == elements,
            r.font_style == formatting.font_style,
            r.font_variant == formatting.font_variant,
            r.font_weight == formatting.font_weight,
            r.text_decoration == formatting.text_decoration,
            r.vertical_align == formatting.vertical_align,
            r.prefix == match affixes {
                Some(a) => a.prefix,
                None => None::<String>,
            },
            r.suffix == match affixes {
                Some(a) => a.suffix,
                None => None::<String>,
            },
            r.delimiter == delimiter,
    {
        let (prefix, suffix) = match affixes {
            Some(a) => (a.prefix, a.suffix),
            None => (None, None),
        };
        Self {
            elements,
            font_style: formatting.font_style,
            font_variant: formatting.font_variant,
            font_weight: formatting.font_weight,
            text_decoration: formatting.text_decoration,
            vertical_align: formatting.vertical_align,
            prefix,
            suffix,
            delimiter,
        }
    }

    /// Return a layout with default settings and the given elements.
    pub fn with_elements(elements: Vec<LayoutRenderingElement>) -> (r: Self)
        ensures
            r.elements == elements,
            r.font_style is None,
            r.font_variant is None,
            r.font_weight is None,
            r.text_decoration is None,
            r.vertical_align is None,
            r.prefix is None,
            r.suffix is None,
            r.delimiter is None,
    {
        Self::new(
            elements,
            Formatting {
                font_style: None,
                font_variant: None,
                font_weight: None,
                text_decoration: None,
                vertical_align: None,
            },
            None,
            None,
        )
    }
}

impl Text {
    /// Return a text with default settings and the given target.
    pub fn with_target(target: TextTarget) -> (r: Self)
        ensures
            r.target == target,
            r.formatting == (Formatting {
                font_style: None::<FontStyle>,
                font_variant: None::<FontVariant>,
                font_weight: None::<FontWeight>,
                text_decoration: None::<TextDecoration>,
                vertical_align: None::<VerticalAlign>,
            }),
            r.affixes.prefix is None,
            r.affixes.suffix is None,
            r.display is None,
            !r.quotes,
            !r.strip_periods,
            r.text_case is None,
    {
        Self {
            target,
            formatting: Formatting {
                font_style: None,
                font_variant: None,
                font_weight: None,
                text_decoration: None,
                vertical_align: None,
            },
            affixes: Affixes { prefix: None, suffix: None },
            display: None,
            quotes: false,
            strip_periods: false,
            text_case: None,
        }
    }
}

impl Choose {
    /// Return all branches with a condition, in evaluation order: the if
    /// branch first, then the else-if branches.
    pub fn branches(&self) -> (r: Vec<&ChooseBranch>)
        ensures
            r@.len() == 1 + self.else_if@.len(),
            *r@[0] == self.if_,
            forall|i: int| 1 <= i < r@.len() ==> *r@[i] == self.else_if@[i - 1],
    {
        let mut r: Vec<&ChooseBranch> = Vec::new();
        r.push(&self.if_);
        let n = self.else_if.len();
        let mut i: usize = 0;
        while i < n
            invariant
                i <= n,
                n == self.else_if@.len(),
                r@.len() == 1 + i,
                *r@[0] == self.if_,
                forall|j: int| 1 <= j < r@.len() ==> *r@[j] == self.else_if@[j - 1],
            decreases n - i,
        {
            r.push(&self.else_if[i]);
            i += 1;
        }
        r
    }
}

// Finding the element that renders a variable. Text elements may refer to
// macros by name; a reference chain longer than the number of macros can
// only arise from a cycle, so expansion carries a fuel that starts at the
// macro count, and a cyclic chain resolves to nothing.

/// The first macro with the given name, from position `i` on.
pub open spec fn spec_find_macro_from(macros: Seq<CslMacro>, name: Seq<char>, i: int) -> Option<
    CslMacro,
>
    decreases macros.len() - i,
{
    if i < 0 || i >= macros.len() {
        None
    } else if macros[i].name@ == name {
        Some(macros[i])
    } else {
        spec_find_macro_from(macros, name, i + 1)
    }
}

/// The element that renders the given variable within a sequence of
/// elements, from position `i` on.
pub open spec fn spec_find_in_elements(
    children: Seq<LayoutRenderingElement>,
    i: int,
    variable: Variable,
    macros: Seq<CslMacro>,
    fuel: nat,
) -> Option<LayoutRenderingElement>
    decreases fuel, children, children.len() - i,
{
    if i < 0 || i >= children.len() {
        None
    } else {
        match spec_find_in_element(children[i], variable, macros, fuel) {
            Some(e) => Some(e),
            None => spec_find_in_elements(children, i + 1, variable, macros, fuel),
        }
    }
}

/// The element that renders the given variable within one element: the
/// element itself where it names the variable, else the first match among
/// its children or its macro expansion.
pub open spec fn spec_find_in_element(
    e: LayoutRenderingElement,
    variable: Variable,
    macros: Seq<CslMacro>,
    fuel: nat,
) -> Option<LayoutRenderingElement>
    decreases fuel, e, 0int,
{
    match e {
        LayoutRenderingElement::Text(t) => match t.target {
            TextTarget::Variable { var, form } => if var == variable {
                Some(e)
            } else {
                None
            },
            TextTarget::Macro { name } => if fuel == 0 {
                None
            } else {
                match spec_find_macro_from(macros, name@, 0) {
                    Some(m) => spec_find_in_elements(
                        m.children@,
                        0,
                        variable,
                        macros,
                        (fuel - 1) as nat,
                    ),
                    None => None,
                }
            },
            _ => None,
        },
        LayoutRenderingElement::Choose(c) => spec_find_in_choose(c, variable, macros, fuel),
        LayoutRenderingElement::Date(d) => if (match d.variable {
            Some(v) => Variable::Date(v) == variable,
            None => false,
        }) {
            Some(e)
        } else {
            None
        },
        LayoutRenderingElement::Number(n) => if Variable::Number(n.variable) == variable {
            Some(e)
        } else {
            None
        },
        LayoutRenderingElement::Names(n) => if (exists|k: int|
            0 <= k < n.variable@.len() && Variable::Name(#[trigger] n.variable@[k]) == variable) {
            Some(e)
        } else {
            None
        },
        LayoutRenderingElement::Group(g) => spec_find_in_elements(
            g.children@,
            0,
            variable,
            macros,
            fuel,
        ),
        LayoutRenderingElement::Label(_) => None,
    }
}

/// The element that renders the given variable through a text element: the
/// text itself where its target is the variable, the expansion of the
/// named macro where the target is a macro and fuel remains, else nothing.
pub open spec fn spec_find_in_text(
    t: Text,
    variable: Variable,
    macros: Seq<CslMacro>,
    fuel: nat,
) -> Option<LayoutRenderingElement> {
    spec_find_in_element(LayoutRenderingElement::Text(t), variable, macros, fuel)
}

/// The element that renders the given variable within a conditional: the
/// first match in its if branch, then in its else-if branches in order.
pub open spec fn spec_find_in_choose(
    c: Choose,
    variable: Variable,
    macros: Seq<CslMacro>,
    fuel: nat,
) -> Option<LayoutRenderingElement>
    decreases fuel, c, 1int,
{
    match spec_find_in_elements(c.if_.children@, 0, variable, macros, fuel) {
        Some(e) => Some(e),
        None => spec_find_in_branches(c.else_if@, 0, variable, macros, fuel),
    }
}

/// The element that renders the given variable within a sequence of
/// conditional branches, from position `i` on.
pub open spec fn spec_find_in_branches(
    branches: Seq<ChooseBranch>,
    i: int,
    variable: Variable,
    macros: Seq<CslMacro>,
    fuel: nat,
) -> Option<LayoutRenderingElement>
    decreases fuel, branches, branches.len() - i,
{
    if i < 0 || i >= branches.len() {
        None
    } else {
        match spec_find_in_elements(branches[i].children@, 0, variable, macros, fuel) {
            Some(e) => Some(e),
            None => spec_find_in_branches(branches, i + 1, variable, macros, fuel),
        }
    }
}

/// Whether a found element agrees with what the specification finds.
pub open spec fn opt_eq_element(
    r: Option<LayoutRenderingElement>,
    s: Option<LayoutRenderingElement>,
) -> bool {
    match (r, s) {
        (None, None) => true,
        (Some(a), Some(b)) => eq_element(a, b),
        _ => false,
    }
}

fn find_macro<'a>(macros: &'a Vec<CslMacro>, name: &str) -> (r: Option<&'a CslMacro>)
    ensures
        match r {
            Some(m) => spec_find_macro_from(macros@, name@, 0) == Some(*m),
            None => spec_find_macro_from(macros@, name@, 0) is None,
        },
{
    let n = macros.len();
    let mut i: usize = 0;
    while i < n
        invariant
            i <= n,
            n == macros@.len(),
            spec_find_macro_from(macros@, name@, 0) == spec_find_macro_from(
                macros@,
                name@,
                i as int,
            ),
        decreases n - i,
    {
        if str_eq(macros[i].name.as_str(), name) {
            return Some(&macros[i]);
        }
        i += 1;
    }
    None
}

fn find_in_elements(
    children: &Vec<LayoutRenderingElement>,
    variable: Variable,
    macros: &Vec<CslMacro>,
    fuel: usize,
) -> (r: Option<LayoutRenderingElement>)
    ensures
        opt_eq_element(r, spec_find_in_elements(children@, 0, variable, macros@, fuel as nat)),
    decreases fuel, children@, children@.len() + 1,
{
    let n = children.len();
    let mut i: usize = 0;
    while i < n
        invariant
            i <= n,
            n == children@.len(),
            spec_find_in_elements(children@, 0, variable, macros@, fuel as nat)
                == spec_find_in_elements(children@, i as int, variable, macros@, fuel as nat),
        decreases n - i,
    {
        let found = find_in_element(&children[i], variable, macros, fuel);
        if found.is_some() {
            return found;
        }
        i += 1;
    }
    None
}

fn find_in_element(
    e: &LayoutRenderingElement,
    variable: Variable,
    macros: &Vec<CslMacro>,
    fuel: usize,
) -> (r: Option<LayoutRenderingElement>)
    ensures
        opt_eq_element(r, spec_find_in_element(*e, variable, macros@, fuel as nat)),
    decreases fuel, *e, 0int,
{
    match e {
        LayoutRenderingElement::Text(t) => match &t.target {
            TextTarget::Variable { var, form: _ } => {
                if *var == variable {
                    Some(LayoutRenderingElement::Text(t.clone()))
                } else {
                    None
                }
            },
            TextTarget::Macro { name } => {
                if fuel == 0 {
                    None
                } else {
                    match find_macro(macros, name.as_str()) {
                        Some(m) => find_in_elements(&m.children, variable, macros, fuel - 1),
                        None => None,
                    }
                }
            },
            _ => None,
        },
        LayoutRenderingElement::Choose(c) => find_in_choose(c, variable, macros, fuel),
        LayoutRenderingElement::Date(d) => {
            let hit = match d.variable {
                Some(v) => Variable::Date(v) == variable,
                None => false,
            };
            if hit {
                Some(e.clone())
            } else {
                None
            }
        },
        LayoutRenderingElement::Number(n) => {
            if Variable::Number(n.variable) == variable {
                Some(e.clone())
            } else {
                None
            }
        },
        LayoutRenderingElement::Names(n) => {
            if names_any_variable(&n.variable, variable) {
                Some(e.clone())
            } else {
                None
            }
        },
        LayoutRenderingElement::Group(g) => find_in_elements(&g.children, variable, macros, fuel),
        LayoutRenderingElement::Label(_) => None,
    }
}

fn names_any_variable(vars: &Vec<crate::taxonomy::NameVariable>, variable: Variable) -> (r: bool)
    ensures
        r == (exists|k: int|
            0 <= k < vars@.len() && Variable::Name(#[trigger] vars@[k]) == variable),
{
    let n = vars.len();
    let mut i: usize = 0;
    while i < n
        invariant
            i <= n,
            n == vars@.len(),
            forall|j: int| 0 <= j < i ==> Variable::Name(#[trigger] vars@[j]) != variable,
        decreases n - i,
    {
        if Variable::Name(vars[i]) == variable {
            return true;
        }
        i += 1;
    }
    false
}

fn find_in_text(
    t: &Text,
    variable: Variable,
    macros: &Vec<CslMacro>,
    fuel: usize,
) -> (r: Option<LayoutRenderingElement>)
    ensures
        opt_eq_element(r, spec_find_in_text(*t, variable, macros@, fuel as nat)),
{
    match &t.target {
        TextTarget::Variable { var, form: _ } => {
            if *var == variable {
                Some(LayoutRenderingElement::Text(t.clone()))
            } else {
                None
            }
        },
        TextTarget::Macro { name } => {
            if fuel == 0 {
                None
            } else {
                match find_macro(macros, name.as_str()) {
                    Some(m) => find_in_elements(&m.children, variable, macros, fuel - 1),
                    None => None,
                }
            }
        },
        _ => None,
    }
}

fn find_in_choose(
    c: &Choose,
    variable: Variable,
    macros: &Vec<CslMacro>,
    fuel: usize,
) -> (r: Option<LayoutRenderingElement>)
    ensures
        opt_eq_element(r, spec_find_in_choose(*c, variable, macros@, fuel as nat)),
    decreases fuel, *c, 1int,
{
    let found = find_in_elements(&c.if_.children, variable, macros, fuel);
    if found.is_some() {
        return found;
    }
    let n = c.else_if.len();
    let mut i: usize = 0;
    while i < n
        invariant
            i <= n,
            n == c.else_if@.len(),
            spec_find_in_elements(c.if_.children@, 0, variable, macros@, fuel as nat) is None,
            spec_find_in_branches(c.else_if@, 0, variable, macros@, fuel as nat)
                == spec_find_in_branches(c.else_if@, i as int, variable, macros@, fuel as nat),
        decreases n - i,
    {
        let found = find_in_elements(&c.else_if[i].children, variable, macros, fuel);
        if found.is_some() {
            return found;
        }
        i += 1;
    }
    None
}

impl Layout {
    /// Find the child element that will render the given variable. Macro
    /// references are followed by name; a cyclic reference chain renders
    /// nothing and resolves to nothing here.
    pub fn find_variable_element(&self, variable: Variable, macros: &Vec<CslMacro>) -> (r: Option<
        LayoutRenderingElement,
    >)
        ensures
            opt_eq_element(
                r,
                spec_find_in_elements(self.elements@, 0, variable, macros@, macros@.len()),
            ),
    {
        find_in_elements(&self.elements, variable, macros, macros.len())
    }
}

impl LayoutRenderingElement {
    /// Find the child element that will render the given variable.
    pub fn find_variable_element(&self, variable: Variable, macros: &Vec<CslMacro>) -> (r: Option<
        Self,
    >)
        ensures
            opt_eq_element(r, spec_find_in_element(*self, variable, macros@, macros@.len())),
    {
        find_in_element(self, variable, macros, macros.len())
    }
}

impl Text {
    /// Find the child element that will render the given variable.
    pub fn find_variable_element(&self, variable: Variable, macros: &Vec<CslMacro>) -> (r: Option<
        LayoutRenderingElement,
    >)
        ensures
            opt_eq_element(r, spec_find_in_text(*self, variable, macros@, macros@.len())),
    {
        find_in_text(self, variable, macros, macros.len())
    }
}

impl Choose {
    /// Find the child element that renders the given variable.
    pub fn find_variable_element(&self, variable: Variable, macros: &Vec<CslMacro>) -> (r: Option<
        LayoutRenderingElement,
    >)
        ensures
            opt_eq_element(r, spec_find_in_choose(*self, variable, macros@, macros@.len())),
    {
        find_in_choose(self, variable, macros, macros.len())
    }
}

impl ToFormatting for Layout {
    fn to_formatting(&self) -> Formatting {
        Formatting {
            font_style: self.font_style,
            font_variant: self.font_variant,
            font_weight: self.font_weight,
            text_decoration: self.text_decoration,
            vertical_align: self.vertical_align,
        }
    }
}

impl ToAffixes for Layout {
    fn to_affixes(&self) -> Affixes {
        Affixes {
            prefix: clone_string_opt(&self.prefix),
            suffix: clone_string_opt(&self.suffix),
        }
    }
}

impl ToFormatting for Text {
    fn to_formatting(&self) -> Formatting {
        self.formatting
    }
}

impl ToAffixes for Text {
    fn to_affixes(&self) -> Affixes {
        self.affixes.clone()
    }
}

impl ToFormatting for Date {
    fn to_formatting(&self) -> Formatting {
        self.formatting
    }
}

impl ToAffixes for Date {
    fn to_affixes(&self) -> Affixes {
        self.affixes.clone()
    }
}

impl ToFormatting for DatePart {
    fn to_formatting(&self) -> Formatting {
        self.formatting
    }
}

impl ToAffixes for DatePart {
    fn to_affixes(&self) -> Affixes {
        self.affixes.clone()
    }
}

impl ToFormatting for Number {
    fn to_formatting(&self) -> Formatting {
        self.formatting
    }
}

impl ToAffixes for Number {
    fn to_affixes(&self) -> Affixes {
        self.affixes.clone()
    }
}

impl ToFormatting for VariablelessLabel {
    fn to_formatting(&self) -> Formatting {
        self.formatting
    }
}

impl ToAffixes for VariablelessLabel {
    fn to_affixes(&self) -> Affixes {
        self.affixes.clone()
    }
}

impl ToFormatting for Group {
    fn to_formatting(&self) -> Formatting {
        Formatting {
            font_style: self.font_style,
            font_variant: self.font_variant,
            font_weight: self.font_weight,
            text_decoration: self.text_decoration,
            vertical_align: self.vertical_align,
        }
    }
}

impl ToAffixes for Group {
    fn to_affixes(&self) -> Affixes {
        Affixes {
            prefix: clone_string_opt(&self.prefix),
            suffix: clone_string_opt(&self.suffix),
        }
    }
}

} // verus!
