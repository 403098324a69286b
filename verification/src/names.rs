//! Name lists and the cascade of inheritable name options.
//!
//! Name-formatting options appear at several nesting levels of a style.
//! Each level holds only the overrides it declares; a child level's value
//! wins over the parent's wherever it is set. After the full cascade,
//! definite defaults fill any field still unset.

use vstd::prelude::*;

use crate::elements::Substitute;
use crate::elements::VariablelessLabel;
use crate::elements::eq_elements;
use crate::formatting::Affixes;
use crate::formatting::Display;
use crate::formatting::FontStyle;
use crate::formatting::FontVariant;
use crate::formatting::FontWeight;
use crate::formatting::Formatting;
use crate::formatting::TextCase;
use crate::formatting::TextDecoration;
use crate::formatting::VerticalAlign;
use crate::formatting::spec_formatting_apply;
use crate::taxonomy::NameVariable;
use crate::util::clone_string_opt;

verus! {

/// Renders a list of names.
#[derive(Debug, Eq, PartialEq, Hash)]
pub struct Names {
    /// The variable whose value is used.
    pub variable: Vec<NameVariable>,
    /// Child elements.
    pub children: Vec<NamesChild>,
    /// Delimiter between names.
    pub delimiter: Option<String>,
    /// Delimiter between second-to-last and last name.
    pub and: Option<NameAnd>,
    /// Delimiter before et al.
    pub delimiter_precedes_et_al: Option<DelimiterBehavior>,
    /// Whether to use the delimiter before the last name.
    pub delimiter_precedes_last: Option<DelimiterBehavior>,
    /// Minimum number of names to use et al.
    pub et_al_min: Option<u32>,
    /// Maximum number of names to use before et al.
    pub et_al_use_first: Option<u32>,
    /// Minimum number of names to use et al. for repeated citations.
    pub et_al_subsequent_min: Option<u32>,
    /// Maximum number of names to use before et al. for repeated citations.
    pub et_al_subsequent_use_first: Option<u32>,
    /// Whether to use the last name in the author list when there are at
    /// least `et_al_min` names.
    pub et_al_use_last: Option<bool>,
    /// Which name parts to display for personal names.
    pub name_form: Option<NameForm>,
    /// Whether to initialize the first name if `initialize-with` is set.
    pub initialize: Option<bool>,
    /// String to initialize the first name with.
    pub initialize_with: Option<String>,
    /// Whether to turn the name around.
    pub name_as_sort_order: Option<NameAsSortOrder>,
    /// Delimiter between given name and first name.
    pub sort_separator: Option<String>,
    /// Set the font style.
    pub font_style: Option<FontStyle>,
    /// Choose normal or small caps.
    pub font_variant: Option<FontVariant>,
    /// Set the font weight.
    pub font_weight: Option<FontWeight>,
    /// Choose underlining.
    pub text_decoration: Option<TextDecoration>,
    /// Choose vertical alignment.
    pub vertical_align: Option<VerticalAlign>,
    /// The prefix.
    pub prefix: Option<String>,
    /// The suffix.
    pub suffix: Option<String>,
    /// Set layout level.
    pub display: Option<Display>,
}

/// Where the label element within a names element appeared relative to the
/// name element.
#[derive(Debug, Clone, Copy, Eq, PartialEq, Hash, Structural)]
pub enum NameLabelPosition {
    /// The label appeared after the name element.
    AfterName,
    /// The label appeared before the name element.
    BeforeName,
}

/// Possible children for a names element.
#[derive(Debug, Eq, PartialEq, Hash)]
pub enum NamesChild {
    /// A name element.
    Name(Name),
    /// An et-al element.
    EtAl(EtAl),
    /// A label element.
    Label(VariablelessLabel),
    /// A substitute element.
    Substitute(Substitute),
}

/// Configuration of how to print names.
#[derive(Debug, Default, Eq, PartialEq, Hash)]
pub struct Name {
    /// Delimiter between names.
    pub delimiter: Option<String>,
    /// Which name parts to display for personal names.
    pub form: Option<NameForm>,
    /// Name parts for formatting for the given and family name.
    pub parts: Vec<NamePart>,
    /// Options for this name.
    pub options: InheritableNameOptions,
    /// Override formatting style.
    pub formatting: Formatting,
    /// Add prefix and suffix.
    pub affixes: Affixes,
}

/// Content equality of name configurations.
pub open spec fn eq_name(a: Name, b: Name) -> bool {
    &&& a.delimiter == b.delimiter
    &&& a.form == b.form
    &&& a.parts@ == b.parts@
    &&& a.options == b.options
    &&& a.formatting == b.formatting
    &&& a.affixes == b.affixes
}

/// Content equality of names children.
pub open spec fn eq_names_child(a: NamesChild, b: NamesChild) -> bool
    decreases a,
{
    match (a, b) {
        (NamesChild::Name(x), NamesChild::Name(y)) => eq_name(x, y),
        (NamesChild::EtAl(x), NamesChild::EtAl(y)) => x == y,
        (NamesChild::Label(x), NamesChild::Label(y)) => x == y,
        (NamesChild::Substitute(x), NamesChild::Substitute(y)) => eq_elements(
            x.children@,
            y.children@,
        ),
        _ => false,
    }
}

/// Content equality of name lists.
pub open spec fn eq_names(a: Names, b: Names) -> bool
    decreases a,
{
    &&& a.variable@ == b.variable@
    &&& a.children@.len() == b.children@.len()
    &&& forall|i: int|
        0 <= i < a.children@.len() ==> eq_names_child(#[trigger] a.children@[i], b.children@[i])
    &&& a.delimiter == b.delimiter
    &&& a.and == b.and
    &&& a.delimiter_precedes_et_al == b.delimiter_precedes_et_al
    &&& a.delimiter_precedes_last == b.delimiter_precedes_last
    &&& a.et_al_min == b.et_al_min
    &&& a.et_al_use_first == b.et_al_use_first
    &&& a.et_al_subsequent_min == b.et_al_subsequent_min
    &&& a.et_al_subsequent_use_first == b.et_al_subsequent_use_first
    &&& a.et_al_use_last == b.et_al_use_last
    &&& a.name_form == b.name_form
    &&& a.initialize == b.initialize
    &&& a.initialize_with == b.initialize_with
    &&& a.name_as_sort_order == b.name_as_sort_order
    &&& a.sort_separator == b.sort_separator
    &&& a.font_style == b.font_style
    &&& a.font_variant == b.font_variant
    &&& a.font_weight == b.font_weight
    &&& a.text_decoration == b.text_decoration
    &&& a.vertical_align == b.vertical_align
    &&& a.prefix == b.prefix
    &&& a.suffix == b.suffix
    &&& a.display == b.display
}

/// The inheritable options that a names element itself declares.
pub open spec fn spec_names_options(n: Names) -> InheritableNameOptions {
    InheritableNameOptions {
        and: n.and,
        name_delimiter: None,
        names_delimiter: n.delimiter,
        delimiter_precedes_et_al: n.delimiter_precedes_et_al,
        delimiter_precedes_last: n.delimiter_precedes_last,
        et_al_min: n.et_al_min,
        et_al_use_first: n.et_al_use_first,
        et_al_subsequent_min: n.et_al_subsequent_min,
        et_al_subsequent_use_first: n.et_al_subsequent_use_first,
        et_al_use_last: n.et_al_use_last,
        name_form: n.name_form,
        initialize: n.initialize,
        initialize_with: n.initialize_with,
        name_as_sort_order: n.name_as_sort_order,
        sort_separator: n.sort_separator,
    }
}

/// The formatting attributes rolled into a names element.
pub open spec fn spec_names_formatting(n: Names) -> Formatting {
    Formatting {
        font_style: n.font_style,
        font_variant: n.font_variant,
        font_weight: n.font_weight,
        text_decoration: n.text_decoration,
        vertical_align: n.vertical_align,
    }
}

/// The first name child of a names element, from position `i` on.
pub open spec fn spec_names_name_from(children: Seq<NamesChild>, i: int) -> Option<Name>
    decreases children.len() - i,
{
    if i < 0 || i >= children.len() {
        None
    } else {
        match children[i] {
            NamesChild::Name(n) => Some(n),
            _ => spec_names_name_from(children, i + 1),
        }
    }
}

/// The first et-al child of a names element, from position `i` on.
pub open spec fn spec_names_et_al_from(children: Seq<NamesChild>, i: int) -> Option<EtAl>
    decreases children.len() - i,
{
    if i < 0 || i >= children.len() {
        None
    } else {
        match children[i] {
            NamesChild::EtAl(e) => Some(e),
            _ => spec_names_et_al_from(children, i + 1),
        }
    }
}

/// The first substitute child of a names element, from position `i` on.
pub open spec fn spec_names_substitute_from(children: Seq<NamesChild>, i: int) -> Option<
    Substitute,
>
    decreases children.len() - i,
{
    if i < 0 || i >= children.len() {
        None
    } else {
        match children[i] {
            NamesChild::Substitute(s) => Some(s),
            _ => spec_names_substitute_from(children, i + 1),
        }
    }
}

/// The first label child of a names element from position `i` on, paired
/// with whether it stands before or after the name element.
pub open spec fn spec_names_label_from(children: Seq<NamesChild>, i: int, seen_name: bool) -> Option<
    (VariablelessLabel, NameLabelPosition),
>
    decreases children.len() - i,
{
    if i < 0 || i >= children.len() {
        None
    } else {
        match children[i] {
            NamesChild::Label(l) => Some(
                (
                    l,
                    if seen_name {
                        NameLabelPosition::AfterName
                    } else {
                        NameLabelPosition::BeforeName
                    },
                ),
            ),
            NamesChild::Name(_) => spec_names_label_from(children, i + 1, true),
            _ => spec_names_label_from(children, i + 1, seen_name),
        }
    }
}

/// The children of a names element without its substitute children.
pub open spec fn spec_nonsubstitute(children: Seq<NamesChild>) -> Seq<NamesChild> {
    children.filter(|c: NamesChild| !(c is Substitute))
}

proof fn lemma_nonsubstitute_push(s: Seq<NamesChild>, x: NamesChild)
    ensures
        spec_nonsubstitute(s.push(x)) == if !(x is Substitute) {
            spec_nonsubstitute(s).push(x)
        } else {
            spec_nonsubstitute(s)
        },
{
    reveal_with_fuel(Seq::filter, 2);
    assert(s.push(x).drop_last() =~= s);
    assert(s.push(x).last() == x);
}

impl Names {
    /// Return names with default settings and the given variables.
    pub fn with_variables(variables: Vec<NameVariable>) -> (r: Self)
        ensures
            r.variable == variables,
            r.children@.len() == 0,
            r.delimiter is None,
            spec_names_options(r) == spec_default_inheritable(),
            spec_names_formatting(r) == (Formatting {
                font_style: None,
                font_variant: None,
                font_weight: None,
                text_decoration: None,
                vertical_align: None,
            }),
            r.prefix is None,
            r.suffix is None,
            r.display is None,
    {
        Self {
            variable: variables,
            children: Vec::new(),
            delimiter: None,
            and: None,
            delimiter_precedes_et_al: None,
            delimiter_precedes_last: None,
            et_al_min: None,
            et_al_use_first: None,
            et_al_subsequent_min: None,
            et_al_subsequent_use_first: None,
            et_al_use_last: None,
            name_form: None,
            initialize: None,
            initialize_with: None,
            name_as_sort_order: None,
            sort_separator: None,
            font_style: None,
            font_variant: None,
            font_weight: None,
            text_decoration: None,
            vertical_align: None,
            prefix: None,
            suffix: None,
            display: None,
        }
    }

    /// Return the delimiter between names, given the inherited name
    /// options: the element's own, else the inherited one, else nothing.
    pub fn delimiter<'a>(&'a self, name_options: &'a InheritableNameOptions) -> (r: &'a str)
        ensures
            r@ == if self.delimiter is Some {
                self.delimiter.unwrap()@
            } else if name_options.name_delimiter is Some {
                name_options.name_delimiter.unwrap()@
            } else {
                Seq::<char>::empty()
            },
    {
        proof {
            reveal_strlit("");
            assert(""@ =~= Seq::<char>::empty());
        }
        match &self.delimiter {
            Some(d) => d.as_str(),
            None => match &name_options.name_delimiter {
                Some(d) => d.as_str(),
                None => "",
            },
        }
    }

    /// Return the name element.
    pub fn name(&self) -> (r: Option<&Name>)
        ensures
            match r {
                Some(n) => spec_names_name_from(self.children@, 0) == Some(*n),
                None => spec_names_name_from(self.children@, 0) is None,
            },
    {
        let n = self.children.len();
        let mut i: usize = 0;
        while i < n
            invariant
                i <= n,
                n == self.children@.len(),
                spec_names_name_from(self.children@, 0) == spec_names_name_from(
                    self.children@,
                    i as int,
                ),
            decreases n - i,
        {
            match &self.children[i] {
                NamesChild::Name(name) => {
                    return Some(name);
                },
                _ => {},
            }
            i += 1;
        }
        None
    }

    /// Return the et-al element.
    pub fn et_al(&self) -> (r: Option<&EtAl>)
        ensures
            match r {
                Some(e) => spec_names_et_al_from(self.children@, 0) == Some(*e),
                None => spec_names_et_al_from(self.children@, 0) is None,
            },
    {
        let n = self.children.len();
        let mut i: usize = 0;
        while i < n
            invariant
                i <= n,
                n == self.children@.len(),
                spec_names_et_al_from(self.children@, 0) == spec_names_et_al_from(
                    self.children@,
                    i as int,
                ),
            decreases n - i,
        {
            match &self.children[i] {
                NamesChild::EtAl(e) => {
                    return Some(e);
                },
                _ => {},
            }
            i += 1;
        }
        None
    }

    /// Return the label element and its position relative to the name
    /// element.
    pub fn label(&self) -> (r: Option<(&VariablelessLabel, NameLabelPosition)>)
        ensures
            match r {
                Some(l) => spec_names_label_from(self.children@, 0, false) == Some((*l.0, l.1)),
                None => spec_names_label_from(self.children@, 0, false) is None,
            },
    {
        let n = self.children.len();
        let mut i: usize = 0;
        let mut seen_name = false;
        while i < n
            invariant
                i <= n,
                n == self.children@.len(),
                spec_names_label_from(self.children@, 0, false) == spec_names_label_from(
                    self.children@,
                    i as int,
                    seen_name,
                ),
            decreases n - i,
        {
            match &self.children[i] {
                NamesChild::Label(l) => {
                    let pos = if seen_name {
                        NameLabelPosition::AfterName
                    } else {
                        NameLabelPosition::BeforeName
                    };
                    return Some((l, pos));
                },
                NamesChild::Name(_) => {
                    seen_name = true;
                },
                _ => {},
            }
            i += 1;
        }
        None
    }

    /// Return the substitute element.
    pub fn substitute(&self) -> (r: Option<&Substitute>)
        ensures
            match r {
                Some(s) => spec_names_substitute_from(self.children@, 0) == Some(*s),
                None => spec_names_substitute_from(self.children@, 0) is None,
            },
    {
        let n = self.children.len();
        let mut i: usize = 0;
        while i < n
            invariant
                i <= n,
                n == self.children@.len(),
                spec_names_substitute_from(self.children@, 0) == spec_names_substitute_from(
                    self.children@,
                    i as int,
                ),
            decreases n - i,
        {
            match &self.children[i] {
                NamesChild::Substitute(s) => {
                    return Some(s);
                },
                _ => {},
            }
            i += 1;
        }
        None
    }

    /// Return the inheritable name options declared on this element.
    pub fn options(&self) -> (r: InheritableNameOptions)
        ensures
            r == spec_names_options(*self),
    {
        InheritableNameOptions {
            and: self.and,
            name_delimiter: None,
            names_delimiter: clone_string_opt(&self.delimiter),
            delimiter_precedes_et_al: self.delimiter_precedes_et_al,
            delimiter_precedes_last: self.delimiter_precedes_last,
            et_al_min: self.et_al_min,
            et_al_use_first: self.et_al_use_first,
            et_al_subsequent_min: self.et_al_subsequent_min,
            et_al_subsequent_use_first: self.et_al_subsequent_use_first,
            et_al_use_last: self.et_al_use_last,
            name_form: self.name_form,
            initialize: self.initialize,
            initialize_with: clone_string_opt(&self.initialize_with),
            name_as_sort_order: self.name_as_sort_order,
            sort_separator: clone_string_opt(&self.sort_separator),
        }
    }

    /// Convert a names element within a substitute to a name using the
    /// parent element. A child that carries its own name, et-al, or
    /// substitute children is used as it stands; otherwise the parent's
    /// children (without its substitute) are kept, and options, formatting,
    /// affixes, and delimiters cascade from parent to child.
    pub fn from_names_substitute(&self, child: &Self) -> (r: Names)
        ensures
            (spec_names_name_from(child.children@, 0) is Some || spec_names_et_al_from(
                child.children@,
                0,
            ) is Some || spec_names_substitute_from(child.children@, 0) is Some) ==> eq_names(
                r,
                *child,
            ),
            !(spec_names_name_from(child.children@, 0) is Some || spec_names_et_al_from(
                child.children@,
                0,
            ) is Some || spec_names_substitute_from(child.children@, 0) is Some) ==> ({
                let options = spec_inheritable_apply(
                    spec_names_options(*self),
                    spec_names_options(*child),
                );
                let formatting = spec_formatting_apply(
                    spec_names_formatting(*child),
                    spec_names_formatting(*self),
                );
                &&& r.variable@ == if child.variable@.len() == 0 {
                    self.variable@
                } else {
                    child.variable@
                }
                &&& r.children@.len() == spec_nonsubstitute(self.children@).len()
                &&& forall|i: int|
                    0 <= i < r.children@.len() ==> eq_names_child(
                        #[trigger] r.children@[i],
                        spec_nonsubstitute(self.children@)[i],
                    )
                &&& r.delimiter == if child.delimiter is Some {
                    child.delimiter
                } else {
                    self.delimiter
                }
                &&& r.and == options.and
                &&& r.delimiter_precedes_et_al == options.delimiter_precedes_et_al
                &&& r.delimiter_precedes_last == options.delimiter_precedes_last
                &&& r.et_al_min == options.et_al_min
                &&& r.et_al_use_first == options.et_al_use_first
                &&& r.et_al_subsequent_min == options.et_al_subsequent_min
                &&& r.et_al_subsequent_use_first == options.et_al_subsequent_use_first
                &&& r.et_al_use_last == options.et_al_use_last
                &&& r.name_form == options.name_form
                &&& r.initialize == options.initialize
                &&& r.initialize_with == options.initialize_with
                &&& r.name_as_sort_order == options.name_as_sort_order
                &&& r.sort_separator == options.sort_separator
                &&& r.font_style == formatting.font_style
                &&& r.font_variant == formatting.font_variant
                &&& r.font_weight == formatting.font_weight
                &&& r.text_decoration == formatting.text_decoration
                &&& r.vertical_align == formatting.vertical_align
                &&& r.prefix == if child.prefix is Some {
                    child.prefix
                } else {
                    self.prefix
                }
                &&& r.suffix == if child.suffix is Some {
                    child.suffix
                } else {
                    self.suffix
                }
                &&& r.display == if child.display is Some {
                    child.display
                } else {
                    self.display
                }
            }),
    {
        if child.name().is_some() || child.et_al().is_some() || child.substitute().is_some() {
            return child.clone();
        }
        let child_formatting = Formatting {
            font_style: child.font_style,
            font_variant: child.font_variant,
            font_weight: child.font_weight,
            text_decoration: child.text_decoration,
            vertical_align: child.vertical_align,
        };
        let self_formatting = Formatting {
            font_style: self.font_style,
            font_variant: self.font_variant,
            font_weight: self.font_weight,
            text_decoration: self.text_decoration,
            vertical_align: self.vertical_align,
        };
        let formatting = child_formatting.apply(self_formatting);
        let options = self.options().apply(&child.options());

        let variable = if child.variable.len() == 0 {
            clone_name_variables(&self.variable)
        } else {
            clone_name_variables(&child.variable)
        };

        let mut children: Vec<NamesChild> = Vec::new();
        let n = self.children.len();
        let mut i: usize = 0;
        proof {
            assert(self.children@.subrange(0, 0) =~= Seq::<NamesChild>::empty());
            reveal_with_fuel(Seq::filter, 2);
        }
        while i < n
            invariant
                i <= n,
                n == self.children@.len(),
                children@.len() == spec_nonsubstitute(self.children@.subrange(0, i as int)).len(),
                forall|j: int|
                    0 <= j < children@.len() ==> eq_names_child(
                        #[trigger] children@[j],
                        spec_nonsubstitute(self.children@.subrange(0, i as int))[j],
                    ),
            decreases n - i,
        {
            proof {
                assert(self.children@.subrange(0, i + 1) =~= self.children@.subrange(
                    0,
                    i as int,
                ).push(self.children@[i as int]));
                lemma_nonsubstitute_push(
                    self.children@.subrange(0, i as int),
                    self.children@[i as int],
                );
            }
            match &self.children[i] {
                NamesChild::Substitute(_) => {},
                c => {
                    children.push(c.clone());
                },
            }
            i += 1;
        }
        proof {
            assert(self.children@.subrange(0, n as int) =~= self.children@);
        }

        Names {
            variable,
            children,
            delimiter: match &child.delimiter {
                Some(d) => Some(d.clone()),
                None => clone_string_opt(&self.delimiter),
            },
            and: options.and,
            delimiter_precedes_et_al: options.delimiter_precedes_et_al,
            delimiter_precedes_last: options.delimiter_precedes_last,
            et_al_min: options.et_al_min,
            et_al_use_first: options.et_al_use_first,
            et_al_subsequent_min: options.et_al_subsequent_min,
            et_al_subsequent_use_first: options.et_al_subsequent_use_first,
            et_al_use_last: options.et_al_use_last,
            name_form: options.name_form,
            initialize: options.initialize,
            initialize_with: options.initialize_with,
            name_as_sort_order: options.name_as_sort_order,
            sort_separator: options.sort_separator,
            font_style: formatting.font_style,
            font_variant: formatting.font_variant,
            font_weight: formatting.font_weight,
            text_decoration: formatting.text_decoration,
            vertical_align: formatting.vertical_align,
            prefix: match &child.prefix {
                Some(p) => Some(p.clone()),
                None => clone_string_opt(&self.prefix),
            },
            suffix: match &child.suffix {
                Some(s) => Some(s.clone()),
                None => clone_string_opt(&self.suffix),
            },
            display: match child.display {
                Some(d) => Some(d),
                None => self.display,
            },
        }
    }
}

/// Clone a vector of name variables; the copy holds the same entries.
fn clone_name_variables(v: &Vec<NameVariable>) -> (r: Vec<NameVariable>)
    ensures
        r@ == v@,
{
    let r = v.clone();
    proof {
        assert forall|i: int| 0 <= i < r@.len() implies r@[i] == v@[i] by {
            assert(cloned::<NameVariable>(v@[i], r@[i]));
        }
        assert(r@ =~= v@);
    }
    r
}

/// Clone a vector of names children; each entry of the copy has the same
/// content as the original's.
fn clone_names_children(v: &Vec<NamesChild>) -> (r: Vec<NamesChild>)
    ensures
        r@.len() == v@.len(),
        forall|i: int| 0 <= i < v@.len() ==> eq_names_child(#[trigger] r@[i], v@[i]),
    decreases v@,
{
    let mut r: Vec<NamesChild> = Vec::new();
    let n = v.len();
    let mut i: usize = 0;
    while i < n
        invariant
            i <= n,
            n == v@.len(),
            r@.len() == i,
            forall|j: int| 0 <= j < i ==> eq_names_child(#[trigger] r@[j], v@[j]),
        decreases n - i,
    {
        r.push(v[i].clone());
        i += 1;
    }
    r
}

impl Clone for Names {
    fn clone(&self) -> (r: Self)
        ensures
            eq_names(r, *self),
        decreases *self,
    {
        Names {
            variable: clone_name_variables(&self.variable),
            children: clone_names_children(&self.children),
            delimiter: clone_string_opt(&self.delimiter),
            and: self.and,
            delimiter_precedes_et_al: self.delimiter_precedes_et_al,
            delimiter_precedes_last: self.delimiter_precedes_last,
            et_al_min: self.et_al_min,
            et_al_use_first: self.et_al_use_first,
            et_al_subsequent_min: self.et_al_subsequent_min,
            et_al_subsequent_use_first: self.et_al_subsequent_use_first,
            et_al_use_last: self.et_al_use_last,
            name_form: self.name_form,
            initialize: self.initialize,
            initialize_with: clone_string_opt(&self.initialize_with),
            name_as_sort_order: self.name_as_sort_order,
            sort_separator: clone_string_opt(&self.sort_separator),
            font_style: self.font_style,
            font_variant: self.font_variant,
            font_weight: self.font_weight,
            text_decoration: self.text_decoration,
            vertical_align: self.vertical_align,
            prefix: clone_string_opt(&self.prefix),
            suffix: clone_string_opt(&self.suffix),
            display: self.display,
        }
    }
}

impl Clone for NamesChild {
    fn clone(&self) -> (r: Self)
        ensures
            eq_names_child(r, *self),
        decreases *self,
    {
        match self {
            NamesChild::Name(n) => NamesChild::Name(n.clone()),
            NamesChild::EtAl(e) => NamesChild::EtAl(*e),
            NamesChild::Label(l) => NamesChild::Label(l.clone()),
            NamesChild::Substitute(s) => NamesChild::Substitute(s.clone()),
        }
    }
}

impl Clone for Name {
    fn clone(&self) -> (r: Self)
        ensures
            eq_name(r, *self),
    {
        Name {
            delimiter: clone_string_opt(&self.delimiter),
            form: self.form,
            parts: clone_name_parts(&self.parts),
            options: self.options.clone(),
            formatting: self.formatting,
            affixes: self.affixes.clone(),
        }
    }
}

/// Clone a vector of name parts; the copy holds the same entries.
fn clone_name_parts(v: &Vec<NamePart>) -> (r: Vec<NamePart>)
    ensures
        r@ == v@,
{
    let r = v.clone();
    proof {
        assert forall|i: int| 0 <= i < r@.len() implies r@[i] == v@[i] by {
            assert(cloned::<NamePart>(v@[i], r@[i]));
        }
        assert(r@ =~= v@);
    }
    r
}

impl Name {
    /// Retrieve the name-part configuration for the given name.
    pub fn name_part_given(&self) -> (r: Option<&NamePart>)
        ensures
            match r {
                Some(p) => spec_name_part_from(self.parts@, NamePartName::Given, 0) == Some(*p),
                None => spec_name_part_from(self.parts@, NamePartName::Given, 0) is None,
            },
    {
        self.name_part(true)
    }

    /// Retrieve the name-part configuration for the family name.
    pub fn name_part_family(&self) -> (r: Option<&NamePart>)
        ensures
            match r {
                Some(p) => spec_name_part_from(self.parts@, NamePartName::Family, 0) == Some(*p),
                None => spec_name_part_from(self.parts@, NamePartName::Family, 0) is None,
            },
    {
        self.name_part(false)
    }

    fn name_part(&self, given: bool) -> (r: Option<&NamePart>)
        ensures
            ({
                let which = if given {
                    NamePartName::Given
                } else {
                    NamePartName::Family
                };
                match r {
                    Some(p) => spec_name_part_from(self.parts@, which, 0) == Some(*p),
                    None => spec_name_part_from(self.parts@, which, 0) is None,
                }
            }),
    {
        let which = if given {
            NamePartName::Given
        } else {
            NamePartName::Family
        };
        let n = self.parts.len();
        let mut i: usize = 0;
        while i < n
            invariant
                i <= n,
                n == self.parts@.len(),
                which == if given {
                    NamePartName::Given
                } else {
                    NamePartName::Family
                },
                spec_name_part_from(self.parts@, which, 0) == spec_name_part_from(
                    self.parts@,
                    which,
                    i as int,
                ),
            decreases n - i,
        {
            if self.parts[i].name == which {
                return Some(&self.parts[i]);
            }
            i += 1;
        }
        None
    }

    /// Retrieve the definite name options for this name, with every field
    /// of the cascade resolved and defaults filled in.
    pub fn options(&self, inherited: &InheritableNameOptions) -> (r: NameOptions)
        ensures
            ({
                let applied = spec_inheritable_apply(*inherited, self.options);
                &&& r.and == applied.and
                &&& r.delimiter@ == if self.delimiter is Some {
                    self.delimiter.unwrap()@
                } else if inherited.name_delimiter is Some {
                    inherited.name_delimiter.unwrap()@
                } else {
                    ", "@
                }
                &&& r.delimiter_precedes_et_al == (if applied.delimiter_precedes_et_al is Some {
                    applied.delimiter_precedes_et_al.unwrap()
                } else {
                    DelimiterBehavior::Contextual
                })
                &&& r.delimiter_precedes_last == (if applied.delimiter_precedes_last is Some {
                    applied.delimiter_precedes_last.unwrap()
                } else {
                    DelimiterBehavior::Contextual
                })
                &&& r.et_al_min == applied.et_al_min
                &&& r.et_al_use_first == applied.et_al_use_first
                &&& r.et_al_subsequent_min == applied.et_al_subsequent_min
                &&& r.et_al_subsequent_use_first == applied.et_al_subsequent_use_first
                &&& r.et_al_use_last == (if applied.et_al_use_last is Some {
                    applied.et_al_use_last.unwrap()
                } else {
                    false
                })
                &&& r.form == (if self.form is Some {
                    self.form.unwrap()
                } else if inherited.name_form is Some {
                    inherited.name_form.unwrap()
                } else {
                    NameForm::Long
                })
                &&& r.initialize == (if applied.initialize is Some {
                    applied.initialize.unwrap()
                } else {
                    true
                })
                &&& r.initialize_with == (if self.options.initialize_with is Some {
                    self.options.initialize_with
                } else {
                    inherited.initialize_with
                })
                &&& r.name_as_sort_order == applied.name_as_sort_order
                &&& r.sort_separator@ == if self.options.sort_separator is Some {
                    self.options.sort_separator.unwrap()@
                } else if inherited.sort_separator is Some {
                    inherited.sort_separator.unwrap()@
                } else {
                    ", "@
                }
            }),
    {
        let applied = inherited.apply(&self.options);
        NameOptions {
            and: applied.and,
            delimiter: match &self.delimiter {
                Some(d) => d.clone(),
                None => match &inherited.name_delimiter {
                    Some(d) => d.clone(),
                    None => String::from_str(", "),
                },
            },
            delimiter_precedes_et_al: match applied.delimiter_precedes_et_al {
                Some(d) => d,
                None => DelimiterBehavior::Contextual,
            },
            delimiter_precedes_last: match applied.delimiter_precedes_last {
                Some(d) => d,
                None => DelimiterBehavior::Contextual,
            },
            et_al_min: applied.et_al_min,
            et_al_use_first: applied.et_al_use_first,
            et_al_subsequent_min: applied.et_al_subsequent_min,
            et_al_subsequent_use_first: applied.et_al_subsequent_use_first,
            et_al_use_last: match applied.et_al_use_last {
                Some(u) => u,
                None => false,
            },
            form: match self.form {
                Some(f) => f,
                None => match inherited.name_form {
                    Some(f) => f,
                    None => NameForm::Long,
                },
            },
            initialize: match applied.initialize {
                Some(i) => i,
                None => true,
            },
            initialize_with: match &self.options.initialize_with {
                Some(s) => Some(s.clone()),
                None => clone_string_opt(&inherited.initialize_with),
            },
            name_as_sort_order: applied.name_as_sort_order,
            sort_separator: match &self.options.sort_separator {
                Some(s) => s.clone(),
                None => match &inherited.sort_separator {
                    Some(s) => s.clone(),
                    None => String::from_str(", "),
                },
            },
        }
    }
}

/// The first name part with the given role, from position `i` on.
pub open spec fn spec_name_part_from(parts: Seq<NamePart>, which: NamePartName, i: int) -> Option<
    NamePart,
>
    decreases parts.len() - i,
{
    if i < 0 || i >= parts.len() {
        None
    } else if parts[i].name == which {
        Some(parts[i])
    } else {
        spec_name_part_from(parts, which, i + 1)
    }
}

/// Global configuration of how to print names.
#[derive(Debug, Eq, PartialEq, Hash)]
pub struct InheritableNameOptions {
    /// Delimiter between second-to-last and last name.
    pub and: Option<NameAnd>,
    /// Delimiter inherited to name elements.
    pub name_delimiter: Option<String>,
    /// Delimiter inherited to names elements.
    pub names_delimiter: Option<String>,
    /// Delimiter before et al.
    pub delimiter_precedes_et_al: Option<DelimiterBehavior>,
    /// Whether to use the delimiter before the last name.
    pub delimiter_precedes_last: Option<DelimiterBehavior>,
    /// Minimum number of names to use et al.
    pub et_al_min: Option<u32>,
    /// Maximum number of names to use before et al.
    pub et_al_use_first: Option<u32>,
    /// Minimum number of names to use et al. for repeated citations.
    pub et_al_subsequent_min: Option<u32>,
    /// Maximum number of names to use before et al. for repeated citations.
    pub et_al_subsequent_use_first: Option<u32>,
    /// Whether to use the last name in the author list when there are at
    /// least `et_al_min` names.
    pub et_al_use_last: Option<bool>,
    /// Which name parts to display for personal names.
    pub name_form: Option<NameForm>,
    /// Whether to initialize the first name if `initialize-with` is set.
    pub initialize: Option<bool>,
    /// String to initialize the first name with.
    pub initialize_with: Option<String>,
    /// Whether to turn the name around.
    pub name_as_sort_order: Option<NameAsSortOrder>,
    /// Delimiter between given name and first name.
    pub sort_separator: Option<String>,
}

/// The wholly-unset option record.
pub open spec fn spec_default_inheritable() -> InheritableNameOptions {
    InheritableNameOptions {
        and: None,
        name_delimiter: None,
        names_delimiter: None,
        delimiter_precedes_et_al: None,
        delimiter_precedes_last: None,
        et_al_min: None,
        et_al_use_first: None,
        et_al_subsequent_min: None,
        et_al_subsequent_use_first: None,
        et_al_use_last: None,
        name_form: None,
        initialize: None,
        initialize_with: None,
        name_as_sort_order: None,
        sort_separator: None,
    }
}

/// The merge of a parent option record with a child's: each field takes
/// the child's value where the child sets it, else the parent's.
pub open spec fn spec_inheritable_apply(
    parent: InheritableNameOptions,
    child: InheritableNameOptions,
) -> InheritableNameOptions {
    InheritableNameOptions {
        and: if child.and is Some {
            child.and
        } else {
            parent.and
        },
        name_delimiter: if child.name_delimiter is Some {
            child.name_delimiter
        } else {
            parent.name_delimiter
        },
        names_delimiter: if child.names_delimiter is Some {
            child.names_delimiter
        } else {
            parent.names_delimiter
        },
        delimiter_precedes_et_al: if child.delimiter_precedes_et_al is Some {
            child.delimiter_precedes_et_al
        } else {
            parent.delimiter_precedes_et_al
        },
        delimiter_precedes_last: if child.delimiter_precedes_last is Some {
            child.delimiter_precedes_last
        } else {
            parent.delimiter_precedes_last
        },
        et_al_min: if child.et_al_min is Some {
            child.et_al_min
        } else {
            parent.et_al_min
        },
        et_al_use_first: if child.et_al_use_first is Some {
            child.et_al_use_first
        } else {
            parent.et_al_use_first
        },
        et_al_subsequent_min: if child.et_al_subsequent_min is Some {
            child.et_al_subsequent_min
        } else {
            parent.et_al_subsequent_min
        },
        et_al_subsequent_use_first: if child.et_al_subsequent_use_first is Some {
            child.et_al_subsequent_use_first
        } else {
            parent.et_al_subsequent_use_first
        },
        et_al_use_last: if child.et_al_use_last is Some {
            child.et_al_use_last
        } else {
            parent.et_al_use_last
        },
        name_form: if child.name_form is Some {
            child.name_form
        } else {
            parent.name_form
        },
        initialize: if child.initialize is Some {
            child.initialize
        } else {
            parent.initialize
        },
        initialize_with: if child.initialize_with is Some {
            child.initialize_with
        } else {
            parent.initialize_with
        },
        name_as_sort_order: if child.name_as_sort_order is Some {
            child.name_as_sort_order
        } else {
            parent.name_as_sort_order
        },
        sort_separator: if child.sort_separator is Some {
            child.sort_separator
        } else {
            parent.sort_separator
        },
    }
}

impl Default for InheritableNameOptions {
    /// The wholly-unset option record.
    fn default() -> (r: Self)
        ensures
            r == spec_default_inheritable(),
    {
        InheritableNameOptions {
            and: None,
            name_delimiter: None,
            names_delimiter: None,
            delimiter_precedes_et_al: None,
            delimiter_precedes_last: None,
            et_al_min: None,
            et_al_use_first: None,
            et_al_subsequent_min: None,
            et_al_subsequent_use_first: None,
            et_al_use_last: None,
            name_form: None,
            initialize: None,
            initialize_with: None,
            name_as_sort_order: None,
            sort_separator: None,
        }
    }
}

impl Clone for InheritableNameOptions {
    fn clone(&self) -> (r: Self)
        ensures
            r == *self,
    {
        InheritableNameOptions {
            and: self.and,
            name_delimiter: clone_string_opt(&self.name_delimiter),
            names_delimiter: clone_string_opt(&self.names_delimiter),
            delimiter_precedes_et_al: self.delimiter_precedes_et_al,
            delimiter_precedes_last: self.delimiter_precedes_last,
            et_al_min: self.et_al_min,
            et_al_use_first: self.et_al_use_first,
            et_al_subsequent_min: self.et_al_subsequent_min,
            et_al_subsequent_use_first: self.et_al_subsequent_use_first,
            et_al_use_last: self.et_al_use_last,
            name_form: self.name_form,
            initialize: self.initialize,
            initialize_with: clone_string_opt(&self.initialize_with),
            name_as_sort_order: self.name_as_sort_order,
            sort_separator: clone_string_opt(&self.sort_separator),
        }
    }
}

impl InheritableNameOptions {
    /// Apply the child options to the parent options: wherever the child
    /// sets a field the merge equals the child, and the parent otherwise.
    pub fn apply(&self, child: &Self) -> (r: Self)
        ensures
            r == spec_inheritable_apply(*self, *child),
    {
        Self {
            and: if child.and.is_some() {
                child.and
            } else {
                self.and
            },
            name_delimiter: if child.name_delimiter.is_some() {
                clone_string_opt(&child.name_delimiter)
            } else {
                clone_string_opt(&self.name_delimiter)
            },
            names_delimiter: if child.names_delimiter.is_some() {
                clone_string_opt(&child.names_delimiter)
            } else {
                clone_string_opt(&self.names_delimiter)
            },
            delimiter_precedes_et_al: if child.delimiter_precedes_et_al.is_some() {
                child.delimiter_precedes_et_al
            } else {
                self.delimiter_precedes_et_al
            },
            delimiter_precedes_last: if child.delimiter_precedes_last.is_some() {
                child.delimiter_precedes_last
            } else {
                self.delimiter_precedes_last
            },
            et_al_min: if child.et_al_min.is_some() {
                child.et_al_min
            } else {
                self.et_al_min
            },
            et_al_use_first: if child.et_al_use_first.is_some() {
                child.et_al_use_first
            } else {
                self.et_al_use_first
            },
            et_al_subsequent_min: if child.et_al_subsequent_min.is_some() {
                child.et_al_subsequent_min
            } else {
                self.et_al_subsequent_min
            },
            et_al_subsequent_use_first: if child.et_al_subsequent_use_first.is_some() {
                child.et_al_subsequent_use_first
            } else {
                self.et_al_subsequent_use_first
            },
            et_al_use_last: if child.et_al_use_last.is_some() {
                child.et_al_use_last
            } else {
                self.et_al_use_last
            },
            name_form: if child.name_form.is_some() {
                child.name_form
            } else {
                self.name_form
            },
            initialize: if child.initialize.is_some() {
                child.initialize
            } else {
                self.initialize
            },
            initialize_with: if child.initialize_with.is_some() {
                clone_string_opt(&child.initialize_with)
            } else {
                clone_string_opt(&self.initialize_with)
            },
            name_as_sort_order: if child.name_as_sort_order.is_some() {
                child.name_as_sort_order
            } else {
                self.name_as_sort_order
            },
            sort_separator: if child.sort_separator.is_some() {
                clone_string_opt(&child.sort_separator)
            } else {
                clone_string_opt(&self.sort_separator)
            },
        }
    }
}

/// Definite name options, with the cascade resolved and defaults filled
/// in. Obtain from [`Name::options`].
#[derive(Debug, Eq, PartialEq, Hash)]
pub struct NameOptions {
    /// Delimiter between second-to-last and last name.
    pub and: Option<NameAnd>,
    /// Delimiter to separate names.
    pub delimiter: String,
    /// Delimiter before et al.
    pub delimiter_precedes_et_al: DelimiterBehavior,
    /// Whether to use the delimiter before the last name.
    pub delimiter_precedes_last: DelimiterBehavior,
    /// Minimum number of names to use et al.
    pub et_al_min: Option<u32>,
    /// Maximum number of names to use before et al.
    pub et_al_use_first: Option<u32>,
    /// Minimum number of names to use et al. for repeated citations.
    pub et_al_subsequent_min: Option<u32>,
    /// Maximum number of names to use before et al. for repeated
    /// citations.
    pub et_al_subsequent_use_first: Option<u32>,
    /// Whether to use the last name in the author list when there are at
    /// least `et_al_min` names.
    pub et_al_use_last: bool,
    /// Which name parts to display for personal names.
    pub form: NameForm,
    /// Whether to initialize the first name if `initialize_with` is set.
    pub initialize: bool,
    /// String to initialize the first name with.
    pub initialize_with: Option<String>,
    /// Whether to turn the name around.
    pub name_as_sort_order: Option<NameAsSortOrder>,
    /// Delimiter between given name and first name.
    pub sort_separator: String,
}

/// Whether the name at `idx` in a list of `length` names is omitted in
/// favor of the et-al abbreviation. The last name is never omitted when
/// `et_al_use_last` is set; otherwise the subsequent-citation thresholds
/// apply to subsequent citations where present, the primary ones
/// otherwise, and an unset threshold never triggers.
pub open spec fn spec_is_suppressed(
    o: NameOptions,
    idx: int,
    length: int,
    is_subsequent: bool,
) -> bool {
    if o.et_al_use_last && idx + 1 >= length {
        false
    } else {
        let et_al_min = if is_subsequent && o.et_al_subsequent_min is Some {
            o.et_al_subsequent_min
        } else {
            o.et_al_min
        };
        let et_al_use_first = if is_subsequent && o.et_al_subsequent_use_first is Some {
            o.et_al_subsequent_use_first
        } else {
            o.et_al_use_first
        };
        &&& match et_al_min {
            Some(m) => length >= m,
            None => false,
        }
        &&& match et_al_use_first {
            Some(u) => idx + 1 > u,
            None => false,
        }
    }
}

impl NameOptions {
    /// Whether the nth name is suppressed given the number of names and
    /// this configuration.
    pub fn is_suppressed(&self, idx: usize, length: usize, is_subsequent: bool) -> (r: bool)
        ensures
            r == spec_is_suppressed(*self, idx as int, length as int, is_subsequent),
    {
        if self.et_al_use_last && (length == 0 || idx >= length - 1) {
            return false;
        }
        let et_al_min = if is_subsequent && self.et_al_subsequent_min.is_some() {
            self.et_al_subsequent_min
        } else {
            self.et_al_min
        };
        let et_al_use_first = if is_subsequent && self.et_al_subsequent_use_first.is_some() {
            self.et_al_subsequent_use_first
        } else {
            self.et_al_use_first
        };
        let min_hit = match et_al_min {
            Some(m) => length >= m as usize,
            None => false,
        };
        let first_hit = match et_al_use_first {
            Some(u) => idx >= u as usize,
            None => false,
        };
        min_hit && first_hit
    }
}

/// When `et-al-use-last` is set, the final name in the list is never
/// suppressed, whatever the thresholds say.
pub proof fn lemma_use_last_never_suppresses(
    o: NameOptions,
    idx: int,
    length: int,
    is_subsequent: bool,
)
    requires
        o.et_al_use_last,
        idx + 1 >= length,
    ensures
        !spec_is_suppressed(o, idx, length, is_subsequent),
{
}

/// How to render the delimiter before the last name.
#[derive(Debug, Copy, Clone, Eq, PartialEq, Hash, Structural)]
pub enum NameAnd {
    /// Use the string "and".
    Text,
    /// Use the ampersand character.
    Symbol,
}

/// When delimiters shall be inserted.
#[derive(Debug, Default, Copy, Clone, Eq, PartialEq, Hash, Structural)]
pub enum DelimiterBehavior {
    /// Only used for lists with more than one (`-precedes-et-al`) or two
    /// (`-precedes-last`) names.
    #[default]
    Contextual,
    /// Only use if the preceding name is inverted (per
    /// `name-as-sort-order`).
    AfterInvertedName,
    /// Always use the delimiter for this condition.
    Always,
    /// Never use the delimiter for this condition.
    Never,
}

/// How many name parts to print.
#[derive(Debug, Default, Copy, Clone, Eq, PartialEq, Hash, Structural)]
pub enum NameForm {
    /// Print all name parts.
    #[default]
    Long,
    /// Print only the family name part and non-dropping-particle.
    Short,
    /// Count the total number of names.
    Count,
}

/// In which order to print the names.
#[derive(Debug, Copy, Clone, Eq, PartialEq, Hash, Structural)]
pub enum NameAsSortOrder {
    /// Only the first name is turned around.
    First,
    /// All names are turned around.
    All,
}

/// How to format a given name part.
#[derive(Debug, Eq, PartialEq, Hash)]
pub struct NamePart {
    /// Which name part this applies to.
    pub name: NamePartName,
    /// Override formatting style.
    pub formatting: Formatting,
    /// Add prefix and suffix.
    pub affixes: Affixes,
    /// Transform the text case.
    pub text_case: Option<TextCase>,
}

impl Clone for NamePart {
    fn clone(&self) -> (r: Self)
        ensures
            r == *self,
    {
        NamePart {
            name: self.name,
            formatting: self.formatting,
            affixes: self.affixes.clone(),
            text_case: self.text_case,
        }
    }
}

/// Which part of the name a [`NamePart`] applies to.
#[derive(Debug, Copy, Clone, Eq, PartialEq, Hash, Structural)]
pub enum NamePartName {
    /// The given name.
    Given,
    /// The family name.
    Family,
}

/// Configure the et al. abbreviation.
#[derive(Debug, Copy, Clone, Default, Eq, PartialEq, Hash, Structural)]
pub struct EtAl {
    /// Which term to use.
    pub term: EtAlTerm,
    /// Override formatting style.
    pub formatting: Formatting,
}

/// Which term to use for et al.
#[derive(Debug, Default, Copy, Clone, Eq, PartialEq, Hash, Structural)]
pub enum EtAlTerm {
    /// “et al.”
    #[default]
    EtAl,
    /// “and others”
    AndOthers,
}

} // verus!
