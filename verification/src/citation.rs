//! Citation and bibliography sections of a style.

use vstd::prelude::*;

use crate::elements::Layout;
use crate::names::InheritableNameOptions;
use crate::taxonomy::Variable;

verus! {

/// Formatting instructions for in-text or note citations.
#[derive(Debug, Eq, PartialEq, Hash)]
pub struct Citation {
    /// How items are sorted within the citation.
    pub sort: Option<Sort>,
    /// The citation's formatting rules.
    pub layout: Layout,
    /// Expand names that are ambiguous in short form.
    pub disambiguate_add_givenname: bool,
    /// When to expand names that are ambiguous in short form.
    pub givenname_disambiguation_rule: DisambiguationRule,
    /// Disambiguate by adding more names that would otherwise be hidden by
    /// et al.
    pub disambiguate_add_names: bool,
    /// Disambiguate by adding an alphabetical suffix to the year.
    pub disambiguate_add_year_suffix: bool,
    /// Group items in cite by name.
    pub cite_group_delimiter: Option<String>,
    /// How to collapse cites with similar items.
    pub collapse: Option<Collapse>,
    /// Delimiter between year suffixes.
    pub year_suffix_delimiter: Option<String>,
    /// Delimiter after a collapsed cite group.
    pub after_collapse_delimiter: Option<String>,
    /// Up to which distance a note is near.
    pub near_note_distance: u32,
    /// Options for the names within.
    pub name_options: InheritableNameOptions,
}

impl Citation {
    /// Return a citation with default settings and the given layout.
    pub fn with_layout(layout: Layout) -> (r: Self)
        ensures
            r.sort is None,
            r.layout == layout,
            !r.disambiguate_add_givenname,
            r.givenname_disambiguation_rule == DisambiguationRule::ByCite,
            !r.disambiguate_add_names,
            !r.disambiguate_add_year_suffix,
            r.cite_group_delimiter is None,
            r.collapse is None,
            r.year_suffix_delimiter is None,
            r.after_collapse_delimiter is None,
            r.near_note_distance == 5,
            r.name_options == crate::names::spec_default_inheritable(),
    {
        Self {
            sort: None,
            layout,
            disambiguate_add_givenname: false,
            givenname_disambiguation_rule: DisambiguationRule::ByCite,
            disambiguate_add_names: false,
            disambiguate_add_year_suffix: false,
            cite_group_delimiter: None,
            collapse: None,
            year_suffix_delimiter: None,
            after_collapse_delimiter: None,
            near_note_distance: Self::default_near_note_distance(),
            name_options: InheritableNameOptions::default(),
        }
    }

    /// Return the year-suffix delimiter: the citation's own, else the
    /// layout's, else nothing.
    pub fn get_year_suffix_delimiter(&self) -> (r: &str)
        ensures
            r@ == if self.year_suffix_delimiter is Some {
                self.year_suffix_delimiter.unwrap()@
            } else if self.layout.delimiter is Some {
                self.layout.delimiter.unwrap()@
            } else {
                Seq::<char>::empty()
            },
    {
        proof {
            reveal_strlit("");
            assert(""@ =~= Seq::<char>::empty());
        }
        match &self.year_suffix_delimiter {
            Some(d) => d.as_str(),
            None => match &self.layout.delimiter {
                Some(d) => d.as_str(),
                None => "",
            },
        }
    }

    /// Return the after-collapse delimiter: the citation's own, else the
    /// layout's, else nothing.
    pub fn get_after_collapse_delimiter(&self) -> (r: &str)
        ensures
            r@ == if self.after_collapse_delimiter is Some {
                self.after_collapse_delimiter.unwrap()@
            } else if self.layout.delimiter is Some {
                self.layout.delimiter.unwrap()@
            } else {
                Seq::<char>::empty()
            },
    {
        proof {
            reveal_strlit("");
            assert(""@ =~= Seq::<char>::empty());
        }
        match &self.after_collapse_delimiter {
            Some(d) => d.as_str(),
            None => match &self.layout.delimiter {
                Some(d) => d.as_str(),
                None => "",
            },
        }
    }

    /// Return the default `near_note_distance`.
    pub fn default_near_note_distance() -> (r: u32)
        ensures
            r == 5,
    {
        5
    }
}

/// When to expand names that are ambiguous in short form.
#[derive(Debug, Default, Copy, Clone, Eq, PartialEq, Hash, Structural)]
pub enum DisambiguationRule {
    /// Expand to disambiguate both cites and names.
    AllNames,
    /// Expand to disambiguate cites and names but only use initials.
    AllNamesWithInitials,
    /// Same as `AllNames` but only disambiguate the first person in a
    /// citation.
    PrimaryName,
    /// Same as `AllNamesWithInitials` but only disambiguate the first
    /// person in a citation.
    PrimaryNameWithInitials,
    /// Expand to disambiguate cites but not names.
    #[default]
    ByCite,
}

impl DisambiguationRule {
    /// Whether this rule allows full first names or only initials.
    pub fn allows_full_first_names(self) -> (r: bool)
        ensures
            r == !(self is AllNamesWithInitials || self is PrimaryNameWithInitials),
    {
        match self {
            Self::AllNames | Self::PrimaryName | Self::ByCite => true,
            Self::AllNamesWithInitials | Self::PrimaryNameWithInitials => false,
        }
    }

    /// Whether this rule allows looking beyond the first name.
    pub fn allows_multiple_names(self) -> (r: bool)
        ensures
            r == !(self is PrimaryName || self is PrimaryNameWithInitials),
    {
        match self {
            Self::AllNames | Self::AllNamesWithInitials | Self::ByCite => true,
            Self::PrimaryName | Self::PrimaryNameWithInitials => false,
        }
    }
}

/// How to collapse cites with similar items.
#[derive(Debug, Copy, Clone, Eq, PartialEq, Hash, Structural)]
pub enum Collapse {
    /// Collapse items with increasing ranges for numeric styles.
    CitationNumber,
    /// Collapse items with the same authors and different years by
    /// omitting the author.
    Year,
    /// Same as `Year`, but equal years are omitted as well.
    YearSuffix,
    /// Same as `YearSuffix`, but also collapse the suffixes into a range.
    YearSuffixRanged,
}

/// Formatting instructions for the bibliography.
#[derive(Debug, Eq, PartialEq, Hash)]
pub struct Bibliography {
    /// How items are sorted within the bibliography.
    pub sort: Option<Sort>,
    /// The bibliography's formatting rules.
    pub layout: Layout,
    /// Render the bibliography in a hanging indent.
    pub hanging_indent: bool,
    /// When set, the second field is aligned.
    pub second_field_align: Option<SecondFieldAlign>,
    /// The line spacing within the bibliography as a multiple of regular
    /// line spacing. Nonzero.
    pub line_spacing: i16,
    /// Extra space between entries as a multiple of line height.
    pub entry_spacing: i16,
    /// When set, subsequent identical names are replaced with this.
    pub subsequent_author_substitute: Option<String>,
    /// How to replace subsequent identical names.
    pub subsequent_author_substitute_rule: SubsequentAuthorSubstituteRule,
    /// Options for the names within.
    pub name_options: InheritableNameOptions,
}

impl Bibliography {
    /// Return a bibliography with default settings and the given layout.
    pub fn with_layout(layout: Layout) -> (r: Self)
        ensures
            r.sort is None,
            r.layout == layout,
            !r.hanging_indent,
            r.second_field_align is None,
            r.line_spacing == 1,
            r.entry_spacing == 1,
            r.subsequent_author_substitute is None,
            r.subsequent_author_substitute_rule == SubsequentAuthorSubstituteRule::CompleteAll,
            r.name_options == crate::names::spec_default_inheritable(),
    {
        Self {
            sort: None,
            layout,
            hanging_indent: false,
            second_field_align: None,
            line_spacing: 1,
            entry_spacing: 1,
            subsequent_author_substitute: None,
            subsequent_author_substitute_rule: SubsequentAuthorSubstituteRule::CompleteAll,
            name_options: InheritableNameOptions::default(),
        }
    }
}

/// How to position the first field if the second field is aligned in a
/// bibliography.
#[derive(Debug, Copy, Clone, Eq, PartialEq, Hash, Structural)]
pub enum SecondFieldAlign {
    /// Put the first field in the margin and align with the margin.
    Margin,
    /// Flush the first field with the margin.
    Flush,
}

/// How to replace subsequent identical names in a bibliography.
#[derive(Debug, Default, Copy, Clone, Eq, PartialEq, Hash, Structural)]
pub enum SubsequentAuthorSubstituteRule {
    /// When all names match, replace.
    #[default]
    CompleteAll,
    /// When all names match, replace each name.
    CompleteEach,
    /// Each matching name is replaced.
    PartialEach,
    /// Only the first matching name is replaced.
    PartialFirst,
}

/// How to sort elements in a bibliography or citation.
#[derive(Debug, Eq, PartialEq, Hash)]
pub struct Sort {
    /// The ordered list of sorting keys.
    pub keys: Vec<SortKey>,
}

/// A sorting key.
#[derive(Debug, Eq, PartialEq, Hash)]
pub enum SortKey {
    /// Sort by the value of a variable.
    Variable {
        /// The variable to sort by.
        variable: Variable,
        /// In which direction to sort.
        sort_direction: SortDirection,
    },
    /// Sort by the output of a macro.
    MacroName {
        /// The name of the macro.
        name: String,
        /// Override the et-al minimum for macros.
        names_min: Option<u32>,
        /// Override the et-al use-first threshold for macros.
        names_use_first: Option<u32>,
        /// Override the et-al use-last behavior for macros.
        names_use_last: Option<bool>,
        /// In which direction to sort.
        sort_direction: SortDirection,
    },
}

impl SortKey {
    /// Retrieve the sort direction.
    pub fn sort_direction(&self) -> (r: SortDirection)
        ensures
            r == match self {
                SortKey::Variable { sort_direction, .. } => *sort_direction,
                SortKey::MacroName { sort_direction, .. } => *sort_direction,
            },
    {
        match self {
            Self::Variable { sort_direction, .. } => *sort_direction,
            Self::MacroName { sort_direction, .. } => *sort_direction,
        }
    }
}

/// The direction to sort in.
#[derive(Debug, Default, Copy, Clone, Eq, PartialEq, Hash, Structural)]
pub enum SortDirection {
    /// Sort in ascending order.
    #[default]
    Ascending,
    /// Sort in descending order.
    Descending,
}

} // verus!
