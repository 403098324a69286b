//! Styles and their validation.
//!
//! A raw style record, as a parser hands it over, is classified as exactly
//! one of two kinds: an independent style, which carries its own citation
//! layout and settings, or a dependent style, which only points at a
//! parent through a link in its metadata. The classification enforces the
//! cross-field invariants that no schema alone can express.

use vstd::prelude::*;

use crate::citation::Bibliography;
use crate::citation::Citation;
use crate::elements::CslMacro;
use crate::lang::LocaleCode;
use crate::locale::Locale;
use crate::names::InheritableNameOptions;
use crate::pages::PageRangeFormat;
use crate::util::clone_string_opt;

verus! {

/// A raw style record: every field a document may carry, before
/// classification.
#[derive(Debug, Eq, PartialEq, Hash)]
pub struct RawStyle {
    /// The style's metadata.
    pub info: StyleInfo,
    /// The locale used if the user didn't specify one.
    pub default_locale: Option<LocaleCode>,
    /// The CSL version the style is compatible with.
    pub version: String,
    /// How notes or in-text citations are displayed. Must be present in
    /// independent styles.
    pub citation: Option<Citation>,
    /// How bibliographies are displayed.
    pub bibliography: Option<Bibliography>,
    /// The style's settings. Must be present in independent styles.
    pub independent_settings: Option<IndependentStyleSettings>,
    /// Reusable formatting rules.
    pub macros: Vec<CslMacro>,
    /// Override localized strings.
    pub locale: Vec<Locale>,
}

/// The first link tagged as the independent-parent relation, from position
/// `i` on.
pub open spec fn spec_parent_link_from(links: Seq<InfoLink>, i: int) -> Option<InfoLink>
    decreases links.len() - i,
{
    if i < 0 || i >= links.len() {
        None
    } else if links[i].rel == InfoLinkRel::IndependentParent {
        Some(links[i])
    } else {
        spec_parent_link_from(links, i + 1)
    }
}

impl RawStyle {
    /// Retrieve the link to the parent style for dependent styles.
    pub fn parent_link(&self) -> (r: Option<&InfoLink>)
        ensures
            match r {
                Some(l) => spec_parent_link_from(self.info.link@, 0) == Some(*l),
                None => spec_parent_link_from(self.info.link@, 0) is None,
            },
    {
        let n = self.info.link.len();
        let mut i: usize = 0;
        while i < n
            invariant
                i <= n,
                n == self.info.link@.len(),
                spec_parent_link_from(self.info.link@, 0) == spec_parent_link_from(
                    self.info.link@,
                    i as int,
                ),
            decreases n - i,
        {
            if matches!(self.info.link[i].rel, InfoLinkRel::IndependentParent) {
                return Some(&self.info.link[i]);
            }
            i += 1;
        }
        None
    }
}

/// An independent CSL style.
#[derive(Debug, Eq, PartialEq, Hash)]
pub struct IndependentStyle {
    /// The style's metadata.
    pub info: StyleInfo,
    /// The locale used if the user didn't specify one.
    pub default_locale: Option<LocaleCode>,
    /// The CSL version the style is compatible with.
    pub version: String,
    /// How notes or in-text citations are displayed.
    pub citation: Citation,
    /// How bibliographies are displayed.
    pub bibliography: Option<Bibliography>,
    /// The style's settings.
    pub settings: IndependentStyleSettings,
    /// Reusable formatting rules.
    pub macros: Vec<CslMacro>,
    /// Override localized strings.
    pub locale: Vec<Locale>,
}

impl IndependentStyle {
    /// Remove all non-required data that does not influence the style's
    /// formatting.
    pub fn purge(&mut self, level: PurgeLevel)
        ensures
            spec_purged_info(old(self).info, final(self).info, level),
            final(self).default_locale == old(self).default_locale,
            final(self).version == old(self).version,
            final(self).citation == old(self).citation,
            final(self).bibliography == old(self).bibliography,
            final(self).settings == old(self).settings,
            final(self).macros == old(self).macros,
            final(self).locale == old(self).locale,
    {
        self.info.purge(level);
    }
}

/// A dependent CSL style.
#[derive(Debug, Eq, PartialEq, Hash)]
pub struct DependentStyle {
    /// The style's metadata.
    pub info: StyleInfo,
    /// The locale used if the user didn't specify one. Overrides the
    /// default locale of the parent style.
    pub default_locale: Option<LocaleCode>,
    /// The CSL version the style is compatible with.
    pub version: String,
    /// The link to the parent style.
    pub parent_link: InfoLink,
}

impl DependentStyle {
    /// Remove all non-required data that does not influence the style's
    /// formatting.
    pub fn purge(&mut self, level: PurgeLevel)
        ensures
            spec_purged_info(old(self).info, final(self).info, level),
            final(self).default_locale == old(self).default_locale,
            final(self).version == old(self).version,
            final(self).parent_link == old(self).parent_link,
    {
        self.info.purge(level);
    }
}

/// How much metadata to remove from the style.
#[derive(Debug, Copy, Clone, PartialEq, Eq, Hash, Structural)]
pub enum PurgeLevel {
    /// Retain some basic metadata.
    Basic,
    /// Purge all metadata.
    Full,
}

/// A CSL style.
#[derive(Debug, Eq, PartialEq, Hash)]
pub enum Style {
    /// An independent style.
    Independent(IndependentStyle),
    /// A dependent style.
    Dependent(DependentStyle),
}

/// What classifying a raw style record yields: an independent style where
/// a citation layout and the independent settings are present, an error
/// where the settings are missing; a missing-citation error where only a
/// bibliography is present; else a dependent style pointing at the first
/// independent-parent link, or a missing-parent error where no such link
/// exists.
pub open spec fn spec_validate(raw: RawStyle) -> Result<Style, StyleValidationError> {
    if raw.citation is Some {
        if raw.independent_settings is Some {
            Ok(
                Style::Independent(
                    IndependentStyle {
                        info: raw.info,
                        default_locale: raw.default_locale,
                        version: raw.version,
                        citation: raw.citation.unwrap(),
                        bibliography: raw.bibliography,
                        settings: raw.independent_settings.unwrap(),
                        macros: raw.macros,
                        locale: raw.locale,
                    },
                ),
            )
        } else {
            Err(StyleValidationError::MissingClassAttr)
        }
    } else if raw.bibliography is Some {
        Err(StyleValidationError::MissingCitation)
    } else {
        match spec_parent_link_from(raw.info.link@, 0) {
            Some(l) => Ok(
                Style::Dependent(
                    DependentStyle {
                        info: raw.info,
                        default_locale: raw.default_locale,
                        version: raw.version,
                        parent_link: l,
                    },
                ),
            ),
            None => Err(StyleValidationError::MissingParent),
        }
    }
}

/// A raw record with a bibliography layout but no citation layout never
/// classifies: it fails with the missing-citation error.
pub proof fn lemma_bibliography_requires_citation(raw: RawStyle)
    requires
        raw.citation is None,
        raw.bibliography is Some,
    ensures
        spec_validate(raw) == Err::<Style, StyleValidationError>(
            StyleValidationError::MissingCitation,
        ),
{
}

impl Style {
    /// Classify a raw style record as an independent or dependent style,
    /// or fail with the validation error naming the missing piece.
    pub fn from_raw(raw: RawStyle) -> (r: Result<Style, StyleValidationError>)
        ensures
            r == spec_validate(raw),
    {
        let has_bibliography = raw.bibliography.is_some();
        let parent = match raw.parent_link() {
            Some(l) => Some(l.clone()),
            None => None,
        };
        match raw.citation {
            Some(citation) => {
                match raw.independent_settings {
                    Some(settings) => Ok(
                        Self::Independent(
                            IndependentStyle {
                                info: raw.info,
                                default_locale: raw.default_locale,
                                version: raw.version,
                                citation,
                                bibliography: raw.bibliography,
                                settings,
                                macros: raw.macros,
                                locale: raw.locale,
                            },
                        ),
                    ),
                    None => Err(StyleValidationError::MissingClassAttr),
                }
            },
            None => {
                if has_bibliography {
                    Err(StyleValidationError::MissingCitation)
                } else {
                    match parent {
                        Some(parent_link) => Ok(
                            Self::Dependent(
                                DependentStyle {
                                    info: raw.info,
                                    default_locale: raw.default_locale,
                                    version: raw.version,
                                    parent_link,
                                },
                            ),
                        ),
                        None => Err(StyleValidationError::MissingParent),
                    }
                }
            },
        }
    }

    /// Remove all non-required data that does not influence the style's
    /// formatting.
    pub fn purge(&mut self, level: PurgeLevel)
        ensures
            match (&*old(self), &*final(self)) {
                (Style::Independent(o), Style::Independent(n)) => {
                    &&& spec_purged_info(o.info, n.info, level)
                    &&& n.default_locale == o.default_locale
                    &&& n.version == o.version
                    &&& n.citation == o.citation
                    &&& n.bibliography == o.bibliography
                    &&& n.settings == o.settings
                    &&& n.macros == o.macros
                    &&& n.locale == o.locale
                },
                (Style::Dependent(o), Style::Dependent(n)) => {
                    &&& spec_purged_info(o.info, n.info, level)
                    &&& n.default_locale == o.default_locale
                    &&& n.version == o.version
                    &&& n.parent_link == o.parent_link
                },
                _ => false,
            },
    {
        match self {
            Self::Independent(i) => i.purge(level),
            Self::Dependent(d) => d.purge(level),
        }
    }

    /// Get the style's metadata.
    pub fn info(&self) -> (r: &StyleInfo)
        ensures
            *r == match self {
                Style::Independent(i) => i.info,
                Style::Dependent(d) => d.info,
            },
    {
        match self {
            Self::Independent(i) => &i.info,
            Self::Dependent(d) => &d.info,
        }
    }
}

/// The raw record that an independent style writes back: all its parts in
/// place.
pub open spec fn spec_raw_of_independent(i: IndependentStyle) -> RawStyle {
    RawStyle {
        info: i.info,
        default_locale: i.default_locale,
        version: i.version,
        citation: Some(i.citation),
        bibliography: i.bibliography,
        independent_settings: Some(i.settings),
        macros: i.macros,
        locale: i.locale,
    }
}

impl RawStyle {
    /// Turn an independent style back into a raw record.
    pub fn from_independent(value: IndependentStyle) -> (r: Self)
        ensures
            r.info == value.info,
            r.default_locale == value.default_locale,
            r.version == value.version,
            r.citation == Some(value.citation),
            r.bibliography == value.bibliography,
            r.independent_settings == Some(value.settings),
            r.macros == value.macros,
            r.locale == value.locale,
    {
        Self {
            info: value.info,
            default_locale: value.default_locale,
            version: value.version,
            citation: Some(value.citation),
            bibliography: value.bibliography,
            independent_settings: Some(value.settings),
            macros: value.macros,
            locale: value.locale,
        }
    }

    /// Turn a dependent style back into a raw record; only the metadata
    /// carries over.
    pub fn from_dependent(value: DependentStyle) -> (r: Self)
        ensures
            r.info == value.info,
            r.default_locale == value.default_locale,
            r.version == value.version,
            r.citation is None,
            r.bibliography is None,
            r.independent_settings is None,
            r.macros@.len() == 0,
            r.locale@.len() == 0,
    {
        Self {
            info: value.info,
            default_locale: value.default_locale,
            version: value.version,
            citation: None,
            bibliography: None,
            independent_settings: None,
            macros: Vec::new(),
            locale: Vec::new(),
        }
    }

    /// Turn a style back into a raw record.
    pub fn from_style(value: Style) -> (r: Self)
        ensures
            match value {
                Style::Independent(i) => {
                    &&& r.info == i.info
                    &&& r.default_locale == i.default_locale
                    &&& r.version == i.version
                    &&& r.citation == Some(i.citation)
                    &&& r.bibliography == i.bibliography
                    &&& r.independent_settings == Some(i.settings)
                    &&& r.macros == i.macros
                    &&& r.locale == i.locale
                },
                Style::Dependent(d) => {
                    &&& r.info == d.info
                    &&& r.default_locale == d.default_locale
                    &&& r.version == d.version
                    &&& r.citation is None
                    &&& r.bibliography is None
                    &&& r.independent_settings is None
                    &&& r.macros@.len() == 0
                    &&& r.locale@.len() == 0
                },
            },
    {
        match value {
            Style::Independent(i) => Self::from_independent(i),
            Style::Dependent(d) => Self::from_dependent(d),
        }
    }
}

/// Round trip: the raw record that an independent style writes back
/// classifies as that very style again.
pub proof fn lemma_independent_roundtrip(i: IndependentStyle)
    ensures
        spec_validate(spec_raw_of_independent(i)) == Ok::<Style, StyleValidationError>(
            Style::Independent(i),
        ),
{
}

/// Round trip: a raw record holding a dependent style's metadata and no
/// layouts classifies as that dependent style again, provided the style's
/// parent link is the first independent-parent link of its metadata.
pub proof fn lemma_dependent_roundtrip(d: DependentStyle, raw: RawStyle)
    requires
        raw.info == d.info,
        raw.default_locale == d.default_locale,
        raw.version == d.version,
        raw.citation is None,
        raw.bibliography is None,
        spec_parent_link_from(d.info.link@, 0) == Some(d.parent_link),
    ensures
        spec_validate(raw) == Ok::<Style, StyleValidationError>(Style::Dependent(d)),
{
}

/// An error that occurred while validating a style.
#[derive(Debug, Clone, Copy, Eq, PartialEq, Hash, Structural)]
pub enum StyleValidationError {
    /// The style did have a bibliography layout but not a citation layout.
    MissingCitation,
    /// A dependent style was missing the independent-parent link.
    MissingParent,
    /// An independent style was missing the class attribute.
    MissingClassAttr,
}

impl StyleValidationError {
    /// A human-readable description of the error.
    pub fn message(&self) -> (r: &'static str)
        ensures
            match self {
                StyleValidationError::MissingCitation => r@
                    == "root element is missing `cs:citation` child despite having a `cs:bibliography`"@,
                StyleValidationError::MissingParent => r@
                    == "`cs:link` tag with `independent-parent` as a `rel` attribute is missing but no `cs:citation` was defined"@,
                StyleValidationError::MissingClassAttr => r@
                    == "`cs:style` tag is missing the `class` attribute"@,
            },
    {
        match self {
            Self::MissingCitation => "root element is missing `cs:citation` child despite having a `cs:bibliography`",
            Self::MissingParent => "`cs:link` tag with `independent-parent` as a `rel` attribute is missing but no `cs:citation` was defined",
            Self::MissingClassAttr => "`cs:style` tag is missing the `class` attribute",
        }
    }
}

/// A style with its own formatting rules.
#[derive(Debug, Eq, PartialEq, Hash)]
pub struct IndependentStyleSettings {
    /// How the citations are displayed.
    pub class: StyleClass,
    /// Whether to use a hyphen when initializing a name.
    pub initialize_with_hyphen: bool,
    /// Specifies how to reformat page ranges.
    pub page_range_format: Option<PageRangeFormat>,
    /// How to treat the non-dropping name particle when printing names.
    pub demote_non_dropping_particle: DemoteNonDroppingParticle,
    /// Options for the names within.
    pub options: InheritableNameOptions,
}

impl IndependentStyleSettings {
    /// Return the default value for `initialize_with_hyphen`.
    pub fn default_initialize_with_hyphen() -> (r: bool)
        ensures
            r,
    {
        true
    }
}

/// How the citations are displayed.
#[derive(Debug, Copy, Clone, Eq, PartialEq, Hash, Structural)]
pub enum StyleClass {
    /// Citations are inlined in the text.
    InText,
    /// Citations are displayed in foot- or endnotes.
    Note,
}

/// How to treat the non-dropping name particle when printing names.
#[derive(Debug, Default, Copy, Clone, Eq, PartialEq, Hash, Structural)]
pub enum DemoteNonDroppingParticle {
    /// Treat as part of the first name.
    Never,
    /// Treat as part of the first name except when sorting.
    SortOnly,
    /// Treat as part of the family name.
    #[default]
    DisplayAndSort,
}

/// Citation style metadata.
#[derive(Debug, Eq, PartialEq, Hash)]
pub struct StyleInfo {
    /// The authors of the style.
    pub authors: Vec<StyleAttribution>,
    /// Contributors to the style.
    pub contibutors: Vec<StyleAttribution>,
    /// Which format the citations are in.
    pub category: Vec<StyleCategory>,
    /// Which academic field the style is used in.
    pub field: Vec<Field>,
    /// A unique identifier for the style. May be a URL or an UUID.
    pub id: String,
    /// The ISSN for the source of the style's publication.
    pub issn: Vec<String>,
    /// The eISSN for the source of the style's publication.
    pub eissn: Option<String>,
    /// The ISSN-L for the source of the style's publication.
    pub issnl: Option<String>,
    /// Links with more information about the style.
    pub link: Vec<InfoLink>,
    /// When the style was initially published.
    pub published: Option<Timestamp>,
    /// Under which license the style is published.
    pub rights: Option<License>,
    /// A short description of the style.
    pub summary: Option<LocalString>,
    /// The title of the style.
    pub title: LocalString,
    /// A shortened version of the title.
    pub title_short: Option<LocalString>,
    /// When the style was last updated.
    pub updated: Option<Timestamp>,
}

/// The links kept by a purge: the independent-parent link always, the
/// self link at the basic level.
pub open spec fn spec_purged_links(links: Seq<InfoLink>, level: PurgeLevel) -> Seq<InfoLink> {
    links.filter(
        |l: InfoLink|
            l.rel == InfoLinkRel::IndependentParent || (level is Basic && l.rel
                == InfoLinkRel::Zelf),
    )
}

/// How a purge transforms the style metadata: volatile fields are
/// cleared; at the basic level authors and contributors keep their names
/// but lose contact data, and only self and independent-parent links
/// stay; at the full level authors, contributors, and rights go, and only
/// the independent-parent link stays.
pub open spec fn spec_purged_info(o: StyleInfo, n: StyleInfo, level: PurgeLevel) -> bool {
    &&& n.field@.len() == 0
    &&& n.issn@.len() == 0
    &&& n.eissn is None
    &&& n.issnl is None
    &&& n.published is None
    &&& n.summary is None
    &&& n.updated is None
    &&& n.category == o.category
    &&& n.id == o.id
    &&& n.title == o.title
    &&& n.title_short == o.title_short
    &&& n.link@ == spec_purged_links(o.link@, level)
    &&& match level {
        PurgeLevel::Basic => {
            &&& n.rights == o.rights
            &&& n.authors@.len() == o.authors@.len()
            &&& forall|i: int|
                0 <= i < o.authors@.len() ==> #[trigger] n.authors@[i] == (StyleAttribution {
                    name: o.authors@[i].name,
                    email: None,
                    uri: None,
                })
            &&& n.contibutors@.len() == o.contibutors@.len()
            &&& forall|i: int|
                0 <= i < o.contibutors@.len() ==> #[trigger] n.contibutors@[i]
                    == (StyleAttribution { name: o.contibutors@[i].name, email: None, uri: None })
        },
        PurgeLevel::Full => {
            &&& n.rights is None
            &&& n.authors@.len() == 0
            &&& n.contibutors@.len() == 0
        },
    }
}

fn purge_attributions(v: &Vec<StyleAttribution>) -> (r: Vec<StyleAttribution>)
    ensures
        r@.len() == v@.len(),
        forall|i: int|
            0 <= i < v@.len() ==> #[trigger] r@[i] == (StyleAttribution {
                name: v@[i].name,
                email: None,
                uri: None,
            }),
{
    let n = v.len();
    let mut r: Vec<StyleAttribution> = Vec::new();
    let mut i: usize = 0;
    while i < n
        invariant
            i <= n,
            n == v@.len(),
            r@.len() == i,
            forall|j: int|
                0 <= j < i ==> #[trigger] r@[j] == (StyleAttribution {
                    name: v@[j].name,
                    email: None,
                    uri: None,
                }),
        decreases n - i,
    {
        r.push(StyleAttribution { name: v[i].name.clone(), email: None, uri: None });
        i += 1;
    }
    r
}

fn purge_links(v: &Vec<InfoLink>, level: PurgeLevel) -> (r: Vec<InfoLink>)
    ensures
        r@ == spec_purged_links(v@, level),
{
    let n = v.len();
    let mut r: Vec<InfoLink> = Vec::new();
    let mut i: usize = 0;
    proof {
        assert(v@.subrange(0, 0) =~= Seq::<InfoLink>::empty());
        reveal_with_fuel(Seq::filter, 2);
    }
    while i < n
        invariant
            i <= n,
            n == v@.len(),
            r@ == spec_purged_links(v@.subrange(0, i as int), level),
        decreases n - i,
    {
        proof {
            assert(v@.subrange(0, i + 1) =~= v@.subrange(0, i as int).push(v@[i as int]));
            lemma_purged_links_push(v@.subrange(0, i as int), v@[i as int], level);
        }
        let keep = match v[i].rel {
            InfoLinkRel::IndependentParent => true,
            InfoLinkRel::Zelf => matches!(level, PurgeLevel::Basic),
            _ => false,
        };
        if keep {
            r.push(v[i].clone());
        }
        i += 1;
    }
    proof {
        assert(v@.subrange(0, n as int) =~= v@);
    }
    r
}

proof fn lemma_purged_links_push(s: Seq<InfoLink>, x: InfoLink, level: PurgeLevel)
    ensures
        spec_purged_links(s.push(x), level) == if x.rel == InfoLinkRel::IndependentParent || (
        level is Basic && x.rel == InfoLinkRel::Zelf) {
            spec_purged_links(s, level).push(x)
        } else {
            spec_purged_links(s, level)
        },
{
    reveal_with_fuel(Seq::filter, 2);
    assert(s.push(x).drop_last() =~= s);
    assert(s.push(x).last() == x);
}

impl StyleInfo {
    /// Remove all non-required fields.
    pub fn purge(&mut self, level: PurgeLevel)
        ensures
            spec_purged_info(*old(self), *final(self), level),
    {
        self.field = Vec::new();
        self.issn = Vec::new();
        self.eissn = None;
        self.issnl = None;
        self.published = None;
        self.summary = None;
        self.updated = None;
        let links = purge_links(&self.link, level);
        self.link = links;
        match level {
            PurgeLevel::Basic => {
                let authors = purge_attributions(&self.authors);
                self.authors = authors;
                let contibutors = purge_attributions(&self.contibutors);
                self.contibutors = contibutors;
            },
            PurgeLevel::Full => {
                self.authors = Vec::new();
                self.contibutors = Vec::new();
                self.rights = None;
            },
        }
    }
}

/// A string annotated with a locale.
#[derive(Debug, Eq, PartialEq, Hash)]
pub struct LocalString {
    /// The string's locale.
    pub lang: Option<LocaleCode>,
    /// The string's value.
    pub value: String,
}

impl Clone for LocalString {
    fn clone(&self) -> (r: Self)
        ensures
            r == *self,
    {
        LocalString {
            lang: match &self.lang {
                Some(l) => Some(l.clone()),
                None => None,
            },
            value: self.value.clone(),
        }
    }
}

/// A person affiliated with the style.
#[derive(Debug, Eq, PartialEq, Hash)]
pub struct StyleAttribution {
    /// The person's name.
    pub name: String,
    /// The person's email address.
    pub email: Option<String>,
    /// A URI for the person.
    pub uri: Option<String>,
}

impl Clone for StyleAttribution {
    fn clone(&self) -> (r: Self)
        ensures
            r == *self,
    {
        StyleAttribution {
            name: self.name.clone(),
            email: clone_string_opt(&self.email),
            uri: clone_string_opt(&self.uri),
        }
    }
}

/// Which category this style belongs in.
#[derive(Debug, Copy, Clone, Eq, PartialEq, Hash, Structural)]
pub enum StyleCategory {
    /// Which format the citations are in. May only appear once.
    CitationFormat {
        /// Which format the citations are in.
        format: CitationFormat,
    },
    /// Which academic field the style is used in. May appear multiple
    /// times.
    Field {
        /// Which academic field the style is used in.
        field: Field,
    },
}

/// What type of in-text citation is used.
#[derive(Debug, Copy, Clone, Eq, PartialEq, Hash, Structural)]
pub enum CitationFormat {
    /// “… (Doe, 1999)”
    AuthorDate,
    /// “… (Doe)”
    Author,
    /// “… \[1\]”
    Numeric,
    /// “… \[doe99\]”
    Label,
    /// The citation appears as a foot- or endnote.
    Note,
}

/// In which academic field the style is used.
#[allow(missing_docs)]
#[derive(Debug, Copy, Clone, Eq, PartialEq, Hash, Structural)]
pub enum Field {
    Anthropology,
    Astronomy,
    Biology,
    Botany,
    Chemistry,
    Communications,
    Engineering,
    /// Used for generic styles like Harvard and APA.
    GenericBase,
    Geography,
    Geology,
    History,
    Humanities,
    Law,
    Linguistics,
    Literature,
    Math,
    Medicine,
    Philosophy,
    Physics,
    PoliticalScience,
    Psychology,
    Science,
    SocialScience,
    Sociology,
    Theology,
    Zoology,
}

/// A link with more information about the style.
#[derive(Debug, Eq, PartialEq, Hash)]
pub struct InfoLink {
    /// The link's URL.
    pub href: String,
    /// How the link relates to the style.
    pub rel: InfoLinkRel,
    /// A human-readable description of the link.
    pub description: Option<String>,
    /// The link's locale.
    pub locale: Option<LocaleCode>,
}

impl Clone for InfoLink {
    fn clone(&self) -> (r: Self)
        ensures
            r == *self,
    {
        InfoLink {
            href: self.href.clone(),
            rel: self.rel,
            description: clone_string_opt(&self.description),
            locale: match &self.locale {
                Some(l) => Some(l.clone()),
                None => None,
            },
        }
    }
}

/// How a link relates to the style.
#[derive(Debug, Copy, Clone, Eq, PartialEq, Hash, Structural)]
pub enum InfoLinkRel {
    /// Website of the style.
    Zelf,
    /// URL from which the style is derived. Must not appear in dependent
    /// styles.
    Template,
    /// URL of the style's documentation.
    Documentation,
    /// Parent of a dependent style. Must appear in dependent styles.
    IndependentParent,
}

/// An ISO 8601 timestamp.
#[derive(Debug, Eq, PartialEq, Hash)]
pub struct Timestamp {
    /// The timestamp's value.
    pub raw: String,
}

impl Clone for Timestamp {
    fn clone(&self) -> (r: Self)
        ensures
            r == *self,
    {
        Timestamp { raw: self.raw.clone() }
    }
}

/// A license description.
#[derive(Debug, Eq, PartialEq, Hash)]
pub struct License {
    /// The license's name.
    pub name: String,
    /// The license's URL.
    pub license: Option<String>,
    /// The license string's locale.
    pub lang: Option<LocaleCode>,
}

impl Clone for License {
    fn clone(&self) -> (r: Self)
        ensures
            r == *self,
    {
        License {
            name: self.name.clone(),
            license: clone_string_opt(&self.license),
            lang: match &self.lang {
                Some(l) => Some(l.clone()),
                None => None,
            },
        }
    }
}

} // verus!
