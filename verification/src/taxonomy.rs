//! CSL constants that describe entries, terms, and variables.
//!
//! The taxonomy is a closed, enumerable set of tokens that the rest of the
//! crate treats as opaque comparable values.

use vstd::prelude::*;

use crate::util::spec_starts_with;
use crate::util::str_eq;
use crate::util::str_starts_with;

verus! {

/// A CSL variable.
#[derive(Debug, Copy, Clone, Eq, PartialEq, Hash, Structural)]
pub enum Variable {
    /// The set of variables with no other attributes.
    Standard(StandardVariable),
    /// Variables that can be formatted as numbers.
    Number(NumberVariable),
    /// Variables that can be formatted as dates.
    Date(DateVariable),
    /// Variables that can be formatted as names.
    Name(NameVariable),
}

/// Whether a variable counts a total, which controls contextual label
/// behavior.
pub open spec fn spec_is_number_of_variable(v: Variable) -> bool {
    match v {
        Variable::Number(n) => spec_number_is_number_of_variable(n),
        _ => false,
    }
}

impl Variable {
    /// Check if the variable starts with `number-of-` to control contextual
    /// label behavior.
    pub fn is_number_of_variable(self) -> (r: bool)
        ensures
            r == spec_is_number_of_variable(self),
    {
        if let Self::Number(v) = self {
            v.is_number_of_variable()
        } else {
            false
        }
    }
}

/// The set of variables with no other attributes.
#[allow(missing_docs)]
#[derive(Debug, Copy, Clone, Eq, PartialEq, Hash, Structural)]
pub enum StandardVariable {
    Abstract,
    Annote,
    Archive,
    ArchiveCollection,
    ArchiveLocation,
    ArchivePlace,
    Authority,
    CallNumber,
    CitationKey,
    CitationLabel,
    CollectionTitle,
    ContainerTitle,
    ContainerTitleShort,
    Dimensions,
    Division,
    DOI,
    Event,
    EventTitle,
    EventPlace,
    Genre,
    ISBN,
    ISSN,
    Jurisdiction,
    Keyword,
    Language,
    License,
    Medium,
    Note,
    OriginalPublisher,
    OriginalPublisherPlace,
    OriginalTitle,
    PartTitle,
    PMCID,
    PMID,
    Publisher,
    PublisherPlace,
    References,
    ReviewedGenre,
    ReviewedTitle,
    Scale,
    Source,
    Status,
    Title,
    TitleShort,
    URL,
    VolumeTitle,
    YearSuffix,
}

/// Variables that can be formatted as numbers.
#[allow(missing_docs)]
#[derive(Debug, Copy, Clone, Eq, PartialEq, Hash, Structural)]
pub enum NumberVariable {
    ChapterNumber,
    CitationNumber,
    CollectionNumber,
    Edition,
    FirstReferenceNoteNumber,
    Issue,
    Locator,
    Number,
    NumberOfPages,
    NumberOfVolumes,
    Page,
    PageFirst,
    PartNumber,
    PrintingNumber,
    Section,
    SupplementNumber,
    Version,
    Volume,
}

/// Whether a number variable counts a total (`number-of-pages`,
/// `number-of-volumes`).
pub open spec fn spec_number_is_number_of_variable(v: NumberVariable) -> bool {
    v == NumberVariable::NumberOfPages || v == NumberVariable::NumberOfVolumes
}

impl NumberVariable {
    /// Check if the variable starts with `number-of-` to control contextual
    /// label behavior.
    pub fn is_number_of_variable(self) -> (r: bool)
        ensures
            r == spec_number_is_number_of_variable(self),
    {
        matches!(self, Self::NumberOfPages | Self::NumberOfVolumes)
    }
}

/// Variables that can be formatted as dates.
#[allow(missing_docs)]
#[derive(Debug, Copy, Clone, Eq, PartialEq, Hash, Structural)]
pub enum DateVariable {
    Accessed,
    AvailableDate,
    EventDate,
    Issued,
    OriginalDate,
    Submitted,
}

/// Variables that can be formatted as names.
#[allow(missing_docs)]
#[derive(Debug, Copy, Clone, Eq, PartialEq, Hash, Structural)]
pub enum NameVariable {
    Author,
    Chair,
    CollectionEditor,
    Compiler,
    Composer,
    ContainerAuthor,
    Contributor,
    Curator,
    Director,
    Editor,
    EditorialDirector,
    EditorTranslator,
    ExecutiveProducer,
    Guest,
    Host,
    Illustrator,
    Interviewer,
    Narrator,
    Organizer,
    OriginalAuthor,
    Performer,
    Producer,
    Recipient,
    ReviewedAuthor,
    ScriptWriter,
    SeriesCreator,
    Translator,
}

/// Localizable terms.
#[derive(Debug, Copy, Clone, Eq, PartialEq, Hash, Structural)]
pub enum Term {
    /// Kind of the cited item.
    Kind(Kind),
    /// Variables that can be formatted as names.
    NameVariable(NameVariable),
    /// Variables that can be formatted as numbers.
    NumberVariable(NumberVariable),
    /// A locator.
    Locator(Locator),
    /// Terms that are not defined via types, name or number variables.
    Other(OtherTerm),
}

/// The term a lookup falls back to if the given term is unavailable: a long
/// ordinal falls back to the numbered ordinal of the same value.
pub open spec fn spec_term_fallback(t: Term) -> Term {
    match t {
        Term::Other(OtherTerm::LongOrdinal(i)) => Term::Other(OtherTerm::OrdinalN(i)),
        _ => t,
    }
}

/// Whether a term is ordinal-shaped: the generic ordinal, a numbered
/// ordinal, or a long ordinal.
pub open spec fn spec_term_is_ordinal(t: Term) -> bool {
    match t {
        Term::Other(o) => spec_other_is_ordinal(o),
        _ => false,
    }
}

/// Whether a term is a numbered or long ordinal.
pub open spec fn spec_term_is_n_ordinal(t: Term) -> bool {
    match t {
        Term::Other(o) => spec_other_is_n_ordinal(o),
        _ => false,
    }
}

/// Whether a term can carry a grammatical gender: an ordinal or a month.
pub open spec fn spec_term_is_gendered(t: Term) -> bool {
    spec_term_is_ordinal(t) || match t {
        Term::Other(o) => o is Month01 || o is Month02 || o is Month03 || o is Month04
            || o is Month05 || o is Month06 || o is Month07 || o is Month08 || o is Month09
            || o is Month10 || o is Month11 || o is Month12,
        _ => false,
    }
}

/// Whether two distinct terms share one serialized name: a handful of
/// locators are written like the number variable or item kind of the same
/// name.
pub open spec fn spec_term_same_name_pair(a: Term, b: Term) -> bool {
    ||| (a == Term::Locator(Locator::Issue) && b == Term::NumberVariable(NumberVariable::Issue))
    ||| (a == Term::Locator(Locator::Page) && b == Term::NumberVariable(NumberVariable::Page))
    ||| (a == Term::Locator(Locator::Section) && b == Term::NumberVariable(
        NumberVariable::Section,
    ))
    ||| (a == Term::Locator(Locator::Volume) && b == Term::NumberVariable(
        NumberVariable::Volume,
    ))
    ||| (a == Term::Locator(Locator::Book) && b == Term::Kind(Kind::Book))
    ||| (a == Term::Locator(Locator::Chapter) && b == Term::Kind(Kind::Chapter))
    ||| (a == Term::Locator(Locator::Figure) && b == Term::Kind(Kind::Figure))
}

/// Whether two terms serialize to the same name.
pub open spec fn spec_term_is_lexically_same(a: Term, b: Term) -> bool {
    a == b || spec_term_same_name_pair(a, b) || spec_term_same_name_pair(b, a)
}

impl Term {
    /// On which term this falls back if the given term is not available.
    pub fn term_fallback(self) -> (r: Self)
        ensures
            r == spec_term_fallback(self),
    {
        match self {
            Self::Other(OtherTerm::LongOrdinal(i)) => Self::Other(OtherTerm::OrdinalN(i)),
            _ => self,
        }
    }

    /// Whether this is an ordinal term.
    pub fn is_ordinal(self) -> (r: bool)
        ensures
            r == spec_term_is_ordinal(self),
    {
        match self {
            Self::Other(other) => other.is_ordinal(),
            _ => false,
        }
    }

    /// Whether this is a numbered ordinal term.
    pub fn is_n_ordinal(self) -> (r: bool)
        ensures
            r == spec_term_is_n_ordinal(self),
    {
        match self {
            Self::Other(other) => other.is_n_ordinal(),
            _ => false,
        }
    }

    /// Whether this is a gendered term.
    pub fn is_gendered(self) -> (r: bool)
        ensures
            r == spec_term_is_gendered(self),
    {
        if self.is_ordinal() {
            return true;
        }
        matches!(
            self,
            Self::Other(
                OtherTerm::Month01
                    | OtherTerm::Month02
                    | OtherTerm::Month03
                    | OtherTerm::Month04
                    | OtherTerm::Month05
                    | OtherTerm::Month06
                    | OtherTerm::Month07
                    | OtherTerm::Month08
                    | OtherTerm::Month09
                    | OtherTerm::Month10
                    | OtherTerm::Month11
                    | OtherTerm::Month12,
            ),
        )
    }

    /// Compare a term to another one. Return `true` if they are serialized
    /// the same.
    pub fn is_lexically_same(self, other: Self) -> (r: bool)
        ensures
            r == spec_term_is_lexically_same(self, other),
    {
        if self == other {
            return true;
        }
        Self::same_name_pair(self, other) || Self::same_name_pair(other, self)
    }

    fn same_name_pair(a: Self, b: Self) -> (r: bool)
        ensures
            r == spec_term_same_name_pair(a, b),
    {
        matches!(
            (a, b),
            (
                Self::Locator(Locator::Issue),
                Self::NumberVariable(NumberVariable::Issue),
            ) | (
                Self::Locator(Locator::Page),
                Self::NumberVariable(NumberVariable::Page),
            ) | (
                Self::Locator(Locator::Section),
                Self::NumberVariable(NumberVariable::Section),
            ) | (
                Self::Locator(Locator::Volume),
                Self::NumberVariable(NumberVariable::Volume),
            ) | (Self::Locator(Locator::Book), Self::Kind(Kind::Book))
                | (Self::Locator(Locator::Chapter), Self::Kind(Kind::Chapter))
                | (Self::Locator(Locator::Figure), Self::Kind(Kind::Figure)),
        )
    }
}

/// Kind of the cited item.
#[allow(missing_docs)]
#[derive(Debug, Copy, Clone, Eq, PartialEq, Hash, Structural)]
pub enum Kind {
    Article,
    ArticleJournal,
    ArticleMagazine,
    ArticleNewspaper,
    Bill,
    Book,
    Broadcast,
    Chapter,
    Classic,
    Collection,
    Dataset,
    Document,
    Entry,
    EntryDictionary,
    EntryEncyclopedia,
    Event,
    Figure,
    Graphic,
    Hearing,
    Interview,
    LegalCase,
    Legislation,
    Manuscript,
    /// A geographic map.
    GeographicMap,
    MotionPicture,
    MusicalScore,
    Pamphlet,
    PaperConference,
    Patent,
    Performance,
    Periodical,
    PersonalCommunication,
    Post,
    PostWeblog,
    Regulation,
    Report,
    Review,
    ReviewBook,
    Software,
    Song,
    Speech,
    Standard,
    Thesis,
    Treaty,
    Webpage,
}

/// A locator.
#[allow(missing_docs)]
#[derive(Debug, Copy, Clone, Eq, PartialEq, Hash, Structural)]
pub enum Locator {
    Act,
    Appendix,
    ArticleLocator,
    Book,
    Canon,
    Chapter,
    Column,
    Elocation,
    Equation,
    Figure,
    Folio,
    Issue,
    Line,
    Note,
    Opus,
    Page,
    Paragraph,
    Part,
    Rule,
    Scene,
    Section,
    SubVerbo,
    Supplement,
    Table,
    Timestamp,
    Title,
    TitleLocator,
    Verse,
    Volume,
    /// Renders nothing in the locator's label element.
    Custom,
}

/// Terms that are not defined via types, name or number variables.
#[allow(missing_docs)]
#[derive(Debug, Copy, Clone, Eq, PartialEq, Hash, Structural)]
pub enum OtherTerm {
    Month01,
    Month02,
    Month03,
    Month04,
    Month05,
    Month06,
    Month07,
    Month08,
    Month09,
    Month10,
    Month11,
    Month12,
    Ordinal,
    /// Between 0 and 99.
    OrdinalN(u8),
    /// Between 0 and 10.
    LongOrdinal(u8),
    OpenQuote,
    CloseQuote,
    OpenInnerQuote,
    CloseInnerQuote,
    PageRangeDelimiter,
    Colon,
    Comma,
    Semicolon,
    Season01,
    Season02,
    Season03,
    Season04,
    Anthropology,
    Astronomy,
    Biology,
    Botany,
    Chemistry,
    Engineering,
    GenericBase,
    Geography,
    Geology,
    History,
    Humanities,
    Literature,
    Math,
    Medicine,
    Philosophy,
    Physics,
    Psychology,
    Sociology,
    Science,
    PoliticalScience,
    SocialScience,
    Theology,
    Zoology,
    Accessed,
    Ad,
    AdvanceOnlinePublication,
    Album,
    And,
    AndOthers,
    Anonymous,
    At,
    AudioRecording,
    AvailableAt,
    Bc,
    Bce,
    By,
    Ce,
    Circa,
    Cited,
    EtAl,
    Film,
    Forthcoming,
    From,
    Henceforth,
    Ibid,
    In,
    InPress,
    Internet,
    Interview,
    Letter,
    LocCit,
    NoDate,
    NoPlace,
    NoPublisher,
    On,
    Online,
    OpCit,
    OriginalWorkPublished,
    PersonalCommunication,
    Podcast,
    PodcastEpisode,
    Preprint,
    PresentedAt,
    RadioBroadcast,
    RadioSeries,
    RadioSeriesEpisode,
    Reference,
    Retrieved,
    ReviewOf,
    Scale,
    SpecialIssue,
    SpecialSection,
    TelevisionBroadcast,
    TelevisionSeries,
    TelevisionSeriesEpisode,
    Video,
    WorkingPaper,
}

/// Whether a term is a numbered or long ordinal.
pub open spec fn spec_other_is_n_ordinal(t: OtherTerm) -> bool {
    t is OrdinalN || t is LongOrdinal
}

/// Whether a term is ordinal-shaped.
pub open spec fn spec_other_is_ordinal(t: OtherTerm) -> bool {
    t is Ordinal || t is OrdinalN || t is LongOrdinal
}

/// The month term for a zero-based month number below twelve.
pub open spec fn spec_month(i: int) -> Option<OtherTerm> {
    if i == 0 {
        Some(OtherTerm::Month01)
    } else if i == 1 {
        Some(OtherTerm::Month02)
    } else if i == 2 {
        Some(OtherTerm::Month03)
    } else if i == 3 {
        Some(OtherTerm::Month04)
    } else if i == 4 {
        Some(OtherTerm::Month05)
    } else if i == 5 {
        Some(OtherTerm::Month06)
    } else if i == 6 {
        Some(OtherTerm::Month07)
    } else if i == 7 {
        Some(OtherTerm::Month08)
    } else if i == 8 {
        Some(OtherTerm::Month09)
    } else if i == 9 {
        Some(OtherTerm::Month10)
    } else if i == 10 {
        Some(OtherTerm::Month11)
    } else if i == 11 {
        Some(OtherTerm::Month12)
    } else {
        None
    }
}

/// The season term for a zero-based season number below four.
pub open spec fn spec_season(i: int) -> Option<OtherTerm> {
    if i == 0 {
        Some(OtherTerm::Season01)
    } else if i == 1 {
        Some(OtherTerm::Season02)
    } else if i == 2 {
        Some(OtherTerm::Season03)
    } else if i == 3 {
        Some(OtherTerm::Season04)
    } else {
        None
    }
}

impl OtherTerm {
    /// Whether this is a numbered ordinal term.
    pub fn is_n_ordinal(self) -> (r: bool)
        ensures
            r == spec_other_is_n_ordinal(self),
    {
        matches!(self, Self::OrdinalN(_) | Self::LongOrdinal(_))
    }

    /// Whether this is an ordinal term.
    pub fn is_ordinal(self) -> (r: bool)
        ensures
            r == spec_other_is_ordinal(self),
    {
        matches!(self, Self::Ordinal | Self::OrdinalN(_) | Self::LongOrdinal(_))
    }

    /// Get the month for a number between 0 and 11.
    pub fn month(i: u8) -> (r: Option<Self>)
        ensures
            r == spec_month(i as int),
    {
        match i {
            0 => Some(Self::Month01),
            1 => Some(Self::Month02),
            2 => Some(Self::Month03),
            3 => Some(Self::Month04),
            4 => Some(Self::Month05),
            5 => Some(Self::Month06),
            6 => Some(Self::Month07),
            7 => Some(Self::Month08),
            8 => Some(Self::Month09),
            9 => Some(Self::Month10),
            10 => Some(Self::Month11),
            11 => Some(Self::Month12),
            _ => None,
        }
    }

    /// Get the season for a number between 0 and 3.
    pub fn season(i: u8) -> (r: Option<Self>)
        ensures
            r == spec_season(i as int),
    {
        match i {
            0 => Some(Self::Season01),
            1 => Some(Self::Season02),
            2 => Some(Self::Season03),
            3 => Some(Self::Season04),
            _ => None,
        }
    }
}

/// An error that can occur when converting a string to a term.
#[derive(Debug, Copy, Clone, Eq, PartialEq, Hash, Structural)]
pub enum TermConversionError {
    /// The month, season, ordinal, or long ordinal is out of range.
    OutOfRange,
    /// The term is unknown.
    Unknown,
}


// Decoding the serialized names of taxonomy tokens.

/// What decoding an item kind from its serialized name yields.
pub open spec fn spec_kind_from_str(s: Seq<char>) -> Result<Kind, ()> {
    if s == "article"@ {
        Ok(Kind::Article)
    } else if s == "article-journal"@ {
        Ok(Kind::ArticleJournal)
    } else if s == "article-magazine"@ {
        Ok(Kind::ArticleMagazine)
    } else if s == "article-newspaper"@ {
        Ok(Kind::ArticleNewspaper)
    } else if s == "bill"@ {
        Ok(Kind::Bill)
    } else if s == "book"@ {
        Ok(Kind::Book)
    } else if s == "broadcast"@ {
        Ok(Kind::Broadcast)
    } else if s == "chapter"@ {
        Ok(Kind::Chapter)
    } else if s == "classic"@ {
        Ok(Kind::Classic)
    } else if s == "collection"@ {
        Ok(Kind::Collection)
    } else if s == "dataset"@ {
        Ok(Kind::Dataset)
    } else if s == "document"@ {
        Ok(Kind::Document)
    } else if s == "entry"@ {
        Ok(Kind::Entry)
    } else if s == "entry-dictionary"@ {
        Ok(Kind::EntryDictionary)
    } else if s == "entry-encyclopedia"@ {
        Ok(Kind::EntryEncyclopedia)
    } else if s == "event"@ {
        Ok(Kind::Event)
    } else if s == "figure"@ {
        Ok(Kind::Figure)
    } else if s == "graphic"@ {
        Ok(Kind::Graphic)
    } else if s == "hearing"@ {
        Ok(Kind::Hearing)
    } else if s == "interview"@ {
        Ok(Kind::Interview)
    } else if s == "legal_case"@ {
        Ok(Kind::LegalCase)
    } else if s == "legislation"@ {
        Ok(Kind::Legislation)
    } else if s == "manuscript"@ {
        Ok(Kind::Manuscript)
    } else if s == "map"@ {
        Ok(Kind::GeographicMap)
    } else if s == "motion_picture"@ {
        Ok(Kind::MotionPicture)
    } else if s == "musical_score"@ {
        Ok(Kind::MusicalScore)
    } else if s == "pamphlet"@ {
        Ok(Kind::Pamphlet)
    } else if s == "paper-conference"@ {
        Ok(Kind::PaperConference)
    } else if s == "patent"@ {
        Ok(Kind::Patent)
    } else if s == "performance"@ {
        Ok(Kind::Performance)
    } else if s == "periodical"@ {
        Ok(Kind::Periodical)
    } else if s == "personal_communication"@ {
        Ok(Kind::PersonalCommunication)
    } else if s == "post"@ {
        Ok(Kind::Post)
    } else if s == "post-weblog"@ {
        Ok(Kind::PostWeblog)
    } else if s == "regulation"@ {
        Ok(Kind::Regulation)
    } else if s == "report"@ {
        Ok(Kind::Report)
    } else if s == "review"@ {
        Ok(Kind::Review)
    } else if s == "review-book"@ {
        Ok(Kind::ReviewBook)
    } else if s == "software"@ {
        Ok(Kind::Software)
    } else if s == "song"@ {
        Ok(Kind::Song)
    } else if s == "speech"@ {
        Ok(Kind::Speech)
    } else if s == "standard"@ {
        Ok(Kind::Standard)
    } else if s == "thesis"@ {
        Ok(Kind::Thesis)
    } else if s == "treaty"@ {
        Ok(Kind::Treaty)
    } else if s == "webpage"@ {
        Ok(Kind::Webpage)
    } else {
        Err(())
    }
}

impl Kind {
    /// Decode an item kind from its serialized name.
    pub fn from_str(s: &str) -> (r: Result<Self, ()>)
        ensures
            r == spec_kind_from_str(s@),
    {
    if str_eq(s, "article") {
        Ok(Self::Article)
    } else if str_eq(s, "article-journal") {
        Ok(Self::ArticleJournal)
    } else if str_eq(s, "article-magazine") {
        Ok(Self::ArticleMagazine)
    } else if str_eq(s, "article-newspaper") {
        Ok(Self::ArticleNewspaper)
    } else if str_eq(s, "bill") {
        Ok(Self::Bill)
    } else if str_eq(s, "book") {
        Ok(Self::Book)
    } else if str_eq(s, "broadcast") {
        Ok(Self::Broadcast)
    } else if str_eq(s, "chapter") {
        Ok(Self::Chapter)
    } else if str_eq(s, "classic") {
        Ok(Self::Classic)
    } else if str_eq(s, "collection") {
        Ok(Self::Collection)
    } else if str_eq(s, "dataset") {
        Ok(Self::Dataset)
    } else if str_eq(s, "document") {
        Ok(Self::Document)
    } else if str_eq(s, "entry") {
        Ok(Self::Entry)
    } else if str_eq(s, "entry-dictionary") {
        Ok(Self::EntryDictionary)
    } else if str_eq(s, "entry-encyclopedia") {
        Ok(Self::EntryEncyclopedia)
    } else if str_eq(s, "event") {
        Ok(Self::Event)
    } else if str_eq(s, "figure") {
        Ok(Self::Figure)
    } else if str_eq(s, "graphic") {
        Ok(Self::Graphic)
    } else if str_eq(s, "hearing") {
        Ok(Self::Hearing)
    } else if str_eq(s, "interview") {
        Ok(Self::Interview)
    } else if str_eq(s, "legal_case") {
        Ok(Self::LegalCase)
    } else if str_eq(s, "legislation") {
        Ok(Self::Legislation)
    } else if str_eq(s, "manuscript") {
        Ok(Self::Manuscript)
    } else if str_eq(s, "map") {
        Ok(Self::GeographicMap)
    } else if str_eq(s, "motion_picture") {
        Ok(Self::MotionPicture)
    } else if str_eq(s, "musical_score") {
        Ok(Self::MusicalScore)
    } else if str_eq(s, "pamphlet") {
        Ok(Self::Pamphlet)
    } else if str_eq(s, "paper-conference") {
        Ok(Self::PaperConference)
    } else if str_eq(s, "patent") {
        Ok(Self::Patent)
    } else if str_eq(s, "performance") {
        Ok(Self::Performance)
    } else if str_eq(s, "periodical") {
        Ok(Self::Periodical)
    } else if str_eq(s, "personal_communication") {
        Ok(Self::PersonalCommunication)
    } else if str_eq(s, "post") {
        Ok(Self::Post)
    } else if str_eq(s, "post-weblog") {
        Ok(Self::PostWeblog)
    } else if str_eq(s, "regulation") {
        Ok(Self::Regulation)
    } else if str_eq(s, "report") {
        Ok(Self::Report)
    } else if str_eq(s, "review") {
        Ok(Self::Review)
    } else if str_eq(s, "review-book") {
        Ok(Self::ReviewBook)
    } else if str_eq(s, "software") {
        Ok(Self::Software)
    } else if str_eq(s, "song") {
        Ok(Self::Song)
    } else if str_eq(s, "speech") {
        Ok(Self::Speech)
    } else if str_eq(s, "standard") {
        Ok(Self::Standard)
    } else if str_eq(s, "thesis") {
        Ok(Self::Thesis)
    } else if str_eq(s, "treaty") {
        Ok(Self::Treaty)
    } else if str_eq(s, "webpage") {
        Ok(Self::Webpage)
    } else {
        Err(())
    }
    }
}

/// What decoding a locator from its serialized name yields.
pub open spec fn spec_locator_from_str(s: Seq<char>) -> Result<Locator, ()> {
    if s == "act"@ {
        Ok(Locator::Act)
    } else if s == "appendix"@ {
        Ok(Locator::Appendix)
    } else if s == "article-locator"@ {
        Ok(Locator::ArticleLocator)
    } else if s == "book"@ {
        Ok(Locator::Book)
    } else if s == "canon"@ {
        Ok(Locator::Canon)
    } else if s == "chapter"@ {
        Ok(Locator::Chapter)
    } else if s == "column"@ {
        Ok(Locator::Column)
    } else if s == "elocation"@ {
        Ok(Locator::Elocation)
    } else if s == "equation"@ {
        Ok(Locator::Equation)
    } else if s == "figure"@ {
        Ok(Locator::Figure)
    } else if s == "folio"@ {
        Ok(Locator::Folio)
    } else if s == "issue"@ {
        Ok(Locator::Issue)
    } else if s == "line"@ {
        Ok(Locator::Line)
    } else if s == "note"@ {
        Ok(Locator::Note)
    } else if s == "opus"@ {
        Ok(Locator::Opus)
    } else if s == "page"@ {
        Ok(Locator::Page)
    } else if s == "paragraph"@ {
        Ok(Locator::Paragraph)
    } else if s == "part"@ {
        Ok(Locator::Part)
    } else if s == "rule"@ {
        Ok(Locator::Rule)
    } else if s == "scene"@ {
        Ok(Locator::Scene)
    } else if s == "section"@ {
        Ok(Locator::Section)
    } else if s == "sub verbo"@ || s == "sub-verbo"@ {
        Ok(Locator::SubVerbo)
    } else if s == "supplement"@ {
        Ok(Locator::Supplement)
    } else if s == "table"@ {
        Ok(Locator::Table)
    } else if s == "timestamp"@ {
        Ok(Locator::Timestamp)
    } else if s == "title"@ {
        Ok(Locator::Title)
    } else if s == "title-locator"@ {
        Ok(Locator::TitleLocator)
    } else if s == "verse"@ {
        Ok(Locator::Verse)
    } else if s == "volume"@ {
        Ok(Locator::Volume)
    } else {
        Err(())
    }
}

impl Locator {
    /// Decode a locator from its serialized name.
    pub fn from_str(s: &str) -> (r: Result<Self, ()>)
        ensures
            r == spec_locator_from_str(s@),
    {
    if str_eq(s, "act") {
        Ok(Self::Act)
    } else if str_eq(s, "appendix") {
        Ok(Self::Appendix)
    } else if str_eq(s, "article-locator") {
        Ok(Self::ArticleLocator)
    } else if str_eq(s, "book") {
        Ok(Self::Book)
    } else if str_eq(s, "canon") {
        Ok(Self::Canon)
    } else if str_eq(s, "chapter") {
        Ok(Self::Chapter)
    } else if str_eq(s, "column") {
        Ok(Self::Column)
    } else if str_eq(s, "elocation") {
        Ok(Self::Elocation)
    } else if str_eq(s, "equation") {
        Ok(Self::Equation)
    } else if str_eq(s, "figure") {
        Ok(Self::Figure)
    } else if str_eq(s, "folio") {
        Ok(Self::Folio)
    } else if str_eq(s, "issue") {
        Ok(Self::Issue)
    } else if str_eq(s, "line") {
        Ok(Self::Line)
    } else if str_eq(s, "note") {
        Ok(Self::Note)
    } else if str_eq(s, "opus") {
        Ok(Self::Opus)
    } else if str_eq(s, "page") {
        Ok(Self::Page)
    } else if str_eq(s, "paragraph") {
        Ok(Self::Paragraph)
    } else if str_eq(s, "part") {
        Ok(Self::Part)
    } else if str_eq(s, "rule") {
        Ok(Self::Rule)
    } else if str_eq(s, "scene") {
        Ok(Self::Scene)
    } else if str_eq(s, "section") {
        Ok(Self::Section)
    } else if str_eq(s, "sub verbo") || str_eq(s, "sub-verbo") {
        Ok(Self::SubVerbo)
    } else if str_eq(s, "supplement") {
        Ok(Self::Supplement)
    } else if str_eq(s, "table") {
        Ok(Self::Table)
    } else if str_eq(s, "timestamp") {
        Ok(Self::Timestamp)
    } else if str_eq(s, "title") {
        Ok(Self::Title)
    } else if str_eq(s, "title-locator") {
        Ok(Self::TitleLocator)
    } else if str_eq(s, "verse") {
        Ok(Self::Verse)
    } else if str_eq(s, "volume") {
        Ok(Self::Volume)
    } else {
        Err(())
    }
    }
}

/// Whether every character of a sequence is an ASCII digit.
pub open spec fn spec_all_digits(t: Seq<char>) -> bool {
    forall|i: int| 0 <= i < t.len() ==> '0' <= #[trigger] t[i] <= '9'
}

/// The numeric value of the first `j` digit characters of a sequence.
pub open spec fn spec_digit_run_value(t: Seq<char>, j: int) -> int
    decreases j,
{
    if j <= 0 {
        0
    } else {
        spec_digit_run_value(t, j - 1) * 10 + (t[j - 1] as int - '0' as int)
    }
}

/// How a term number is read from text: an optional plus sign, then one or
/// more digits. A value above 255 is out of range; anything unparseable is
/// unknown.
pub open spec fn spec_term_number(s: Seq<char>) -> Result<int, TermConversionError> {
    let t = if s.len() >= 1 && s[0] == '+' {
        s.subrange(1, s.len() as int)
    } else {
        s
    };
    if t.len() == 0 || !spec_all_digits(t) {
        Err(TermConversionError::Unknown)
    } else if spec_digit_run_value(t, t.len() as int) > 255 {
        Err(TermConversionError::OutOfRange)
    } else {
        Ok(spec_digit_run_value(t, t.len() as int))
    }
}

proof fn lemma_digit_run_value_nonneg(t: Seq<char>, j: int)
    requires
        forall|i: int| 0 <= i < j ==> '0' <= #[trigger] t[i] <= '9',
    ensures
        spec_digit_run_value(t, j) >= 0,
    decreases j,
{
    if j > 0 {
        lemma_digit_run_value_nonneg(t, j - 1);
    }
}

/// Read a term number: an optional plus sign, then one or more digits.
fn parse_term_number(s: &str) -> (r: Result<u8, TermConversionError>)
    ensures
        match r {
            Ok(v) => spec_term_number(s@) == Ok::<int, TermConversionError>(v as int),
            Err(e) => spec_term_number(s@) == Err::<int, TermConversionError>(e),
        },
{
    let n = s.unicode_len();
    let start: usize = if n >= 1 && s.get_char(0) == '+' {
        1
    } else {
        0
    };
    let ghost t = if start == 1 {
        s@.subrange(1, s@.len() as int)
    } else {
        s@
    };
    proof {
        assert(t == (if s@.len() >= 1 && s@[0] == '+' {
            s@.subrange(1, s@.len() as int)
        } else {
            s@
        }));
    }
    if start == n {
        proof {
            assert(t.len() == 0);
        }
        return Err(TermConversionError::Unknown);
    }
    let mut i = start;
    let mut acc: u64 = 0;
    while i < n
        invariant
            start <= i <= n,
            start <= 1,
            n == s@.len(),
            t == (if s@.len() >= 1 && s@[0] == '+' {
                s@.subrange(1, s@.len() as int)
            } else {
                s@
            }),
            t.len() == n - start,
            forall|k: int| 0 <= k < t.len() ==> t[k] == s@[k + start],
            forall|k: int| 0 <= k < i - start ==> '0' <= #[trigger] t[k] <= '9',
            acc == if spec_digit_run_value(t, i - start) > 1000 {
                1001int
            } else {
                spec_digit_run_value(t, i - start)
            },
        decreases n - i,
    {
        let c = s.get_char(i);
        if !('0' <= c && c <= '9') {
            proof {
                assert(!spec_all_digits(t)) by {
                    assert(!('0' <= t[i - start] <= '9'));
                }
            }
            return Err(TermConversionError::Unknown);
        }
        let d: u64 = (c as u32 as u64) - 48;
        proof {
            lemma_digit_run_value_nonneg(t, i - start);
            lemma_digit_run_value_nonneg(t, i + 1 - start);
        }
        acc = if acc > 1000 || acc * 10 + d > 1000 {
            1001
        } else {
            acc * 10 + d
        };
        i += 1;
    }
    if acc > 255 {
        Err(TermConversionError::OutOfRange)
    } else {
        Ok(acc as u8)
    }
}

/// What decoding a general term from its serialized name yields. Month,
/// season, ordinal, and long-ordinal terms carry a number whose range the
/// term kind bounds; every other name is matched verbatim.
pub open spec fn spec_other_term_from_str(s: Seq<char>) -> Result<OtherTerm, TermConversionError> {
    if spec_starts_with(s, "month-"@) {
        match spec_term_number(s.subrange("month-"@.len() as int, s.len() as int)) {
            Ok(v) => if 1 <= v <= 12 {
                Ok(spec_month(v - 1).unwrap())
            } else {
                Err(TermConversionError::OutOfRange)
            },
            Err(e) => Err(e),
        }
    } else if spec_starts_with(s, "season-"@) {
        match spec_term_number(s.subrange("season-"@.len() as int, s.len() as int)) {
            Ok(v) => if 1 <= v <= 4 {
                Ok(spec_season(v - 1).unwrap())
            } else {
                Err(TermConversionError::OutOfRange)
            },
            Err(e) => Err(e),
        }
    } else if spec_starts_with(s, "long-ordinal-"@) {
        match spec_term_number(s.subrange("long-ordinal-"@.len() as int, s.len() as int)) {
            Ok(v) => if v <= 10 {
                Ok(OtherTerm::LongOrdinal(v as u8))
            } else {
                Err(TermConversionError::OutOfRange)
            },
            Err(e) => Err(e),
        }
    } else if spec_starts_with(s, "ordinal-"@) {
        match spec_term_number(s.subrange("ordinal-"@.len() as int, s.len() as int)) {
            Ok(v) => if v <= 99 {
                Ok(OtherTerm::OrdinalN(v as u8))
            } else {
                Err(TermConversionError::OutOfRange)
            },
            Err(e) => Err(e),
        }
    } else {
        spec_other_term_name(s)
    }
}

/// The general terms matched verbatim by name.
pub open spec fn spec_other_term_name(s: Seq<char>) -> Result<OtherTerm, TermConversionError> {
    if s == "ordinal"@ {
        Ok(OtherTerm::Ordinal)
    } else if s == "open-quote"@ {
        Ok(OtherTerm::OpenQuote)
    } else if s == "close-quote"@ {
        Ok(OtherTerm::CloseQuote)
    } else if s == "open-inner-quote"@ {
        Ok(OtherTerm::OpenInnerQuote)
    } else if s == "close-inner-quote"@ {
        Ok(OtherTerm::CloseInnerQuote)
    } else if s == "page-range-delimiter"@ {
        Ok(OtherTerm::PageRangeDelimiter)
    } else if s == "colon"@ {
        Ok(OtherTerm::Colon)
    } else if s == "comma"@ {
        Ok(OtherTerm::Comma)
    } else if s == "semicolon"@ {
        Ok(OtherTerm::Semicolon)
    } else if s == "anthropology"@ {
        Ok(OtherTerm::Anthropology)
    } else if s == "astronomy"@ {
        Ok(OtherTerm::Astronomy)
    } else if s == "biology"@ {
        Ok(OtherTerm::Biology)
    } else if s == "botany"@ {
        Ok(OtherTerm::Botany)
    } else if s == "chemistry"@ {
        Ok(OtherTerm::Chemistry)
    } else if s == "engineering"@ {
        Ok(OtherTerm::Engineering)
    } else if s == "generic-base"@ {
        Ok(OtherTerm::GenericBase)
    } else if s == "geography"@ {
        Ok(OtherTerm::Geography)
    } else if s == "geology"@ {
        Ok(OtherTerm::Geology)
    } else if s == "history"@ {
        Ok(OtherTerm::History)
    } else if s == "humanities"@ {
        Ok(OtherTerm::Humanities)
    } else if s == "literature"@ {
        Ok(OtherTerm::Literature)
    } else if s == "math"@ {
        Ok(OtherTerm::Math)
    } else if s == "medicine"@ {
        Ok(OtherTerm::Medicine)
    } else if s == "philosophy"@ {
        Ok(OtherTerm::Philosophy)
    } else if s == "physics"@ {
        Ok(OtherTerm::Physics)
    } else if s == "psychology"@ {
        Ok(OtherTerm::Psychology)
    } else if s == "sociology"@ {
        Ok(OtherTerm::Sociology)
    } else if s == "science"@ {
        Ok(OtherTerm::Science)
    } else if s == "political-science"@ || s == "political_science"@ {
        Ok(OtherTerm::PoliticalScience)
    } else if s == "social-science"@ || s == "social_science"@ {
        Ok(OtherTerm::SocialScience)
    } else if s == "theology"@ {
        Ok(OtherTerm::Theology)
    } else if s == "zoology"@ {
        Ok(OtherTerm::Zoology)
    } else if s == "accessed"@ {
        Ok(OtherTerm::Accessed)
    } else if s == "ad"@ {
        Ok(OtherTerm::Ad)
    } else if s == "advance-online-publication"@ {
        Ok(OtherTerm::AdvanceOnlinePublication)
    } else if s == "album"@ {
        Ok(OtherTerm::Album)
    } else if s == "and"@ {
        Ok(OtherTerm::And)
    } else if s == "and-others"@ || s == "and others"@ {
        Ok(OtherTerm::AndOthers)
    } else if s == "anonymous"@ {
        Ok(OtherTerm::Anonymous)
    } else if s == "at"@ {
        Ok(OtherTerm::At)
    } else if s == "audio-recording"@ {
        Ok(OtherTerm::AudioRecording)
    } else if s == "available at"@ || s == "available-at"@ {
        Ok(OtherTerm::AvailableAt)
    } else if s == "bc"@ {
        Ok(OtherTerm::Bc)
    } else if s == "bce"@ {
        Ok(OtherTerm::Bce)
    } else if s == "by"@ {
        Ok(OtherTerm::By)
    } else if s == "ce"@ {
        Ok(OtherTerm::Ce)
    } else if s == "circa"@ {
        Ok(OtherTerm::Circa)
    } else if s == "cited"@ {
        Ok(OtherTerm::Cited)
    } else if s == "et-al"@ {
        Ok(OtherTerm::EtAl)
    } else if s == "film"@ {
        Ok(OtherTerm::Film)
    } else if s == "forthcoming"@ {
        Ok(OtherTerm::Forthcoming)
    } else if s == "from"@ {
        Ok(OtherTerm::From)
    } else if s == "henceforth"@ {
        Ok(OtherTerm::Henceforth)
    } else if s == "ibid"@ {
        Ok(OtherTerm::Ibid)
    } else if s == "in"@ {
        Ok(OtherTerm::In)
    } else if s == "in press"@ || s == "in-press"@ {
        Ok(OtherTerm::InPress)
    } else if s == "internet"@ {
        Ok(OtherTerm::Internet)
    } else if s == "interview"@ {
        Ok(OtherTerm::Interview)
    } else if s == "letter"@ {
        Ok(OtherTerm::Letter)
    } else if s == "loc-cit"@ {
        Ok(OtherTerm::LocCit)
    } else if s == "no date"@ || s == "no-date"@ {
        Ok(OtherTerm::NoDate)
    } else if s == "no-place"@ {
        Ok(OtherTerm::NoPlace)
    } else if s == "no-publisher"@ {
        Ok(OtherTerm::NoPublisher)
    } else if s == "on"@ {
        Ok(OtherTerm::On)
    } else if s == "online"@ {
        Ok(OtherTerm::Online)
    } else if s == "op-cit"@ {
        Ok(OtherTerm::OpCit)
    } else if s == "original-work-published"@ {
        Ok(OtherTerm::OriginalWorkPublished)
    } else if s == "personal-communication"@ {
        Ok(OtherTerm::PersonalCommunication)
    } else if s == "podcast"@ {
        Ok(OtherTerm::Podcast)
    } else if s == "podcast-episode"@ {
        Ok(OtherTerm::PodcastEpisode)
    } else if s == "preprint"@ {
        Ok(OtherTerm::Preprint)
    } else if s == "presented at"@ || s == "presented-at"@ {
        Ok(OtherTerm::PresentedAt)
    } else if s == "radio-broadcast"@ {
        Ok(OtherTerm::RadioBroadcast)
    } else if s == "radio-series"@ {
        Ok(OtherTerm::RadioSeries)
    } else if s == "radio-series-episode"@ {
        Ok(OtherTerm::RadioSeriesEpisode)
    } else if s == "reference"@ {
        Ok(OtherTerm::Reference)
    } else if s == "retrieved"@ {
        Ok(OtherTerm::Retrieved)
    } else if s == "review-of"@ {
        Ok(OtherTerm::ReviewOf)
    } else if s == "scale"@ {
        Ok(OtherTerm::Scale)
    } else if s == "special-issue"@ {
        Ok(OtherTerm::SpecialIssue)
    } else if s == "special-section"@ {
        Ok(OtherTerm::SpecialSection)
    } else if s == "television-broadcast"@ {
        Ok(OtherTerm::TelevisionBroadcast)
    } else if s == "television-series"@ {
        Ok(OtherTerm::TelevisionSeries)
    } else if s == "television-series-episode"@ {
        Ok(OtherTerm::TelevisionSeriesEpisode)
    } else if s == "video"@ {
        Ok(OtherTerm::Video)
    } else if s == "working-paper"@ {
        Ok(OtherTerm::WorkingPaper)
    } else {
        Err(TermConversionError::Unknown)
    }
}

impl OtherTerm {
    /// Decode a general term from its serialized name.
    pub fn from_str(s: &str) -> (r: Result<Self, TermConversionError>)
        ensures
            r == spec_other_term_from_str(s@),
    {
        proof {
            reveal_strlit("month-");
            reveal_strlit("season-");
            reveal_strlit("long-ordinal-");
            reveal_strlit("ordinal-");
        }
        let n = s.unicode_len();
        if str_starts_with(s, "month-") {
            match parse_term_number(s.substring_char(6, n)) {
                Ok(v) => {
                    if 1 <= v && v <= 12 {
                        match Self::month(v - 1) {
                            Some(m) => Ok(m),
                            None => {
                                proof {
                                    assert(false);
                                }
                                Err(TermConversionError::Unknown)
                            },
                        }
                    } else {
                        Err(TermConversionError::OutOfRange)
                    }
                },
                Err(e) => Err(e),
            }
        } else if str_starts_with(s, "season-") {
            match parse_term_number(s.substring_char(7, n)) {
                Ok(v) => {
                    if 1 <= v && v <= 4 {
                        match Self::season(v - 1) {
                            Some(m) => Ok(m),
                            None => {
                                proof {
                                    assert(false);
                                }
                                Err(TermConversionError::Unknown)
                            },
                        }
                    } else {
                        Err(TermConversionError::OutOfRange)
                    }
                },
                Err(e) => Err(e),
            }
        } else if str_starts_with(s, "long-ordinal-") {
            match parse_term_number(s.substring_char(13, n)) {
                Ok(v) => {
                    if v <= 10 {
                        Ok(Self::LongOrdinal(v))
                    } else {
                        Err(TermConversionError::OutOfRange)
                    }
                },
                Err(e) => Err(e),
            }
        } else if str_starts_with(s, "ordinal-") {
            match parse_term_number(s.substring_char(8, n)) {
                Ok(v) => {
                    if v <= 99 {
                        Ok(Self::OrdinalN(v))
                    } else {
                        Err(TermConversionError::OutOfRange)
                    }
                },
                Err(e) => Err(e),
            }
        } else {
            Self::name_from_str(s)
        }
    }

    fn name_from_str(s: &str) -> (r: Result<Self, TermConversionError>)
        ensures
            r == spec_other_term_name(s@),
    {
    if str_eq(s, "ordinal") {
        Ok(Self::Ordinal)
    } else if str_eq(s, "open-quote") {
        Ok(Self::OpenQuote)
    } else if str_eq(s, "close-quote") {
        Ok(Self::CloseQuote)
    } else if str_eq(s, "open-inner-quote") {
        Ok(Self::OpenInnerQuote)
    } else if str_eq(s, "close-inner-quote") {
        Ok(Self::CloseInnerQuote)
    } else if str_eq(s, "page-range-delimiter") {
        Ok(Self::PageRangeDelimiter)
    } else if str_eq(s, "colon") {
        Ok(Self::Colon)
    } else if str_eq(s, "comma") {
        Ok(Self::Comma)
    } else if str_eq(s, "semicolon") {
        Ok(Self::Semicolon)
    } else if str_eq(s, "anthropology") {
        Ok(Self::Anthropology)
    } else if str_eq(s, "astronomy") {
        Ok(Self::Astronomy)
    } else if str_eq(s, "biology") {
        Ok(Self::Biology)
    } else if str_eq(s, "botany") {
        Ok(Self::Botany)
    } else if str_eq(s, "chemistry") {
        Ok(Self::Chemistry)
    } else if str_eq(s, "engineering") {
        Ok(Self::Engineering)
    } else if str_eq(s, "generic-base") {
        Ok(Self::GenericBase)
    } else if str_eq(s, "geography") {
        Ok(Self::Geography)
    } else if str_eq(s, "geology") {
        Ok(Self::Geology)
    } else if str_eq(s, "history") {
        Ok(Self::History)
    } else if str_eq(s, "humanities") {
        Ok(Self::Humanities)
    } else if str_eq(s, "literature") {
        Ok(Self::Literature)
    } else if str_eq(s, "math") {
        Ok(Self::Math)
    } else if str_eq(s, "medicine") {
        Ok(Self::Medicine)
    } else if str_eq(s, "philosophy") {
        Ok(Self::Philosophy)
    } else if str_eq(s, "physics") {
        Ok(Self::Physics)
    } else if str_eq(s, "psychology") {
        Ok(Self::Psychology)
    } else if str_eq(s, "sociology") {
        Ok(Self::Sociology)
    } else if str_eq(s, "science") {
        Ok(Self::Science)
    } else if str_eq(s, "political-science") || str_eq(s, "political_science") {
        Ok(Self::PoliticalScience)
    } else if str_eq(s, "social-science") || str_eq(s, "social_science") {
        Ok(Self::SocialScience)
    } else if str_eq(s, "theology") {
        Ok(Self::Theology)
    } else if str_eq(s, "zoology") {
        Ok(Self::Zoology)
    } else if str_eq(s, "accessed") {
        Ok(Self::Accessed)
    } else if str_eq(s, "ad") {
        Ok(Self::Ad)
    } else if str_eq(s, "advance-online-publication") {
        Ok(Self::AdvanceOnlinePublication)
    } else if str_eq(s, "album") {
        Ok(Self::Album)
    } else if str_eq(s, "and") {
        Ok(Self::And)
    } else if str_eq(s, "and-others") || str_eq(s, "and others") {
        Ok(Self::AndOthers)
    } else if str_eq(s, "anonymous") {
        Ok(Self::Anonymous)
    } else if str_eq(s, "at") {
        Ok(Self::At)
    } else if str_eq(s, "audio-recording") {
        Ok(Self::AudioRecording)
    } else if str_eq(s, "available at") || str_eq(s, "available-at") {
        Ok(Self::AvailableAt)
    } else if str_eq(s, "bc") {
        Ok(Self::Bc)
    } else if str_eq(s, "bce") {
        Ok(Self::Bce)
    } else if str_eq(s, "by") {
        Ok(Self::By)
    } else if str_eq(s, "ce") {
        Ok(Self::Ce)
    } else if str_eq(s, "circa") {
        Ok(Self::Circa)
    } else if str_eq(s, "cited") {
        Ok(Self::Cited)
    } else if str_eq(s, "et-al") {
        Ok(Self::EtAl)
    } else if str_eq(s, "film") {
        Ok(Self::Film)
    } else if str_eq(s, "forthcoming") {
        Ok(Self::Forthcoming)
    } else if str_eq(s, "from") {
        Ok(Self::From)
    } else if str_eq(s, "henceforth") {
        Ok(Self::Henceforth)
    } else if str_eq(s, "ibid") {
        Ok(Self::Ibid)
    } else if str_eq(s, "in") {
        Ok(Self::In)
    } else if str_eq(s, "in press") || str_eq(s, "in-press") {
        Ok(Self::InPress)
    } else if str_eq(s, "internet") {
        Ok(Self::Internet)
    } else if str_eq(s, "interview") {
        Ok(Self::Interview)
    } else if str_eq(s, "letter") {
        Ok(Self::Letter)
    } else if str_eq(s, "loc-cit") {
        Ok(Self::LocCit)
    } else if str_eq(s, "no date") || str_eq(s, "no-date") {
        Ok(Self::NoDate)
    } else if str_eq(s, "no-place") {
        Ok(Self::NoPlace)
    } else if str_eq(s, "no-publisher") {
        Ok(Self::NoPublisher)
    } else if str_eq(s, "on") {
        Ok(Self::On)
    } else if str_eq(s, "online") {
        Ok(Self::Online)
    } else if str_eq(s, "op-cit") {
        Ok(Self::OpCit)
    } else if str_eq(s, "original-work-published") {
        Ok(Self::OriginalWorkPublished)
    } else if str_eq(s, "personal-communication") {
        Ok(Self::PersonalCommunication)
    } else if str_eq(s, "podcast") {
        Ok(Self::Podcast)
    } else if str_eq(s, "podcast-episode") {
        Ok(Self::PodcastEpisode)
    } else if str_eq(s, "preprint") {
        Ok(Self::Preprint)
    } else if str_eq(s, "presented at") || str_eq(s, "presented-at") {
        Ok(Self::PresentedAt)
    } else if str_eq(s, "radio-broadcast") {
        Ok(Self::RadioBroadcast)
    } else if str_eq(s, "radio-series") {
        Ok(Self::RadioSeries)
    } else if str_eq(s, "radio-series-episode") {
        Ok(Self::RadioSeriesEpisode)
    } else if str_eq(s, "reference") {
        Ok(Self::Reference)
    } else if str_eq(s, "retrieved") {
        Ok(Self::Retrieved)
    } else if str_eq(s, "review-of") {
        Ok(Self::ReviewOf)
    } else if str_eq(s, "scale") {
        Ok(Self::Scale)
    } else if str_eq(s, "special-issue") {
        Ok(Self::SpecialIssue)
    } else if str_eq(s, "special-section") {
        Ok(Self::SpecialSection)
    } else if str_eq(s, "television-broadcast") {
        Ok(Self::TelevisionBroadcast)
    } else if str_eq(s, "television-series") {
        Ok(Self::TelevisionSeries)
    } else if str_eq(s, "television-series-episode") {
        Ok(Self::TelevisionSeriesEpisode)
    } else if str_eq(s, "video") {
        Ok(Self::Video)
    } else if str_eq(s, "working-paper") {
        Ok(Self::WorkingPaper)
    } else {
        Err(TermConversionError::Unknown)
    }
    }
}


/// The serialized name of a standard variable.
pub open spec fn spec_standard_variable_name(v: StandardVariable) -> Seq<char> {
    match v {
        StandardVariable::Abstract => "abstract"@,
        StandardVariable::Annote => "annote"@,
        StandardVariable::Archive => "archive"@,
        StandardVariable::ArchiveCollection => "archive_collection"@,
        StandardVariable::ArchiveLocation => "archive_location"@,
        StandardVariable::ArchivePlace => "archive_place"@,
        StandardVariable::Authority => "authority"@,
        StandardVariable::CallNumber => "call-number"@,
        StandardVariable::CitationKey => "citation-key"@,
        StandardVariable::CitationLabel => "citation-label"@,
        StandardVariable::CollectionTitle => "collection-title"@,
        StandardVariable::ContainerTitle => "container-title"@,
        StandardVariable::ContainerTitleShort => "container-title-short"@,
        StandardVariable::Dimensions => "dimensions"@,
        StandardVariable::Division => "division"@,
        StandardVariable::DOI => "DOI"@,
        StandardVariable::Event => "event"@,
        StandardVariable::EventTitle => "event-title"@,
        StandardVariable::EventPlace => "event-place"@,
        StandardVariable::Genre => "genre"@,
        StandardVariable::ISBN => "ISBN"@,
        StandardVariable::ISSN => "ISSN"@,
        StandardVariable::Jurisdiction => "jurisdiction"@,
        StandardVariable::Keyword => "keyword"@,
        StandardVariable::Language => "language"@,
        StandardVariable::License => "license"@,
        StandardVariable::Medium => "medium"@,
        StandardVariable::Note => "note"@,
        StandardVariable::OriginalPublisher => "original-publisher"@,
        StandardVariable::OriginalPublisherPlace => "original-publisher-place"@,
        StandardVariable::OriginalTitle => "original-title"@,
        StandardVariable::PartTitle => "part-title"@,
        StandardVariable::PMCID => "PMCID"@,
        StandardVariable::PMID => "PMID"@,
        StandardVariable::Publisher => "publisher"@,
        StandardVariable::PublisherPlace => "publisher-place"@,
        StandardVariable::References => "references"@,
        StandardVariable::ReviewedGenre => "reviewed-genre"@,
        StandardVariable::ReviewedTitle => "reviewed-title"@,
        StandardVariable::Scale => "scale"@,
        StandardVariable::Source => "source"@,
        StandardVariable::Status => "status"@,
        StandardVariable::Title => "title"@,
        StandardVariable::TitleShort => "title-short"@,
        StandardVariable::URL => "URL"@,
        StandardVariable::VolumeTitle => "volume-title"@,
        StandardVariable::YearSuffix => "year-suffix"@,
    }
}

impl StandardVariable {
    /// The serialized name.
    pub fn name_str(&self) -> (r: &'static str)
        ensures
            r@ == spec_standard_variable_name(*self),
    {
        match self {
            Self::Abstract => "abstract",
            Self::Annote => "annote",
            Self::Archive => "archive",
            Self::ArchiveCollection => "archive_collection",
            Self::ArchiveLocation => "archive_location",
            Self::ArchivePlace => "archive_place",
            Self::Authority => "authority",
            Self::CallNumber => "call-number",
            Self::CitationKey => "citation-key",
            Self::CitationLabel => "citation-label",
            Self::CollectionTitle => "collection-title",
            Self::ContainerTitle => "container-title",
            Self::ContainerTitleShort => "container-title-short",
            Self::Dimensions => "dimensions",
            Self::Division => "division",
            Self::DOI => "DOI",
            Self::Event => "event",
            Self::EventTitle => "event-title",
            Self::EventPlace => "event-place",
            Self::Genre => "genre",
            Self::ISBN => "ISBN",
            Self::ISSN => "ISSN",
            Self::Jurisdiction => "jurisdiction",
            Self::Keyword => "keyword",
            Self::Language => "language",
            Self::License => "license",
            Self::Medium => "medium",
            Self::Note => "note",
            Self::OriginalPublisher => "original-publisher",
            Self::OriginalPublisherPlace => "original-publisher-place",
            Self::OriginalTitle => "original-title",
            Self::PartTitle => "part-title",
            Self::PMCID => "PMCID",
            Self::PMID => "PMID",
            Self::Publisher => "publisher",
            Self::PublisherPlace => "publisher-place",
            Self::References => "references",
            Self::ReviewedGenre => "reviewed-genre",
            Self::ReviewedTitle => "reviewed-title",
            Self::Scale => "scale",
            Self::Source => "source",
            Self::Status => "status",
            Self::Title => "title",
            Self::TitleShort => "title-short",
            Self::URL => "URL",
            Self::VolumeTitle => "volume-title",
            Self::YearSuffix => "year-suffix",
        }
    }
}

/// The serialized name of a number variable.
pub open spec fn spec_number_variable_name(v: NumberVariable) -> Seq<char> {
    match v {
        NumberVariable::ChapterNumber => "chapter-number"@,
        NumberVariable::CitationNumber => "citation-number"@,
        NumberVariable::CollectionNumber => "collection-number"@,
        NumberVariable::Edition => "edition"@,
        NumberVariable::FirstReferenceNoteNumber => "first-reference-note-number"@,
        NumberVariable::Issue => "issue"@,
        NumberVariable::Locator => "locator"@,
        NumberVariable::Number => "number"@,
        NumberVariable::NumberOfPages => "number-of-pages"@,
        NumberVariable::NumberOfVolumes => "number-of-volumes"@,
        NumberVariable::Page => "page"@,
        NumberVariable::PageFirst => "page-first"@,
        NumberVariable::PartNumber => "part-number"@,
        NumberVariable::PrintingNumber => "printing-number"@,
        NumberVariable::Section => "section"@,
        NumberVariable::SupplementNumber => "supplement-number"@,
        NumberVariable::Version => "version"@,
        NumberVariable::Volume => "volume"@,
    }
}

impl NumberVariable {
    /// The serialized name.
    pub fn name_str(&self) -> (r: &'static str)
        ensures
            r@ == spec_number_variable_name(*self),
    {
        match self {
            Self::ChapterNumber => "chapter-number",
            Self::CitationNumber => "citation-number",
            Self::CollectionNumber => "collection-number",
            Self::Edition => "edition",
            Self::FirstReferenceNoteNumber => "first-reference-note-number",
            Self::Issue => "issue",
            Self::Locator => "locator",
            Self::Number => "number",
            Self::NumberOfPages => "number-of-pages",
            Self::NumberOfVolumes => "number-of-volumes",
            Self::Page => "page",
            Self::PageFirst => "page-first",
            Self::PartNumber => "part-number",
            Self::PrintingNumber => "printing-number",
            Self::Section => "section",
            Self::SupplementNumber => "supplement-number",
            Self::Version => "version",
            Self::Volume => "volume",
        }
    }
}

/// The serialized name of a date variable.
pub open spec fn spec_date_variable_name(v: DateVariable) -> Seq<char> {
    match v {
        DateVariable::Accessed => "accessed"@,
        DateVariable::AvailableDate => "available-date"@,
        DateVariable::EventDate => "event-date"@,
        DateVariable::Issued => "issued"@,
        DateVariable::OriginalDate => "original-date"@,
        DateVariable::Submitted => "submitted"@,
    }
}

impl DateVariable {
    /// The serialized name.
    pub fn name_str(&self) -> (r: &'static str)
        ensures
            r@ == spec_date_variable_name(*self),
    {
        match self {
            Self::Accessed => "accessed",
            Self::AvailableDate => "available-date",
            Self::EventDate => "event-date",
            Self::Issued => "issued",
            Self::OriginalDate => "original-date",
            Self::Submitted => "submitted",
        }
    }
}

/// The serialized name of a name variable.
pub open spec fn spec_name_variable_name(v: NameVariable) -> Seq<char> {
    match v {
        NameVariable::Author => "author"@,
        NameVariable::Chair => "chair"@,
        NameVariable::CollectionEditor => "collection-editor"@,
        NameVariable::Compiler => "compiler"@,
        NameVariable::Composer => "composer"@,
        NameVariable::ContainerAuthor => "container-author"@,
        NameVariable::Contributor => "contributor"@,
        NameVariable::Curator => "curator"@,
        NameVariable::Director => "director"@,
        NameVariable::Editor => "editor"@,
        NameVariable::EditorialDirector => "editorial-director"@,
        NameVariable::EditorTranslator => "editortranslator"@,
        NameVariable::ExecutiveProducer => "executive-producer"@,
        NameVariable::Guest => "guest"@,
        NameVariable::Host => "host"@,
        NameVariable::Illustrator => "illustrator"@,
        NameVariable::Interviewer => "interviewer"@,
        NameVariable::Narrator => "narrator"@,
        NameVariable::Organizer => "organizer"@,
        NameVariable::OriginalAuthor => "original-author"@,
        NameVariable::Performer => "performer"@,
        NameVariable::Producer => "producer"@,
        NameVariable::Recipient => "recipient"@,
        NameVariable::ReviewedAuthor => "reviewed-author"@,
        NameVariable::ScriptWriter => "script-writer"@,
        NameVariable::SeriesCreator => "series-creator"@,
        NameVariable::Translator => "translator"@,
    }
}

impl NameVariable {
    /// The serialized name.
    pub fn name_str(&self) -> (r: &'static str)
        ensures
            r@ == spec_name_variable_name(*self),
    {
        match self {
            Self::Author => "author",
            Self::Chair => "chair",
            Self::CollectionEditor => "collection-editor",
            Self::Compiler => "compiler",
            Self::Composer => "composer",
            Self::ContainerAuthor => "container-author",
            Self::Contributor => "contributor",
            Self::Curator => "curator",
            Self::Director => "director",
            Self::Editor => "editor",
            Self::EditorialDirector => "editorial-director",
            Self::EditorTranslator => "editortranslator",
            Self::ExecutiveProducer => "executive-producer",
            Self::Guest => "guest",
            Self::Host => "host",
            Self::Illustrator => "illustrator",
            Self::Interviewer => "interviewer",
            Self::Narrator => "narrator",
            Self::Organizer => "organizer",
            Self::OriginalAuthor => "original-author",
            Self::Performer => "performer",
            Self::Producer => "producer",
            Self::Recipient => "recipient",
            Self::ReviewedAuthor => "reviewed-author",
            Self::ScriptWriter => "script-writer",
            Self::SeriesCreator => "series-creator",
            Self::Translator => "translator",
        }
    }
}

/// The serialized name of a variable.
pub open spec fn spec_variable_name(v: Variable) -> Seq<char> {
    match v {
        Variable::Standard(x) => spec_standard_variable_name(x),
        Variable::Number(x) => spec_number_variable_name(x),
        Variable::Date(x) => spec_date_variable_name(x),
        Variable::Name(x) => spec_name_variable_name(x),
    }
}

impl Variable {
    /// The serialized name.
    pub fn name_str(&self) -> (r: &'static str)
        ensures
            r@ == spec_variable_name(*self),
    {
        match self {
            Self::Standard(x) => x.name_str(),
            Self::Number(x) => x.name_str(),
            Self::Date(x) => x.name_str(),
            Self::Name(x) => x.name_str(),
        }
    }
}

/// A number padded to at least two digits, as ordinal names write it.
pub open spec fn spec_two_padded(n: int) -> Seq<char> {
    if n < 10 {
        seq!['0', crate::num::spec_digit_char(n)]
    } else {
        crate::num::spec_dec_digits(n)
    }
}

/// The serialized name of a general term. Numbered ordinals write their
/// value padded to two digits.
pub open spec fn spec_other_term_name_str(v: OtherTerm) -> Seq<char> {
    match v {
        OtherTerm::OrdinalN(i) => "ordinal-"@ + spec_two_padded(i as int),
        OtherTerm::LongOrdinal(i) => "long-ordinal-"@ + spec_two_padded(i as int),
        OtherTerm::Ordinal => "ordinal"@,
        OtherTerm::OpenQuote => "open-quote"@,
        OtherTerm::CloseQuote => "close-quote"@,
        OtherTerm::OpenInnerQuote => "open-inner-quote"@,
        OtherTerm::CloseInnerQuote => "close-inner-quote"@,
        OtherTerm::PageRangeDelimiter => "page-range-delimiter"@,
        OtherTerm::Colon => "colon"@,
        OtherTerm::Comma => "comma"@,
        OtherTerm::Semicolon => "semicolon"@,
        OtherTerm::Anthropology => "anthropology"@,
        OtherTerm::Astronomy => "astronomy"@,
        OtherTerm::Biology => "biology"@,
        OtherTerm::Botany => "botany"@,
        OtherTerm::Chemistry => "chemistry"@,
        OtherTerm::Engineering => "engineering"@,
        OtherTerm::GenericBase => "generic-base"@,
        OtherTerm::Geography => "geography"@,
        OtherTerm::Geology => "geology"@,
        OtherTerm::History => "history"@,
        OtherTerm::Humanities => "humanities"@,
        OtherTerm::Literature => "literature"@,
        OtherTerm::Math => "math"@,
        OtherTerm::Medicine => "medicine"@,
        OtherTerm::Philosophy => "philosophy"@,
        OtherTerm::Physics => "physics"@,
        OtherTerm::Psychology => "psychology"@,
        OtherTerm::Sociology => "sociology"@,
        OtherTerm::Science => "science"@,
        OtherTerm::PoliticalScience => "political_science"@,
        OtherTerm::SocialScience => "social_science"@,
        OtherTerm::Theology => "theology"@,
        OtherTerm::Zoology => "zoology"@,
        OtherTerm::Accessed => "accessed"@,
        OtherTerm::Ad => "ad"@,
        OtherTerm::AdvanceOnlinePublication => "advance-online-publication"@,
        OtherTerm::Album => "album"@,
        OtherTerm::And => "and"@,
        OtherTerm::AndOthers => "and-others"@,
        OtherTerm::Anonymous => "anonymous"@,
        OtherTerm::At => "at"@,
        OtherTerm::AudioRecording => "audio-recording"@,
        OtherTerm::AvailableAt => "available at"@,
        OtherTerm::Bc => "bc"@,
        OtherTerm::Bce => "bce"@,
        OtherTerm::By => "by"@,
        OtherTerm::Ce => "ce"@,
        OtherTerm::Circa => "circa"@,
        OtherTerm::Cited => "cited"@,
        OtherTerm::EtAl => "et-al"@,
        OtherTerm::Film => "film"@,
        OtherTerm::Forthcoming => "forthcoming"@,
        OtherTerm::From => "from"@,
        OtherTerm::Henceforth => "henceforth"@,
        OtherTerm::Ibid => "ibid"@,
        OtherTerm::In => "in"@,
        OtherTerm::InPress => "in press"@,
        OtherTerm::Internet => "internet"@,
        OtherTerm::Interview => "interview"@,
        OtherTerm::Letter => "letter"@,
        OtherTerm::LocCit => "loc-cit"@,
        OtherTerm::NoDate => "no date"@,
        OtherTerm::NoPlace => "no-place"@,
        OtherTerm::NoPublisher => "no-publisher"@,
        OtherTerm::On => "on"@,
        OtherTerm::Online => "online"@,
        OtherTerm::OpCit => "op-cit"@,
        OtherTerm::OriginalWorkPublished => "original-work-published"@,
        OtherTerm::PersonalCommunication => "personal-communication"@,
        OtherTerm::Podcast => "podcast"@,
        OtherTerm::PodcastEpisode => "podcast-episode"@,
        OtherTerm::Preprint => "preprint"@,
        OtherTerm::PresentedAt => "presented at"@,
        OtherTerm::RadioBroadcast => "radio-broadcast"@,
        OtherTerm::RadioSeries => "radio-series"@,
        OtherTerm::RadioSeriesEpisode => "radio-series-episode"@,
        OtherTerm::Reference => "reference"@,
        OtherTerm::Retrieved => "retrieved"@,
        OtherTerm::ReviewOf => "review-of"@,
        OtherTerm::Scale => "scale"@,
        OtherTerm::SpecialIssue => "special-issue"@,
        OtherTerm::SpecialSection => "special-section"@,
        OtherTerm::TelevisionBroadcast => "television-broadcast"@,
        OtherTerm::TelevisionSeries => "television-series"@,
        OtherTerm::TelevisionSeriesEpisode => "television-series-episode"@,
        OtherTerm::Video => "video"@,
        OtherTerm::WorkingPaper => "working-paper"@,
        OtherTerm::Month01 => "month-01"@,
        OtherTerm::Month02 => "month-02"@,
        OtherTerm::Month03 => "month-03"@,
        OtherTerm::Month04 => "month-04"@,
        OtherTerm::Month05 => "month-05"@,
        OtherTerm::Month06 => "month-06"@,
        OtherTerm::Month07 => "month-07"@,
        OtherTerm::Month08 => "month-08"@,
        OtherTerm::Month09 => "month-09"@,
        OtherTerm::Month10 => "month-10"@,
        OtherTerm::Month11 => "month-11"@,
        OtherTerm::Month12 => "month-12"@,
        OtherTerm::Season01 => "season-01"@,
        OtherTerm::Season02 => "season-02"@,
        OtherTerm::Season03 => "season-03"@,
        OtherTerm::Season04 => "season-04"@,
    }
}

impl OtherTerm {
    /// The serialized name.
    pub fn name_str(&self) -> (r: String)
        ensures
            r@ == spec_other_term_name_str(*self),
    {
        match self {
            Self::OrdinalN(i) => {
                let mut buf = String::from_str("ordinal-");
                push_two_padded(&mut buf, *i);
                proof {
                    assert(buf@ =~= spec_other_term_name_str(*self));
                }
                buf
            },
            Self::LongOrdinal(i) => {
                let mut buf = String::from_str("long-ordinal-");
                push_two_padded(&mut buf, *i);
                proof {
                    assert(buf@ =~= spec_other_term_name_str(*self));
                }
                buf
            },
            Self::Ordinal => String::from_str("ordinal"),
            Self::OpenQuote => String::from_str("open-quote"),
            Self::CloseQuote => String::from_str("close-quote"),
            Self::OpenInnerQuote => String::from_str("open-inner-quote"),
            Self::CloseInnerQuote => String::from_str("close-inner-quote"),
            Self::PageRangeDelimiter => String::from_str("page-range-delimiter"),
            Self::Colon => String::from_str("colon"),
            Self::Comma => String::from_str("comma"),
            Self::Semicolon => String::from_str("semicolon"),
            Self::Anthropology => String::from_str("anthropology"),
            Self::Astronomy => String::from_str("astronomy"),
            Self::Biology => String::from_str("biology"),
            Self::Botany => String::from_str("botany"),
            Self::Chemistry => String::from_str("chemistry"),
            Self::Engineering => String::from_str("engineering"),
            Self::GenericBase => String::from_str("generic-base"),
            Self::Geography => String::from_str("geography"),
            Self::Geology => String::from_str("geology"),
            Self::History => String::from_str("history"),
            Self::Humanities => String::from_str("humanities"),
            Self::Literature => String::from_str("literature"),
            Self::Math => String::from_str("math"),
            Self::Medicine => String::from_str("medicine"),
            Self::Philosophy => String::from_str("philosophy"),
            Self::Physics => String::from_str("physics"),
            Self::Psychology => String::from_str("psychology"),
            Self::Sociology => String::from_str("sociology"),
            Self::Science => String::from_str("science"),
            Self::PoliticalScience => String::from_str("political_science"),
            Self::SocialScience => String::from_str("social_science"),
            Self::Theology => String::from_str("theology"),
            Self::Zoology => String::from_str("zoology"),
            Self::Accessed => String::from_str("accessed"),
            Self::Ad => String::from_str("ad"),
            Self::AdvanceOnlinePublication => String::from_str("advance-online-publication"),
            Self::Album => String::from_str("album"),
            Self::And => String::from_str("and"),
            Self::AndOthers => String::from_str("and-others"),
            Self::Anonymous => String::from_str("anonymous"),
            Self::At => String::from_str("at"),
            Self::AudioRecording => String::from_str("audio-recording"),
            Self::AvailableAt => String::from_str("available at"),
            Self::Bc => String::from_str("bc"),
            Self::Bce => String::from_str("bce"),
            Self::By => String::from_str("by"),
            Self::Ce => String::from_str("ce"),
            Self::Circa => String::from_str("circa"),
            Self::Cited => String::from_str("cited"),
            Self::EtAl => String::from_str("et-al"),
            Self::Film => String::from_str("film"),
            Self::Forthcoming => String::from_str("forthcoming"),
            Self::From => String::from_str("from"),
            Self::Henceforth => String::from_str("henceforth"),
            Self::Ibid => String::from_str("ibid"),
            Self::In => String::from_str("in"),
            Self::InPress => String::from_str("in press"),
            Self::Internet => String::from_str("internet"),
            Self::Interview => String::from_str("interview"),
            Self::Letter => String::from_str("letter"),
            Self::LocCit => String::from_str("loc-cit"),
            Self::NoDate => String::from_str("no date"),
            Self::NoPlace => String::from_str("no-place"),
            Self::NoPublisher => String::from_str("no-publisher"),
            Self::On => String::from_str("on"),
            Self::Online => String::from_str("online"),
            Self::OpCit => String::from_str("op-cit"),
            Self::OriginalWorkPublished => String::from_str("original-work-published"),
            Self::PersonalCommunication => String::from_str("personal-communication"),
            Self::Podcast => String::from_str("podcast"),
            Self::PodcastEpisode => String::from_str("podcast-episode"),
            Self::Preprint => String::from_str("preprint"),
            Self::PresentedAt => String::from_str("presented at"),
            Self::RadioBroadcast => String::from_str("radio-broadcast"),
            Self::RadioSeries => String::from_str("radio-series"),
            Self::RadioSeriesEpisode => String::from_str("radio-series-episode"),
            Self::Reference => String::from_str("reference"),
            Self::Retrieved => String::from_str("retrieved"),
            Self::ReviewOf => String::from_str("review-of"),
            Self::Scale => String::from_str("scale"),
            Self::SpecialIssue => String::from_str("special-issue"),
            Self::SpecialSection => String::from_str("special-section"),
            Self::TelevisionBroadcast => String::from_str("television-broadcast"),
            Self::TelevisionSeries => String::from_str("television-series"),
            Self::TelevisionSeriesEpisode => String::from_str("television-series-episode"),
            Self::Video => String::from_str("video"),
            Self::WorkingPaper => String::from_str("working-paper"),
            Self::Month01 => String::from_str("month-01"),
            Self::Month02 => String::from_str("month-02"),
            Self::Month03 => String::from_str("month-03"),
            Self::Month04 => String::from_str("month-04"),
            Self::Month05 => String::from_str("month-05"),
            Self::Month06 => String::from_str("month-06"),
            Self::Month07 => String::from_str("month-07"),
            Self::Month08 => String::from_str("month-08"),
            Self::Month09 => String::from_str("month-09"),
            Self::Month10 => String::from_str("month-10"),
            Self::Month11 => String::from_str("month-11"),
            Self::Month12 => String::from_str("month-12"),
            Self::Season01 => String::from_str("season-01"),
            Self::Season02 => String::from_str("season-02"),
            Self::Season03 => String::from_str("season-03"),
            Self::Season04 => String::from_str("season-04"),
        }
    }
}

/// Append a number padded to at least two digits.
fn push_two_padded(buf: &mut String, n: u8)
    ensures
        final(buf)@ == old(buf)@ + spec_two_padded(n as int),
{
    if n < 10 {
        proof {
            reveal_strlit("0");
        }
        buf.append("0");
    }
    crate::num::push_dec_i64(buf, n as i64);
    proof {
        assert(final(buf)@ =~= old(buf)@ + spec_two_padded(n as int));
    }
}

impl TermConversionError {
    /// A human-readable description of the error.
    pub fn message(&self) -> (r: &'static str)
        ensures
            match self {
                TermConversionError::OutOfRange => r@ == "value out of range"@,
                TermConversionError::Unknown => r@ == "unknown term"@,
            },
    {
        match self {
            Self::OutOfRange => "value out of range",
            Self::Unknown => "unknown term",
        }
    }
}

} // verus!
