//! A library for working with CSL (Citation Style Language) styles.
//!
//! The crate models a citation style as a validated, strongly typed document
//! tree. A raw style record is classified as either an independent style,
//! which carries its own layouts and settings, or a dependent style, which
//! only points at a parent. Around that tree the crate resolves the cascade
//! of inheritable name options, evaluates conditional rendering branches,
//! looks up localized terms and ordinals, parses date values, and formats
//! page ranges according to the named house styles.
//!
//! Reading and writing the XML and CBOR wire formats is a codec concern that
//! lives outside this crate; the functions here operate on plain values.

pub mod citation;
pub mod elements;
pub mod formatting;
pub mod json;
pub mod lang;
pub mod locale;
pub mod names;
pub mod num;
pub mod pages;
pub mod style;
pub mod taxonomy;
pub mod util;

pub use citation::Bibliography;
pub use citation::Citation;
pub use citation::Collapse;
pub use citation::DisambiguationRule;
pub use citation::SecondFieldAlign;
pub use citation::Sort;
pub use citation::SortDirection;
pub use citation::SortKey;
pub use citation::SubsequentAuthorSubstituteRule;
pub use elements::Choose;
pub use elements::ChooseBranch;
pub use elements::ChooseMatch;
pub use elements::ChooseTest;
pub use elements::CslMacro;
pub use elements::Date;
pub use elements::DateAnyForm;
pub use elements::DateDayForm;
pub use elements::DateForm;
pub use elements::DateMonthForm;
pub use elements::DatePart;
pub use elements::DatePartName;
pub use elements::DateParts;
pub use elements::DateStrongAnyForm;
pub use elements::ElseBranch;
pub use elements::Group;
pub use elements::Label;
pub use elements::LabelPluralize;
pub use elements::Layout;
pub use elements::LayoutRenderingElement;
pub use elements::LongShortForm;
pub use elements::Number;
pub use elements::NumberForm;
pub use elements::RenderingElement;
pub use elements::Substitute;
pub use elements::TestPosition;
pub use elements::Text;
pub use elements::TextTarget;
pub use elements::VariablelessLabel;
pub use formatting::Affixes;
pub use formatting::Display;
pub use formatting::FontStyle;
pub use formatting::FontVariant;
pub use formatting::FontWeight;
pub use formatting::Formatting;
pub use formatting::TextCase;
pub use formatting::TextDecoration;
pub use formatting::ToAffixes;
pub use formatting::ToFormatting;
pub use formatting::VerticalAlign;
pub use lang::BaseLanguage;
pub use lang::BaseLanguageView;
pub use lang::LocaleCode;
pub use locale::GrammarGender;
pub use locale::Locale;
pub use locale::LocaleFile;
pub use locale::LocaleInfo;
pub use locale::LocaleOptions;
pub use locale::LocalizedTerm;
pub use locale::OrdinalLookup;
pub use locale::OrdinalMatch;
pub use locale::TermForm;
pub use locale::Terms;
pub use names::DelimiterBehavior;
pub use names::EtAl;
pub use names::EtAlTerm;
pub use names::InheritableNameOptions;
pub use names::Name;
pub use names::NameAnd;
pub use names::NameAsSortOrder;
pub use names::NameForm;
pub use names::NameLabelPosition;
pub use names::NameOptions;
pub use names::NamePart;
pub use names::NamePartName;
pub use names::Names;
pub use names::NamesChild;
pub use pages::PageRangeFormat;
pub use pages::changed_part;
pub use pages::closest_smaller_power_of_10;
pub use pages::expand;
pub use style::CitationFormat;
pub use style::DemoteNonDroppingParticle;
pub use style::DependentStyle;
pub use style::Field;
pub use style::IndependentStyle;
pub use style::IndependentStyleSettings;
pub use style::InfoLink;
pub use style::InfoLinkRel;
pub use style::License;
pub use style::LocalString;
pub use style::PurgeLevel;
pub use style::RawStyle;
pub use style::Style;
pub use style::StyleAttribution;
pub use style::StyleCategory;
pub use style::StyleClass;
pub use style::StyleInfo;
pub use style::StyleValidationError;
pub use style::Timestamp;
