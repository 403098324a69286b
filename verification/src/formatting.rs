//! Shared formatting, affix, and text-case attributes.

use vstd::prelude::*;

use crate::util::clone_string_opt;

verus! {

/// Formatting properties.
#[derive(Debug, Default, Copy, Clone, Eq, PartialEq, Hash, Structural)]
pub struct Formatting {
    /// Set the font style.
    pub font_style: Option<FontStyle>,
    /// Choose normal or small caps.
    pub font_variant: Option<FontVariant>,
    /// Set the font weight.
    pub font_weight: Option<FontWeight>,
    /// Choose underlining.
    pub text_decoration: Option<TextDecoration>,
    /// Choose vertical alignment.
    pub vertical_align: Option<VerticalAlign>,
}

/// The merge of a formatting with a base: each field takes the overriding
/// value where set, else the base's.
pub open spec fn spec_formatting_apply(over: Formatting, base: Formatting) -> Formatting {
    Formatting {
        font_style: if over.font_style is Some {
            over.font_style
        } else {
            base.font_style
        },
        font_variant: if over.font_variant is Some {
            over.font_variant
        } else {
            base.font_variant
        },
        font_weight: if over.font_weight is Some {
            over.font_weight
        } else {
            base.font_weight
        },
        text_decoration: if over.text_decoration is Some {
            over.text_decoration
        } else {
            base.text_decoration
        },
        vertical_align: if over.vertical_align is Some {
            over.vertical_align
        } else {
            base.vertical_align
        },
    }
}

impl Formatting {
    /// Check if this formatting is empty.
    pub fn is_empty(&self) -> (r: bool)
        ensures
            r == (self.font_style is None && self.font_variant is None && self.font_weight
                is None && self.text_decoration is None && self.vertical_align is None),
    {
        self.font_style.is_none() && self.font_variant.is_none() && self.font_weight.is_none()
            && self.text_decoration.is_none() && self.vertical_align.is_none()
    }

    /// Merge with a base formatting.
    pub fn apply(self, base: Self) -> (r: Self)
        ensures
            r == spec_formatting_apply(self, base),
    {
        Self {
            font_style: if self.font_style.is_some() {
                self.font_style
            } else {
                base.font_style
            },
            font_variant: if self.font_variant.is_some() {
                self.font_variant
            } else {
                base.font_variant
            },
            font_weight: if self.font_weight.is_some() {
                self.font_weight
            } else {
                base.font_weight
            },
            text_decoration: if self.text_decoration.is_some() {
                self.text_decoration
            } else {
                base.text_decoration
            },
            vertical_align: if self.vertical_align.is_some() {
                self.vertical_align
            } else {
                base.vertical_align
            },
        }
    }
}

/// Font style.
#[derive(Debug, Default, Copy, Clone, Eq, PartialEq, Hash, Structural)]
pub enum FontStyle {
    /// Normal font style.
    #[default]
    Normal,
    /// Italic font style.
    Italic,
}

/// Font variant.
#[derive(Debug, Default, Copy, Clone, Eq, PartialEq, Hash, Structural)]
pub enum FontVariant {
    /// Normal font variant.
    #[default]
    Normal,
    /// Small caps font variant.
    SmallCaps,
}

/// Font weight.
#[derive(Debug, Default, Copy, Clone, Eq, PartialEq, Hash, Structural)]
pub enum FontWeight {
    /// Normal font weight.
    #[default]
    Normal,
    /// Bold font weight.
    Bold,
    /// Light font weight.
    Light,
}

/// Text decoration.
#[derive(Debug, Default, Copy, Clone, Eq, PartialEq, Hash, Structural)]
pub enum TextDecoration {
    /// No text decoration.
    #[default]
    NoDecoration,
    /// Underline text decoration.
    Underline,
}

/// Vertical alignment.
#[derive(Debug, Default, Copy, Clone, Eq, PartialEq, Hash, Structural)]
pub enum VerticalAlign {
    /// No vertical alignment.
    #[default]
    NoAlign,
    /// Align on the baseline.
    Baseline,
    /// Superscript vertical alignment.
    Sup,
    /// Subscript vertical alignment.
    Sub,
}

/// Prefixes and suffixes.
#[derive(Debug, Default, Eq, PartialEq, Hash)]
pub struct Affixes {
    /// The prefix.
    pub prefix: Option<String>,
    /// The suffix.
    pub suffix: Option<String>,
}

impl Clone for Affixes {
    fn clone(&self) -> (r: Self)
        ensures
            r == *self,
    {
        Affixes {
            prefix: clone_string_opt(&self.prefix),
            suffix: clone_string_opt(&self.suffix),
        }
    }
}

/// On which layout level to display the citation.
#[derive(Debug, Copy, Clone, Eq, PartialEq, Hash, Structural)]
pub enum Display {
    /// Block stretching from margin to margin.
    Block,
    /// Put in the left margin.
    LeftMargin,
    /// Align on page after `LeftMargin`.
    RightInline,
    /// `Block` and indented.
    Indent,
}

/// How to format text.
#[derive(Debug, Copy, Clone, Eq, PartialEq, Hash, Structural)]
pub enum TextCase {
    /// lowercase.
    Lowercase,
    /// UPPERCASE.
    Uppercase,
    /// Capitalize the first word.
    CapitalizeFirst,
    /// Capitalize All Words.
    CapitalizeAll,
    /// Sentence case. *Deprecated*.
    SentenceCase,
    /// Title case. Only applies to English.
    TitleCase,
}

impl TextCase {
    /// Check whether this case can be applied to languages other than
    /// English.
    pub fn is_language_independent(self) -> (r: bool)
        ensures
            r == !(self is SentenceCase || self is TitleCase),
    {
        match self {
            Self::Lowercase | Self::Uppercase | Self::CapitalizeFirst | Self::CapitalizeAll => true,
            Self::SentenceCase | Self::TitleCase => false,
        }
    }
}

/// Allow every struct with formatting properties to convert to a
/// `Formatting`.
pub trait ToFormatting {
    /// Obtain a `Formatting`.
    fn to_formatting(&self) -> Formatting;
}

/// Allow every struct with affix properties to convert to an `Affixes`.
pub trait ToAffixes {
    /// Obtain the `Affixes`.
    fn to_affixes(&self) -> Affixes;
}

} // verus!
