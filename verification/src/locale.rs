//! Locale data: localized terms, term forms, and ordinal lookup.
//!
//! A locale carries localized terms keyed by term identity and form.
//! Ordinal terms are resolved through a lookup built once per locale: in
//! legacy mode a number is classified by its last digit into one of four
//! classes; otherwise each numbered ordinal term declares its own match
//! rule and candidates are scored by value range, gender, and closeness.

use vstd::prelude::*;

use crate::elements::Date;
use crate::lang::LocaleCode;
use crate::taxonomy::OtherTerm;
use crate::taxonomy::Term;
use crate::taxonomy::spec_term_is_lexically_same;
use crate::taxonomy::spec_term_is_ordinal;
use crate::util::clone_string_opt;

verus! {

/// The variant of a term translation.
#[derive(Debug, Default, Copy, Clone, Eq, PartialEq, Hash, Structural)]
pub enum TermForm {
    /// The default variant.
    #[default]
    Long,
    /// The short noun variant.
    Short,
    /// The related verb.
    Verb,
    /// The related verb (short form).
    VerbShort,
    /// The symbol variant.
    Symbol,
}

/// The single static fallback of each term form: symbol falls back to
/// short, short and verb to long, the short verb to the verb; long has no
/// fallback.
pub open spec fn spec_term_form_fallback(f: TermForm) -> Option<TermForm> {
    match f {
        TermForm::Long => None,
        TermForm::Short => Some(TermForm::Long),
        TermForm::Verb => Some(TermForm::Long),
        TermForm::VerbShort => Some(TermForm::Verb),
        TermForm::Symbol => Some(TermForm::Short),
    }
}

impl TermForm {
    /// Which form is the next fallback if this form is not available.
    pub fn fallback(self) -> (r: Option<Self>)
        ensures
            r == spec_term_form_fallback(self),
    {
        match self {
            Self::Long => None,
            Self::Short => Some(Self::Long),
            Self::Verb => Some(Self::Long),
            Self::VerbShort => Some(Self::Verb),
            Self::Symbol => Some(Self::Short),
        }
    }
}

/// Specify when which ordinal term is used.
#[derive(Debug, Default, Copy, Clone, Eq, PartialEq, Hash, Structural)]
pub enum OrdinalMatch {
    /// Match the last digit for ordinal terms between zero and nine and the
    /// last two otherwise.
    #[default]
    LastDigit,
    /// Always match on the last two non-zero digits.
    LastTwoDigits,
    /// Match on the exact number.
    WholeNumber,
}

/// A grammatical gender. Use `None` for neutral.
#[allow(missing_docs)]
#[derive(Debug, Copy, Clone, Eq, PartialEq, Hash, Structural)]
pub enum GrammarGender {
    Feminine,
    Masculine,
}

/// Options for the locale.
#[derive(Debug, Copy, Clone, Eq, PartialEq, Hash, Structural)]
pub struct LocaleOptions {
    /// Only use ordinals for the first day in a month.
    pub limit_day_ordinals_to_day_1: Option<bool>,
    /// Whether to place punctuation inside of quotation marks.
    pub punctuation_in_quote: Option<bool>,
}

/// Root element of a locale file.
#[derive(Debug, Eq, PartialEq, Hash)]
pub struct LocaleFile {
    /// The version of the locale file.
    pub version: String,
    /// Which languages or dialects this data applies to.
    pub lang: LocaleCode,
    /// Metadata of the locale.
    pub info: Option<LocaleInfo>,
    /// The terms used in the locale.
    pub terms: Option<Terms>,
    /// How to format dates in the locale file.
    pub date: Vec<Date>,
    /// Style options for the locale.
    pub style_options: Option<LocaleOptions>,
}

/// Supplemental localization data in a citation style.
#[derive(Debug, Eq, PartialEq, Hash)]
pub struct Locale {
    /// Which languages or dialects this data applies to. Must be set if
    /// this comes from a locale file.
    pub lang: Option<LocaleCode>,
    /// Metadata of the locale.
    pub info: Option<LocaleInfo>,
    /// The terms used in the locale.
    pub terms: Option<Terms>,
    /// How to format dates in the locale file.
    pub date: Vec<Date>,
    /// Style options for the locale.
    pub style_options: Option<LocaleOptions>,
}

/// Metadata of a locale.
#[derive(Debug, Eq, PartialEq, Hash)]
pub struct LocaleInfo {
    /// The translators of the locale.
    pub translators: Vec<crate::style::StyleAttribution>,
    /// The license under which the locale is published.
    pub rights: Option<crate::style::License>,
    /// When the locale was last updated.
    pub updated: Option<crate::style::Timestamp>,
}

/// Term localization container.
#[derive(Debug, Eq, PartialEq, Hash)]
pub struct Terms {
    /// The terms.
    pub terms: Vec<LocalizedTerm>,
}

/// A localized term.
#[derive(Debug, Eq, PartialEq, Hash)]
pub struct LocalizedTerm {
    /// The term key.
    pub name: Term,
    /// The plain localization, used where no singular or plural variant
    /// is given.
    pub localization: Option<String>,
    /// The singular variant.
    pub single: Option<String>,
    /// The plural variant.
    pub multiple: Option<String>,
    /// The variant of this term translation.
    pub form: TermForm,
    /// Specify when this ordinal term is used.
    pub match_: Option<OrdinalMatch>,
    /// Specify for which grammatical gender this term has to get
    /// corresponding ordinals.
    pub gender: Option<GrammarGender>,
    /// Specify which grammatical gender this ordinal term matches.
    pub gender_form: Option<GrammarGender>,
}

impl Clone for LocalizedTerm {
    fn clone(&self) -> (r: Self)
        ensures
            r == *self,
    {
        LocalizedTerm {
            name: self.name,
            localization: clone_string_opt(&self.localization),
            single: clone_string_opt(&self.single),
            multiple: clone_string_opt(&self.multiple),
            form: self.form,
            match_: self.match_,
            gender: self.gender,
            gender_form: self.gender_form,
        }
    }
}

/// The singular text of a term translation: the singular variant, else the
/// plain localization.
pub open spec fn spec_term_single(t: LocalizedTerm) -> Option<Seq<char>> {
    if t.single is Some {
        Some(t.single.unwrap()@)
    } else if t.localization is Some {
        Some(t.localization.unwrap()@)
    } else {
        None
    }
}

/// The plural text of a term translation: the plural variant, else the
/// plain localization.
pub open spec fn spec_term_multiple(t: LocalizedTerm) -> Option<Seq<char>> {
    if t.multiple is Some {
        Some(t.multiple.unwrap()@)
    } else if t.localization is Some {
        Some(t.localization.unwrap()@)
    } else {
        None
    }
}

impl LocalizedTerm {
    /// Get the singular variant of this term translation. Shall be defined
    /// for valid CSL files.
    pub fn single(&self) -> (r: Option<&str>)
        ensures
            match r {
                Some(s) => spec_term_single(*self) == Some(s@),
                None => spec_term_single(*self) is None,
            },
    {
        match &self.single {
            Some(s) => Some(s.as_str()),
            None => match &self.localization {
                Some(s) => Some(s.as_str()),
                None => None,
            },
        }
    }

    /// Get the plural variant of this term translation. Shall be defined
    /// for valid CSL files.
    pub fn multiple(&self) -> (r: Option<&str>)
        ensures
            match r {
                Some(s) => spec_term_multiple(*self) == Some(s@),
                None => spec_term_multiple(*self) is None,
            },
    {
        match &self.multiple {
            Some(s) => Some(s.as_str()),
            None => match &self.localization {
                Some(s) => Some(s.as_str()),
                None => None,
            },
        }
    }
}

/// The first term entry with the given key and form, from position `i` on.
/// Keys compare by serialized name.
pub open spec fn spec_term_lookup_from(
    terms: Seq<LocalizedTerm>,
    term: Term,
    form: TermForm,
    i: int,
) -> Option<LocalizedTerm>
    decreases terms.len() - i,
{
    if i < 0 || i >= terms.len() {
        None
    } else if spec_term_is_lexically_same(terms[i].name, term) && terms[i].form == form {
        Some(terms[i])
    } else {
        spec_term_lookup_from(terms, term, form, i + 1)
    }
}

impl Locale {
    /// Get a term translation: the first entry whose key serializes like
    /// the requested term and whose form matches exactly. The resolver
    /// performs one lookup per call and does not walk the form fallback
    /// chain itself.
    pub fn term(&self, term: Term, form: TermForm) -> (r: Option<&LocalizedTerm>)
        ensures
            match (r, &self.terms) {
                (Some(t), Some(ts)) => spec_term_lookup_from(ts.terms@, term, form, 0) == Some(
                    *t,
                ),
                (None, Some(ts)) => spec_term_lookup_from(ts.terms@, term, form, 0) is None,
                (None, None) => true,
                (Some(_), None) => false,
            },
    {
        if self.terms.is_none() {
            return None;
        }
        let terms = self.terms.as_ref().unwrap();
        let n = terms.terms.len();
        let mut i: usize = 0;
        while i < n
            invariant
                self.terms is Some,
                *terms == self.terms.unwrap(),
                i <= n,
                n == terms.terms@.len(),
                spec_term_lookup_from(terms.terms@, term, form, 0) == spec_term_lookup_from(
                    terms.terms@,
                    term,
                    form,
                    i as int,
                ),
            decreases n - i,
        {
            let t = &terms.terms[i];
            if t.name.is_lexically_same(term) && term_form_eq(t.form, form) {
                return Some(t);
            }
            i += 1;
        }
        None
    }

    /// Retrieve a struct for ordinal term lookups if this locale contains
    /// any ordinal terms.
    pub fn ordinals(&self) -> (r: Option<OrdinalLookup>)
        ensures
            match (r, &self.terms) {
                (Some(l), Some(ts)) => {
                    &&& exists|i: int|
                        0 <= i < ts.terms@.len() && spec_term_is_ordinal(
                            #[trigger] ts.terms@[i].name,
                        )
                    &&& l.terms@ == spec_ordinal_terms(ts.terms@)
                    &&& l.legacy_behavior == spec_legacy_behavior(spec_ordinal_terms(ts.terms@))
                },
                (None, Some(ts)) => !exists|i: int|
                    0 <= i < ts.terms@.len() && spec_term_is_ordinal(#[trigger] ts.terms@[i].name),
                (None, None) => true,
                (Some(_), None) => false,
            },
    {
        if self.terms.is_none() {
            return None;
        }
        let terms = self.terms.as_ref().unwrap();
        let n = terms.terms.len();
        let mut ordinals: Vec<LocalizedTerm> = Vec::new();
        let mut any = false;
        let mut i: usize = 0;
        proof {
            assert(terms.terms@.subrange(0, 0) =~= Seq::<LocalizedTerm>::empty());
            reveal_with_fuel(Seq::filter, 2);
        }
        while i < n
            invariant
                self.terms is Some,
                *terms == self.terms.unwrap(),
                i <= n,
                n == terms.terms@.len(),
                ordinals@ == spec_ordinal_terms(terms.terms@.subrange(0, i as int)),
                any == exists|j: int|
                    0 <= j < i && spec_term_is_ordinal(#[trigger] terms.terms@[j].name),
            decreases n - i,
        {
            proof {
                assert(terms.terms@.subrange(0, i + 1) =~= terms.terms@.subrange(0, i as int).push(
                    terms.terms@[i as int],
                ));
                lemma_ordinal_terms_push(terms.terms@.subrange(0, i as int), terms.terms@[i as int]);
            }
            let t = &terms.terms[i];
            if t.name.is_ordinal() {
                any = true;
                ordinals.push(t.clone());
            }
            i += 1;
        }
        proof {
            assert(terms.terms@.subrange(0, n as int) =~= terms.terms@);
        }
        if any {
            Some(OrdinalLookup::new(ordinals))
        } else {
            None
        }
    }

    /// Convert a locale file into a locale.
    pub fn from_file(file: LocaleFile) -> (r: Self)
        ensures
            r.lang == Some(file.lang),
            r.info == file.info,
            r.terms == file.terms,
            r.date == file.date,
            r.style_options == file.style_options,
    {
        Self {
            lang: Some(file.lang),
            info: file.info,
            terms: file.terms,
            date: file.date,
            style_options: file.style_options,
        }
    }
}

impl LocaleFile {
    /// Convert a locale into a locale file; fails when the locale names no
    /// language.
    pub fn from_locale(value: Locale) -> (r: Result<Self, ()>)
        ensures
            value.lang is Some <==> r is Ok,
            match r {
                Ok(f) => {
                    &&& f.version@ == "1.0"@
                    &&& Some(f.lang) == value.lang
                    &&& f.info == value.info
                    &&& f.terms == value.terms
                    &&& f.date == value.date
                    &&& f.style_options == value.style_options
                },
                Err(()) => value.lang is None,
            },
    {
        if value.lang.is_some() {
            let lang = match value.lang {
                Some(l) => l,
                None => {
                    proof {
                        assert(false);
                    }
                    LocaleCode::en_us()
                },
            };
            Ok(Self {
                version: String::from_str("1.0"),
                lang,
                info: value.info,
                terms: value.terms,
                date: value.date,
                style_options: value.style_options,
            })
        } else {
            Err(())
        }
    }
}

fn term_form_eq(a: TermForm, b: TermForm) -> (r: bool)
    ensures
        r == (a == b),
{
    a == b
}

/// The ordinal-shaped entries of a term list, in order.
pub open spec fn spec_ordinal_terms(terms: Seq<LocalizedTerm>) -> Seq<LocalizedTerm> {
    terms.filter(|t: LocalizedTerm| spec_term_is_ordinal(t.name))
}

proof fn lemma_ordinal_terms_push(s: Seq<LocalizedTerm>, x: LocalizedTerm)
    ensures
        spec_ordinal_terms(s.push(x)) == if spec_term_is_ordinal(x.name) {
            spec_ordinal_terms(s).push(x)
        } else {
            spec_ordinal_terms(s)
        },
{
    reveal_with_fuel(Seq::filter, 2);
    assert(s.push(x).drop_last() =~= s);
    assert(s.push(x).last() == x);
}

/// Whether a term list holds an entry for the given term key.
pub open spec fn spec_has_term(terms: Seq<LocalizedTerm>, name: Term) -> bool {
    exists|i: int| 0 <= i < terms.len() && #[trigger] terms[i].name == name
}

/// Whether an ordinal term list triggers the legacy behavior: it defines
/// no generic ordinal term, and all four legacy ordinal-class terms.
pub open spec fn spec_legacy_behavior(terms: Seq<LocalizedTerm>) -> bool {
    &&& !spec_has_term(terms, Term::Other(OtherTerm::Ordinal))
    &&& spec_has_term(terms, Term::Other(OtherTerm::OrdinalN(1)))
    &&& spec_has_term(terms, Term::Other(OtherTerm::OrdinalN(2)))
    &&& spec_has_term(terms, Term::Other(OtherTerm::OrdinalN(3)))
    &&& spec_has_term(terms, Term::Other(OtherTerm::OrdinalN(4)))
}

/// Get the right forms of ordinal terms for numbers.
#[derive(Debug, Eq, PartialEq, Hash)]
pub struct OrdinalLookup {
    /// The locale's ordinal-shaped terms, in order.
    pub terms: Vec<LocalizedTerm>,
    /// Whether the legacy per-class lookup is active.
    pub legacy_behavior: bool,
}

/// The magnitude of a number.
pub open spec fn spec_abs(x: int) -> int {
    if x >= 0 {
        x
    } else {
        -x
    }
}

/// The remainder of truncated division, as machine arithmetic computes
/// it: the remainder takes the sign of the dividend.
pub open spec fn spec_trunc_mod(n: int, m: int) -> int {
    if n >= 0 {
        n % m
    } else {
        -((-n) % m)
    }
}

/// The legacy ordinal class of a number: eleven through thirteen fall in
/// class four, other numbers are classed by their last digit, with digits
/// outside one through three falling in class four.
pub open spec fn spec_legacy_class(n: int) -> int {
    if 11 <= n <= 13 {
        4
    } else if 1 <= spec_trunc_mod(n, 10) <= 3 {
        spec_trunc_mod(n, 10)
    } else {
        4
    }
}

/// Whether an ordinal term matches the number `n`: the generic ordinal
/// term always matches; in legacy mode a numbered term matches the
/// number's legacy class; otherwise a numbered term matches per its
/// declared rule, matching the last digit or last two digits by default
/// depending on the term's value.
pub open spec fn spec_ordinal_hit(legacy: bool, t: LocalizedTerm, n: int) -> bool {
    match t.name {
        Term::Other(o) => match o {
            OtherTerm::Ordinal => true,
            OtherTerm::OrdinalN(v) => if legacy {
                v == spec_legacy_class(n)
            } else if v <= 9 {
                match t.match_ {
                    Some(OrdinalMatch::LastTwoDigits) => spec_trunc_mod(n, 100) == v,
                    Some(OrdinalMatch::WholeNumber) => n == v,
                    _ => spec_trunc_mod(n, 10) == v,
                }
            } else if v <= 99 {
                match t.match_ {
                    Some(OrdinalMatch::WholeNumber) => n == v,
                    Some(OrdinalMatch::LastDigit) => false,
                    _ => spec_trunc_mod(n, 100) == v,
                }
            } else {
                false
            },
            _ => false,
        },
        _ => false,
    }
}

/// The better of the current best match and a new matching candidate: a
/// candidate that is no numbered ordinal never displaces a numbered one; a
/// term of value at least ten beats one below ten; then a term whose
/// gender tag equals the requested gender beats one whose does not; then
/// the term whose value lies closest to the number wins, the later
/// candidate on ties.
pub open spec fn spec_better_match(
    cur: Option<LocalizedTerm>,
    cand: LocalizedTerm,
    n: int,
    gender: Option<GrammarGender>,
) -> Option<LocalizedTerm> {
    match cur {
        None => Some(cand),
        Some(c) => match cand.name {
            Term::Other(OtherTerm::OrdinalN(cand_n)) => match c.name {
                Term::Other(OtherTerm::OrdinalN(cur_n)) => Some(
                    if cand_n >= 10 && cur_n < 10 {
                        cand
                    } else if cand_n < 10 && cur_n >= 10 {
                        c
                    } else if gender == c.gender && gender != cand.gender {
                        c
                    } else if gender != c.gender && gender == cand.gender {
                        cand
                    } else if spec_abs(n - cand_n) <= spec_abs(n - cur_n) {
                        cand
                    } else {
                        c
                    },
                ),
                _ => Some(cand),
            },
            _ => cur,
        },
    }
}

/// The best ordinal match among the terms from position `i` on, carrying
/// the best match so far.
pub open spec fn spec_best_match(
    terms: Seq<LocalizedTerm>,
    i: int,
    acc: Option<LocalizedTerm>,
    legacy: bool,
    n: int,
    gender: Option<GrammarGender>,
) -> Option<LocalizedTerm>
    decreases terms.len() - i,
{
    if i < 0 || i >= terms.len() {
        acc
    } else {
        let acc2 = if spec_ordinal_hit(legacy, terms[i], n) {
            spec_better_match(acc, terms[i], n, gender)
        } else {
            acc
        };
        spec_best_match(terms, i + 1, acc2, legacy, n, gender)
    }
}

/// What a short-ordinal lookup yields: the singular (else plural) text of
/// the best matching term.
pub open spec fn spec_ordinal_lookup(
    l: OrdinalLookup,
    n: int,
    gender: Option<GrammarGender>,
) -> Option<Seq<char>> {
    match spec_best_match(l.terms@, 0, None, l.legacy_behavior, n, gender) {
        Some(t) => if spec_term_single(t) is Some {
            spec_term_single(t)
        } else {
            spec_term_multiple(t)
        },
        None => None,
    }
}

/// Whether a long-ordinal term matches the number `n`: numbers from one
/// through ten match the term of exactly that value; other numbers match
/// per the term's declared rule, the last two digits by default.
pub open spec fn spec_long_ordinal_hit(t: LocalizedTerm, n: int) -> bool {
    match t.name {
        Term::Other(OtherTerm::LongOrdinal(v)) => if 0 < n <= 10 {
            n == v
        } else {
            match t.match_ {
                Some(OrdinalMatch::WholeNumber) => n == v,
                Some(OrdinalMatch::LastDigit) => false,
                _ => spec_trunc_mod(n, 100) == v,
            }
        },
        _ => false,
    }
}

/// The first long-ordinal term matching `n`, from position `i` on.
pub open spec fn spec_long_ordinal_from(terms: Seq<LocalizedTerm>, n: int, i: int) -> Option<
    LocalizedTerm,
>
    decreases terms.len() - i,
{
    if i < 0 || i >= terms.len() {
        None
    } else if spec_long_ordinal_hit(terms[i], n) {
        Some(terms[i])
    } else {
        spec_long_ordinal_from(terms, n, i + 1)
    }
}

fn abs_diff_i64(n: i64, v: i64) -> (r: i64)
    requires
        -0x8000_0000 <= n <= 0x7fff_ffff,
        0 <= v <= 255,
    ensures
        r == spec_abs(n - v),
{
    if n >= v {
        n - v
    } else {
        v - n
    }
}

fn trunc_mod_i64(n: i64, m: i64) -> (r: i64)
    requires
        n > i64::MIN,
        0 < m,
    ensures
        r == spec_trunc_mod(n as int, m as int),
{
    if n >= 0 {
        n % m
    } else {
        -((-n) % m)
    }
}

impl OrdinalLookup {
    /// Build a lookup from the ordinal-shaped terms of a locale.
    pub fn new(terms: Vec<LocalizedTerm>) -> (r: Self)
        ensures
            r.terms == terms,
            r.legacy_behavior == spec_legacy_behavior(terms@),
    {
        let n = terms.len();
        let mut defines_ordinal = false;
        let mut has1 = false;
        let mut has2 = false;
        let mut has3 = false;
        let mut has4 = false;
        let mut i: usize = 0;
        while i < n
            invariant
                i <= n,
                n == terms@.len(),
                defines_ordinal == exists|j: int|
                    0 <= j < i && #[trigger] terms@[j].name == Term::Other(OtherTerm::Ordinal),
                has1 == exists|j: int|
                    0 <= j < i && #[trigger] terms@[j].name == Term::Other(OtherTerm::OrdinalN(1)),
                has2 == exists|j: int|
                    0 <= j < i && #[trigger] terms@[j].name == Term::Other(OtherTerm::OrdinalN(2)),
                has3 == exists|j: int|
                    0 <= j < i && #[trigger] terms@[j].name == Term::Other(OtherTerm::OrdinalN(3)),
                has4 == exists|j: int|
                    0 <= j < i && #[trigger] terms@[j].name == Term::Other(OtherTerm::OrdinalN(4)),
            decreases n - i,
        {
            let name = terms[i].name;
            if name == Term::Other(OtherTerm::Ordinal) {
                defines_ordinal = true;
            }
            if name == Term::Other(OtherTerm::OrdinalN(1)) {
                has1 = true;
            }
            if name == Term::Other(OtherTerm::OrdinalN(2)) {
                has2 = true;
            }
            if name == Term::Other(OtherTerm::OrdinalN(3)) {
                has3 = true;
            }
            if name == Term::Other(OtherTerm::OrdinalN(4)) {
                has4 = true;
            }
            i += 1;
        }
        let legacy_behavior = !defines_ordinal && has1 && has2 && has3 && has4;
        Self { terms, legacy_behavior }
    }

    /// Create an empty lookup that will never return matches.
    pub fn empty() -> (r: Self)
        ensures
            r.terms@.len() == 0,
            !r.legacy_behavior,
    {
        Self { terms: Vec::new(), legacy_behavior: false }
    }

    /// Look up a short ordinal for a number.
    pub fn lookup(&self, n: i32, gender: Option<GrammarGender>) -> (r: Option<&str>)
        ensures
            match r {
                Some(s) => spec_ordinal_lookup(*self, n as int, gender) == Some(s@),
                None => spec_ordinal_lookup(*self, n as int, gender) is None,
            },
    {
        let len = self.terms.len();
        let mut best: Option<usize> = None;
        let mut i: usize = 0;
        while i < len
            invariant
                i <= len,
                len == self.terms@.len(),
                match best {
                    Some(b) => b < len && spec_best_match(
                        self.terms@,
                        i as int,
                        Some(self.terms@[b as int]),
                        self.legacy_behavior,
                        n as int,
                        gender,
                    ) == spec_best_match(
                        self.terms@,
                        0,
                        None,
                        self.legacy_behavior,
                        n as int,
                        gender,
                    ),
                    None => spec_best_match(
                        self.terms@,
                        i as int,
                        None,
                        self.legacy_behavior,
                        n as int,
                        gender,
                    ) == spec_best_match(
                        self.terms@,
                        0,
                        None,
                        self.legacy_behavior,
                        n as int,
                        gender,
                    ),
                },
            decreases len - i,
        {
            let t = &self.terms[i];
            if self.ordinal_hit(t, n) {
                best = match best {
                    None => Some(i),
                    Some(b) => Some(self.better_match(b, i, n, gender)),
                };
            }
            i += 1;
        }
        match best {
            Some(b) => {
                let t = &self.terms[b];
                match t.single() {
                    Some(s) => Some(s),
                    None => t.multiple(),
                }
            },
            None => None,
        }
    }

    fn ordinal_hit(&self, t: &LocalizedTerm, n: i32) -> (r: bool)
        ensures
            r == spec_ordinal_hit(self.legacy_behavior, *t, n as int),
    {
        let n64 = n as i64;
        match t.name {
            Term::Other(OtherTerm::Ordinal) => true,
            Term::Other(OtherTerm::OrdinalN(v)) => {
                if self.legacy_behavior {
                    let class: i64 = if 11 <= n && n <= 13 {
                        4
                    } else {
                        let last = trunc_mod_i64(n64, 10);
                        if 1 <= last && last <= 3 {
                            last
                        } else {
                            4
                        }
                    };
                    v as i64 == class
                } else if v <= 9 {
                    match t.match_ {
                        Some(OrdinalMatch::LastTwoDigits) => trunc_mod_i64(n64, 100) == v as i64,
                        Some(OrdinalMatch::WholeNumber) => n64 == v as i64,
                        _ => trunc_mod_i64(n64, 10) == v as i64,
                    }
                } else if v <= 99 {
                    match t.match_ {
                        Some(OrdinalMatch::WholeNumber) => n64 == v as i64,
                        Some(OrdinalMatch::LastDigit) => false,
                        _ => trunc_mod_i64(n64, 100) == v as i64,
                    }
                } else {
                    false
                }
            },
            _ => false,
        }
    }

    fn better_match(&self, cur: usize, cand: usize, n: i32, gender: Option<GrammarGender>) -> (r:
        usize)
        requires
            cur < self.terms@.len(),
            cand < self.terms@.len(),
        ensures
            r < self.terms@.len(),
            Some(self.terms@[r as int]) == spec_better_match(
                Some(self.terms@[cur as int]),
                self.terms@[cand as int],
                n as int,
                gender,
            ),
    {
        let cand_term = &self.terms[cand];
        let cur_term = &self.terms[cur];
        let cand_n: i64 = match cand_term.name {
            Term::Other(OtherTerm::OrdinalN(v)) => v as i64,
            _ => {
                return cur;
            },
        };
        let cur_n: i64 = match cur_term.name {
            Term::Other(OtherTerm::OrdinalN(v)) => v as i64,
            _ => {
                return cand;
            },
        };
        if cand_n >= 10 && cur_n < 10 {
            cand
        } else if cand_n < 10 && cur_n >= 10 {
            cur
        } else if gender_eq(gender, cur_term.gender) && !gender_eq(gender, cand_term.gender) {
            cur
        } else if !gender_eq(gender, cur_term.gender) && gender_eq(gender, cand_term.gender) {
            cand
        } else if abs_diff_i64(n as i64, cand_n) <= abs_diff_i64(n as i64, cur_n) {
            cand
        } else {
            cur
        }
    }

    /// Look up a long ordinal for a number. Does not include fallback to
    /// regular ordinals.
    pub fn lookup_long(&self, n: i32) -> (r: Option<&str>)
        ensures
            match r {
                Some(s) => match spec_long_ordinal_from(self.terms@, n as int, 0) {
                    Some(t) => (if spec_term_single(t) is Some {
                        spec_term_single(t)
                    } else {
                        spec_term_multiple(t)
                    }) == Some(s@),
                    None => false,
                },
                None => match spec_long_ordinal_from(self.terms@, n as int, 0) {
                    Some(t) => spec_term_single(t) is None && spec_term_multiple(t) is None,
                    None => true,
                },
            },
    {
        let len = self.terms.len();
        let mut i: usize = 0;
        while i < len
            invariant
                i <= len,
                len == self.terms@.len(),
                spec_long_ordinal_from(self.terms@, n as int, 0) == spec_long_ordinal_from(
                    self.terms@,
                    n as int,
                    i as int,
                ),
            decreases len - i,
        {
            let t = &self.terms[i];
            let hit = match t.name {
                Term::Other(OtherTerm::LongOrdinal(v)) => {
                    if 0 < n && n <= 10 {
                        n as i64 == v as i64
                    } else {
                        match t.match_ {
                            Some(OrdinalMatch::WholeNumber) => n as i64 == v as i64,
                            Some(OrdinalMatch::LastDigit) => false,
                            _ => trunc_mod_i64(n as i64, 100) == v as i64,
                        }
                    }
                },
                _ => false,
            };
            if hit {
                match t.single() {
                    Some(s) => {
                        return Some(s);
                    },
                    None => {
                        return t.multiple();
                    },
                }
            }
            i += 1;
        }
        None
    }
}

fn gender_eq(a: Option<GrammarGender>, b: Option<GrammarGender>) -> (r: bool)
    ensures
        r == (a == b),
{
    match (a, b) {
        (None, None) => true,
        (Some(x), Some(y)) => x == y,
        _ => false,
    }
}

} // verus!
