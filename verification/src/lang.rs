//! Locale codes: RFC 1766 language tags, their base language, and the
//! fallback table from bare language codes to region-qualified ones.

use vstd::prelude::*;

verus! {

/// An RFC 1766 language code.
#[derive(Debug, Eq, PartialEq, Hash)]
pub struct LocaleCode(pub String);

impl View for LocaleCode {
    type V = Seq<char>;

    open spec fn view(&self) -> Seq<char> {
        self.0@
    }
}

impl Clone for LocaleCode {
    fn clone(&self) -> (r: Self)
        ensures
            r == *self,
    {
        LocaleCode(self.0.clone())
    }
}

/// The base language in a [`LocaleCode`].
#[derive(Debug, Eq, PartialEq, Hash)]
pub enum BaseLanguage {
    /// An ISO 639-1 language code of two letters.
    Iso639_1(String),
    /// An IANA language code.
    Iana(String),
    /// An unregistered / experimental language code of up to eight letters.
    Unregistered(String),
}

/// The shape of a parsed base language, over character sequences.
pub enum BaseLanguageView {
    /// An ISO 639-1 language code of two letters.
    Iso639_1(Seq<char>),
    /// An IANA language code.
    Iana(Seq<char>),
    /// An unregistered / experimental language code of up to eight letters.
    Unregistered(Seq<char>),
}

impl View for BaseLanguage {
    type V = BaseLanguageView;

    open spec fn view(&self) -> BaseLanguageView {
        match self {
            BaseLanguage::Iso639_1(s) => BaseLanguageView::Iso639_1(s@),
            BaseLanguage::Iana(s) => BaseLanguageView::Iana(s@),
            BaseLanguage::Unregistered(s) => BaseLanguageView::Unregistered(s@),
        }
    }
}

/// The code characters carried by a base language.
pub open spec fn spec_base_language_code(v: BaseLanguageView) -> Seq<char> {
    match v {
        BaseLanguageView::Iso639_1(s) => s,
        BaseLanguageView::Iana(s) => s,
        BaseLanguageView::Unregistered(s) => s,
    }
}

impl BaseLanguage {
    /// Get the language code.
    pub fn as_str(&self) -> (r: &str)
        ensures
            r@ == spec_base_language_code(self@),
    {
        match self {
            Self::Iso639_1(code) => code.as_str(),
            Self::Iana(code) => code.as_str(),
            Self::Unregistered(code) => code.as_str(),
        }
    }
}

/// The index of the first dash in a character sequence, or its length if it
/// has none.
pub open spec fn spec_dash_index(s: Seq<char>) -> nat
    decreases s.len(),
{
    if s.len() == 0 {
        0
    } else if s[0] == '-' {
        0
    } else {
        1 + spec_dash_index(s.subrange(1, s.len() as int))
    }
}

proof fn lemma_dash_index_is(s: Seq<char>, i: int)
    requires
        0 <= i <= s.len(),
        forall|j: int| 0 <= j < i ==> s[j] != '-',
        i < s.len() ==> s[i] == '-',
    ensures
        spec_dash_index(s) == i,
    decreases i,
{
    if s.len() == 0 {
    } else if i == 0 {
    } else {
        let rest = s.subrange(1, s.len() as int);
        lemma_dash_index_is(rest, i - 1);
    }
}

/// The dash-separated parts of a character sequence, in order. Always at
/// least one part; a trailing or doubled dash yields an empty part.
pub open spec fn spec_split_dash(s: Seq<char>) -> Seq<Seq<char>>
    decreases s.len(),
{
    let i = spec_dash_index(s) as int;
    if i >= s.len() {
        seq![s]
    } else {
        seq![s.subrange(0, i)] + spec_split_dash(s.subrange(i + 1, s.len() as int))
    }
}

pub proof fn lemma_split_dash_len(s: Seq<char>)
    ensures
        spec_split_dash(s).len() >= 1,
    decreases s.len(),
{
    let i = spec_dash_index(s) as int;
    if i < s.len() {
        lemma_split_dash_len(s.subrange(i + 1, s.len() as int));
    }
}

/// The index of the first dash in `s`, or its length if it has none.
fn find_dash(s: &str) -> (i: usize)
    ensures
        i == spec_dash_index(s@),
        i <= s@.len(),
{
    let n = s.unicode_len();
    let mut i: usize = 0;
    while i < n
        invariant
            i <= n,
            n == s@.len(),
            forall|j: int| 0 <= j < i ==> s@[j] != '-',
        decreases n - i,
    {
        if s.get_char(i) == '-' {
            proof {
                lemma_dash_index_is(s@, i as int);
            }
            return i;
        }
        i += 1;
    }
    proof {
        lemma_dash_index_is(s@, i as int);
    }
    i
}

/// Split a string at dashes. A trailing or doubled dash yields an empty
/// part.
fn split_dash(s: &str) -> (parts: Vec<String>)
    ensures
        parts@.len() == spec_split_dash(s@).len(),
        forall|k: int| 0 <= k < parts@.len() ==> parts@[k]@ == #[trigger] spec_split_dash(s@)[k],
        parts@.len() >= 1,
    decreases s@.len(),
{
    proof {
        lemma_split_dash_len(s@);
    }
    let i = find_dash(s);
    let n = s.unicode_len();
    if i >= n {
        let mut v: Vec<String> = Vec::new();
        v.push(String::from_str(s));
        proof {
            assert(spec_split_dash(s@) =~= seq![s@]);
        }
        v
    } else {
        let head = s.substring_char(0, i);
        let tail = s.substring_char(i + 1, n);
        let rest = split_dash(tail);
        let mut v: Vec<String> = Vec::new();
        v.push(String::from_str(head));
        let mut k: usize = 0;
        while k < rest.len()
            invariant
                v@.len() == 1 + k,
                k <= rest@.len(),
                v@[0]@ == head@,
                forall|j: int| 0 <= j < k ==> v@[j + 1]@ == #[trigger] rest@[j]@,
                forall|j: int| 0 <= j < rest@.len() ==> rest@[j]@ == #[trigger] spec_split_dash(
                    tail@,
                )[j],
            decreases rest.len() - k,
        {
            v.push(rest[k].clone());
            k += 1;
        }
        v
    }
}

/// What parsing a locale code's base language yields.
pub open spec fn spec_parse_base(s: Seq<char>) -> Option<BaseLanguageView> {
    let parts = spec_split_dash(s);
    let first = parts[0];
    if first == seq!['i'] || first == seq!['I'] {
        if parts.len() < 2 || parts[1].len() == 0 {
            None
        } else {
            Some(BaseLanguageView::Iana(parts[1]))
        }
    } else if first == seq!['x'] || first == seq!['X'] {
        if parts.len() < 2 || parts[1].len() == 0 || parts[1].len() > 8 {
            None
        } else {
            Some(BaseLanguageView::Unregistered(parts[1]))
        }
    } else if first.len() == 2 {
        Some(BaseLanguageView::Iso639_1(first))
    } else {
        None
    }
}

/// The region-qualified locale that a bare two-letter language code maps to,
/// if the fallback table lists the language.
pub open spec fn spec_lang_region(c0: char, c1: char) -> Option<Seq<char>> {
    if c0 == 'a' && c1 == 'f' {
        Some("af-ZA"@)
    } else if c0 == 'b' && c1 == 'g' {
        Some("bg-BG"@)
    } else if c0 == 'c' && c1 == 'a' {
        Some("ca-AD"@)
    } else if c0 == 'c' && c1 == 's' {
        Some("cs-CZ"@)
    } else if c0 == 'd' && c1 == 'a' {
        Some("da-DK"@)
    } else if c0 == 'd' && c1 == 'e' {
        Some("de-DE"@)
    } else if c0 == 'e' && c1 == 'l' {
        Some("el-GR"@)
    } else if c0 == 'e' && c1 == 'n' {
        Some("en-US"@)
    } else if c0 == 'e' && c1 == 's' {
        Some("es-ES"@)
    } else if c0 == 'e' && c1 == 't' {
        Some("et-EE"@)
    } else if c0 == 'f' && c1 == 'a' {
        Some("fa-IR"@)
    } else if c0 == 'f' && c1 == 'i' {
        Some("fi-FI"@)
    } else if c0 == 'f' && c1 == 'r' {
        Some("fr-FR"@)
    } else if c0 == 'h' && c1 == 'e' {
        Some("he-IL"@)
    } else if c0 == 'h' && c1 == 'r' {
        Some("hr-HR"@)
    } else if c0 == 'h' && c1 == 'u' {
        Some("hu-HU"@)
    } else if c0 == 'i' && c1 == 's' {
        Some("is-IS"@)
    } else if c0 == 'i' && c1 == 't' {
        Some("it-IT"@)
    } else if c0 == 'j' && c1 == 'a' {
        Some("ja-JP"@)
    } else if c0 == 'k' && c1 == 'm' {
        Some("km-KH"@)
    } else if c0 == 'k' && c1 == 'o' {
        Some("ko-KR"@)
    } else if c0 == 'l' && c1 == 't' {
        Some("lt-LT"@)
    } else if c0 == 'l' && c1 == 'v' {
        Some("lv-LV"@)
    } else if c0 == 'm' && c1 == 'n' {
        Some("mn-MN"@)
    } else if c0 == 'n' && c1 == 'b' {
        Some("nb-NO"@)
    } else if c0 == 'n' && c1 == 'l' {
        Some("nl-NL"@)
    } else if c0 == 'n' && c1 == 'n' {
        Some("nn-NO"@)
    } else if c0 == 'p' && c1 == 'l' {
        Some("pl-PL"@)
    } else if c0 == 'p' && c1 == 't' {
        Some("pt-PT"@)
    } else if c0 == 'r' && c1 == 'o' {
        Some("ro-RO"@)
    } else if c0 == 'r' && c1 == 'u' {
        Some("ru-RU"@)
    } else if c0 == 's' && c1 == 'k' {
        Some("sk-SK"@)
    } else if c0 == 's' && c1 == 'l' {
        Some("sl-SI"@)
    } else if c0 == 's' && c1 == 'r' {
        Some("sr-RS"@)
    } else if c0 == 's' && c1 == 'v' {
        Some("sv-SE"@)
    } else if c0 == 't' && c1 == 'h' {
        Some("th-TH"@)
    } else if c0 == 't' && c1 == 'r' {
        Some("tr-TR"@)
    } else if c0 == 'u' && c1 == 'k' {
        Some("uk-UA"@)
    } else if c0 == 'v' && c1 == 'i' {
        Some("vi-VN"@)
    } else if c0 == 'z' && c1 == 'h' {
        Some("zh-CN"@)
    } else {
        None
    }
}

fn lang_region(c0: char, c1: char) -> (r: Option<&'static str>)
    ensures
        match r {
            Some(m) => spec_lang_region(c0, c1) == Some(m@),
            None => spec_lang_region(c0, c1) is None,
        },
{
    if c0 == 'a' && c1 == 'f' {
        Some("af-ZA")
    } else if c0 == 'b' && c1 == 'g' {
        Some("bg-BG")
    } else if c0 == 'c' && c1 == 'a' {
        Some("ca-AD")
    } else if c0 == 'c' && c1 == 's' {
        Some("cs-CZ")
    } else if c0 == 'd' && c1 == 'a' {
        Some("da-DK")
    } else if c0 == 'd' && c1 == 'e' {
        Some("de-DE")
    } else if c0 == 'e' && c1 == 'l' {
        Some("el-GR")
    } else if c0 == 'e' && c1 == 'n' {
        Some("en-US")
    } else if c0 == 'e' && c1 == 's' {
        Some("es-ES")
    } else if c0 == 'e' && c1 == 't' {
        Some("et-EE")
    } else if c0 == 'f' && c1 == 'a' {
        Some("fa-IR")
    } else if c0 == 'f' && c1 == 'i' {
        Some("fi-FI")
    } else if c0 == 'f' && c1 == 'r' {
        Some("fr-FR")
    } else if c0 == 'h' && c1 == 'e' {
        Some("he-IL")
    } else if c0 == 'h' && c1 == 'r' {
        Some("hr-HR")
    } else if c0 == 'h' && c1 == 'u' {
        Some("hu-HU")
    } else if c0 == 'i' && c1 == 's' {
        Some("is-IS")
    } else if c0 == 'i' && c1 == 't' {
        Some("it-IT")
    } else if c0 == 'j' && c1 == 'a' {
        Some("ja-JP")
    } else if c0 == 'k' && c1 == 'm' {
        Some("km-KH")
    } else if c0 == 'k' && c1 == 'o' {
        Some("ko-KR")
    } else if c0 == 'l' && c1 == 't' {
        Some("lt-LT")
    } else if c0 == 'l' && c1 == 'v' {
        Some("lv-LV")
    } else if c0 == 'm' && c1 == 'n' {
        Some("mn-MN")
    } else if c0 == 'n' && c1 == 'b' {
        Some("nb-NO")
    } else if c0 == 'n' && c1 == 'l' {
        Some("nl-NL")
    } else if c0 == 'n' && c1 == 'n' {
        Some("nn-NO")
    } else if c0 == 'p' && c1 == 'l' {
        Some("pl-PL")
    } else if c0 == 'p' && c1 == 't' {
        Some("pt-PT")
    } else if c0 == 'r' && c1 == 'o' {
        Some("ro-RO")
    } else if c0 == 'r' && c1 == 'u' {
        Some("ru-RU")
    } else if c0 == 's' && c1 == 'k' {
        Some("sk-SK")
    } else if c0 == 's' && c1 == 'l' {
        Some("sl-SI")
    } else if c0 == 's' && c1 == 'r' {
        Some("sr-RS")
    } else if c0 == 's' && c1 == 'v' {
        Some("sv-SE")
    } else if c0 == 't' && c1 == 'h' {
        Some("th-TH")
    } else if c0 == 't' && c1 == 'r' {
        Some("tr-TR")
    } else if c0 == 'u' && c1 == 'k' {
        Some("uk-UA")
    } else if c0 == 'v' && c1 == 'i' {
        Some("vi-VN")
    } else if c0 == 'z' && c1 == 'h' {
        Some("zh-CN")
    } else {
        None
    }
}

/// What looking up the fallback locale yields: for a two-letter base
/// language in the table, the region-qualified code, unless it equals the
/// input; nothing otherwise.
pub open spec fn spec_fallback(s: Seq<char>) -> Option<Seq<char>> {
    match spec_parse_base(s) {
        Some(BaseLanguageView::Iso639_1(code)) => match spec_lang_region(code[0], code[1]) {
            Some(m) => if m == s {
                None
            } else {
                Some(m)
            },
            None => None,
        },
        _ => None,
    }
}

impl LocaleCode {
    /// Get the US English locale.
    pub fn en_us() -> (r: Self)
        ensures
            r@ == "en-US"@,
    {
        Self(String::from_str("en-US"))
    }

    /// Get the base language code.
    pub fn parse_base(&self) -> (r: Option<BaseLanguage>)
        ensures
            match r {
                Some(b) => spec_parse_base(self@) == Some(b@),
                None => spec_parse_base(self@) is None,
            },
    {
        let parts = split_dash(self.0.as_str());
        let first = &parts[0];
        let first_len = first.as_str().unicode_len();
        if first_len == 1 && (first.as_str().get_char(0) == 'i' || first.as_str().get_char(0)
            == 'I') {
            proof {
                assert(first@ =~= seq![first@[0]]);
            }
            if parts.len() < 2 {
                return None;
            }
            let second = &parts[1];
            if second.as_str().unicode_len() == 0 {
                return None;
            }
            Some(BaseLanguage::Iana(second.clone()))
        } else if first_len == 1 && (first.as_str().get_char(0) == 'x' || first.as_str().get_char(
            0,
        ) == 'X') {
            proof {
                assert(first@ =~= seq![first@[0]]);
            }
            if parts.len() < 2 {
                return None;
            }
            let second = &parts[1];
            let second_len = second.as_str().unicode_len();
            if second_len == 0 || second_len > 8 {
                return None;
            }
            Some(BaseLanguage::Unregistered(second.clone()))
        } else {
            proof {
                if first@ == seq!['i'] || first@ == seq!['I'] || first@ == seq!['x'] || first@
                    == seq!['X'] {
                    assert(first@.len() == 1);
                }
            }
            if first_len == 2 {
                Some(BaseLanguage::Iso639_1(first.clone()))
            } else {
                None
            }
        }
    }

    /// Get the language's extensions: the dash-separated parts after the
    /// base language, skipping the private-use or IANA marker.
    pub fn extensions(&self) -> (r: Vec<String>)
        ensures
            ({
                let parts = spec_split_dash(self@);
                let start: int = if parts[0] == seq!['x'] || parts[0] == seq!['X'] || parts[0]
                    == seq!['i'] || parts[0] == seq!['I'] {
                    2
                } else {
                    1
                };
                &&& r@.len() == if parts.len() >= start {
                    parts.len() - start
                } else {
                    0
                }
                &&& forall|k: int| 0 <= k < r@.len() ==> r@[k]@ == #[trigger] parts[k + start]
            }),
    {
        let parts = split_dash(self.0.as_str());
        let first = &parts[0];
        let first_len = first.as_str().unicode_len();
        let marker = first_len == 1 && {
            let c = first.as_str().get_char(0);
            c == 'x' || c == 'X' || c == 'i' || c == 'I'
        };
        proof {
            assert(first@.len() == 1 ==> first@ =~= seq![first@[0]]);
            if spec_split_dash(self@)[0] == seq!['x'] || spec_split_dash(self@)[0] == seq!['X']
                || spec_split_dash(self@)[0] == seq!['i'] || spec_split_dash(self@)[0]
                == seq!['I'] {
                assert(first@.len() == 1);
            }
        }
        let start: usize = if marker {
            2
        } else {
            1
        };
        let mut r: Vec<String> = Vec::new();
        let mut k: usize = start;
        while k < parts.len()
            invariant
                start <= k,
                k <= parts.len() || k == start,
                r@.len() == if k >= start {
                    k - start
                } else {
                    0
                },
                forall|j: int| 0 <= j < r@.len() ==> r@[j]@ == #[trigger] parts@[j + start]@,
                forall|j: int| 0 <= j < parts@.len() ==> parts@[j]@ == #[trigger] spec_split_dash(
                    self@,
                )[j],
                parts@.len() == spec_split_dash(self@).len(),
            decreases parts.len() - k,
        {
            r.push(parts[k].clone());
            k += 1;
        }
        r
    }

    /// Check whether the language is English.
    pub fn is_english(&self) -> (r: bool)
        ensures
            r == (self@.len() >= 2 && self@[0] == 'e' && self@[1] == 'n' && (self@.len() == 2
                || self@[2] == '-')),
    {
        let n = self.0.as_str().unicode_len();
        n >= 2 && self.0.as_str().get_char(0) == 'e' && self.0.as_str().get_char(1) == 'n' && (n
            == 2 || self.0.as_str().get_char(2) == '-')
    }

    /// Get the fallback locale for a locale.
    pub fn fallback(&self) -> (r: Option<LocaleCode>)
        ensures
            match r {
                Some(c) => spec_fallback(self@) == Some(c@),
                None => spec_fallback(self@) is None,
            },
    {
        let base = self.parse_base();
        match base {
            Some(BaseLanguage::Iso639_1(code)) => {
                let c0 = code.as_str().get_char(0);
                let c1 = code.as_str().get_char(1);
                proof {
                    assert(code@ =~= seq![code@[0], code@[1]]);
                }
                match lang_region(c0, c1) {
                    Some(m) => {
                        let mapped = String::from_str(m);
                        if mapped == self.0 {
                            None
                        } else {
                            Some(LocaleCode(mapped))
                        }
                    },
                    None => None,
                }
            },
            _ => None,
        }
    }
}

} // verus!
