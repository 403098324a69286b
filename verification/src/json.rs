//! The flat bibliographic record format.
//!
//! A record maps string keys to string, number, name-list, or date values.
//! Dates come either as a raw textual range of the form
//! `YEAR[-MONTH[-DAY]][/YEAR[-MONTH[-DAY]]]` or as an explicit list of up
//! to three integer components per endpoint; the two forms are
//! interconvertible. Months and days are stored zero-based.

use vstd::prelude::*;

use crate::num::dec_string_i64;
use crate::num::spec_dec_int;
use crate::util::str_eq;

verus! {

/// A bibliographic item: a flat key-ordered mapping from field names to
/// values.
#[derive(Debug, Eq, PartialEq, Hash)]
pub struct Item(pub Vec<(String, Value)>);

/// The first value stored under the given key, from position `i` on.
pub open spec fn spec_item_get(entries: Seq<(String, Value)>, key: Seq<char>, i: int) -> Option<
    Value,
>
    decreases entries.len() - i,
{
    if i < 0 || i >= entries.len() {
        None
    } else if entries[i].0@ == key {
        Some(entries[i].1)
    } else {
        spec_item_get(entries, key, i + 1)
    }
}

/// Whether an entry with the given key exists.
pub open spec fn spec_item_has_key(entries: Seq<(String, Value)>, key: Seq<char>) -> bool {
    exists|i: int| 0 <= i < entries.len() && #[trigger] entries[i].0@ == key
}

/// Whether any entry's value contains HTML.
pub open spec fn spec_item_has_html(entries: Seq<(String, Value)>) -> bool {
    exists|i: int| 0 <= i < entries.len() && spec_value_has_html(#[trigger] entries[i].1)
}

impl Item {
    /// The item's ID, converted to a string if it is a string or number.
    pub fn id(&self) -> (r: Option<String>)
        ensures
            match (r, spec_item_get(self.0@, "id"@, 0)) {
                (Some(s), Some(v)) => spec_value_to_str(v) == Some(s@),
                (None, Some(v)) => spec_value_to_str(v) is None,
                (None, None) => true,
                (Some(_), None) => false,
            },
    {
        match self.get("id") {
            Some(v) => v.to_str(),
            None => None,
        }
    }

    /// The item type, converted to a string if it is a string or number.
    pub fn type_(&self) -> (r: Option<String>)
        ensures
            match (r, spec_item_get(self.0@, "type"@, 0)) {
                (Some(s), Some(v)) => spec_value_to_str(v) == Some(s@),
                (None, Some(v)) => spec_value_to_str(v) is None,
                (None, None) => true,
                (Some(_), None) => false,
            },
    {
        match self.get("type") {
            Some(v) => v.to_str(),
            None => None,
        }
    }

    /// Whether any of the field values contains any HTML.
    pub fn has_html(&self) -> (r: bool)
        ensures
            r == spec_item_has_html(self.0@),
    {
        let n = self.0.len();
        let mut i: usize = 0;
        while i < n
            invariant
                i <= n,
                n == self.0@.len(),
                forall|j: int| 0 <= j < i ==> !spec_value_has_html(#[trigger] self.0@[j].1),
            decreases n - i,
        {
            if self.0[i].1.has_html() {
                return true;
            }
            i += 1;
        }
        false
    }

    /// Whether this entry may contain "cheater syntax" for odd fields.
    pub fn may_have_hack(&self) -> (r: bool)
        ensures
            r == spec_item_has_key(self.0@, "note"@),
    {
        let n = self.0.len();
        let mut i: usize = 0;
        while i < n
            invariant
                i <= n,
                n == self.0@.len(),
                forall|j: int| 0 <= j < i ==> #[trigger] self.0@[j].0@ != "note"@,
            decreases n - i,
        {
            if str_eq(self.0[i].0.as_str(), "note") {
                return true;
            }
            i += 1;
        }
        false
    }

    fn get(&self, key: &str) -> (r: Option<&Value>)
        ensures
            match r {
                Some(v) => spec_item_get(self.0@, key@, 0) == Some(*v),
                None => spec_item_get(self.0@, key@, 0) is None,
            },
    {
        let n = self.0.len();
        let mut i: usize = 0;
        while i < n
            invariant
                i <= n,
                n == self.0@.len(),
                spec_item_get(self.0@, key@, 0) == spec_item_get(self.0@, key@, i as int),
            decreases n - i,
        {
            if str_eq(self.0[i].0.as_str(), key) {
                return Some(&self.0[i].1);
            }
            i += 1;
        }
        None
    }
}

fn str_has_angle_bracket(s: &str) -> (r: bool)
    ensures
        r == spec_has_angle_bracket(s@),
{
    let n = s.unicode_len();
    let mut i: usize = 0;
    while i < n
        invariant
            i <= n,
            n == s@.len(),
            forall|j: int| 0 <= j < i ==> s@[j] != '<',
        decreases n - i,
    {
        if s.get_char(i) == '<' {
            return true;
        }
        i += 1;
    }
    false
}

/// A field in a bibliographic item.
#[derive(Debug, Eq, PartialEq, Hash)]
pub enum Value {
    /// A string value.
    String(String),
    /// A number value.
    Number(i64),
    /// A list of names.
    Names(Vec<NameValue>),
    /// A date value.
    Date(DateValue),
}

/// The string a value converts to: the string itself, or a number's
/// decimal rendering; name lists and dates convert to nothing.
pub open spec fn spec_value_to_str(v: Value) -> Option<Seq<char>> {
    match v {
        Value::String(s) => Some(s@),
        Value::Number(n) => Some(spec_dec_int(n as int)),
        _ => None,
    }
}

/// Whether a character sequence contains an opening angle bracket.
pub open spec fn spec_has_angle_bracket(s: Seq<char>) -> bool {
    exists|j: int| 0 <= j < s.len() && s[j] == '<'
}

/// Whether a value contains HTML: a string value containing an angle
/// bracket.
pub open spec fn spec_value_has_html(v: Value) -> bool {
    match v {
        Value::String(s) => spec_has_angle_bracket(s@),
        _ => false,
    }
}

impl Value {
    /// Convert to a string if this is a string or number.
    pub fn to_str(&self) -> (r: Option<String>)
        ensures
            match r {
                Some(s) => spec_value_to_str(*self) == Some(s@),
                None => spec_value_to_str(*self) is None,
            },
    {
        match self {
            Value::String(s) => Some(s.clone()),
            Value::Number(n) => Some(dec_string_i64(*n)),
            Value::Date(_) => None,
            Value::Names(_) => None,
        }
    }

    /// Whether the value contains any HTML.
    pub fn has_html(&self) -> (r: bool)
        ensures
            r == spec_value_has_html(*self),
    {
        match self {
            Value::String(s) => str_has_angle_bracket(s.as_str()),
            _ => false,
        }
    }
}

/// The representation of a name.
#[derive(Debug, Eq, PartialEq, Hash)]
pub enum NameValue {
    /// A name that doesn't necessarily follow the schema of a `NameItem`.
    Literal(LiteralName),
    /// A name that is defined by a collection of parts.
    Item(NameItem),
}

/// A name that is defined by a collection of parts.
#[derive(Debug, Eq, PartialEq, Hash)]
pub struct NameItem {
    /// The family name.
    pub family: String,
    /// The given name.
    pub given: Option<String>,
    /// A name particle like `"de las"`.
    pub non_dropping_particle: Option<String>,
    /// A name particle like `"Rev."`.
    pub dropping_particle: Option<String>,
    /// A name suffix like `"Jr., Ph.D."`.
    pub suffix: Option<String>,
}

/// A name that doesn't necessarily follow the schema of a `NameItem`. May
/// be useful for institutional names.
#[derive(Debug, Eq, PartialEq, Hash)]
pub struct LiteralName {
    /// The literal name.
    pub literal: String,
}

/// The representation of a date.
#[allow(missing_docs)]
#[derive(Debug, Eq, PartialEq, Hash)]
pub enum DateValue {
    Raw {
        raw: FixedDateRange,
        literal: Option<String>,
        season: Option<String>,
    },
    DateParts {
        date_parts: VecDateRange,
        literal: Option<String>,
        season: Option<String>,
    },
}

impl DateValue {
    /// The date as a range of fixed components: a raw range as it stands,
    /// a component list converted.
    pub fn to_fixed_range(&self) -> (r: Result<FixedDateRange, ()>)
        requires
            spec_date_value_wf(*self),
        ensures
            match self {
                DateValue::Raw { raw, .. } => r == Ok::<FixedDateRange, ()>(*raw),
                DateValue::DateParts { date_parts, .. } => r == spec_fixed_range_from_vec(
                    date_parts.0@,
                ),
            },
    {
        match self {
            DateValue::Raw { raw, .. } => Ok(*raw),
            DateValue::DateParts { date_parts, .. } => FixedDateRange::from_vec_range(date_parts),
        }
    }

    /// The date as a range of component lists: a component list as it
    /// stands, a raw range converted.
    pub fn to_vec_range(&self) -> (r: VecDateRange)
        ensures
            match self {
                DateValue::Raw { raw, .. } => spec_vec_range_view(r) == spec_vec_range_from_fixed(
                    *raw,
                ),
                DateValue::DateParts { date_parts, .. } => spec_vec_range_view(r)
                    == spec_vec_range_view(*date_parts),
            },
    {
        match self {
            DateValue::Raw { raw, .. } => VecDateRange::from_fixed_range(*raw),
            DateValue::DateParts { date_parts, .. } => {
                let mut v: Vec<VecDate> = Vec::new();
                let n = date_parts.0.len();
                let mut i: usize = 0;
                while i < n
                    invariant
                        i <= n,
                        n == date_parts.0@.len(),
                        v@.len() == i,
                        forall|j: int| 0 <= j < i ==> v@[j].0@ == #[trigger] date_parts.0@[j].0@,
                    decreases n - i,
                {
                    v.push(VecDate(clone_i16_vec(&date_parts.0[i].0)));
                    i += 1;
                }
                let out = VecDateRange(v);
                proof {
                    assert(spec_vec_range_view(out) =~~= spec_vec_range_view(*date_parts));
                }
                out
            },
        }
    }
}

fn clone_i16_vec(v: &Vec<i16>) -> (r: Vec<i16>)
    ensures
        r@ == v@,
{
    let r = v.clone();
    proof {
        assert forall|i: int| 0 <= i < r@.len() implies r@[i] == v@[i] by {
            assert(cloned::<i16>(v@[i], r@[i]));
        }
        assert(r@ =~= v@);
    }
    r
}

/// A range of dates defined by arbitrary sequences of integer components.
#[derive(Debug, Eq, PartialEq, Hash)]
pub struct VecDateRange(pub Vec<VecDate>);

/// The component lists of a date range, as sequences.
pub open spec fn spec_vec_range_view(r: VecDateRange) -> Seq<Seq<i16>> {
    r.0@.map_values(|d: VecDate| d.0@)
}

/// The component lists that a fixed date range serializes to: one list
/// per endpoint, holding the stored year, zero-based month, and zero-based
/// day, as far as they are present.
pub open spec fn spec_vec_range_from_fixed(r: FixedDateRange) -> Seq<Seq<i16>> {
    match r.end {
        Some(e) => seq![spec_vec_from_fixed(r.start), spec_vec_from_fixed(e)],
        None => seq![spec_vec_from_fixed(r.start)],
    }
}

impl VecDateRange {
    /// Serialize a fixed date range into component lists.
    pub fn from_fixed_range(value: FixedDateRange) -> (r: Self)
        ensures
            spec_vec_range_view(r) == spec_vec_range_from_fixed(value),
    {
        let mut v: Vec<VecDate> = Vec::new();
        v.push(VecDate::from_fixed(value.start));
        match value.end {
            Some(end) => {
                v.push(VecDate::from_fixed(end));
            },
            None => {},
        }
        let r = VecDateRange(v);
        proof {
            assert(spec_vec_range_view(r) =~~= spec_vec_range_from_fixed(value));
        }
        r
    }
}

/// A date defined by an arbitrary sequence of integer components.
#[derive(Debug, Eq, PartialEq, Hash)]
pub struct VecDate(pub Vec<i16>);

/// The component list that a fixed date serializes to: the year, then the
/// stored zero-based month and day, as far as they are present.
pub open spec fn spec_vec_from_fixed(d: FixedDate) -> Seq<i16> {
    match d.month {
        Some(m) => match d.day {
            Some(day) => seq![d.year, m as i16, day as i16],
            None => seq![d.year, m as i16],
        },
        None => seq![d.year],
    }
}

impl VecDate {
    /// Serialize a fixed date into its component list.
    pub fn from_fixed(value: FixedDate) -> (r: Self)
        ensures
            r.0@ == spec_vec_from_fixed(value),
    {
        let mut v: Vec<i16> = Vec::new();
        v.push(value.year);
        match value.month {
            Some(month) => {
                v.push(month as i16);
                match value.day {
                    Some(day) => {
                        v.push(day as i16);
                    },
                    None => {},
                }
            },
            None => {},
        }
        let r = VecDate(v);
        proof {
            assert(r.0@ =~= spec_vec_from_fixed(value));
        }
        r
    }
}

/// A range of dates defined by fixed components.
#[derive(Debug, Clone, Copy, Eq, PartialEq, Hash, Structural)]
pub struct FixedDateRange {
    /// The start of the range.
    pub start: FixedDate,
    /// The optional end of the range.
    pub end: Option<FixedDate>,
}

/// The fixed date that a component list converts to: the first component
/// is the year; the second and third, where present, are taken for a
/// one-based month and day and stored decremented, wrapped into a byte.
pub open spec fn spec_fixed_from_vec(s: Seq<i16>) -> FixedDate {
    FixedDate {
        year: s[0],
        month: if s.len() >= 2 {
            Some(((s[1] - 1) % 256) as u8)
        } else {
            None
        },
        day: if s.len() >= 3 {
            Some(((s[2] - 1) % 256) as u8)
        } else {
            None
        },
    }
}

/// What converting a list of component lists to a fixed range yields:
/// failure for zero or more than two endpoints, else the converted start
/// and optional end.
pub open spec fn spec_fixed_range_from_vec(s: Seq<VecDate>) -> Result<FixedDateRange, ()> {
    if s.len() == 0 || s.len() > 2 {
        Err(())
    } else {
        Ok(
            FixedDateRange {
                start: spec_fixed_from_vec(s[0].0@),
                end: if s.len() == 2 {
                    Some(spec_fixed_from_vec(s[1].0@))
                } else {
                    None
                },
            },
        )
    }
}

/// Whether a date value is well formed: every endpoint of a component
/// list holds at least its year component.
pub open spec fn spec_date_value_wf(v: DateValue) -> bool {
    match v {
        DateValue::DateParts { date_parts, .. } => forall|i: int|
            0 <= i < date_parts.0@.len() ==> #[trigger] date_parts.0@[i].0@.len() >= 1,
        DateValue::Raw { .. } => true,
    }
}

impl FixedDateRange {
    /// Convert a range of component lists. Fails when the list holds no
    /// endpoint or more than two; each endpoint list must hold at least
    /// its year component.
    pub fn from_vec_range(value: &VecDateRange) -> (r: Result<Self, ()>)
        requires
            forall|i: int| 0 <= i < value.0@.len() ==> #[trigger] value.0@[i].0@.len() >= 1,
        ensures
            r == spec_fixed_range_from_vec(value.0@),
    {
        if value.0.len() == 0 || value.0.len() > 2 {
            return Err(());
        }
        let start = FixedDate::from_vec(&value.0[0]);
        let end = if value.0.len() == 2 {
            Some(FixedDate::from_vec(&value.0[1]))
        } else {
            None
        };
        Ok(FixedDateRange { start, end })
    }

    /// Parse a date range of the form `YEAR[-MONTH[-DAY]][/YEAR[-MONTH[-DAY]]]`.
    pub fn from_str(s: &str) -> (r: Result<Self, ()>)
        ensures
            match r {
                Ok(f) => spec_parse_range(s@) == Some(f),
                Err(()) => spec_parse_range(s@) is None,
            },
    {
        let n = s.unicode_len();
        let (start, p) = parse_date_at(s, 0);
        let start = match start {
            Some(d) => d,
            None => {
                return Err(());
            },
        };
        if p < n && s.get_char(p) == '/' {
            let (end, _) = parse_date_at(s, p + 1);
            match end {
                Some(e) => Ok(FixedDateRange { start, end: Some(e) }),
                None => Err(()),
            }
        } else {
            Ok(FixedDateRange { start, end: None })
        }
    }
}

/// A date defined by fixed components. The month and day are stored
/// zero-based.
#[allow(missing_docs)]
#[derive(Debug, Clone, Copy, Eq, PartialEq, Hash, Structural)]
pub struct FixedDate {
    pub year: i16,
    pub month: Option<u8>,
    pub day: Option<u8>,
}

impl FixedDate {
    /// Convert a component list; the list must hold at least the year.
    pub fn from_vec(value: &VecDate) -> (r: Self)
        requires
            value.0@.len() >= 1,
        ensures
            r == spec_fixed_from_vec(value.0@),
    {
        let year = value.0[0];
        let month = if value.0.len() >= 2 {
            Some(wrap_u8(value.0[1] as i32 - 1))
        } else {
            None
        };
        let day = if value.0.len() >= 3 {
            Some(wrap_u8(value.0[2] as i32 - 1))
        } else {
            None
        };
        FixedDate { year, month, day }
    }

    /// Parse a date of the form `YEAR[-MONTH[-DAY]]`; anything after the
    /// parsed components is ignored.
    pub fn from_str(s: &str) -> (r: Result<Self, ()>)
        ensures
            match r {
                Ok(f) => match spec_parse_date_at(s@, 0) {
                    Some(p) => p.0 == f,
                    None => false,
                },
                Err(()) => spec_parse_date_at(s@, 0) is None,
            },
    {
        let (d, _) = parse_date_at(s, 0);
        match d {
            Some(f) => Ok(f),
            None => Err(()),
        }
    }
}

fn wrap_u8(x: i32) -> (r: u8)
    ensures
        r as int == (x as int) % 256,
{
    if x >= 0 {
        (x as u32 % 256) as u8
    } else {
        let neg: u64 = (-(x as i64)) as u64;
        let m: u64 = neg % 256;
        proof {
            vstd::arithmetic::div_mod::lemma_fundamental_div_mod(neg as int, 256);
            let q = neg as int / 256;
            vstd::arithmetic::div_mod::lemma_mod_multiples_vanish(q + 1, x as int, 256);
            assert(256 * (q + 1) + x == 256 - m) by {
                assert(neg == 256 * q + m);
                assert(x as int == -(neg as int));
            }
            if m == 0 {
                assert((256int) % 256 == 0) by {
                    vstd::arithmetic::div_mod::lemma_mod_self_0(256);
                }
            } else {
                vstd::arithmetic::div_mod::lemma_small_mod((256 - m) as nat, 256);
            }
        }
        if m == 0 {
            0
        } else {
            (256 - m) as u8
        }
    }
}

/// A citation to one or more items.
#[derive(Debug, Eq, PartialEq, Hash)]
pub struct Citation {
    /// A unique ID for the citation.
    pub citation_id: String,
    /// The individual parts of the citation.
    pub citation_items: Vec<CitationItem>,
    /// The citation's properties.
    pub properties: CitationProperties,
}

/// An individual part of a citation.
#[derive(Debug, Eq, PartialEq, Hash)]
pub struct CitationItem {
    /// A unique ID for the citation item.
    pub id: String,
    /// A locator value (e.g. a page number).
    pub locator: Option<String>,
    /// What kind of locator to use (e.g. `"page"`).
    pub label: Option<String>,
    /// Whether to suppress the author for this item.
    pub suppress_author: bool,
    /// Something to print before this item.
    pub prefix: Option<String>,
    /// Something to print after this item.
    pub suffix: Option<String>,
    /// Defines the relationship of this item to other cited items with
    /// the same key.
    pub position: Option<u8>,
    /// Whether this key was already cited in close range before.
    pub near_note: Option<bool>,
}

/// Properties of a citation.
#[derive(Debug, Eq, PartialEq, Hash)]
pub struct CitationProperties {
    /// The footnote number in which the citation is located in the
    /// document.
    pub note_index: Option<u32>,
}

// Parsing a textual date.

/// Whether a character is an ASCII digit.
pub open spec fn spec_is_digit(c: char) -> bool {
    '0' <= c <= '9'
}

/// The position of the first non-digit character at or after `i`.
pub open spec fn spec_digits_end(s: Seq<char>, i: int) -> int
    decreases s.len() - i,
{
    if i < 0 || i >= s.len() {
        i
    } else if spec_is_digit(s[i]) {
        spec_digits_end(s, i + 1)
    } else {
        i
    }
}

/// The numeric value of the digit run from `i` up to `j`.
pub open spec fn spec_digits_value(s: Seq<char>, i: int, j: int) -> int
    decreases j - i,
{
    if i >= j {
        0
    } else {
        spec_digits_value(s, i, j - 1) * 10 + (s[j - 1] as int - '0' as int)
    }
}

/// What parsing a date at position `i` yields: the date and the position
/// after it, or nothing. The year is a digit run that must fit the year
/// field; a dash then announces a month, whose one-based value must lie in
/// one through twelve; another dash announces a day with one-based value
/// in one through thirty-two. Each is stored decremented.
pub open spec fn spec_parse_date_at(s: Seq<char>, i: int) -> Option<(FixedDate, int)> {
    let j = spec_digits_end(s, i);
    let year_val = spec_digits_value(s, i, j);
    if j == i || year_val > 32767 {
        None
    } else if j >= s.len() || s[j] != '-' {
        Some((FixedDate { year: year_val as i16, month: None, day: None }, j))
    } else {
        let k = spec_digits_end(s, j + 1);
        let mval = spec_digits_value(s, j + 1, k);
        if k == j + 1 || mval < 1 || mval > 12 {
            None
        } else if k >= s.len() || s[k] != '-' {
            Some(
                (
                    FixedDate {
                        year: year_val as i16,
                        month: Some((mval - 1) as u8),
                        day: None,
                    },
                    k,
                ),
            )
        } else {
            let d = spec_digits_end(s, k + 1);
            let dval = spec_digits_value(s, k + 1, d);
            if d == k + 1 || dval < 1 || dval > 32 {
                None
            } else {
                Some(
                    (
                        FixedDate {
                            year: year_val as i16,
                            month: Some((mval - 1) as u8),
                            day: Some((dval - 1) as u8),
                        },
                        d,
                    ),
                )
            }
        }
    }
}

/// What parsing a date range yields: the start date, and an end date
/// where a slash follows the start; anything after a start with no slash
/// is ignored.
pub open spec fn spec_parse_range(s: Seq<char>) -> Option<FixedDateRange> {
    match spec_parse_date_at(s, 0) {
        None => None,
        Some((start, p)) => if p < s.len() && s[p] == '/' {
            match spec_parse_date_at(s, p + 1) {
                Some((end, q)) => Some(FixedDateRange { start, end: Some(end) }),
                None => None,
            }
        } else {
            Some(FixedDateRange { start, end: None })
        },
    }
}

/// The scan of a digit run stays within the string, covers only digits,
/// and stops at the first non-digit.
proof fn lemma_digits_end_props(s: Seq<char>, i: int)
    requires
        0 <= i <= s.len(),
    ensures
        i <= spec_digits_end(s, i) <= s.len(),
        forall|k: int| i <= k < spec_digits_end(s, i) ==> spec_is_digit(s[k]),
    decreases s.len() - i,
{
    if i < s.len() && spec_is_digit(s[i]) {
        lemma_digits_end_props(s, i + 1);
    }
}

/// The value of a digit run never falls below zero.
proof fn lemma_digits_value_nonneg(s: Seq<char>, i: int, j: int)
    requires
        forall|k: int| i <= k < j ==> spec_is_digit(s[k]),
    ensures
        spec_digits_value(s, i, j) >= 0,
    decreases j - i,
{
    if i < j {
        lemma_digits_value_nonneg(s, i, j - 1);
    }
}

fn is_digit_at(s: &str, j: usize) -> (r: bool)
    requires
        j < s@.len(),
    ensures
        r == spec_is_digit(s@[j as int]),
{
    let c = s.get_char(j);
    '0' <= c && c <= '9'
}

/// Scan the digit run beginning at `i` and compute its value, capped at
/// one million to flag overflow.
fn scan_digits(s: &str, i: usize) -> (r: (usize, u64))
    requires
        i <= s@.len(),
    ensures
        r.0 == spec_digits_end(s@, i as int),
        i <= r.0 <= s@.len(),
        r.1 == if spec_digits_value(s@, i as int, r.0 as int) > 1_000_000 {
            1_000_001
        } else {
            spec_digits_value(s@, i as int, r.0 as int)
        },
{
    let n = s.unicode_len();
    let mut j = i;
    let mut acc: u64 = 0;
    while j < n && is_digit_at(s, j)
        invariant
            i <= j <= n,
            n == s@.len(),
            spec_digits_end(s@, i as int) == spec_digits_end(s@, j as int),
            forall|k: int| i <= k < j ==> spec_is_digit(s@[k]),
            acc == if spec_digits_value(s@, i as int, j as int) > 1_000_000 {
                1_000_001
            } else {
                spec_digits_value(s@, i as int, j as int)
            },
        decreases n - j,
    {
        let c = s.get_char(j);
        let d: u64 = (c as u32 as u64) - 48;
        proof {
            lemma_digits_value_nonneg(s@, i as int, j as int);
            lemma_digits_value_nonneg(s@, i as int, j + 1);
        }
        acc = if acc > 1_000_000 || acc * 10 + d > 1_000_000 {
            1_000_001
        } else {
            acc * 10 + d
        };
        j += 1;
    }
    (j, acc)
}

/// Parse a date at position `i`, also yielding the position after it.
fn parse_date_at(s: &str, i: usize) -> (r: (Option<FixedDate>, usize))
    requires
        i <= s@.len(),
    ensures
        match spec_parse_date_at(s@, i as int) {
            Some(p) => r.0 == Some(p.0) && r.1 == p.1 && r.1 <= s@.len(),
            None => r.0 is None,
        },
{
    let n = s.unicode_len();
    let (j, year_val) = scan_digits(s, i);
    if j == i || year_val > 32767 {
        return (None, j);
    }
    let year = year_val as i16;
    if j >= n || s.get_char(j) != '-' {
        return (Some(FixedDate { year, month: None, day: None }), j);
    }
    let (k, mval) = scan_digits(s, j + 1);
    if k == j + 1 || mval < 1 || mval > 12 {
        return (None, k);
    }
    let month = (mval - 1) as u8;
    if k >= n || s.get_char(k) != '-' {
        return (Some(FixedDate { year, month: Some(month), day: None }), k);
    }
    let (d, dval) = scan_digits(s, k + 1);
    if d == k + 1 || dval < 1 || dval > 32 {
        return (None, d);
    }
    let day = (dval - 1) as u8;
    (Some(FixedDate { year, month: Some(month), day: Some(day) }), d)
}

/// Round trip of the textual and the serialized list form: the component
/// list that a parsed date serializes to holds exactly the string's
/// numeric components, with month and day one less than written.
pub proof fn lemma_parse_reserialize(s: Seq<char>, i: int)
    requires
        spec_parse_date_at(s, i) is Some,
    ensures
        ({
            let d = spec_parse_date_at(s, i).unwrap().0;
            let v = spec_vec_from_fixed(d);
            let j = spec_digits_end(s, i);
            let k = spec_digits_end(s, j + 1);
            let e = spec_digits_end(s, k + 1);
            &&& v[0] == spec_digits_value(s, i, j)
            &&& d.month is Some ==> v[1] == spec_digits_value(s, j + 1, k) - 1
            &&& d.day is Some ==> v[2] == spec_digits_value(s, k + 1, e) - 1
        }),
{
    let j = spec_digits_end(s, i);
    let k = spec_digits_end(s, j + 1);
    let e = spec_digits_end(s, k + 1);
    if 0 <= i <= s.len() {
        lemma_digits_end_props(s, i);
        lemma_digits_value_nonneg(s, i, j);
        if j + 1 <= s.len() {
            lemma_digits_end_props(s, j + 1);
            lemma_digits_value_nonneg(s, j + 1, k);
            if k + 1 <= s.len() {
                lemma_digits_end_props(s, k + 1);
                lemma_digits_value_nonneg(s, k + 1, e);
            }
        }
    }
}

} // verus!
