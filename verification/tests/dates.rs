use citationberg::json::DateValue;
use citationberg::json::FixedDate;
use citationberg::json::FixedDateRange;
use citationberg::json::VecDate;
use citationberg::json::VecDateRange;

#[test]
fn parse_full_range() {
    let r = FixedDateRange::from_str("2021-09-10/2022-01-01").unwrap();
    assert_eq!(r.start, FixedDate { year: 2021, month: Some(8), day: Some(9) });
    assert_eq!(r.end, Some(FixedDate { year: 2022, month: Some(0), day: Some(0) }));
}

#[test]
fn parse_year_only() {
    let r = FixedDateRange::from_str("1998").unwrap();
    assert_eq!(r.start, FixedDate { year: 1998, month: None, day: None });
    assert_eq!(r.end, None);
}

#[test]
fn parse_year_month() {
    let r = FixedDateRange::from_str("1998-12").unwrap();
    assert_eq!(r.start, FixedDate { year: 1998, month: Some(11), day: None });
    assert_eq!(r.end, None);
}

#[test]
fn parse_rejects_bad_months_and_days() {
    assert!(FixedDateRange::from_str("2020-00").is_err());
    assert!(FixedDateRange::from_str("2020-13").is_err());
    assert!(FixedDateRange::from_str("2020-01-00").is_err());
    assert!(FixedDateRange::from_str("2020-01-33").is_err());
    assert!(FixedDateRange::from_str("").is_err());
    assert!(FixedDateRange::from_str("-12").is_err());
    assert!(FixedDateRange::from_str("99999").is_err());
    assert!(FixedDateRange::from_str("2020/").is_err());
}

#[test]
fn parse_day_upper_quirk() {
    // A one-based day of 32 is the largest the grammar accepts.
    let r = FixedDateRange::from_str("2020-01-32").unwrap();
    assert_eq!(r.start.day, Some(31));
}

#[test]
fn roundtrip_parse_then_serialize() {
    // The serialized component lists hold the string's numeric components,
    // with month and day one less than written.
    let r = FixedDateRange::from_str("2021-09-10/2022-01-01").unwrap();
    let v = VecDateRange::from_fixed_range(r);
    assert_eq!(v.0.len(), 2);
    assert_eq!(v.0[0].0, vec![2021, 8, 9]);
    assert_eq!(v.0[1].0, vec![2022, 0, 0]);
}

#[test]
fn serialize_partial_dates() {
    let r = FixedDateRange::from_str("1998-12").unwrap();
    let v = VecDateRange::from_fixed_range(r);
    assert_eq!(v.0.len(), 1);
    assert_eq!(v.0[0].0, vec![1998, 11]);
}

#[test]
fn vec_to_fixed_decrements() {
    let d = FixedDate::from_vec(&VecDate(vec![2021, 9, 10]));
    assert_eq!(d, FixedDate { year: 2021, month: Some(8), day: Some(9) });
}

#[test]
fn vec_range_conversion_endpoint_counts() {
    let one = VecDateRange(vec![VecDate(vec![2021])]);
    let two = VecDateRange(vec![VecDate(vec![2021]), VecDate(vec![2022])]);
    let none = VecDateRange(vec![]);
    let three = VecDateRange(vec![
        VecDate(vec![2021]),
        VecDate(vec![2022]),
        VecDate(vec![2023]),
    ]);
    assert!(FixedDateRange::from_vec_range(&one).is_ok());
    let r = FixedDateRange::from_vec_range(&two).unwrap();
    assert_eq!(r.start.year, 2021);
    assert_eq!(r.end.map(|e| e.year), Some(2022));
    assert!(FixedDateRange::from_vec_range(&none).is_err());
    assert!(FixedDateRange::from_vec_range(&three).is_err());
}

#[test]
fn date_value_conversions() {
    let raw = FixedDateRange::from_str("2021-09-10").unwrap();
    let value = DateValue::Raw { raw, literal: None, season: None };
    assert_eq!(value.to_fixed_range(), Ok(raw));
    let v = value.to_vec_range();
    assert_eq!(v.0[0].0, vec![2021, 8, 9]);

    let parts = DateValue::DateParts {
        date_parts: VecDateRange(vec![VecDate(vec![2000, 1])]),
        literal: None,
        season: None,
    };
    let f = parts.to_fixed_range().unwrap();
    assert_eq!(f.start, FixedDate { year: 2000, month: Some(0), day: None });
    assert_eq!(f.end, None);
}

#[test]
fn fixed_date_from_str_ignores_trailing() {
    let d = FixedDate::from_str("2021-09x").unwrap();
    assert_eq!(d, FixedDate { year: 2021, month: Some(8), day: None });
}

#[test]
fn vec_to_fixed_wraps_into_byte() {
    // A zero component stands for no valid month; the stored byte wraps.
    let d = FixedDate::from_vec(&VecDate(vec![2021, 0]));
    assert_eq!(d.month, Some(255));
}
