use citationberg::json::Citation;
use citationberg::json::CitationItem;
use citationberg::json::CitationProperties;
use citationberg::json::Item;
use citationberg::json::LiteralName;
use citationberg::json::NameValue;
use citationberg::json::Value;

fn sample() -> Item {
    Item(vec![
        ("id".to_string(), Value::String("doe99".to_string())),
        ("type".to_string(), Value::String("book".to_string())),
        ("volume".to_string(), Value::Number(-3)),
        (
            "author".to_string(),
            Value::Names(vec![NameValue::Literal(LiteralName {
                literal: "Acme Corp".to_string(),
            })]),
        ),
    ])
}

#[test]
fn item_id_and_type() {
    let item = sample();
    assert_eq!(item.id(), Some("doe99".to_string()));
    assert_eq!(item.type_(), Some("book".to_string()));
}

#[test]
fn item_id_of_number() {
    let item = Item(vec![("id".to_string(), Value::Number(42))]);
    assert_eq!(item.id(), Some("42".to_string()));
}

#[test]
fn item_id_missing_or_unconvertible() {
    let empty = Item(vec![]);
    assert_eq!(empty.id(), None);
    let names = sample();
    // A name list converts to no string.
    assert_eq!(
        Item(vec![("id".to_string(), names.0.into_iter().nth(3).unwrap().1)]).id(),
        None
    );
}

#[test]
fn item_html_detection() {
    assert!(!sample().has_html());
    let html = Item(vec![(
        "title".to_string(),
        Value::String("The <i>Title</i>".to_string()),
    )]);
    assert!(html.has_html());
}

#[test]
fn item_note_hack() {
    assert!(!sample().may_have_hack());
    let noted = Item(vec![("note".to_string(), Value::String("x".to_string()))]);
    assert!(noted.may_have_hack());
}

#[test]
fn value_to_str() {
    assert_eq!(
        Value::String("hi".to_string()).to_str(),
        Some("hi".to_string())
    );
    assert_eq!(Value::Number(120).to_str(), Some("120".to_string()));
    assert_eq!(Value::Number(0).to_str(), Some("0".to_string()));
    assert_eq!(Value::Number(-7).to_str(), Some("-7".to_string()));
    assert_eq!(
        Value::Names(vec![NameValue::Literal(LiteralName { literal: "x".to_string() })]).to_str(),
        None
    );
}

#[test]
fn value_html() {
    assert!(Value::String("a < b".to_string()).has_html());
    assert!(!Value::String("a b".to_string()).has_html());
    assert!(!Value::Number(3).has_html());
}

#[test]
fn citation_items_carry_fields() {
    let citation = Citation {
        citation_id: "c1".to_string(),
        citation_items: vec![CitationItem {
            id: "doe99".to_string(),
            locator: Some("12".to_string()),
            label: Some("page".to_string()),
            suppress_author: false,
            prefix: None,
            suffix: None,
            position: None,
            near_note: None,
        }],
        properties: CitationProperties { note_index: Some(1) },
    };
    assert_eq!(citation.citation_items.len(), 1);
    assert_eq!(citation.citation_items[0].locator.as_deref(), Some("12"));
}
