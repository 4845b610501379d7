use shared_adapter::{
    normalize_phone, select_phone_text, CellValue, ColumnValue, Item, ItemsPage, LeadDetails,
    NamePolicy, SharedAdapterError,
};

fn column(entries: &[(&str, Option<&str>)]) -> ColumnValue {
    ColumnValue {
        entries: entries
            .iter()
            .map(|(k, v)| {
                let value = match v {
                    Some(t) => CellValue::Text(t.to_string()),
                    None => CellValue::Other,
                };
                (k.to_string(), value)
            })
            .collect(),
    }
}

fn page(name: Option<&str>, cols: Option<Vec<ColumnValue>>) -> ItemsPage {
    ItemsPage {
        items: vec![Item {
            name: name.map(|n| n.to_string()),
            id: Some("42".to_string()),
            column_values: cols,
        }],
    }
}

fn missing(field: &str) -> SharedAdapterError {
    SharedAdapterError::DataFieldNotFound(field.to_string())
}

#[test]
fn normalize_ten_digits_gets_leading_one() {
    assert_eq!(normalize_phone("5551234567".to_string()), Ok("15551234567".to_string()));
}

#[test]
fn normalize_eleven_digits_unchanged() {
    assert_eq!(normalize_phone("15551234567".to_string()), Ok("15551234567".to_string()));
}

#[test]
fn normalize_other_lengths_fail_with_input() {
    assert_eq!(
        normalize_phone("555123".to_string()),
        Err(SharedAdapterError::InvalidPhoneNumber("555123".to_string()))
    );
    assert_eq!(
        normalize_phone("".to_string()),
        Err(SharedAdapterError::InvalidPhoneNumber("".to_string()))
    );
    assert_eq!(
        normalize_phone("155512345678".to_string()),
        Err(SharedAdapterError::InvalidPhoneNumber("155512345678".to_string()))
    );
}

#[test]
fn new_lead_normalizes_phone() {
    let lead = LeadDetails::new("Jane Doe".to_string(), "5551234567".to_string()).unwrap();
    assert_eq!(lead.name, "Jane Doe");
    assert_eq!(lead.phone_number, "15551234567");
    assert_eq!(
        LeadDetails::new("Jane".to_string(), "123".to_string()),
        Err(SharedAdapterError::InvalidPhoneNumber("123".to_string()))
    );
}

#[test]
fn extract_from_empty_page_fails_on_items() {
    let p = ItemsPage { items: vec![] };
    assert_eq!(LeadDetails::from_items_page(p), Err(missing("items")));
}

#[test]
fn extract_without_name_fails_on_name() {
    let p = page(None, Some(vec![column(&[("text", Some("15551234567"))])]));
    assert_eq!(LeadDetails::from_items_page(p), Err(missing("name")));
}

#[test]
fn extract_without_columns_fails_on_column_values() {
    let p = page(Some("Jane Doe"), None);
    assert_eq!(LeadDetails::from_items_page(p), Err(missing("column_values")));
}

#[test]
fn extract_without_phone_column_fails_on_phone_number() {
    let p = page(
        Some("Jane Doe"),
        Some(vec![
            column(&[("text", Some("Toronto"))]),
            column(&[("id", Some("1")), ("text", None)]),
            column(&[("title", Some("111"))]),
        ]),
    );
    assert_eq!(LeadDetails::from_items_page(p), Err(missing("phone_number")));
}

#[test]
fn extract_finds_phone_column() {
    let p = page(Some("Jane Doe"), Some(vec![column(&[("text", Some("15551234567"))])]));
    let lead = LeadDetails::from_items_page(p).unwrap();
    assert_eq!(lead.name, "Jane Doe");
    assert_eq!(lead.phone_number, "15551234567");
}

#[test]
fn extract_takes_first_column_holding_a_one() {
    let p = page(
        Some("Jane Doe"),
        Some(vec![
            column(&[("text", Some("Oslo"))]),
            column(&[("id", Some("phone")), ("text", Some("5551234561"))]),
            column(&[("text", Some("15559999999"))]),
        ]),
    );
    let lead = LeadDetails::try_from(p).unwrap();
    assert_eq!(lead.phone_number, "15551234561");
}

#[test]
fn extract_reports_invalid_phone_text() {
    let p = page(Some("Jane Doe"), Some(vec![column(&[("text", Some("room 101"))])]));
    assert_eq!(
        LeadDetails::from_items_page(p),
        Err(SharedAdapterError::InvalidPhoneNumber("room 101".to_string()))
    );
}

#[test]
fn extract_reads_only_first_item() {
    let mut p = page(None, None);
    p.items.push(Item {
        name: Some("Jane Doe".to_string()),
        id: None,
        column_values: Some(vec![column(&[("text", Some("15551234567"))])]),
    });
    assert_eq!(LeadDetails::from_items_page(p), Err(missing("name")));
}

#[test]
fn column_lookup_first_key_counts() {
    let c = column(&[("text", Some("a")), ("text", Some("b1"))]);
    assert_eq!(c.get("text"), Some(&CellValue::Text("a".to_string())));
    assert_eq!(c.get("missing"), None);
    assert_eq!(c.phone_candidate(), None);
    assert_eq!(select_phone_text(&vec![c]), None);
    let d = column(&[("text", Some("x1y"))]);
    assert_eq!(d.phone_candidate(), Some("x1y".to_string()));
}

#[test]
fn first_word_policy_takes_first_name() {
    let p = page(Some("Jane Doe"), Some(vec![column(&[("text", Some("15551234567"))])]));
    let lead = LeadDetails::from_items_page_with_policy(p, NamePolicy::FirstWord).unwrap();
    assert_eq!(lead.name, "Jane");
    assert_eq!(lead.phone_number, "15551234567");
}

#[test]
fn first_word_policy_skips_leading_white_space() {
    let lead = LeadDetails::with_policy(
        " \t\u{3000}Jane\u{00A0}Doe".to_string(),
        "5551234567".to_string(),
        NamePolicy::FirstWord,
    )
    .unwrap();
    assert_eq!(lead.name, "Jane");
    assert_eq!(lead.phone_number, "15551234567");
}

#[test]
fn first_word_policy_refuses_blank_name() {
    assert_eq!(
        LeadDetails::with_policy("  \n ".to_string(), "5551234567".to_string(), NamePolicy::FirstWord),
        Err(missing("name"))
    );
    assert_eq!(
        LeadDetails::with_policy("".to_string(), "123".to_string(), NamePolicy::FirstWord),
        Err(SharedAdapterError::InvalidPhoneNumber("123".to_string()))
    );
}

#[test]
fn full_name_policy_keeps_name() {
    let lead =
        LeadDetails::with_policy("  ".to_string(), "15551234567".to_string(), NamePolicy::FullName)
            .unwrap();
    assert_eq!(lead.name, "  ");
}

#[test]
fn try_from_matches_spelled_out_cases() {
    assert_eq!(LeadDetails::try_from(ItemsPage { items: vec![] }), Err(missing("items")));
    let p = page(Some("Jane Doe"), Some(vec![column(&[("text", Some("1-555"))])]));
    assert_eq!(
        LeadDetails::try_from(p),
        Err(SharedAdapterError::InvalidPhoneNumber("1-555".to_string()))
    );
    let p = page(
        Some("Jane"),
        Some(vec![
            column(&[("text", Some("abc"))]),
            column(&[("id", Some("phone"))]),
            column(&[("text", Some("2015550123"))]),
            column(&[("text", Some("15551234567"))]),
        ]),
    );
    let lead = LeadDetails::try_from(p).unwrap();
    assert_eq!(lead.name, "Jane");
    assert_eq!(lead.phone_number, "12015550123");
}
