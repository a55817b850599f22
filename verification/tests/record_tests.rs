use inventory_core::input::{interactive_item, is_yes, prompt_decision, PromptAction, PromptedFields};
use inventory_core::records::{
    create_inventory_item, create_item_from_payload, insert_row, long_item_from_row,
    resolve_new_item, InventoryItem, LongRow, ResolvedItem, SqlValue,
};

fn empty_payload(name: &str) -> InventoryItem {
    InventoryItem {
        id: String::new(),
        name: name.to_string(),
        acquired_date: None,
        purchase_price: None,
        purchase_currency: None,
        is_used: None,
        received_from: None,
        serial_number: None,
        purchase_reference: None,
        notes: None,
        extra: None,
        future_purchase: None,
    }
}

#[test]
fn create_generates_fresh_nonempty_ids() {
    let (first, row) = create_inventory_item("Widget".to_string());
    let (second, _) = create_inventory_item("Widget".to_string());
    assert_eq!(first.id.len(), 36);
    assert!(!first.id.is_empty());
    assert_ne!(first.id, second.id);
    assert_eq!(first.name, "Widget");
    assert_eq!(row.len(), 3);
    assert_eq!(row[0], SqlValue::Text(first.id.clone()));
    assert_eq!(row[1], SqlValue::Text("Widget".to_string()));
    assert_eq!(row[2], SqlValue::Text(first.acquired_date.clone()));
}

#[test]
fn payload_id_is_discarded() {
    let mut payload = empty_payload("Widget");
    payload.id = "chosen-by-caller".to_string();
    let (item, _) = create_item_from_payload(payload, None);
    assert_ne!(item.id, "chosen-by-caller");
    assert_eq!(item.id.len(), 36);
}

#[test]
fn resolve_applies_defaults() {
    let item = resolve_new_item(
        empty_payload("Widget"),
        None,
        "2024-01-01".to_string(),
        "id-1".to_string(),
    );
    assert_eq!(item.id, "id-1");
    assert_eq!(item.name, "Widget");
    assert_eq!(item.acquired_date, "2024-01-01");
    assert_eq!(item.purchase_currency, "JPY");
    assert_eq!(item.purchase_price, None);
    assert!(!item.is_used);
    assert!(!item.future_purchase);
}

#[test]
fn resolve_prefers_configured_then_explicit_currency() {
    let configured = resolve_new_item(
        empty_payload("Widget"),
        Some("EUR".to_string()),
        "2024-01-01".to_string(),
        "id-1".to_string(),
    );
    assert_eq!(configured.purchase_currency, "EUR");
    let mut payload = empty_payload("Widget");
    payload.purchase_currency = Some("USD".to_string());
    let explicit = resolve_new_item(
        payload,
        Some("EUR".to_string()),
        "2024-01-01".to_string(),
        "id-1".to_string(),
    );
    assert_eq!(explicit.purchase_currency, "USD");
}

#[test]
fn resolve_keeps_explicit_fields() {
    let mut payload = empty_payload("Widget");
    payload.acquired_date = Some("2020-05-05".to_string());
    payload.purchase_price = Some(1200);
    payload.is_used = Some(true);
    payload.received_from = Some("shop".to_string());
    payload.serial_number = Some("SN-7".to_string());
    payload.purchase_reference = Some("order-9".to_string());
    payload.notes = Some("fragile".to_string());
    payload.extra = Some("extra".to_string());
    payload.future_purchase = Some(true);
    let item = resolve_new_item(payload, None, "2024-01-01".to_string(), "id-1".to_string());
    assert_eq!(item.acquired_date, "2020-05-05");
    assert_eq!(item.purchase_price, Some(1200));
    assert!(item.is_used);
    assert_eq!(item.received_from, Some("shop".to_string()));
    assert_eq!(item.serial_number, Some("SN-7".to_string()));
    assert_eq!(item.purchase_reference, Some("order-9".to_string()));
    assert_eq!(item.notes, Some("fragile".to_string()));
    assert_eq!(item.extra, Some("extra".to_string()));
    assert!(item.future_purchase);
}

fn sample_resolved() -> ResolvedItem {
    ResolvedItem {
        id: "id-1".to_string(),
        name: "Widget".to_string(),
        acquired_date: "2024-01-01".to_string(),
        purchase_price: None,
        purchase_currency: "JPY".to_string(),
        is_used: true,
        received_from: None,
        serial_number: Some("SN-7".to_string()),
        purchase_reference: None,
        notes: None,
        extra: None,
        future_purchase: false,
    }
}

#[test]
fn insert_row_encodes_flags_and_nulls() {
    let row = insert_row(&sample_resolved());
    assert_eq!(row.len(), 12);
    assert_eq!(row[0], SqlValue::Text("id-1".to_string()));
    assert_eq!(row[3], SqlValue::Null);
    assert_eq!(row[5], SqlValue::Int(1));
    assert_eq!(row[7], SqlValue::Text("SN-7".to_string()));
    assert_eq!(row[11], SqlValue::Int(0));
}

#[test]
fn row_decode_round_trip() {
    let stored = sample_resolved();
    let read_back = LongRow {
        id: stored.id.clone(),
        name: stored.name.clone(),
        acquired_date: Some(stored.acquired_date.clone()),
        purchase_price: stored.purchase_price,
        purchase_currency: Some(stored.purchase_currency.clone()),
        is_used: Some(if stored.is_used { 1 } else { 0 }),
        received_from: stored.received_from.clone(),
        serial_number: stored.serial_number.clone(),
        purchase_reference: stored.purchase_reference.clone(),
        notes: stored.notes.clone(),
        extra: stored.extra.clone(),
        future_purchase: Some(if stored.future_purchase { 1 } else { 0 }),
    };
    let item = long_item_from_row(read_back);
    assert_eq!(item.id, stored.id);
    assert_eq!(item.name, stored.name);
    assert_eq!(item.acquired_date, Some(stored.acquired_date));
    assert_eq!(item.purchase_price, stored.purchase_price);
    assert_eq!(item.purchase_currency, Some(stored.purchase_currency));
    assert_eq!(item.is_used, Some(true));
    assert_eq!(item.serial_number, stored.serial_number);
    assert_eq!(item.future_purchase, Some(false));
}

#[test]
fn flags_decode_null_as_absent() {
    let row = LongRow {
        id: "id-1".to_string(),
        name: "Widget".to_string(),
        acquired_date: None,
        purchase_price: None,
        purchase_currency: None,
        is_used: None,
        received_from: None,
        serial_number: None,
        purchase_reference: None,
        notes: None,
        extra: None,
        future_purchase: None,
    };
    let item = long_item_from_row(row);
    assert_eq!(item.is_used, None);
    assert_eq!(item.future_purchase, None);
    assert_eq!(item.acquired_date, None);
}

fn prompted(price: &str, used: &str, future: &str) -> PromptedFields {
    PromptedFields {
        name: "Widget".to_string(),
        acquired_date: "2024-01-01".to_string(),
        price_text: price.to_string(),
        currency: "JPY".to_string(),
        is_used_text: used.to_string(),
        received_from: String::new(),
        serial_number: "SN-7".to_string(),
        purchase_reference: String::new(),
        notes: String::new(),
        extra: String::new(),
        future_purchase_text: future.to_string(),
    }
}

#[test]
fn interactive_inputs_become_row() {
    let (item, row) = interactive_item(prompted("1200", "y", "no"));
    assert_eq!(item.id.len(), 36);
    assert_eq!(row.len(), 12);
    assert_eq!(row[0], SqlValue::Text(item.id.clone()));
    assert_eq!(row[1], SqlValue::Text("Widget".to_string()));
    assert_eq!(row[3], SqlValue::Int(1200));
    assert_eq!(row[4], SqlValue::Text("JPY".to_string()));
    assert_eq!(row[5], SqlValue::Int(1));
    assert_eq!(row[6], SqlValue::Null);
    assert_eq!(row[7], SqlValue::Text("SN-7".to_string()));
    assert_eq!(row[11], SqlValue::Int(0));
}

#[test]
fn interactive_price_unparsable_or_empty_stays_null() {
    let (_, row) = interactive_item(prompted("abc", "n", "n"));
    assert_eq!(row[3], SqlValue::Null);
    let (_, row) = interactive_item(prompted("", "n", "n"));
    assert_eq!(row[3], SqlValue::Null);
}

#[test]
fn yes_answers() {
    assert!(is_yes("y"));
    assert!(is_yes("Yes"));
    assert!(is_yes("yep"));
    assert!(!is_yes("n"));
    assert!(!is_yes(""));
    assert!(!is_yes("maybe"));
}

#[test]
fn prompt_decision_rules() {
    match prompt_decision("hello".to_string(), Some("d".to_string()), true) {
        PromptAction::Accept(v) => assert_eq!(v, "hello"),
        PromptAction::Retry => panic!("non-empty input must be accepted"),
    }
    match prompt_decision(String::new(), Some("d".to_string()), true) {
        PromptAction::Accept(v) => assert_eq!(v, "d"),
        PromptAction::Retry => panic!("empty input must take the default"),
    }
    match prompt_decision(String::new(), None, false) {
        PromptAction::Accept(v) => assert_eq!(v, ""),
        PromptAction::Retry => panic!("optional empty input must be accepted"),
    }
    match prompt_decision(String::new(), None, true) {
        PromptAction::Accept(_) => panic!("required empty input must retry"),
        PromptAction::Retry => {}
    }
}
