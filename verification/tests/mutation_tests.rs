use inventory_core::mutation::{
    delete_statement, edit_apply_result, edit_no_fields, edit_not_found, edit_plan,
    lookup_name_statement, removal_result, EditPlan,
};
use inventory_core::records::{EditableItem, SqlValue};

fn empty_updates() -> EditableItem {
    EditableItem {
        id: String::new(),
        name: String::new(),
        acquired_date: None,
        purchase_price: None,
        purchase_currency: None,
        is_used: None,
        received_from: None,
        serial_number: None,
        purchase_reference: None,
        notes: None,
        extra: None,
        future_purchase: None,
    }
}

#[test]
fn edit_empty_payload_reports_no_fields() {
    let id = "abc-123".to_string();
    match edit_plan(true, &id, &empty_updates()) {
        EditPlan::NoFields => {}
        _ => panic!("an empty payload must plan no update"),
    }
    let result = edit_no_fields(&id);
    assert!(!result.success);
    assert_eq!(result.item_id, "abc-123");
    assert_eq!(result.message, "No fields to update");
}

#[test]
fn edit_missing_id_short_circuits() {
    let id = "abc-123".to_string();
    let mut updates = empty_updates();
    updates.name = "New name".to_string();
    match edit_plan(false, &id, &updates) {
        EditPlan::NotFound => {}
        _ => panic!("a missing id must never plan an update"),
    }
    let result = edit_not_found(&id);
    assert!(!result.success);
    assert_eq!(result.item_id, "abc-123");
    assert_eq!(result.message, "No item found with ID: abc-123");
}

#[test]
fn edit_builds_update_for_present_fields() {
    let id = "abc-123".to_string();
    let mut updates = empty_updates();
    updates.name = "New name".to_string();
    updates.notes = Some("checked".to_string());
    match edit_plan(true, &id, &updates) {
        EditPlan::Update(query, params) => {
            assert_eq!(query, "UPDATE inventory SET Name = ?, Notes = ? WHERE Id = ?");
            assert_eq!(
                params,
                vec![
                    SqlValue::Text("New name".to_string()),
                    SqlValue::Text("checked".to_string()),
                    SqlValue::Text("abc-123".to_string()),
                ]
            );
        }
        _ => panic!("present fields must plan an update"),
    }
}

#[test]
fn edit_skips_empty_name() {
    let id = "abc-123".to_string();
    let mut updates = empty_updates();
    updates.purchase_price = Some(500);
    match edit_plan(true, &id, &updates) {
        EditPlan::Update(query, params) => {
            assert_eq!(query, "UPDATE inventory SET PurchasePrice = ? WHERE Id = ?");
            assert_eq!(
                params,
                vec![SqlValue::Int(500), SqlValue::Text("abc-123".to_string())]
            );
        }
        _ => panic!("a present price must plan an update"),
    }
}

#[test]
fn edit_full_payload_keeps_column_order() {
    let id = "abc-123".to_string();
    let updates = EditableItem {
        id: String::new(),
        name: "N".to_string(),
        acquired_date: Some("2024-01-01".to_string()),
        purchase_price: Some(1),
        purchase_currency: Some("JPY".to_string()),
        is_used: Some(true),
        received_from: Some("a".to_string()),
        serial_number: Some("b".to_string()),
        purchase_reference: Some("c".to_string()),
        notes: Some("d".to_string()),
        extra: Some("e".to_string()),
        future_purchase: Some(false),
    };
    match edit_plan(true, &id, &updates) {
        EditPlan::Update(query, params) => {
            assert_eq!(
                query,
                "UPDATE inventory SET Name = ?, AcquiredDate = ?, PurchasePrice = ?, \
                 PurchaseCurrency = ?, IsUsed = ?, ReceivedFrom = ?, SerialNumber = ?, \
                 PurchaseReference = ?, Notes = ?, Extra = ?, FuturePurchase = ? WHERE Id = ?"
            );
            assert_eq!(params.len(), 12);
            assert_eq!(params[4], SqlValue::Int(1));
            assert_eq!(params[10], SqlValue::Int(0));
            assert_eq!(params[11], SqlValue::Text("abc-123".to_string()));
        }
        _ => panic!("a full payload must plan an update"),
    }
}

#[test]
fn edit_apply_result_messages() {
    let id = "abc-123".to_string();
    let updated = edit_apply_result(&id, 1);
    assert!(updated.success);
    assert_eq!(updated.message, "Successfully updated item with ID: abc-123");
    let missed = edit_apply_result(&id, 0);
    assert!(!missed.success);
    assert_eq!(missed.message, "Failed to update item with ID: abc-123");
}

#[test]
fn removal_result_messages() {
    let id = "abc-123".to_string();
    let removed = removal_result(&id, Some("Widget".to_string()), 1);
    assert!(removed.success);
    assert_eq!(removed.item_name, Some("Widget".to_string()));
    assert_eq!(
        removed.message,
        "Successfully removed item 'Widget' with ID: abc-123"
    );
    let vanished = removal_result(&id, Some("Widget".to_string()), 0);
    assert!(!vanished.success);
    assert_eq!(vanished.message, "No item found with ID: abc-123");
    let missing = removal_result(&id, None, 0);
    assert!(!missing.success);
    assert_eq!(missing.item_name, None);
    assert_eq!(missing.message, "No item found with ID: abc-123");
}

#[test]
fn lookup_and_delete_statements() {
    assert_eq!(lookup_name_statement(), "SELECT Name FROM inventory WHERE Id = ?1");
    assert_eq!(delete_statement(), "DELETE FROM inventory WHERE Id = ?1");
}
