//! The mutation builder: removal and edit against a looked-up identifier. An
//! edit builds an `UPDATE ... SET` statement from only the fields present in
//! the payload (the name counts as present when non-empty); with no eligible
//! field, or with an identifier that does not exist, it fails without touching
//! the store. Column names in the `SET` clause are fixed literals, and every
//! value is bound, never interpolated.

use crate::records::{flag_value, EditableItem, SqlValue};
use vstd::prelude::*;
use vstd::string::StringExecFns;

verus! {

/// The outcome of a removal: whether a row went away, the echoed identifier,
/// the name the lookup resolved (when the item existed), and a human message.
pub struct RemovalResult {
    pub success: bool,
    pub item_id: String,
    pub item_name: Option<String>,
    pub message: String,
}

/// The outcome of an edit: whether a row was updated, the echoed identifier,
/// and a human message.
pub struct EditResult {
    pub success: bool,
    pub item_id: String,
    pub message: String,
}

/// Whether an edit payload carries anything to write: a non-empty name, or any
/// present optional field.
pub open spec fn has_update_fields(u: EditableItem) -> bool {
    ||| u.name@.len() > 0
    ||| u.acquired_date is Some
    ||| u.purchase_price is Some
    ||| u.purchase_currency is Some
    ||| u.is_used is Some
    ||| u.received_from is Some
    ||| u.serial_number is Some
    ||| u.purchase_reference is Some
    ||| u.notes is Some
    ||| u.extra is Some
    ||| u.future_purchase is Some
}

/// The assignment and bound value that field `k` of an edit payload
/// contributes, in the fixed column order of the `SET` clause; absent for a
/// field the payload leaves unchanged.
pub open spec fn set_part_at(u: EditableItem, k: int) -> Option<(Seq<char>, SqlValue)> {
    if k == 0 {
        if u.name@.len() > 0 {
            Option::Some(("Name = ?"@, SqlValue::Text(u.name)))
        } else {
            Option::None
        }
    } else if k == 1 {
        match u.acquired_date {
            Option::Some(d) => Option::Some(("AcquiredDate = ?"@, SqlValue::Text(d))),
            Option::None => Option::None,
        }
    } else if k == 2 {
        match u.purchase_price {
            Option::Some(n) => Option::Some(("PurchasePrice = ?"@, SqlValue::Int(n))),
            Option::None => Option::None,
        }
    } else if k == 3 {
        match u.purchase_currency {
            Option::Some(c) => Option::Some(("PurchaseCurrency = ?"@, SqlValue::Text(c))),
            Option::None => Option::None,
        }
    } else if k == 4 {
        match u.is_used {
            Option::Some(b) => Option::Some(("IsUsed = ?"@, flag_value(b))),
            Option::None => Option::None,
        }
    } else if k == 5 {
        match u.received_from {
            Option::Some(s) => Option::Some(("ReceivedFrom = ?"@, SqlValue::Text(s))),
            Option::None => Option::None,
        }
    } else if k == 6 {
        match u.serial_number {
            Option::Some(s) => Option::Some(("SerialNumber = ?"@, SqlValue::Text(s))),
            Option::None => Option::None,
        }
    } else if k == 7 {
        match u.purchase_reference {
            Option::Some(s) => Option::Some(("PurchaseReference = ?"@, SqlValue::Text(s))),
            Option::None => Option::None,
        }
    } else if k == 8 {
        match u.notes {
            Option::Some(s) => Option::Some(("Notes = ?"@, SqlValue::Text(s))),
            Option::None => Option::None,
        }
    } else if k == 9 {
        match u.extra {
            Option::Some(s) => Option::Some(("Extra = ?"@, SqlValue::Text(s))),
            Option::None => Option::None,
        }
    } else if k == 10 {
        match u.future_purchase {
            Option::Some(b) => Option::Some(("FuturePurchase = ?"@, flag_value(b))),
            Option::None => Option::None,
        }
    } else {
        Option::None
    }
}

/// The assignments and bound values the first `k` fields contribute.
pub open spec fn set_parts_upto(u: EditableItem, k: int) -> (Seq<Seq<char>>, Seq<SqlValue>)
    decreases k,
{
    if k <= 0 {
        (Seq::empty(), Seq::empty())
    } else {
        let prev = set_parts_upto(u, k - 1);
        match set_part_at(u, k - 1) {
            Option::Some(p) => (prev.0.push(p.0), prev.1.push(p.1)),
            Option::None => prev,
        }
    }
}

/// The `SET` assignments an edit payload produces, in fixed column order, each
/// beside the value it binds.
pub open spec fn set_parts_of(u: EditableItem) -> (Seq<Seq<char>>, Seq<SqlValue>) {
    set_parts_upto(u, 11)
}

/// An edit payload has something to write exactly when it contributes at least
/// one `SET` assignment.
pub proof fn lemma_has_update_fields_iff(u: EditableItem)
    ensures
        has_update_fields(u) <==> set_parts_of(u).0.len() > 0,
{
    reveal_with_fuel(set_parts_upto, 12);
}

/// Joins text fragments with `, `.
pub open spec fn comma_join(parts: Seq<Seq<char>>) -> Seq<char>
    decreases parts.len(),
{
    if parts.len() == 0 {
        Seq::empty()
    } else if parts.len() == 1 {
        parts[0]
    } else {
        comma_join(parts.drop_last()) + ", "@ + parts.last()
    }
}

/// The update statement an edit payload produces for an existing row.
pub open spec fn update_statement_of(u: EditableItem) -> Seq<char> {
    "UPDATE inventory SET "@ + comma_join(set_parts_of(u).0) + " WHERE Id = ?"@
}

/// The values the update statement binds: one per present field, in clause
/// order, then the target identifier.
pub open spec fn update_params_of(u: EditableItem, id: String) -> Seq<SqlValue> {
    set_parts_of(u).1.push(SqlValue::Text(id))
}

/// What an edit does, decided from the lookup outcome and the payload: fail
/// because the identifier does not exist, fail because nothing is eligible to
/// update, or run exactly one `UPDATE` statement. Both failure plans touch the
/// store not at all.
pub enum EditPlan {
    NotFound,
    NoFields,
    Update(String, Vec<SqlValue>),
}

fn push_set_text(
    clauses: &mut Vec<String>,
    values: &mut Vec<SqlValue>,
    clause: &str,
    v: &Option<String>,
)
    ensures
        v is Some ==> final(clauses).deep_view() == old(clauses).deep_view().push(clause@)
            && final(values)@ == old(values)@.push(SqlValue::Text(v.unwrap())),
        v is None ==> *final(clauses) == *old(clauses) && *final(values) == *old(values),
        final(clauses)@.len() >= old(clauses)@.len(),
{
    match v {
        Some(s) => {
            clauses.push(clause.to_owned());
            values.push(SqlValue::Text(s.clone()));
        },
        None => {},
    }
}

/// Builds the edit decision. With `found` false the plan is a not-found
/// failure whatever the payload holds; with no eligible field it is a
/// no-fields failure; otherwise it is the dynamic update statement and its
/// bound values.
pub fn edit_plan(found: bool, id: &String, updates: &EditableItem) -> (p: EditPlan)
    ensures
        !found ==> p is NotFound,
        found && !has_update_fields(*updates) ==> p is NoFields,
        found && has_update_fields(*updates) ==> (p matches EditPlan::Update(q, vals) && q@
            == update_statement_of(*updates) && vals@ == update_params_of(*updates, *id)),
{
    if !found {
        return EditPlan::NotFound;
    }
    let ghost u = *updates;
    let mut clauses: Vec<String> = Vec::new();
    let mut values: Vec<SqlValue> = Vec::new();
    proof {
        assert(set_parts_upto(u, 0).0 == Seq::<Seq<char>>::empty());
        assert(set_parts_upto(u, 0).1 == Seq::<SqlValue>::empty());
    }
    if !updates.name.as_str().is_empty() {
        clauses.push("Name = ?".to_owned());
        values.push(SqlValue::Text(updates.name.clone()));
    }
    proof {
        assert(clauses.deep_view() =~= set_parts_upto(u, 1).0);
        assert(values@ =~= set_parts_upto(u, 1).1);
    }
    push_set_text(&mut clauses, &mut values, "AcquiredDate = ?", &updates.acquired_date);
    proof {
        assert(clauses.deep_view() =~= set_parts_upto(u, 2).0);
        assert(values@ =~= set_parts_upto(u, 2).1);
    }
    match updates.purchase_price {
        Some(n) => {
            clauses.push("PurchasePrice = ?".to_owned());
            values.push(SqlValue::Int(n));
        },
        None => {},
    }
    proof {
        assert(clauses.deep_view() =~= set_parts_upto(u, 3).0);
        assert(values@ =~= set_parts_upto(u, 3).1);
    }
    push_set_text(&mut clauses, &mut values, "PurchaseCurrency = ?", &updates.purchase_currency);
    proof {
        assert(clauses.deep_view() =~= set_parts_upto(u, 4).0);
        assert(values@ =~= set_parts_upto(u, 4).1);
    }
    match updates.is_used {
        Some(b) => {
            clauses.push("IsUsed = ?".to_owned());
            values.push(
                SqlValue::Int(
                    if b {
                        1
                    } else {
                        0
                    },
                ),
            );
        },
        None => {},
    }
    proof {
        assert(clauses.deep_view() =~= set_parts_upto(u, 5).0);
        assert(values@ =~= set_parts_upto(u, 5).1);
    }
    push_set_text(&mut clauses, &mut values, "ReceivedFrom = ?", &updates.received_from);
    proof {
        assert(clauses.deep_view() =~= set_parts_upto(u, 6).0);
        assert(values@ =~= set_parts_upto(u, 6).1);
    }
    push_set_text(&mut clauses, &mut values, "SerialNumber = ?", &updates.serial_number);
    proof {
        assert(clauses.deep_view() =~= set_parts_upto(u, 7).0);
        assert(values@ =~= set_parts_upto(u, 7).1);
    }
    push_set_text(&mut clauses, &mut values, "PurchaseReference = ?", &updates.purchase_reference);
    proof {
        assert(clauses.deep_view() =~= set_parts_upto(u, 8).0);
        assert(values@ =~= set_parts_upto(u, 8).1);
    }
    push_set_text(&mut clauses, &mut values, "Notes = ?", &updates.notes);
    proof {
        assert(clauses.deep_view() =~= set_parts_upto(u, 9).0);
        assert(values@ =~= set_parts_upto(u, 9).1);
    }
    push_set_text(&mut clauses, &mut values, "Extra = ?", &updates.extra);
    proof {
        assert(clauses.deep_view() =~= set_parts_upto(u, 10).0);
        assert(values@ =~= set_parts_upto(u, 10).1);
    }
    match updates.future_purchase {
        Some(b) => {
            clauses.push("FuturePurchase = ?".to_owned());
            values.push(
                SqlValue::Int(
                    if b {
                        1
                    } else {
                        0
                    },
                ),
            );
        },
        None => {},
    }
    proof {
        assert(clauses.deep_view() =~= set_parts_upto(u, 11).0);
        assert(values@ =~= set_parts_upto(u, 11).1);
        assert(clauses.deep_view() == set_parts_of(u).0);
        assert(values@ == set_parts_of(u).1);
        lemma_has_update_fields_iff(u);
    }
    if clauses.len() == 0 {
        return EditPlan::NoFields;
    }
    let ghost cv = set_parts_of(*updates).0;
    let mut q = String::from_str("UPDATE inventory SET ");
    let mut i: usize = 0;
    while i < clauses.len()
        invariant
            1 <= clauses.len() == cv.len(),
            i <= clauses.len(),
            cv == clauses.deep_view(),
            i == 0 ==> q@ == "UPDATE inventory SET "@,
            i > 0 ==> q@ == "UPDATE inventory SET "@ + comma_join(cv.take(i as int)),
        decreases clauses.len() - i,
    {
        if i > 0 {
            q.append(", ");
        }
        q.append(clauses[i].as_str());
        proof {
            assert(cv.take(i + 1).drop_last() =~= cv.take(i as int));
            assert(cv.take(i + 1).last() == cv[i as int]);
            assert(cv[i as int] == clauses@[i as int]@);
            if i == 0 {
                assert(comma_join(cv.take(1)) == cv.take(1)[0]);
                assert(q@ =~= "UPDATE inventory SET "@ + comma_join(cv.take(1)));
            } else {
                assert(q@ =~= "UPDATE inventory SET "@ + comma_join(cv.take(i + 1)));
            }
        }
        i = i + 1;
    }
    q.append(" WHERE Id = ?");
    values.push(SqlValue::Text(id.clone()));
    proof {
        assert(cv.take(cv.len() as int) =~= cv);
        assert(q@ =~= update_statement_of(*updates));
    }
    EditPlan::Update(q, values)
}

fn not_found_message(id: &String) -> (s: String)
    ensures
        s@ == "No item found with ID: "@ + id@,
{
    let mut s = String::from_str("No item found with ID: ");
    s.append(id.as_str());
    s
}

/// The failure an edit reports for an identifier that does not exist.
pub fn edit_not_found(id: &String) -> (r: EditResult)
    ensures
        !r.success,
        r.item_id@ == id@,
        r.message@ == "No item found with ID: "@ + id@,
{
    EditResult { success: false, item_id: id.clone(), message: not_found_message(id) }
}

/// The failure an edit reports for a payload with nothing to update.
pub fn edit_no_fields(id: &String) -> (r: EditResult)
    ensures
        !r.success,
        r.item_id@ == id@,
        r.message@ == "No fields to update"@,
{
    EditResult {
        success: false,
        item_id: id.clone(),
        message: String::from_str("No fields to update"),
    }
}

/// The outcome an executed update reports: success exactly when a row was
/// affected.
pub fn edit_apply_result(id: &String, updated: usize) -> (r: EditResult)
    ensures
        r.success == (updated > 0),
        r.item_id@ == id@,
        updated > 0 ==> r.message@ == "Successfully updated item with ID: "@ + id@,
        updated == 0 ==> r.message@ == "Failed to update item with ID: "@ + id@,
{
    if updated > 0 {
        let mut m = String::from_str("Successfully updated item with ID: ");
        m.append(id.as_str());
        EditResult { success: true, item_id: id.clone(), message: m }
    } else {
        let mut m = String::from_str("Failed to update item with ID: ");
        m.append(id.as_str());
        EditResult { success: false, item_id: id.clone(), message: m }
    }
}

/// The outcome of a removal, from the name the lookup resolved and the number
/// of rows the delete affected (zero when no delete ran): success exactly when
/// the item existed and a row went away, with the resolved name echoed either
/// way.
pub fn removal_result(id: &String, name: Option<String>, deleted: usize) -> (r: RemovalResult)
    ensures
        r.item_id@ == id@,
        r.item_name == name,
        r.success == (name is Some && deleted > 0),
        name is Some && deleted > 0 ==> r.message@ == "Successfully removed item '"@
            + name.unwrap()@ + "' with ID: "@ + id@,
        name is None || deleted == 0 ==> r.message@ == "No item found with ID: "@ + id@,
{
    match &name {
        Some(n) => {
            if deleted > 0 {
                let mut m = String::from_str("Successfully removed item '");
                m.append(n.as_str());
                m.append("' with ID: ");
                m.append(id.as_str());
                RemovalResult { success: true, item_id: id.clone(), item_name: name, message: m }
            } else {
                RemovalResult {
                    success: false,
                    item_id: id.clone(),
                    item_name: name,
                    message: not_found_message(id),
                }
            }
        },
        None => RemovalResult {
            success: false,
            item_id: id.clone(),
            item_name: name,
            message: not_found_message(id),
        },
    }
}

/// The statement that resolves an identifier to its item's name; its one
/// parameter is the identifier.
pub fn lookup_name_statement() -> (s: String)
    ensures
        s@ == "SELECT Name FROM inventory WHERE Id = ?1"@,
{
    String::from_str("SELECT Name FROM inventory WHERE Id = ?1")
}

/// The statement a removal executes; its one parameter is the identifier.
pub fn delete_statement() -> (s: String)
    ensures
        s@ == "DELETE FROM inventory WHERE Id = ?1"@,
{
    String::from_str("DELETE FROM inventory WHERE Id = ?1")
}

} // verus!
