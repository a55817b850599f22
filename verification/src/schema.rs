//! The fixed `inventory` table schema: the allow-list of column names that may
//! appear in a `WHERE` or `ORDER BY` clause. Free-text field names are never
//! interpolated into SQL without passing this check.

use crate::text::string_eq_lit;
use vstd::prelude::*;
use vstd::string::StringExecFns;

verus! {

/// Whether `name` is one of the filterable / sortable columns of the
/// `inventory` table.
pub open spec fn is_schema_field(name: Seq<char>) -> bool {
    ||| name == "Name"@
    ||| name == "AcquiredDate"@
    ||| name == "PurchaseCurrency"@
    ||| name == "PurchasePrice"@
    ||| name == "ReceivedFrom"@
    ||| name == "SerialNumber"@
    ||| name == "PurchaseReference"@
    ||| name == "Notes"@
    ||| name == "Extra"@
}

/// The filterable / sortable columns, in schema order.
pub open spec fn schema_field_names() -> Seq<Seq<char>> {
    seq![
        "Name"@,
        "AcquiredDate"@,
        "PurchaseCurrency"@,
        "PurchasePrice"@,
        "ReceivedFrom"@,
        "SerialNumber"@,
        "PurchaseReference"@,
        "Notes"@,
        "Extra"@,
    ]
}

/// Every name in the schema list passes the allow-list check.
pub proof fn lemma_schema_fields_allowed()
    ensures
        forall|i: int|
            0 <= i < schema_field_names().len() ==> #[trigger] is_schema_field(
                schema_field_names()[i],
            ),
{
    assert forall|i: int| 0 <= i < schema_field_names().len() implies #[trigger] is_schema_field(
        schema_field_names()[i],
    ) by {
        if i == 0 {
            assert(schema_field_names()[i] == "Name"@);
        } else if i == 1 {
            assert(schema_field_names()[i] == "AcquiredDate"@);
        } else if i == 2 {
            assert(schema_field_names()[i] == "PurchaseCurrency"@);
        } else if i == 3 {
            assert(schema_field_names()[i] == "PurchasePrice"@);
        } else if i == 4 {
            assert(schema_field_names()[i] == "ReceivedFrom"@);
        } else if i == 5 {
            assert(schema_field_names()[i] == "SerialNumber"@);
        } else if i == 6 {
            assert(schema_field_names()[i] == "PurchaseReference"@);
        } else if i == 7 {
            assert(schema_field_names()[i] == "Notes"@);
        } else {
            assert(schema_field_names()[i] == "Extra"@);
        }
    }
}

/// Checks `name` against the allow-list of schema columns.
pub fn is_allowed_field(name: &String) -> (b: bool)
    ensures
        b == is_schema_field(name@),
{
    string_eq_lit(name, "Name") || string_eq_lit(name, "AcquiredDate") || string_eq_lit(
        name,
        "PurchaseCurrency",
    ) || string_eq_lit(name, "PurchasePrice") || string_eq_lit(name, "ReceivedFrom")
        || string_eq_lit(name, "SerialNumber") || string_eq_lit(name, "PurchaseReference")
        || string_eq_lit(name, "Notes") || string_eq_lit(name, "Extra")
}

/// The filterable / sortable columns of the `inventory` table, in schema
/// order, as owned strings.
pub fn schema_fields() -> (v: Vec<String>)
    ensures
        v.deep_view() == schema_field_names(),
{
    let mut v: Vec<String> = Vec::new();
    v.push(String::from_str("Name"));
    v.push(String::from_str("AcquiredDate"));
    v.push(String::from_str("PurchaseCurrency"));
    v.push(String::from_str("PurchasePrice"));
    v.push(String::from_str("ReceivedFrom"));
    v.push(String::from_str("SerialNumber"));
    v.push(String::from_str("PurchaseReference"));
    v.push(String::from_str("Notes"));
    v.push(String::from_str("Extra"));
    proof {
        assert(v.deep_view() =~= schema_field_names());
    }
    v
}

} // verus!
