//! The record mapper: the typed items, the conversion of raw rows into them,
//! and the conversion of a fully-resolved item into the values bound by an
//! insert. Stored rows keep the two boolean fields as 0/1 integers and keep
//! absent optional fields as SQL `NULL`.

use crate::ids::{fresh_id, today_string};
use vstd::prelude::*;
use vstd::string::StringExecFns;

verus! {

/// A full inventory record, as decoded from a row or supplied by a creation
/// payload. Every optional field distinguishes absent (`None`) from present.
pub struct InventoryItem {
    pub id: String,
    pub name: String,
    pub acquired_date: Option<String>,
    pub purchase_price: Option<i64>,
    pub purchase_currency: Option<String>,
    pub is_used: Option<bool>,
    pub received_from: Option<String>,
    pub serial_number: Option<String>,
    pub purchase_reference: Option<String>,
    pub notes: Option<String>,
    pub extra: Option<String>,
    pub future_purchase: Option<bool>,
}

/// The compact projection used by short listings.
pub struct ShortInventoryItem {
    pub id: String,
    pub name: String,
    pub acquired_date: Option<String>,
}

/// What a plain creation reports back: the generated identifier, the name, and
/// the acquired date that was stored.
pub struct NewInventoryItem {
    pub id: String,
    pub name: String,
    pub acquired_date: String,
}

/// An edit payload: every field optional, absence meaning "leave unchanged".
/// For the name, presence means a non-empty string.
pub struct EditableItem {
    pub id: String,
    pub name: String,
    pub acquired_date: Option<String>,
    pub purchase_price: Option<i64>,
    pub purchase_currency: Option<String>,
    pub is_used: Option<bool>,
    pub received_from: Option<String>,
    pub serial_number: Option<String>,
    pub purchase_reference: Option<String>,
    pub notes: Option<String>,
    pub extra: Option<String>,
    pub future_purchase: Option<bool>,
}

/// An item with every write-time default applied: what an insert actually
/// stores.
pub struct ResolvedItem {
    pub id: String,
    pub name: String,
    pub acquired_date: String,
    pub purchase_price: Option<i64>,
    pub purchase_currency: String,
    pub is_used: bool,
    pub received_from: Option<String>,
    pub serial_number: Option<String>,
    pub purchase_reference: Option<String>,
    pub notes: Option<String>,
    pub extra: Option<String>,
    pub future_purchase: bool,
}

/// A value bound to one SQL parameter.
#[derive(Debug, PartialEq, Eq)]
pub enum SqlValue {
    Null,
    Int(i64),
    Text(String),
}

/// An optional text column as a bound value: `NULL` when absent.
pub open spec fn opt_text_value(v: Option<String>) -> SqlValue {
    match v {
        Option::Some(s) => SqlValue::Text(s),
        Option::None => SqlValue::Null,
    }
}

/// An optional integer column as a bound value: `NULL` when absent.
pub open spec fn opt_int_value(v: Option<i64>) -> SqlValue {
    match v {
        Option::Some(i) => SqlValue::Int(i),
        Option::None => SqlValue::Null,
    }
}

/// A boolean column as a bound value: stored as integer 0 or 1.
pub open spec fn flag_value(b: bool) -> SqlValue {
    SqlValue::Int(
        if b {
            1
        } else {
            0
        },
    )
}

/// The twelve values a full insert binds, in column order.
pub open spec fn row_of(r: ResolvedItem) -> Seq<SqlValue> {
    seq![
        SqlValue::Text(r.id),
        SqlValue::Text(r.name),
        SqlValue::Text(r.acquired_date),
        opt_int_value(r.purchase_price),
        SqlValue::Text(r.purchase_currency),
        flag_value(r.is_used),
        opt_text_value(r.received_from),
        opt_text_value(r.serial_number),
        opt_text_value(r.purchase_reference),
        opt_text_value(r.notes),
        opt_text_value(r.extra),
        flag_value(r.future_purchase),
    ]
}

/// What a text-typed read of a stored value yields: the text, or absent for
/// `NULL`.
pub open spec fn opt_text_of(v: SqlValue) -> Option<String> {
    match v {
        SqlValue::Text(s) => Option::Some(s),
        _ => Option::None,
    }
}

/// What an integer-typed read of a stored value yields: the integer, or absent
/// for `NULL`.
pub open spec fn opt_int_of(v: SqlValue) -> Option<i64> {
    match v {
        SqlValue::Int(i) => Option::Some(i),
        _ => Option::None,
    }
}

/// A raw row of the full projection, as the storage engine hands it back:
/// boolean columns still as optional integers.
pub struct LongRow {
    pub id: String,
    pub name: String,
    pub acquired_date: Option<String>,
    pub purchase_price: Option<i64>,
    pub purchase_currency: Option<String>,
    pub is_used: Option<i64>,
    pub received_from: Option<String>,
    pub serial_number: Option<String>,
    pub purchase_reference: Option<String>,
    pub notes: Option<String>,
    pub extra: Option<String>,
    pub future_purchase: Option<i64>,
}

/// Decodes a stored 0/1 flag: any nonzero integer is true, `NULL` stays
/// absent (never `false`).
pub open spec fn flag_of(v: Option<i64>) -> Option<bool> {
    match v {
        Option::Some(i) => Option::Some(i != 0),
        Option::None => Option::None,
    }
}

/// The typed item a raw row decodes to.
pub open spec fn long_item_of(row: LongRow) -> InventoryItem {
    InventoryItem {
        id: row.id,
        name: row.name,
        acquired_date: row.acquired_date,
        purchase_price: row.purchase_price,
        purchase_currency: row.purchase_currency,
        is_used: flag_of(row.is_used),
        received_from: row.received_from,
        serial_number: row.serial_number,
        purchase_reference: row.purchase_reference,
        notes: row.notes,
        extra: row.extra,
        future_purchase: flag_of(row.future_purchase),
    }
}

/// Decodes a raw row of the full projection: fields carry over verbatim, and
/// the two 0/1 flag columns decode to booleans with `NULL` kept absent.
pub fn long_item_from_row(row: LongRow) -> (r: InventoryItem)
    ensures
        r == long_item_of(row),
{
    InventoryItem {
        id: row.id,
        name: row.name,
        acquired_date: row.acquired_date,
        purchase_price: row.purchase_price,
        purchase_currency: row.purchase_currency,
        is_used: match row.is_used {
            Some(v) => Some(v != 0),
            None => None,
        },
        received_from: row.received_from,
        serial_number: row.serial_number,
        purchase_reference: row.purchase_reference,
        notes: row.notes,
        extra: row.extra,
        future_purchase: match row.future_purchase {
            Some(v) => Some(v != 0),
            None => None,
        },
    }
}

/// Decodes a raw row of the short projection.
pub fn short_item_from_row(id: String, name: String, acquired_date: Option<String>) -> (r:
    ShortInventoryItem)
    ensures
        r.id == id,
        r.name == name,
        r.acquired_date == acquired_date,
{
    ShortInventoryItem { id, name, acquired_date }
}

/// The row a listing reads back for a stored item: exactly the values the
/// insert bound, seen through typed reads.
pub open spec fn read_back_of(r: ResolvedItem) -> LongRow {
    let row = row_of(r);
    LongRow {
        id: opt_text_of(row[0]).unwrap(),
        name: opt_text_of(row[1]).unwrap(),
        acquired_date: opt_text_of(row[2]),
        purchase_price: opt_int_of(row[3]),
        purchase_currency: opt_text_of(row[4]),
        is_used: opt_int_of(row[5]),
        received_from: opt_text_of(row[6]),
        serial_number: opt_text_of(row[7]),
        purchase_reference: opt_text_of(row[8]),
        notes: opt_text_of(row[9]),
        extra: opt_text_of(row[10]),
        future_purchase: opt_int_of(row[11]),
    }
}

/// Round trip: storing a resolved item and listing it with the full projection
/// reproduces every field verbatim; the required text fields come back as
/// present, and the stored 0/1 flags decode back to the original booleans.
pub proof fn lemma_insert_list_round_trip(r: ResolvedItem)
    ensures
        long_item_of(read_back_of(r)) == (InventoryItem {
            id: r.id,
            name: r.name,
            acquired_date: Option::Some(r.acquired_date),
            purchase_price: r.purchase_price,
            purchase_currency: Option::Some(r.purchase_currency),
            is_used: Option::Some(r.is_used),
            received_from: r.received_from,
            serial_number: r.serial_number,
            purchase_reference: r.purchase_reference,
            notes: r.notes,
            extra: r.extra,
            future_purchase: Option::Some(r.future_purchase),
        }),
{
    assert(row_of(r)[5] == flag_value(r.is_used));
    assert(row_of(r)[11] == flag_value(r.future_purchase));
}

/// Resolves a creation payload into what will be stored: the payload's own
/// identifier, if any, is discarded for `id`; a missing acquired date becomes
/// `today`; a missing currency falls back to the configured default and then
/// to the built-in `JPY`; missing booleans become false; everything else
/// carries over verbatim.
pub fn resolve_new_item(
    payload: InventoryItem,
    default_currency: Option<String>,
    today: String,
    id: String,
) -> (r: ResolvedItem)
    ensures
        r.id == id,
        r.name == payload.name,
        r.acquired_date == (match payload.acquired_date {
            Option::Some(d) => d,
            Option::None => today,
        }),
        (match payload.purchase_currency {
            Option::Some(c) => r.purchase_currency == c,
            Option::None => (match default_currency {
                Option::Some(d) => r.purchase_currency == d,
                Option::None => r.purchase_currency@ == "JPY"@,
            }),
        }),
        r.purchase_price == payload.purchase_price,
        r.is_used == (match payload.is_used {
            Option::Some(b) => b,
            Option::None => false,
        }),
        r.received_from == payload.received_from,
        r.serial_number == payload.serial_number,
        r.purchase_reference == payload.purchase_reference,
        r.notes == payload.notes,
        r.extra == payload.extra,
        r.future_purchase == (match payload.future_purchase {
            Option::Some(b) => b,
            Option::None => false,
        }),
{
    let acquired_date = match payload.acquired_date {
        Some(d) => d,
        None => today,
    };
    let purchase_currency = match payload.purchase_currency {
        Some(c) => c,
        None => match default_currency {
            Some(d) => d,
            None => String::from_str("JPY"),
        },
    };
    let is_used = match payload.is_used {
        Some(b) => b,
        None => false,
    };
    let future_purchase = match payload.future_purchase {
        Some(b) => b,
        None => false,
    };
    ResolvedItem {
        id,
        name: payload.name,
        acquired_date,
        purchase_price: payload.purchase_price,
        purchase_currency,
        is_used,
        received_from: payload.received_from,
        serial_number: payload.serial_number,
        purchase_reference: payload.purchase_reference,
        notes: payload.notes,
        extra: payload.extra,
        future_purchase,
    }
}

/// Converts a resolved item into the twelve values its insert binds.
pub fn insert_row(item: &ResolvedItem) -> (row: Vec<SqlValue>)
    ensures
        row@ == row_of(*item),
{
    let mut row: Vec<SqlValue> = Vec::new();
    row.push(SqlValue::Text(item.id.clone()));
    row.push(SqlValue::Text(item.name.clone()));
    row.push(SqlValue::Text(item.acquired_date.clone()));
    row.push(
        match item.purchase_price {
            Some(p) => SqlValue::Int(p),
            None => SqlValue::Null,
        },
    );
    row.push(SqlValue::Text(item.purchase_currency.clone()));
    row.push(
        SqlValue::Int(
            if item.is_used {
                1
            } else {
                0
            },
        ),
    );
    row.push(
        match &item.received_from {
            Some(s) => SqlValue::Text(s.clone()),
            None => SqlValue::Null,
        },
    );
    row.push(
        match &item.serial_number {
            Some(s) => SqlValue::Text(s.clone()),
            None => SqlValue::Null,
        },
    );
    row.push(
        match &item.purchase_reference {
            Some(s) => SqlValue::Text(s.clone()),
            None => SqlValue::Null,
        },
    );
    row.push(
        match &item.notes {
            Some(s) => SqlValue::Text(s.clone()),
            None => SqlValue::Null,
        },
    );
    row.push(
        match &item.extra {
            Some(s) => SqlValue::Text(s.clone()),
            None => SqlValue::Null,
        },
    );
    row.push(
        SqlValue::Int(
            if item.future_purchase {
                1
            } else {
                0
            },
        ),
    );
    proof {
        assert(row@ =~= row_of(*item));
    }
    row
}

/// Creates a plain item: a fresh identifier, the given name, today as the
/// acquired date, and the three values its insert binds.
pub fn create_inventory_item(name: String) -> (r: (NewInventoryItem, Vec<SqlValue>))
    ensures
        r.0.name == name,
        r.0.id@.len() == 36,
        r.1@ == seq![
            SqlValue::Text(r.0.id),
            SqlValue::Text(r.0.name),
            SqlValue::Text(r.0.acquired_date),
        ],
{
    let id = fresh_id();
    let today = today_string();
    let mut row: Vec<SqlValue> = Vec::new();
    row.push(SqlValue::Text(id.clone()));
    row.push(SqlValue::Text(name.clone()));
    row.push(SqlValue::Text(today.clone()));
    let item = NewInventoryItem { id, name, acquired_date: today };
    proof {
        assert(row@ =~= seq![
            SqlValue::Text(item.id),
            SqlValue::Text(item.name),
            SqlValue::Text(item.acquired_date),
        ]);
    }
    (item, row)
}

/// Creates an item from a parsed payload: resolves write-time defaults with a
/// fresh identifier and today's date, and returns the stored item beside the
/// twelve values its insert binds. The payload's own identifier never survives.
pub fn create_item_from_payload(payload: InventoryItem, default_currency: Option<String>) -> (r: (
    ResolvedItem,
    Vec<SqlValue>,
))
    ensures
        r.0.id@.len() == 36,
        r.0.name == payload.name,
        payload.acquired_date is Some ==> r.0.acquired_date == payload.acquired_date.unwrap(),
        (match payload.purchase_currency {
            Option::Some(c) => r.0.purchase_currency == c,
            Option::None => (match default_currency {
                Option::Some(d) => r.0.purchase_currency == d,
                Option::None => r.0.purchase_currency@ == "JPY"@,
            }),
        }),
        r.0.purchase_price == payload.purchase_price,
        r.0.is_used == (match payload.is_used {
            Option::Some(b) => b,
            Option::None => false,
        }),
        r.0.received_from == payload.received_from,
        r.0.serial_number == payload.serial_number,
        r.0.purchase_reference == payload.purchase_reference,
        r.0.notes == payload.notes,
        r.0.extra == payload.extra,
        r.0.future_purchase == (match payload.future_purchase {
            Option::Some(b) => b,
            Option::None => false,
        }),
        r.1@ == row_of(r.0),
{
    let id = fresh_id();
    let today = today_string();
    let item = resolve_new_item(payload, default_currency, today, id);
    let row = insert_row(&item);
    (item, row)
}

/// The statement a full insert prepares; its parameters are `insert_row`'s
/// twelve values, in order.
pub fn insert_full_statement() -> (s: String)
    ensures
        s@
            == "INSERT INTO inventory (Id, Name, AcquiredDate, PurchasePrice, PurchaseCurrency, IsUsed, ReceivedFrom, SerialNumber, PurchaseReference, Notes, Extra, FuturePurchase) VALUES (?1, ?2, ?3, ?4, ?5, ?6, ?7, ?8, ?9, ?10, ?11, ?12)"@,
{
    String::from_str(
        "INSERT INTO inventory (Id, Name, AcquiredDate, PurchasePrice, PurchaseCurrency, IsUsed, ReceivedFrom, SerialNumber, PurchaseReference, Notes, Extra, FuturePurchase) VALUES (?1, ?2, ?3, ?4, ?5, ?6, ?7, ?8, ?9, ?10, ?11, ?12)",
    )
}

/// The statement a plain creation prepares; its parameters are the identifier,
/// the name, and the acquired date, in order.
pub fn insert_basic_statement() -> (s: String)
    ensures
        s@ == "INSERT INTO inventory (Id, Name, AcquiredDate) VALUES (?1, ?2, ?3)"@,
{
    String::from_str("INSERT INTO inventory (Id, Name, AcquiredDate) VALUES (?1, ?2, ?3)")
}

} // verus!
