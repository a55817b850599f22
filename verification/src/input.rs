//! Decisions of the interactive add path: what one line of console input
//! settles for a prompt, and how the collected answers become the values an
//! insert binds. The console loop itself lives outside the library and only
//! reads lines and echoes prompts.

use crate::ids::fresh_id;
use crate::records::{flag_value, opt_int_value, NewInventoryItem, SqlValue};
use vstd::prelude::*;
use vstd::string::StrSliceExecFns;

verus! {

/// What one prompt reading does with the (already trimmed) line the user
/// typed.
pub enum PromptAction {
    /// This value stands for the field.
    Accept(String),
    /// A required field got no input and no default: ask again.
    Retry,
}

/// Settles one prompt: non-empty input wins; empty input takes the default
/// when one exists, stays empty for an optional field, and is asked again for
/// a required field without default.
pub fn prompt_decision(input: String, default: Option<String>, required: bool) -> (r: PromptAction)
    ensures
        input@.len() > 0 ==> r == PromptAction::Accept(input),
        input@.len() == 0 && default is Some ==> r == PromptAction::Accept(default.unwrap()),
        input@.len() == 0 && default is None && !required ==> r == PromptAction::Accept(input),
        input@.len() == 0 && default is None && required ==> r == PromptAction::Retry,
{
    if !input.as_str().is_empty() {
        PromptAction::Accept(input)
    } else {
        match default {
            Some(d) => PromptAction::Accept(d),
            None => {
                if !required {
                    PromptAction::Accept(input)
                } else {
                    PromptAction::Retry
                }
            },
        }
    }
}

/// What parsing `s` as a signed 64-bit integer yields: a function of the text
/// alone.
pub uninterp spec fn i64_of_text(s: Seq<char>) -> Option<i64>;

/// Relies on `str::parse::<i64>`: the parsed value depends on the text alone.
#[verifier::external_body]
fn parse_i64(s: &str) -> (r: Option<i64>)
    ensures
        r == i64_of_text(s@),
{
    s.parse::<i64>().ok()
}

/// An affirmative console answer: it starts with `y`, in either case.
pub open spec fn yes_of(s: Seq<char>) -> bool {
    s.len() > 0 && (s[0] == 'y' || s[0] == 'Y')
}

/// Whether an answer is affirmative.
pub fn is_yes(s: &str) -> (b: bool)
    ensures
        b == yes_of(s@),
{
    let n = s.unicode_len();
    if n == 0 {
        false
    } else {
        let c = s.get_char(0);
        c == 'y' || c == 'Y'
    }
}

/// An optional text answer as a bound value: an empty answer stays `NULL`.
pub open spec fn text_or_null(s: String) -> SqlValue {
    if s@.len() == 0 {
        SqlValue::Null
    } else {
        SqlValue::Text(s)
    }
}

fn push_text_or_null(row: &mut Vec<SqlValue>, s: String)
    ensures
        final(row)@ == old(row)@.push(text_or_null(s)),
{
    if s.as_str().is_empty() {
        row.push(SqlValue::Null);
    } else {
        row.push(SqlValue::Text(s));
    }
}

/// The answers the interactive prompts collect, in prompt order, all as raw
/// text.
pub struct PromptedFields {
    pub name: String,
    pub acquired_date: String,
    pub price_text: String,
    pub currency: String,
    pub is_used_text: String,
    pub received_from: String,
    pub serial_number: String,
    pub purchase_reference: String,
    pub notes: String,
    pub extra: String,
    pub future_purchase_text: String,
}

/// Builds the stored row from interactively collected answers: a fresh
/// identifier, the name and date as given, the price parsed (unparsable or
/// empty text stays `NULL`), empty optional answers as `NULL`, and the two
/// yes/no answers as 0/1 flags. Returns what a creation reports back beside
/// the twelve values its insert binds.
pub fn interactive_item(f: PromptedFields) -> (r: (NewInventoryItem, Vec<SqlValue>))
    ensures
        r.0.id@.len() == 36,
        r.0.name == f.name,
        r.0.acquired_date == f.acquired_date,
        r.1@.len() == 12,
        r.1@[0] == SqlValue::Text(r.0.id),
        r.1@[1] == SqlValue::Text(f.name),
        r.1@[2] == SqlValue::Text(f.acquired_date),
        r.1@[3] == (if f.price_text@.len() == 0 {
            SqlValue::Null
        } else {
            opt_int_value(i64_of_text(f.price_text@))
        }),
        r.1@[4] == text_or_null(f.currency),
        r.1@[5] == flag_value(yes_of(f.is_used_text@)),
        r.1@[6] == text_or_null(f.received_from),
        r.1@[7] == text_or_null(f.serial_number),
        r.1@[8] == text_or_null(f.purchase_reference),
        r.1@[9] == text_or_null(f.notes),
        r.1@[10] == text_or_null(f.extra),
        r.1@[11] == flag_value(yes_of(f.future_purchase_text@)),
{
    let id = fresh_id();
    let mut row: Vec<SqlValue> = Vec::new();
    row.push(SqlValue::Text(id.clone()));
    row.push(SqlValue::Text(f.name.clone()));
    row.push(SqlValue::Text(f.acquired_date.clone()));
    if f.price_text.as_str().is_empty() {
        row.push(SqlValue::Null);
    } else {
        match parse_i64(f.price_text.as_str()) {
            Some(n) => row.push(SqlValue::Int(n)),
            None => row.push(SqlValue::Null),
        }
    }
    push_text_or_null(&mut row, f.currency);
    if is_yes(f.is_used_text.as_str()) {
        row.push(SqlValue::Int(1));
    } else {
        row.push(SqlValue::Int(0));
    }
    push_text_or_null(&mut row, f.received_from);
    push_text_or_null(&mut row, f.serial_number);
    push_text_or_null(&mut row, f.purchase_reference);
    push_text_or_null(&mut row, f.notes);
    push_text_or_null(&mut row, f.extra);
    if is_yes(f.future_purchase_text.as_str()) {
        row.push(SqlValue::Int(1));
    } else {
        row.push(SqlValue::Int(0));
    }
    let item = NewInventoryItem { id, name: f.name, acquired_date: f.acquired_date };
    (item, row)
}

} // verus!
