//! Freshly generated identifiers and the current date, the two values a
//! creation needs from outside: a random identifier from the uuid crate and
//! the local date from the chrono crate.

use vstd::prelude::*;

verus! {

/// Relies on `uuid::Uuid::new_v4` and its `Display` impl: a fresh random
/// identifier, rendered in the canonical hyphenated form, which is exactly 36
/// characters. Nothing more can be promised of a random value.
#[verifier::external_body]
pub(crate) fn fresh_id() -> (s: String)
    ensures
        s@.len() == 36,
{
    uuid::Uuid::new_v4().to_string()
}

/// Relies on `chrono::Local::now` and its `format`: the current local date as
/// `YYYY-MM-DD` text. The result depends on the clock and the time zone, so
/// nothing is promised of it.
#[verifier::external_body]
pub(crate) fn today_string() -> String {
    chrono::Local::now().format("%Y-%m-%d").to_string()
}

} // verus!
