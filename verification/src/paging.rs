//! The result paginator: the uniform paged envelope returned by every list
//! operation, the window a limit and offset select from the matching rows, and
//! the exact "showing X-Y of N" arithmetic.

use crate::records::{long_item_of, InventoryItem, LongRow, ShortInventoryItem};
use crate::text::{dec_str, u64_to_string};
use vstd::prelude::*;
use vstd::string::StringExecFns;

verus! {

/// The paging part of a list response. `total` is the count matching the
/// filter before limit and offset are applied.
#[derive(Debug)]
pub struct PagingInfo {
    pub limit: Option<u32>,
    pub offset: Option<u32>,
    pub total: u32,
}

/// The envelope of every list operation: the page of items plus the paging
/// information it was produced with.
#[derive(Debug)]
pub struct PagedResponse<T> {
    pub items: Vec<T>,
    pub paging: PagingInfo,
}

/// Wraps a page of rows and the filter's total count into the response
/// envelope, echoing the requested limit and offset.
pub fn assemble_page<T>(items: Vec<T>, limit: Option<u32>, offset: Option<u32>, total: u32) -> (r:
    PagedResponse<T>)
    ensures
        r.items == items,
        r.paging.limit == limit,
        r.paging.offset == offset,
        r.paging.total == total,
{
    PagedResponse { items, paging: PagingInfo { limit, offset, total } }
}

/// Decodes every raw row of a full listing, in order, and wraps the result
/// into the response envelope.
pub fn long_page(rows: Vec<LongRow>, limit: Option<u32>, offset: Option<u32>, total: u32) -> (r:
    PagedResponse<InventoryItem>)
    ensures
        r.paging.limit == limit,
        r.paging.offset == offset,
        r.paging.total == total,
        r.items@.len() == rows@.len(),
        forall|i: int| 0 <= i < rows@.len() ==> r.items@[i] == long_item_of(rows@[i]),
{
    let ghost orig = rows@;
    let mut rows = rows;
    let mut items: Vec<InventoryItem> = Vec::new();
    proof {
        assert(rows@ =~= orig.skip(0));
    }
    while rows.len() > 0
        invariant
            items@.len() + rows@.len() == orig.len(),
            rows@ == orig.skip(items@.len() as int),
            forall|i: int|
                0 <= i < items@.len() ==> items@[i] == long_item_of(
                    orig[i],
                ),
        decreases rows.len(),
    {
        let ghost k = items@.len() as int;
        proof {
            assert(orig.skip(k)[0] == orig[k]);
        }
        let row = rows.remove(0);
        let item = crate::records::long_item_from_row(row);
        items.push(item);
        proof {
            assert(rows@ =~= orig.skip(k + 1));
        }
    }
    assemble_page(items, limit, offset, total)
}

/// Builds every short item of a listing from its raw row (identifier, name,
/// acquired date), in order, and wraps the result into the response envelope.
pub fn short_page(
    rows: Vec<(String, String, Option<String>)>,
    limit: Option<u32>,
    offset: Option<u32>,
    total: u32,
) -> (r: PagedResponse<ShortInventoryItem>)
    ensures
        r.paging.limit == limit,
        r.paging.offset == offset,
        r.paging.total == total,
        r.items@.len() == rows@.len(),
        forall|i: int|
            0 <= i < rows@.len() ==> r.items@[i].id == rows@[i].0 && r.items@[i].name
                == rows@[i].1 && r.items@[i].acquired_date == rows@[i].2,
{
    let ghost orig = rows@;
    let mut rows = rows;
    let mut items: Vec<ShortInventoryItem> = Vec::new();
    proof {
        assert(rows@ =~= orig.skip(0));
    }
    while rows.len() > 0
        invariant
            items@.len() + rows@.len() == orig.len(),
            rows@ == orig.skip(items@.len() as int),
            forall|i: int|
                0 <= i < items@.len() ==> items@[i].id == orig[i].0 && items@[i].name == orig[i].1
                    && items@[i].acquired_date == orig[i].2,
        decreases rows.len(),
    {
        let ghost k = items@.len() as int;
        proof {
            assert(orig.skip(k)[0] == orig[k]);
        }
        let row = rows.remove(0);
        let item = crate::records::short_item_from_row(row.0, row.1, row.2);
        items.push(item);
        proof {
            assert(rows@ =~= orig.skip(k + 1));
        }
    }
    assemble_page(items, limit, offset, total)
}

/// The window that a limit and offset select from the matching rows: skip
/// `offset` rows, then take at most `limit`.
pub open spec fn page_window<T>(rows: Seq<T>, limit: nat, offset: nat) -> Seq<T> {
    let start = if offset <= rows.len() {
        offset
    } else {
        rows.len()
    };
    let remaining = (rows.len() - start) as nat;
    let count = if limit <= remaining {
        limit
    } else {
        remaining
    };
    rows.subrange(start as int, (start + count) as int)
}

/// The page is never longer than the limit, its length is exactly
/// `min(limit, total - offset)` (and zero when the offset runs past the
/// total), and it holds the rows `offset` .. `offset + length` in order.
pub proof fn lemma_page_window_len<T>(rows: Seq<T>, limit: nat, offset: nat)
    ensures
        page_window(rows, limit, offset).len() <= limit,
        offset <= rows.len() ==> page_window(rows, limit, offset).len() == (if limit <= rows.len()
            - offset {
            limit as int
        } else {
            rows.len() - offset
        }),
        offset > rows.len() ==> page_window(rows, limit, offset).len() == 0,
        forall|i: int|
            0 <= i < page_window(rows, limit, offset).len() ==> page_window(rows, limit, offset)[i]
                == rows[offset + i],
{
}

/// The first displayed position of the page: the offset (default zero) plus
/// one.
pub open spec fn page_start_of(offset: Option<u32>) -> nat {
    (match offset {
        Option::Some(o) => o as nat,
        Option::None => 0,
    }) + 1
}

/// The last displayed position of the page: `start + limit - 1`, capped at the
/// total.
pub open spec fn page_end_of(limit: u32, offset: Option<u32>, total: u32) -> nat {
    let last = (page_start_of(offset) + limit - 1) as nat;
    if last <= total {
        last
    } else {
        total as nat
    }
}

/// The human-readable summary line of a page.
pub open spec fn page_header_of(paging: PagingInfo) -> Seq<char> {
    if paging.total == 0 {
        "No items found"@
    } else {
        match paging.limit {
            Option::Some(l) => "Showing items "@ + dec_str(page_start_of(paging.offset)) + "-"@
                + dec_str(page_end_of(l, paging.offset, paging.total)) + " of "@ + dec_str(
                paging.total as nat,
            ),
            Option::None => "Showing all "@ + dec_str(paging.total as nat) + " items"@,
        }
    }
}

/// Renders the summary line of a page: "No items found" for an empty total
/// whatever the limit and offset, the exact displayed range
/// `start = offset + 1`, `end = min(start + limit - 1, total)` when a limit is
/// set, and "all N items" otherwise.
pub fn page_header(paging: &PagingInfo) -> (s: String)
    ensures
        s@ == page_header_of(*paging),
{
    if paging.total == 0 {
        let s = String::from_str("No items found");
        s
    } else {
        match paging.limit {
            Some(l) => {
                let off: u64 = match paging.offset {
                    Some(o) => o as u64,
                    None => 0,
                };
                let start: u64 = off + 1;
                let last: u64 = start + (l as u64) - 1;
                let end: u64 = if last <= paging.total as u64 {
                    last
                } else {
                    paging.total as u64
                };
                let mut s = String::from_str("Showing items ");
                let start_text = u64_to_string(start);
                s.append(start_text.as_str());
                s.append("-");
                let end_text = u64_to_string(end);
                s.append(end_text.as_str());
                s.append(" of ");
                let total_text = u64_to_string(paging.total as u64);
                s.append(total_text.as_str());
                proof {
                    assert(s@ =~= page_header_of(*paging));
                }
                s
            },
            None => {
                let mut s = String::from_str("Showing all ");
                let total_text = u64_to_string(paging.total as u64);
                s.append(total_text.as_str());
                s.append(" items");
                proof {
                    assert(s@ =~= page_header_of(*paging));
                }
                s
            },
        }
    }
}

} // verus!
