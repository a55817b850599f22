use inventory_core::paging::{assemble_page, page_header, PagingInfo};

fn info(limit: Option<u32>, offset: Option<u32>, total: u32) -> PagingInfo {
    PagingInfo { limit, offset, total }
}

#[test]
fn display_range_is_exact() {
    let header = page_header(&info(Some(20), Some(40), 57));
    assert_eq!(header, "Showing items 41-57 of 57");
}

#[test]
fn display_range_fits_inside_total() {
    assert_eq!(page_header(&info(Some(20), Some(20), 57)), "Showing items 21-40 of 57");
    assert_eq!(page_header(&info(Some(10), None, 4)), "Showing items 1-4 of 4");
}

#[test]
fn empty_total_reports_no_items() {
    assert_eq!(page_header(&info(Some(20), Some(40), 0)), "No items found");
    assert_eq!(page_header(&info(None, None, 0)), "No items found");
    assert_eq!(page_header(&info(Some(0), Some(0), 0)), "No items found");
}

#[test]
fn no_limit_shows_all() {
    assert_eq!(page_header(&info(None, Some(40), 3)), "Showing all 3 items");
}

#[test]
fn zero_limit_range() {
    assert_eq!(page_header(&info(Some(0), None, 5)), "Showing items 1-0 of 5");
}

#[test]
fn largest_values_do_not_overflow() {
    let header = page_header(&info(Some(u32::MAX), Some(u32::MAX), u32::MAX));
    assert_eq!(header, "Showing items 4294967296-4294967295 of 4294967295");
}

#[test]
fn envelope_echoes_inputs() {
    let page = assemble_page(vec![10, 20, 30], Some(2), Some(1), 9);
    assert_eq!(page.items, vec![10, 20, 30]);
    assert_eq!(page.paging.limit, Some(2));
    assert_eq!(page.paging.offset, Some(1));
    assert_eq!(page.paging.total, 9);
}
