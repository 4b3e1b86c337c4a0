//! The cursor-chaining paginator.

use roblox_api::apis::{Page, Paginator};

fn fetch(cursor: Option<&str>, fetches: &mut u32) -> Page<&'static str> {
    *fetches += 1;
    match cursor {
        None => Page {
            previous_page_cursor: None,
            next_page_cursor: Some(String::from("c1")),
            data: vec!["A"],
        },
        Some("c1") => Page {
            previous_page_cursor: None,
            next_page_cursor: None,
            data: vec!["B"],
        },
        Some(other) => panic!("no page is stored under cursor {other}"),
    }
}

#[test]
fn pagination_terminates_after_the_terminal_page() {
    let mut fetches: u32 = 0;
    let mut pager = Paginator::start(None);
    let mut yielded: Vec<&'static str> = Vec::new();
    while !pager.is_finished() {
        let cursor = pager.fetch_cursor().clone();
        let page = fetch(cursor.as_deref(), &mut fetches);
        yielded.extend(page.data.iter().copied());
        pager.record_page(&page);
    }
    assert_eq!(yielded, vec!["A", "B"]);
    assert_eq!(fetches, 2);
}

#[test]
fn pagination_yields_one_page_when_the_first_is_terminal() {
    let mut fetches: u32 = 0;
    let mut pager = Paginator::start(Some(String::from("c1")));
    let mut yielded: Vec<&'static str> = Vec::new();
    while !pager.is_finished() {
        let cursor = pager.fetch_cursor().clone();
        let page = fetch(cursor.as_deref(), &mut fetches);
        yielded.extend(page.data.iter().copied());
        pager.record_page(&page);
    }
    assert_eq!(yielded, vec!["B"]);
    assert_eq!(fetches, 1);
}

#[test]
fn abandoning_a_walk_fetches_nothing_further() {
    let mut fetches: u32 = 0;
    let mut pager = Paginator::start(None);
    let cursor = pager.fetch_cursor().clone();
    let page = fetch(cursor.as_deref(), &mut fetches);
    pager.record_page(&page);
    assert!(!pager.is_finished());
    // walking away here performs no further fetch and needs no cleanup
    drop(pager);
    assert_eq!(fetches, 1);
}

#[test]
fn default_page_is_terminal_and_empty() {
    let p: Page<u32> = Page::default();
    assert!(p.previous_page_cursor.is_none());
    assert!(p.next_page_cursor.is_none());
    assert!(p.data.is_empty());
}
