use sitegen::blog::assemble_blog;
use sitegen::config::SiteConfig;
use sitegen::entry::BlogEntry;
use sitegen::error::SiteError;
use sitegen::pagination::paginate;
use sitegen::sorting::sort_entries;

fn entry(title: &str, date: &str) -> BlogEntry {
    let raw = format!("+++\ntitle = \"{}\"\ndate = \"{}\"\n+++\nbody of {}", title, date, title);
    let name = format!("{}.md", title);
    BlogEntry::build(&raw, &name, &name).unwrap()
}

fn config() -> SiteConfig {
    SiteConfig {
        name: String::from("Site"),
        home_page: String::from("https://example.com"),
        icon: String::from("https://example.com/icon.png"),
    }
}

#[test]
fn sort_orders_by_date_ascending() {
    let mut v = vec![
        entry("c", "2024-03-01"),
        entry("a", "2023-12-31"),
        entry("b", "2024-01-15"),
    ];
    sort_entries(&mut v);
    let titles: Vec<&str> = v.iter().map(|e| e.title.as_str()).collect();
    assert_eq!(titles, ["a", "b", "c"]);
}

#[test]
fn sort_is_stable_on_equal_dates() {
    let mut v = vec![
        entry("late", "2024-05-01"),
        entry("first", "2024-01-01"),
        entry("second", "2024-01-01"),
        entry("third", "2024-01-01"),
    ];
    sort_entries(&mut v);
    let titles: Vec<&str> = v.iter().map(|e| e.title.as_str()).collect();
    assert_eq!(titles, ["first", "second", "third", "late"]);
}

#[test]
fn pagination_makes_ceil_n_over_10_pages() {
    for (n, expected) in [(1usize, 1usize), (9, 1), (10, 1), (11, 2), (20, 2), (25, 3)] {
        let v: Vec<BlogEntry> = (0..n).map(|i| entry(&format!("e{i}"), "2024-01-01")).collect();
        let pages = paginate(v);
        assert_eq!(pages.len(), expected, "n = {n}");
        for p in &pages {
            assert!(p.entries.len() <= 10);
            assert_eq!(p.title, "Blogs");
        }
        let total: usize = pages.iter().map(|p| p.entries.len()).sum();
        assert_eq!(total, n);
    }
}

#[test]
fn pagination_concatenation_reproduces_the_input_order() {
    let v: Vec<BlogEntry> = (0..25).map(|i| entry(&format!("e{i}"), "2024-01-01")).collect();
    let pages = paginate(v);
    let flat: Vec<&str> =
        pages.iter().flat_map(|p| p.entries.iter()).map(|e| e.title.as_str()).collect();
    let expected: Vec<String> = (0..25).map(|i| format!("e{i}")).collect();
    assert_eq!(flat, expected.iter().map(|s| s.as_str()).collect::<Vec<_>>());
}

#[test]
fn neighbour_indices_follow_the_literal_arithmetic() {
    // 25 entries: three pages; 25 / 10 == 2, so only the last page lacks a next link.
    let v: Vec<BlogEntry> = (0..25).map(|i| entry(&format!("e{i}"), "2024-01-01")).collect();
    let pages = paginate(v);
    assert_eq!(pages[0].previous_index, None);
    assert_eq!(pages[0].next_index, Some(1));
    assert_eq!(pages[1].previous_index, Some(0));
    assert_eq!(pages[1].next_index, Some(2));
    assert_eq!(pages[2].previous_index, Some(1));
    assert_eq!(pages[2].next_index, None);
}

#[test]
fn exact_multiple_of_ten_overcounts_the_next_link() {
    // The has-next test divides the pre-pagination total by the page size:
    // with exactly 10 entries, 0 < 10 / 10 holds, so the single page links
    // to a page that does not exist. The literal arithmetic is kept.
    let v: Vec<BlogEntry> = (0..10).map(|i| entry(&format!("e{i}"), "2024-01-01")).collect();
    let pages = paginate(v);
    assert_eq!(pages.len(), 1);
    assert_eq!(pages[0].next_index, Some(1));

    // One short of the boundary: no next link.
    let v: Vec<BlogEntry> = (0..9).map(|i| entry(&format!("e{i}"), "2024-01-01")).collect();
    let pages = paginate(v);
    assert_eq!(pages.len(), 1);
    assert_eq!(pages[0].next_index, None);
}

#[test]
fn assemble_sorts_paginates_and_emits_feeds() {
    let v = vec![
        entry("newest", "2024-06-01"),
        entry("oldest", "2023-01-01"),
        entry("middle", "2023-07-01"),
    ];
    let out = assemble_blog(v, &config()).unwrap();
    assert_eq!(out.pages.len(), 1);
    let titles: Vec<&str> = out.pages[0].entries.iter().map(|e| e.title.as_str()).collect();
    assert_eq!(titles, ["oldest", "middle", "newest"]);
    assert!(out.json_feed.contains("jsonfeed.org"));
    assert!(out.rss_feed.contains("<rss version=\"2.0\">"));
}

#[test]
fn assemble_with_no_entries_is_a_configuration_error() {
    let e = assemble_blog(Vec::new(), &config()).unwrap_err();
    match &e {
        SiteError::ConfigError { detail } => {
            assert_eq!(detail, "the blogs directory holds no entries")
        },
        other => panic!("unexpected error: {}", other.message()),
    }
}

#[test]
fn feeds_carry_only_the_first_page() {
    let v: Vec<BlogEntry> = (0..15).map(|i| entry(&format!("e{i:02}"), "2024-01-01")).collect();
    let out = assemble_blog(v, &config()).unwrap();
    assert_eq!(out.pages.len(), 2);
    assert!(out.json_feed.contains("e09"));
    assert!(!out.json_feed.contains("e10"));
    assert!(out.rss_feed.contains("e09"));
    assert!(!out.rss_feed.contains("e10"));
}
