use sitegen::date::Date;
use sitegen::entry::{build_page_document, html_name, BlogEntry};
use sitegen::error::SiteError;
use sitegen::frontmatter::split_frontmatter;
use sitegen::markdown::md_to_html;
use sitegen::metadata::parse_frontmatter;

fn doc(title: &str, date: &str, body: &str) -> String {
    format!("+++\ntitle = \"{}\"\ndate = \"{}\"\n+++\n{}", title, date, body)
}

#[test]
fn split_keeps_later_markers_in_body() {
    let raw = "+++\na = 1\n+++\nbody with +++ inside";
    let (meta, body) = split_frontmatter(raw).unwrap();
    assert_eq!(meta, "\na = 1\n");
    assert_eq!(body, "\nbody with +++ inside");
}

#[test]
fn split_without_marker_pair_fails() {
    assert!(split_frontmatter("no markers at all").is_none());
    assert!(split_frontmatter("+++\nonly one marker").is_none());
    assert!(split_frontmatter("++++").is_none());
}

#[test]
fn md_to_html_renders_markdown() {
    let html = md_to_html("# Hi there");
    assert!(html.contains("<h1>Hi there</h1>"));
    assert_eq!(md_to_html(""), "");
}

#[test]
fn parse_frontmatter_returns_table_and_raw_body() {
    let raw = "+++\ntitle = \"T\"\nextra = 7\n+++\n# not rendered here";
    let (table, body) = parse_frontmatter(raw, "pages/p.md").unwrap();
    assert_eq!(table.get("title").unwrap().as_str().unwrap(), "T");
    assert_eq!(table.get("extra").unwrap().as_integer().unwrap(), 7);
    assert_eq!(body, "\n# not rendered here");
}

#[test]
fn html_name_rewrites_extension() {
    assert_eq!(html_name("post.md"), "post.html");
    assert_eq!(html_name("README"), "README.html");
    assert_eq!(html_name("archive.tar.gz"), "archive.tar.html");
    assert_eq!(html_name(".hidden"), ".hidden.html");
}

#[test]
fn build_parses_a_complete_document() {
    let raw = doc("Hello", "2024-01-05", "# Hi there");
    let e = BlogEntry::build(&raw, "blogs/hello.md", "hello.md").unwrap();
    assert_eq!(e.title, "Hello");
    assert_eq!(e.date_text, "2024-01-05");
    assert_eq!(e.date, Date { year: 2024, month: 1, day: 5 });
    assert!(e.content_html.contains("<h1>Hi there</h1>"));
    assert_eq!(e.html_path, "hello.html");
}

#[test]
fn build_renders_emoji_and_strikethrough() {
    let raw = doc("A", "2024-01-05", "a :cat: and ~~gone~~");
    let e = BlogEntry::build(&raw, "blogs/a.md", "a.md").unwrap();
    assert!(e.content_html.contains("\u{1F431}"));
    assert!(e.content_html.contains("<del>gone</del>"));
}

#[test]
fn malformed_document_names_the_file() {
    let e = BlogEntry::build("title only, no markers", "blogs/bad.md", "bad.md").unwrap_err();
    match &e {
        SiteError::MalformedDocument { source } => assert_eq!(source, "blogs/bad.md"),
        other => panic!("unexpected error: {}", other.message()),
    }
    assert!(e.message().contains("blogs/bad.md"));
}

#[test]
fn unparseable_metadata_is_invalid() {
    let raw = "+++\nthis is = = not toml\n+++\nbody";
    let e = BlogEntry::build(raw, "blogs/bad.md", "bad.md").unwrap_err();
    match &e {
        SiteError::InvalidMetadata { source, .. } => assert_eq!(source, "blogs/bad.md"),
        other => panic!("unexpected error: {}", other.message()),
    }
}

#[test]
fn missing_required_keys_are_listed() {
    let raw = "+++\ntitle = \"only a title\"\n+++\nbody";
    let e = BlogEntry::build(raw, "blogs/bad.md", "bad.md").unwrap_err();
    match &e {
        SiteError::InvalidMetadata { detail, .. } => {
            assert_eq!(detail, "missing required key date")
        },
        other => panic!("unexpected error: {}", other.message()),
    }

    let raw = "+++\nauthor = \"nobody\"\n+++\nbody";
    let e = BlogEntry::build(raw, "blogs/bad.md", "bad.md").unwrap_err();
    match &e {
        SiteError::InvalidMetadata { detail, .. } => {
            assert_eq!(detail, "missing required keys title and date")
        },
        other => panic!("unexpected error: {}", other.message()),
    }
}

#[test]
fn unparseable_date_fails_with_invalid_date() {
    let raw = doc("Hello", "Jan 5 2024", "body");
    let e = BlogEntry::build(&raw, "blogs/bad.md", "bad.md").unwrap_err();
    match &e {
        SiteError::InvalidDate { source, value } => {
            assert_eq!(source, "blogs/bad.md");
            assert_eq!(value, "Jan 5 2024");
        },
        other => panic!("unexpected error: {}", other.message()),
    }
}

#[test]
fn calendar_invalid_date_fails_with_invalid_date() {
    let raw = doc("Hello", "2024-02-30", "body");
    let e = BlogEntry::build(&raw, "blogs/bad.md", "bad.md").unwrap_err();
    match &e {
        SiteError::InvalidDate { value, .. } => assert_eq!(value, "2024-02-30"),
        other => panic!("unexpected error: {}", other.message()),
    }
}

#[test]
fn empty_body_builds_an_entry_with_empty_content() {
    // a document ending right at the second delimiter has an empty body
    let raw = "+++\ntitle = \"T\"\ndate = \"2024-01-05\"\n+++";
    let e = BlogEntry::build(raw, "blogs/t.md", "t.md").unwrap();
    assert_eq!(e.content_html, "");
}

#[test]
fn injected_content_overwrites_a_user_supplied_one() {
    let raw = "+++\ntitle = \"T\"\ncontent = \"user supplied\"\n+++\n# Real body";
    let table = build_page_document(raw, "pages/p.md").unwrap();
    let content = table.get("content").unwrap().as_str().unwrap();
    assert!(content.contains("<h1>Real body</h1>"));
    assert!(!content.contains("user supplied"));
    assert_eq!(table.get("title").unwrap().as_str().unwrap(), "T");
}

#[test]
fn page_document_needs_no_title_or_date() {
    let raw = "+++\n+++\njust a body";
    let table = build_page_document(raw, "pages/p.md").unwrap();
    assert!(table.get("content").unwrap().as_str().unwrap().contains("just a body"));
}
