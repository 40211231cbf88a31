use sitegen::blog::assemble_blog;
use sitegen::config::SiteConfig;
use sitegen::entry::BlogEntry;

fn entry(title: &str, date: &str, body: &str) -> BlogEntry {
    let raw = format!("+++\ntitle = \"{}\"\ndate = \"{}\"\n+++\n{}", title, date, body);
    BlogEntry::build(&raw, "blogs/post.md", "post.md").unwrap()
}

fn config() -> SiteConfig {
    SiteConfig {
        name: String::from("Site"),
        home_page: String::from("https://example.com"),
        icon: String::from("https://example.com/icon.png"),
    }
}

#[test]
fn json_feed_round_trip() {
    let e = entry("Hello", "2024-01-05", "# Hi there");
    let out = assemble_blog(vec![e], &config()).unwrap();
    let v: serde_json::Value = serde_json::from_str(&out.json_feed).unwrap();
    assert_eq!(v["version"], "https://jsonfeed.org/version/1");
    assert_eq!(v["title"], "Site's Blog");
    assert_eq!(v["icon"], "https://example.com/icon.png");
    assert_eq!(v["home_page_url"], "https://example.com");
    assert_eq!(v["feed_url"], "https://example.com/blogs.json");
    let items = v["items"].as_array().unwrap();
    assert_eq!(items.len(), 1);
    assert_eq!(items[0]["id"], "https://example.com/blogs/post.html");
    assert_eq!(items[0]["url"], "https://example.com/blogs/post.html");
    assert_eq!(items[0]["title"], "Hello");
    assert_eq!(items[0]["date_published"], "2024-01-05T00:00:00+00:00");
    assert!(items[0]["content_html"].as_str().unwrap().contains("<h1>Hi there</h1>"));
}

#[test]
fn json_feed_escapes_special_characters() {
    let e = entry("Quote \\\" and backslash \\\\", "2024-01-05", "plain");
    let out = assemble_blog(vec![e], &config()).unwrap();
    let v: serde_json::Value = serde_json::from_str(&out.json_feed).unwrap();
    let items = v["items"].as_array().unwrap();
    assert_eq!(items[0]["title"], "Quote \" and backslash \\");
}

#[test]
fn json_feed_orders_items_by_date() {
    let a = entry("second", "2024-02-01", "b");
    let b = entry("first", "2024-01-01", "a");
    let out = assemble_blog(vec![a, b], &config()).unwrap();
    let v: serde_json::Value = serde_json::from_str(&out.json_feed).unwrap();
    let items = v["items"].as_array().unwrap();
    assert_eq!(items[0]["title"], "first");
    assert_eq!(items[1]["title"], "second");
}

#[test]
fn json_feed_keeps_non_ascii_text() {
    let e = entry("Caf\u{e9} \u{2615}", "2024-01-05", "na\u{ef}ve \u{1F680}");
    let out = assemble_blog(vec![e], &config()).unwrap();
    let v: serde_json::Value = serde_json::from_str(&out.json_feed).unwrap();
    let items = v["items"].as_array().unwrap();
    assert_eq!(items[0]["title"], "Caf\u{e9} \u{2615}");
    assert!(items[0]["content_html"].as_str().unwrap().contains("na\u{ef}ve \u{1F680}"));
}

#[test]
fn rss_feed_round_trip() {
    let e = entry("Hello", "2024-01-05", "# Hi there");
    let out = assemble_blog(vec![e], &config()).unwrap();
    let channel = rss::Channel::read_from(out.rss_feed.as_bytes()).unwrap();
    assert_eq!(channel.title(), "Site's Blog");
    assert_eq!(channel.link(), "https://example.com/blogs");
    let items = channel.items();
    assert_eq!(items.len(), 1);
    assert_eq!(items[0].title(), Some("Hello"));
    assert_eq!(items[0].link(), Some("https://example.com/blogs/post.html"));
    let guid = items[0].guid().unwrap();
    assert!(guid.is_permalink());
    assert_eq!(guid.value(), "https://example.com/blogs/post.html");
    // 2024-01-05 was a Friday.
    assert_eq!(items[0].pub_date(), Some("Fri, 05 Jan 2024 00:00:00 +0000"));
    assert!(items[0].description().unwrap().contains("<h1>Hi there</h1>"));
}

#[test]
fn rss_feed_escapes_markup_in_descriptions() {
    let e = entry("Fish & Chips <now>", "2024-01-05", "a & b");
    let out = assemble_blog(vec![e], &config()).unwrap();
    assert!(out.rss_feed.contains("Fish &amp; Chips &lt;now&gt;"));
    let channel = rss::Channel::read_from(out.rss_feed.as_bytes()).unwrap();
    assert_eq!(channel.items()[0].title(), Some("Fish & Chips <now>"));
}
