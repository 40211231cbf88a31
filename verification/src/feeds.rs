use vstd::prelude::*;
use vstd::string::{StrSliceExecFns, StringExecFns};

use crate::config::SiteConfig;
use crate::date::{chrono_rss_date, rss_date_of};
use crate::entry::BlogEntry;
use crate::textutil::push_char;

verus! {

/// The hexadecimal digit for a value below 16.
pub open spec fn hex_digit(v: int) -> char {
    if v == 0 {
        '0'
    } else if v == 1 {
        '1'
    } else if v == 2 {
        '2'
    } else if v == 3 {
        '3'
    } else if v == 4 {
        '4'
    } else if v == 5 {
        '5'
    } else if v == 6 {
        '6'
    } else if v == 7 {
        '7'
    } else if v == 8 {
        '8'
    } else if v == 9 {
        '9'
    } else if v == 10 {
        'a'
    } else if v == 11 {
        'b'
    } else if v == 12 {
        'c'
    } else if v == 13 {
        'd'
    } else if v == 14 {
        'e'
    } else {
        'f'
    }
}

fn hex_digit_exec(v: u32) -> (r: char)
    requires
        v < 16,
    ensures
        r == hex_digit(v as int),
{
    if v == 0 {
        '0'
    } else if v == 1 {
        '1'
    } else if v == 2 {
        '2'
    } else if v == 3 {
        '3'
    } else if v == 4 {
        '4'
    } else if v == 5 {
        '5'
    } else if v == 6 {
        '6'
    } else if v == 7 {
        '7'
    } else if v == 8 {
        '8'
    } else if v == 9 {
        '9'
    } else if v == 10 {
        'a'
    } else if v == 11 {
        'b'
    } else if v == 12 {
        'c'
    } else if v == 13 {
        'd'
    } else if v == 14 {
        'e'
    } else {
        'f'
    }
}

/// How one character is written inside a JSON string: the named short
/// escapes, `\u00..` for the remaining control characters, and every other
/// character as itself.
pub open spec fn json_escape_char(c: char) -> Seq<char> {
    if c == '"' {
        "\\\""@
    } else if c == '\\' {
        "\\\\"@
    } else if c == '\n' {
        "\\n"@
    } else if c == '\r' {
        "\\r"@
    } else if c == '\t' {
        "\\t"@
    } else if (c as u32) < 32 {
        "\\u00"@ + seq![hex_digit((c as u32 / 16) as int), hex_digit((c as u32 % 16) as int)]
    } else {
        seq![c]
    }
}

/// A text escaped for a JSON string, character by character.
pub open spec fn json_escape(s: Seq<char>) -> Seq<char>
    decreases s.len(),
{
    if s.len() == 0 {
        Seq::empty()
    } else {
        json_escape(s.drop_last()) + json_escape_char(s.last())
    }
}

/// How one character is written inside XML text or attribute content.
pub open spec fn xml_escape_char(c: char) -> Seq<char> {
    if c == '&' {
        "&amp;"@
    } else if c == '<' {
        "&lt;"@
    } else if c == '>' {
        "&gt;"@
    } else if c == '"' {
        "&quot;"@
    } else if c == '\'' {
        "&apos;"@
    } else {
        seq![c]
    }
}

/// A text escaped for XML content, character by character.
pub open spec fn xml_escape(s: Seq<char>) -> Seq<char>
    decreases s.len(),
{
    if s.len() == 0 {
        Seq::empty()
    } else {
        xml_escape(s.drop_last()) + xml_escape_char(s.last())
    }
}

/// Escapes a text for use inside a JSON string.
pub fn json_escape_str(s: &str) -> (r: String)
    ensures
        r@ == json_escape(s@),
{
    let n = s.unicode_len();
    let mut out = String::new();
    let mut i: usize = 0;
    proof {
        assert(s@.subrange(0, 0) =~= Seq::<char>::empty());
    }
    while i < n
        invariant
            i <= n,
            n == s@.len(),
            out@ == json_escape(s@.subrange(0, i as int)),
        decreases n - i,
    {
        let c = s.get_char(i);
        if c == '"' {
            out.append("\\\"");
        } else if c == '\\' {
            out.append("\\\\");
        } else if c == '\n' {
            out.append("\\n");
        } else if c == '\r' {
            out.append("\\r");
        } else if c == '\t' {
            out.append("\\t");
        } else if (c as u32) < 32 {
            out.append("\\u00");
            push_char(&mut out, hex_digit_exec((c as u32) / 16));
            push_char(&mut out, hex_digit_exec((c as u32) % 16));
        } else {
            push_char(&mut out, c);
        }
        proof {
            assert(s@.subrange(0, i as int + 1).drop_last() =~= s@.subrange(0, i as int));
            assert(s@.subrange(0, i as int + 1).last() == s@[i as int]);
            assert(out@ =~= json_escape(s@.subrange(0, i as int + 1)));
        }
        i = i + 1;
    }
    proof {
        assert(s@.subrange(0, n as int) =~= s@);
    }
    out
}

/// Escapes a text for use inside XML content.
pub fn xml_escape_str(s: &str) -> (r: String)
    ensures
        r@ == xml_escape(s@),
{
    let n = s.unicode_len();
    let mut out = String::new();
    let mut i: usize = 0;
    proof {
        assert(s@.subrange(0, 0) =~= Seq::<char>::empty());
    }
    while i < n
        invariant
            i <= n,
            n == s@.len(),
            out@ == xml_escape(s@.subrange(0, i as int)),
        decreases n - i,
    {
        let c = s.get_char(i);
        if c == '&' {
            out.append("&amp;");
        } else if c == '<' {
            out.append("&lt;");
        } else if c == '>' {
            out.append("&gt;");
        } else if c == '"' {
            out.append("&quot;");
        } else if c == '\'' {
            out.append("&apos;");
        } else {
            push_char(&mut out, c);
        }
        proof {
            assert(s@.subrange(0, i as int + 1).drop_last() =~= s@.subrange(0, i as int));
            assert(s@.subrange(0, i as int + 1).last() == s@[i as int]);
            assert(out@ =~= xml_escape(s@.subrange(0, i as int + 1)));
        }
        i = i + 1;
    }
    proof {
        assert(s@.subrange(0, n as int) =~= s@);
    }
    out
}

/// The feed title derived from the site's name.
pub open spec fn site_title_of(name: Seq<char>) -> Seq<char> {
    name + "'s Blog"@
}

/// The public URL of one blog entry.
pub open spec fn entry_url_of(home: Seq<char>, path: Seq<char>) -> Seq<char> {
    home + "/blogs/"@ + path
}

fn site_title(name: &str) -> (r: String)
    ensures
        r@ == site_title_of(name@),
{
    let mut t = name.to_owned();
    t.append("'s Blog");
    t
}

fn entry_url(home: &str, path: &str) -> (r: String)
    ensures
        r@ == entry_url_of(home@, path@),
{
    let mut u = home.to_owned();
    u.append("/blogs/");
    u.append(path);
    u
}

/// One JSON feed item: id and url are the entry's public URL, the content
/// is the rendered body, and the publication instant is the entry's date at
/// midnight UTC.
pub open spec fn json_item_of(home: Seq<char>, e: BlogEntry) -> Seq<char> {
    "{\"id\":\""@ + json_escape(entry_url_of(home, e.html_path@)) + "\",\"url\":\""@
        + json_escape(entry_url_of(home, e.html_path@)) + "\",\"title\":\""@ + json_escape(
        e.title@,
    ) + "\",\"content_html\":\""@ + json_escape(e.content_html@) + "\",\"date_published\":\""@
        + json_escape(e.date_text@) + "T00:00:00+00:00\"}"@
}

/// The feed items, comma-separated, in entry order.
pub open spec fn json_items_of(home: Seq<char>, entries: Seq<BlogEntry>) -> Seq<char>
    decreases entries.len(),
{
    if entries.len() == 0 {
        Seq::empty()
    } else if entries.len() == 1 {
        json_item_of(home, entries[0])
    } else {
        json_items_of(home, entries.drop_last()) + ","@ + json_item_of(home, entries.last())
    }
}

/// The whole JSON feed document over the given entries.
pub open spec fn json_feed_of(
    name: Seq<char>,
    home: Seq<char>,
    icon: Seq<char>,
    entries: Seq<BlogEntry>,
) -> Seq<char> {
    "{\"version\":\"https://jsonfeed.org/version/1\",\"title\":\""@ + json_escape(
        site_title_of(name),
    ) + "\",\"items\":["@ + json_items_of(home, entries) + "],\"icon\":\""@ + json_escape(icon)
        + "\",\"home_page_url\":\""@ + json_escape(home) + "\",\"feed_url\":\""@ + json_escape(
        home,
    ) + "/blogs.json\"}"@
}

fn json_item(home: &str, e: &BlogEntry) -> (r: String)
    ensures
        r@ == json_item_of(home@, *e),
{
    let url = entry_url(home, e.html_path.as_str());
    let esc_url = json_escape_str(url.as_str());
    let mut out = String::from_str("{\"id\":\"");
    out.append(esc_url.as_str());
    out.append("\",\"url\":\"");
    out.append(esc_url.as_str());
    out.append("\",\"title\":\"");
    let esc_title = json_escape_str(e.title.as_str());
    out.append(esc_title.as_str());
    out.append("\",\"content_html\":\"");
    let esc_content = json_escape_str(e.content_html.as_str());
    out.append(esc_content.as_str());
    out.append("\",\"date_published\":\"");
    let esc_date = json_escape_str(e.date_text.as_str());
    out.append(esc_date.as_str());
    out.append("T00:00:00+00:00\"}");
    proof {
        assert(out@ =~= json_item_of(home@, *e));
    }
    out
}

fn json_items(home: &str, entries: &Vec<BlogEntry>) -> (r: String)
    ensures
        r@ == json_items_of(home@, entries@),
{
    let mut out = String::new();
    let mut i: usize = 0;
    proof {
        assert(entries@.subrange(0, 0) =~= Seq::<BlogEntry>::empty());
    }
    while i < entries.len()
        invariant
            i <= entries@.len(),
            out@ == json_items_of(home@, entries@.subrange(0, i as int)),
        decreases entries@.len() - i,
    {
        if i > 0 {
            out.append(",");
        }
        let item = json_item(home, &entries[i]);
        out.append(item.as_str());
        proof {
            assert(entries@.subrange(0, i as int + 1).drop_last() =~= entries@.subrange(
                0,
                i as int,
            ));
            assert(entries@.subrange(0, i as int + 1).last() == entries@[i as int]);
            assert(entries@.subrange(0, i as int + 1)[0] == entries@[0]);
            assert(out@ =~= json_items_of(home@, entries@.subrange(0, i as int + 1)));
        }
        i = i + 1;
    }
    proof {
        assert(entries@.subrange(0, entries@.len() as int) =~= entries@);
    }
    out
}

/// Builds the JSON feed document for the given entries (by design, the
/// first page's), titled `{name}'s Blog`, with the configured icon, home
/// page URL, and `{home_page}/blogs.json` as the feed URL.
pub fn json_feed(config: &SiteConfig, entries: &Vec<BlogEntry>) -> (r: String)
    ensures
        r@ == json_feed_of(config.name@, config.home_page@, config.icon@, entries@),
{
    let mut out = String::from_str("{\"version\":\"https://jsonfeed.org/version/1\",\"title\":\"");
    let title = site_title(config.name.as_str());
    let esc_title = json_escape_str(title.as_str());
    out.append(esc_title.as_str());
    out.append("\",\"items\":[");
    let items = json_items(config.home_page.as_str(), entries);
    out.append(items.as_str());
    out.append("],\"icon\":\"");
    let esc_icon = json_escape_str(config.icon.as_str());
    out.append(esc_icon.as_str());
    out.append("\",\"home_page_url\":\"");
    let esc_home = json_escape_str(config.home_page.as_str());
    out.append(esc_home.as_str());
    out.append("\",\"feed_url\":\"");
    out.append(esc_home.as_str());
    out.append("/blogs.json\"}");
    proof {
        assert(out@ =~= json_feed_of(config.name@, config.home_page@, config.icon@, entries@));
    }
    out
}

/// One RSS item: a permalink GUID and link holding the entry's public URL,
/// the rendered body as the description, and the date's RFC-822-style
/// rendering as the publication date.
pub open spec fn rss_item_of(home: Seq<char>, e: BlogEntry) -> Seq<char> {
    "<item><guid isPermaLink=\"true\">"@ + xml_escape(entry_url_of(home, e.html_path@))
        + "</guid><title>"@ + xml_escape(e.title@) + "</title><link>"@ + xml_escape(
        entry_url_of(home, e.html_path@),
    ) + "</link><description>"@ + xml_escape(e.content_html@) + "</description><pubDate>"@
        + xml_escape(rss_date_of(e.date.year as int, e.date.month as int, e.date.day as int))
        + "</pubDate></item>"@
}

/// The RSS items in entry order.
pub open spec fn rss_items_of(home: Seq<char>, entries: Seq<BlogEntry>) -> Seq<char>
    decreases entries.len(),
{
    if entries.len() == 0 {
        Seq::empty()
    } else {
        rss_items_of(home, entries.drop_last()) + rss_item_of(home, entries.last())
    }
}

/// The whole RSS 2.0 channel document over the given entries.
pub open spec fn rss_feed_of(name: Seq<char>, home: Seq<char>, entries: Seq<BlogEntry>) -> Seq<
    char,
> {
    "<?xml version=\"1.0\" encoding=\"utf-8\"?><rss version=\"2.0\"><channel><title>"@
        + xml_escape(site_title_of(name)) + "</title><link>"@ + xml_escape(home) + "/blogs</link>"@
        + rss_items_of(home, entries) + "</channel></rss>"@
}

fn rss_item(home: &str, e: &BlogEntry) -> (r: String)
    ensures
        r@ == rss_item_of(home@, *e),
{
    let url = entry_url(home, e.html_path.as_str());
    let esc_url = xml_escape_str(url.as_str());
    let mut out = String::from_str("<item><guid isPermaLink=\"true\">");
    out.append(esc_url.as_str());
    out.append("</guid><title>");
    let esc_title = xml_escape_str(e.title.as_str());
    out.append(esc_title.as_str());
    out.append("</title><link>");
    out.append(esc_url.as_str());
    out.append("</link><description>");
    let esc_content = xml_escape_str(e.content_html.as_str());
    out.append(esc_content.as_str());
    out.append("</description><pubDate>");
    let date_text = chrono_rss_date(&e.date);
    let esc_date = xml_escape_str(date_text.as_str());
    out.append(esc_date.as_str());
    out.append("</pubDate></item>");
    proof {
        assert(out@ =~= rss_item_of(home@, *e));
    }
    out
}

/// Builds the RSS 2.0 channel document for the given entries (by design,
/// the first page's), titled `{name}'s Blog` and linking `{home_page}/blogs`.
pub fn rss_feed(config: &SiteConfig, entries: &Vec<BlogEntry>) -> (r: String)
    ensures
        r@ == rss_feed_of(config.name@, config.home_page@, entries@),
{
    let mut out = String::from_str(
        "<?xml version=\"1.0\" encoding=\"utf-8\"?><rss version=\"2.0\"><channel><title>",
    );
    let title = site_title(config.name.as_str());
    let esc_title = xml_escape_str(title.as_str());
    out.append(esc_title.as_str());
    out.append("</title><link>");
    let esc_home = xml_escape_str(config.home_page.as_str());
    out.append(esc_home.as_str());
    out.append("/blogs</link>");
    let mut i: usize = 0;
    proof {
        assert(entries@.subrange(0, 0) =~= Seq::<BlogEntry>::empty());
        assert(out@ =~= "<?xml version=\"1.0\" encoding=\"utf-8\"?><rss version=\"2.0\"><channel><title>"@
            + xml_escape(site_title_of(config.name@)) + "</title><link>"@ + xml_escape(
            config.home_page@,
        ) + "/blogs</link>"@ + rss_items_of(config.home_page@, entries@.subrange(0, 0)));
    }
    while i < entries.len()
        invariant
            i <= entries@.len(),
            out@ == "<?xml version=\"1.0\" encoding=\"utf-8\"?><rss version=\"2.0\"><channel><title>"@
                + xml_escape(site_title_of(config.name@)) + "</title><link>"@ + xml_escape(
                config.home_page@,
            ) + "/blogs</link>"@ + rss_items_of(config.home_page@, entries@.subrange(0, i as int)),
        decreases entries@.len() - i,
    {
        let item = rss_item(config.home_page.as_str(), &entries[i]);
        out.append(item.as_str());
        proof {
            assert(entries@.subrange(0, i as int + 1).drop_last() =~= entries@.subrange(
                0,
                i as int,
            ));
            assert(entries@.subrange(0, i as int + 1).last() == entries@[i as int]);
            assert(out@ =~= "<?xml version=\"1.0\" encoding=\"utf-8\"?><rss version=\"2.0\"><channel><title>"@
                + xml_escape(site_title_of(config.name@)) + "</title><link>"@ + xml_escape(
                config.home_page@,
            ) + "/blogs</link>"@ + rss_items_of(
                config.home_page@,
                entries@.subrange(0, i as int + 1),
            ));
        }
        i = i + 1;
    }
    out.append("</channel></rss>");
    proof {
        assert(entries@.subrange(0, entries@.len() as int) =~= entries@);
        assert(out@ =~= rss_feed_of(config.name@, config.home_page@, entries@));
    }
    out
}

} // verus!
