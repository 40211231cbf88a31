use vstd::prelude::*;
use vstd::string::{StrSliceExecFns, StringExecFns};

use crate::date::{chrono_parse_ymd, chrono_ymd, Date};
use crate::error::SiteError;
use crate::frontmatter::fm_split;
use crate::markdown::{md_html_of, md_to_html};
use crate::metadata::{parse_frontmatter, table_get_str, table_set_str, table_strs, toml_strs_of, unparsed_detail};

verus! {

/// The position of the extension separator: the last `.` of the name, a
/// leading `.` not counting as one.
pub open spec fn last_ext_dot(s: Seq<char>) -> Option<int>
    decreases s.len(),
{
    if s.len() <= 1 {
        None
    } else if s.last() == '.' {
        Some(s.len() - 1)
    } else {
        last_ext_dot(s.drop_last())
    }
}

/// The name with its extension rewritten to `.html`: the stem (or the whole
/// name, where it has no extension) followed by `.html`.
pub open spec fn html_ext_of(s: Seq<char>) -> Seq<char> {
    match last_ext_dot(s) {
        Option::None => s + ".html"@,
        Option::Some(i) => s.subrange(0, i) + ".html"@,
    }
}

/// Rewrites a file name's extension to `.html`.
pub fn html_name(name: &str) -> (r: String)
    ensures
        r@ == html_ext_of(name@),
{
    let n = name.unicode_len();
    let mut i: usize = n;
    proof {
        assert(name@.subrange(0, n as int) =~= name@);
    }
    while i > 1
        invariant
            i <= n,
            n == name@.len(),
            last_ext_dot(name@) == last_ext_dot(name@.subrange(0, i as int)),
        decreases i,
    {
        let c = name.get_char(i - 1);
        proof {
            assert(name@.subrange(0, i as int).last() == name@[i as int - 1]);
            assert(name@.subrange(0, i as int).drop_last() =~= name@.subrange(
                0,
                i as int - 1,
            ));
        }
        if c == '.' {
            let mut r = name.substring_char(0, i - 1).to_owned();
            r.append(".html");
            return r;
        }
        i = i - 1;
    }
    let mut r = name.to_owned();
    r.append(".html");
    r
}

/// One blog document after parsing and rendering: the full metadata table
/// (with the engine-owned `content` entry), the fields the pipeline reads,
/// and the output file name with its extension rewritten to `.html`.
#[derive(Debug)]
pub struct BlogEntry {
    pub meta: toml::Table,
    pub title: String,
    pub date_text: String,
    pub date: Date,
    pub content_html: String,
    pub html_path: String,
}

impl BlogEntry {
    /// The fields agree with the table's string entries, and the date
    /// numbers are what the date text parses to.
    pub open spec fn wf(self) -> bool {
        &&& table_strs(self.meta).contains_key("title"@)
        &&& table_strs(self.meta)["title"@] == self.title@
        &&& table_strs(self.meta).contains_key("date"@)
        &&& table_strs(self.meta)["date"@] == self.date_text@
        &&& table_strs(self.meta).contains_key("content"@)
        &&& table_strs(self.meta)["content"@] == self.content_html@
        &&& chrono_ymd(self.date_text@) == Some(
            (self.date.year as int, self.date.month as int, self.date.day as int),
        )
        &&& 1 <= self.date.month <= 12
        &&& 1 <= self.date.day <= 31
    }
}

/// The detail text reported when required keys are absent.
pub open spec fn missing_keys_detail(has_title: bool, has_date: bool) -> Seq<char> {
    if !has_title && !has_date {
        "missing required keys title and date"@
    } else if !has_title {
        "missing required key title"@
    } else {
        "missing required key date"@
    }
}

impl BlogEntry {
    /// Builds one blog entry from a raw document: splits the frontmatter,
    /// parses the metadata block, requires `title` and `date` (a parseable
    /// `YYYY-MM-DD` date), renders the body, and injects the engine-owned
    /// `content` entry, overwriting any user-supplied one. `source` names
    /// the document in errors; `file_name` is the source file's name, whose
    /// extension is rewritten to `.html` for the output path.
    pub fn build(raw: &str, source: &str, file_name: &str) -> (r: Result<BlogEntry, SiteError>)
        ensures
            match r {
                Ok(e) => {
                    &&& fm_split(raw@) matches Some(p)
                    &&& toml_strs_of(p.0) matches Some(m)
                    &&& m.contains_key("title"@)
                    &&& m.contains_key("date"@)
                    &&& chrono_ymd(m["date"@]) is Some
                    &&& e.title@ == m["title"@]
                    &&& e.date_text@ == m["date"@]
                    &&& e.content_html@ == md_html_of(p.1)
                    &&& table_strs(e.meta) == m.insert("content"@, md_html_of(p.1))
                    &&& e.html_path@ == html_ext_of(file_name@)
                    &&& e.wf()
                },
                Err(SiteError::MalformedDocument { source: s2 }) => {
                    &&& s2@ == source@
                    &&& fm_split(raw@) is None
                },
                Err(SiteError::InvalidMetadata { source: s2, detail }) => {
                    &&& s2@ == source@
                    &&& fm_split(raw@) matches Some(p)
                    &&& {
                        ||| (toml_strs_of(p.0) is None && detail@ == unparsed_detail())
                        ||| (toml_strs_of(p.0) matches Some(m) && !(m.contains_key("title"@)
                            && m.contains_key("date"@)) && detail@ == missing_keys_detail(
                            m.contains_key("title"@),
                            m.contains_key("date"@),
                        ))
                    }
                },
                Err(SiteError::InvalidDate { source: s2, value }) => {
                    &&& s2@ == source@
                    &&& fm_split(raw@) matches Some(p)
                    &&& toml_strs_of(p.0) matches Some(m)
                    &&& m.contains_key("title"@)
                    &&& m.contains_key("date"@)
                    &&& value@ == m["date"@]
                    &&& chrono_ymd(m["date"@]) is None
                },
                Err(_) => false,
            },
    {
        let (mut table, body) = match parse_frontmatter(raw, source) {
            Ok(p) => p,
            Err(e) => {
                return Err(e);
            },
        };
        let title_opt = table_get_str(&table, "title");
        let date_opt = table_get_str(&table, "date");
        if title_opt.is_none() || date_opt.is_none() {
            let detail = if title_opt.is_none() && date_opt.is_none() {
                "missing required keys title and date"
            } else if title_opt.is_none() {
                "missing required key title"
            } else {
                "missing required key date"
            };
            return Err(
                SiteError::InvalidMetadata {
                    source: source.to_owned(),
                    detail: String::from_str(detail),
                },
            );
        }
        let title = title_opt.unwrap();
        let date_text = date_opt.unwrap();
        let date = match chrono_parse_ymd(date_text.as_str()) {
            Some(d) => d,
            None => {
                return Err(
                    SiteError::InvalidDate { source: source.to_owned(), value: date_text },
                );
            },
        };
        let content = build_document(&mut table, body.as_str());
        proof {
            reveal_strlit("title");
            reveal_strlit("date");
            reveal_strlit("content");
            assert(("title"@).len() == 5);
            assert(("date"@).len() == 4);
            assert(("content"@).len() == 7);
            assert("title"@ != "content"@);
            assert("date"@ != "content"@);
        }
        let html_path = html_name(file_name);
        Ok(
            BlogEntry {
                meta: table,
                title,
                date_text,
                date,
                content_html: content,
                html_path,
            },
        )
    }
}

/// Injects the engine-owned `content` entry into a parsed table: the
/// rendered HTML of the body, overwriting any user-supplied value. Returns
/// the rendered HTML itself; rendering is total, so this step cannot fail.
pub fn build_document(table: &mut toml::Table, body: &str) -> (content: String)
    ensures
        content@ == md_html_of(body@),
        table_strs(*final(table)) == table_strs(*old(table)).insert("content"@, content@),
{
    let content = md_to_html(body);
    table_set_str(table, "content", content.as_str());
    content
}

/// Builds a standalone page's render-ready table from a raw document:
/// splits the frontmatter, parses the metadata block, and injects the
/// engine-owned `content` entry holding the rendered body. Pages have no
/// required keys of their own.
pub fn build_page_document(raw: &str, source: &str) -> (r: Result<toml::Table, SiteError>)
    ensures
        match r {
            Ok(t) => fm_split(raw@) matches Some(p) && toml_strs_of(p.0) matches Some(m)
                && table_strs(t) == m.insert("content"@, md_html_of(p.1)),
            Err(SiteError::MalformedDocument { source: s2 }) => {
                &&& s2@ == source@
                &&& fm_split(raw@) is None
            },
            Err(SiteError::InvalidMetadata { source: s2, detail }) => {
                &&& s2@ == source@
                &&& fm_split(raw@) matches Some(p)
                &&& toml_strs_of(p.0) is None
                &&& detail@ == unparsed_detail()
            },
            Err(_) => false,
        },
{
    let (mut table, body) = match parse_frontmatter(raw, source) {
        Ok(p) => p,
        Err(e) => {
            return Err(e);
        },
    };
    build_document(&mut table, body.as_str());
    Ok(table)
}

} // verus!
