use vstd::prelude::*;
use vstd::string::StringExecFns;

use crate::config::SiteConfig;
use crate::entry::BlogEntry;
use crate::error::SiteError;
use crate::feeds::{json_feed, json_feed_of, rss_feed, rss_feed_of};
use crate::pagination::{chunk_end, page_count, pages_ok, paginate, BlogPage};
use crate::sorting::{sort_entries, stable_sort_spec};

verus! {

/// Everything the blog pipeline computes for one run: the pages to render,
/// and the two feed documents.
#[derive(Debug)]
pub struct BlogOutput {
    pub pages: Vec<BlogPage>,
    pub json_feed: String,
    pub rss_feed: String,
}

/// The slice of the sorted entries that the feeds carry: the first page's.
pub open spec fn first_page_entries(s: Seq<BlogEntry>) -> Seq<BlogEntry> {
    s.subrange(0, chunk_end(0, s.len() as int))
}

/// The detail text reported for an empty blog entry set.
pub open spec fn no_entries_detail() -> Seq<char> {
    "the blogs directory holds no entries"@
}

/// Sorts the collected entries by date (stable), paginates them, and emits
/// the JSON and RSS feeds from the first page's entries alone. An empty
/// entry set is a configuration error, by design: feeds of an empty blog
/// are never written.
pub fn assemble_blog(entries: Vec<BlogEntry>, config: &SiteConfig) -> (r: Result<
    BlogOutput,
    SiteError,
>)
    ensures
        entries@.len() == 0 <==> r is Err,
        r matches Err(e) ==> e matches SiteError::ConfigError { detail } && detail@
            == no_entries_detail(),
        r matches Ok(o) ==> {
            &&& pages_ok(o.pages@, stable_sort_spec(entries@))
            &&& o.pages@.len() == page_count(entries@.len() as int)
            &&& o.json_feed@ == json_feed_of(
                config.name@,
                config.home_page@,
                config.icon@,
                first_page_entries(stable_sort_spec(entries@)),
            )
            &&& o.rss_feed@ == rss_feed_of(
                config.name@,
                config.home_page@,
                first_page_entries(stable_sort_spec(entries@)),
            )
        },
{
    let ghost orig = entries@;
    if entries.len() == 0 {
        return Err(
            SiteError::ConfigError {
                detail: String::from_str("the blogs directory holds no entries"),
            },
        );
    }
    let mut sorted = entries;
    sort_entries(&mut sorted);
    proof {
        crate::sorting::lemma_sort_len(orig);
    }
    let pages = paginate(sorted);
    proof {
        assert(pages@.len() > 0);
        assert(pages@[0].entries@ == first_page_entries(stable_sort_spec(orig)));
    }
    let json = json_feed(config, &pages[0].entries);
    let rss = rss_feed(config, &pages[0].entries);
    Ok(BlogOutput { pages, json_feed: json, rss_feed: rss })
}

} // verus!
