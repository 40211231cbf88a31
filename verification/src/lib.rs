//! A verified core for a static site generator: frontmatter-delimited
//! documents are parsed, blog entries are sorted by date and paginated, and
//! the JSON and RSS feeds are emitted from the first page of the result.

pub mod blog;
pub mod config;
pub mod date;
pub mod entry;
pub mod error;
pub mod feeds;
pub mod frontmatter;
pub mod markdown;
pub mod metadata;
pub mod pagination;
pub mod sorting;
pub mod textutil;
