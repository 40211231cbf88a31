use vstd::prelude::*;

verus! {

/// The site configuration, loaded once before a run and immutable for it:
/// the site's name, its base URL (no trailing slash), and its icon URL.
pub struct SiteConfig {
    pub name: String,
    pub home_page: String,
    pub icon: String,
}

} // verus!
