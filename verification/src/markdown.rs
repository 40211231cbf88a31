use vstd::prelude::*;

verus! {

/// What `emojicons::EmojiFormatter` makes of a text: `:emoji:` shortcodes
/// replaced. A function of the text alone.
pub uninterp spec fn emoji_of(s: Seq<char>) -> Seq<char>;

/// What pulldown-cmark (with strikethrough enabled) renders for a markdown
/// text. A function of the text alone.
pub uninterp spec fn cmark_of(s: Seq<char>) -> Seq<char>;

/// The rendered HTML of a markdown body: emoji substitution first, then the
/// markdown conversion. Rendering is total; it has no failure mode.
pub open spec fn md_html_of(s: Seq<char>) -> Seq<char> {
    cmark_of(emoji_of(s))
}

/// Relies on `emojicons::EmojiFormatter`'s `Display` impl: it rewrites
/// `:emoji:` shortcodes and depends on the input text alone.
#[verifier::external_body]
fn emoji_format(s: &str) -> (r: String)
    ensures
        r@ == emoji_of(s@),
{
    emojicons::EmojiFormatter(s).to_string()
}

/// Relies on `pulldown_cmark::Parser::new_ext` with
/// `Options::ENABLE_STRIKETHROUGH` and on `pulldown_cmark::html::push_html`:
/// the conversion depends on the input text alone.
#[verifier::external_body]
fn cmark_render(s: &str) -> (r: String)
    ensures
        r@ == cmark_of(s@),
{
    let mut options = pulldown_cmark::Options::empty();
    options.insert(pulldown_cmark::Options::ENABLE_STRIKETHROUGH);
    let parser = pulldown_cmark::Parser::new_ext(s, options);
    let mut out = String::new();
    pulldown_cmark::html::push_html(&mut out, parser);
    out
}

/// Converts a markdown body to HTML, with emoji-shortcode substitution and
/// strikethrough support.
pub fn md_to_html(input: &str) -> (r: String)
    ensures
        r@ == md_html_of(input@),
{
    let expanded = emoji_format(input);
    cmark_render(expanded.as_str())
}

} // verus!
