//! Trusted boundary to the two parsing collaborators: link extraction from
//! markdown text and title extraction from HTML. Both are pure parses, so
//! each result is given a name that the verified callers' contracts use.
use vstd::prelude::*;

verus! {

/// The ordered sequence of link destinations embedded in a markdown text,
/// duplicates retained; a function of the text alone.
pub uninterp spec fn links_of(text: Seq<char>) -> Seq<Seq<char>>;

/// The content of the first `title` element of an HTML text, or `None` when
/// there is none or the markup is unparsable; a function of the text alone.
pub uninterp spec fn title_of(html: Seq<char>) -> Option<Seq<char>>;

/// Relies on pulldown_cmark::Parser: the event stream of a markdown text, and
/// so the ordered list of link destinations among its link-start events,
/// depends on the text alone.
#[verifier::external_body]
pub fn extract_links(content: &str) -> (r: Vec<String>)
    ensures
        r.deep_view() == links_of(content@),
{
    pulldown_cmark::Parser::new(content)
        .filter_map(|event| match event {
            pulldown_cmark::Event::Start(pulldown_cmark::Tag::Link { dest_url, .. }) => {
                Some(dest_url.to_string())
            },
            _ => None,
        })
        .collect()
}

/// Relies on scraper::Html::parse_document and scraper::Selector::parse: the
/// content of the first `title` element of an HTML text depends on the text
/// alone, and a missing title or unparsable markup yields `None`, never a
/// fault.
#[verifier::external_body]
pub fn extract_title(html_contents: &str) -> (r: Option<String>)
    ensures
        r.deep_view() == title_of(html_contents@),
{
    let html_parts = scraper::Html::parse_document(html_contents);
    let selector = scraper::Selector::parse("title").ok()?;
    html_parts.select(&selector).next().map(|content| content.inner_html())
}

} // verus!
