//! The web-fetch tool's core: gate a fetch on the site's crawl policy, then
//! assemble the fetched HTML into page content.

use vstd::prelude::*;
use vstd::string::StringExecFns;

use crate::origin::origin_of;
use crate::page::join_with;
use crate::page::paragraphs_of;
use crate::page::parse_html;
use crate::page::title_of;
use crate::page::PageContent;
use crate::robots::entry_allows;
use crate::robots::HttpClient;
use crate::robots::RobotsCache;

verus! {

/// Arguments for the web-fetch tool.
#[derive(Debug)]
pub struct WebFetchArgs {
    pub url: String,
}

/// Output from the web-fetch tool.
#[derive(Debug)]
pub struct WebFetchOutput {
    pub title: Option<String>,
    pub content: String,
}

/// Error type for the web-fetch tool: one failure, with its message.
#[derive(Debug)]
pub enum WebFetchError {
    FetchError(String),
}

impl WebFetchError {
    /// The failure's message.
    pub fn message(&self) -> (r: &String)
        ensures
            r@ == (match self {
                WebFetchError::FetchError(m) => m@,
            }),
    {
        match self {
            WebFetchError::FetchError(m) => m,
        }
    }
}

/// The message reported when a fetch is refused by the site's crawl policy.
pub open spec fn prohibited_message(url: Seq<char>) -> Seq<char> {
    "Access to "@ + url + " is prohibited by robots.txt"@
}

/// An Option of a String, seen as an Option of its characters.
pub open spec fn opt_text(o: Option<String>) -> Option<Seq<char>> {
    match o {
        Some(s) => Some(s@),
        None => None,
    }
}

/// Page fields assembled from one HTML document as `parse_html` assembles
/// them.
pub open spec fn assembled_from(
    title: Option<Seq<char>>,
    text: Seq<char>,
    html: Seq<char>,
) -> bool {
    &&& title == title_of(html)
    &&& text == join_with(paragraphs_of(html), "\n\n"@)
}

/// Fetch URL content using the provided HTTP client, refusing URLs that the
/// site's crawl policy prohibits.  A successful result is the page assembled
/// from the HTML the client returned; the crawl-policy cache gains at most
/// the one entry for the URL's origin.
pub fn fetch_url_with_client<C: HttpClient>(
    client: &C,
    robots_cache: &mut RobotsCache,
    url: &str,
) -> (r: Result<PageContent, WebFetchError>)
    requires
        old(robots_cache).wf(),
    ensures
        final(robots_cache).wf(),
        origin_of(url@) is None ==> final(robots_cache)@ == old(robots_cache)@,
        origin_of(url@) matches Some(o) ==> final(robots_cache)@.contains_key(o),
        match r {
            Ok(page) => page.url@ == url@ && (exists|html: Seq<char>|
                assembled_from(opt_text(page.title), page.text@, html)),
            Err(e) => true,
        },
        origin_of(url@) matches Some(o) && old(robots_cache)@.contains_key(o) && !entry_allows(
            old(robots_cache)@[o],
            url@,
        ) ==> final(robots_cache)@ == old(robots_cache)@ && (r matches Err(e) && (match e {
            WebFetchError::FetchError(m) => m@ == prohibited_message(url@),
        })),
{
    if !robots_cache.is_allowed(client, url) {
        let mut m = String::from_str("Access to ");
        m.append(url);
        m.append(" is prohibited by robots.txt");
        proof {
            assert(m@ =~= prohibited_message(url@));
        }
        return Err(WebFetchError::FetchError(m));
    }
    match client.get(url) {
        Ok(html) => {
            let page = parse_html(url, html.as_str());
            proof {
                assert(assembled_from(opt_text(page.title), page.text@, html@));
            }
            Ok(page)
        },
        Err(e) => Err(WebFetchError::FetchError(e)),
    }
}

/// The tool's output for a fetched page: its title and its body text.
pub fn web_fetch_output(page: PageContent) -> (r: WebFetchOutput)
    ensures
        opt_text(r.title) == opt_text(page.title),
        r.content@ == page.text@,
{
    WebFetchOutput { title: page.title, content: page.text }
}

} // verus!
