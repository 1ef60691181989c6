//! Assembling fetched HTML into page content.
//!
//! HTML parsing itself is the `scraper` crate's work; what the library
//! guarantees is how the extracted pieces are assembled: the page keeps its
//! URL, its title is the document's title text, and its body text is the
//! paragraph texts joined by blank lines.

use vstd::prelude::*;
use vstd::string::StringExecFns;

verus! {

/// The text of the first `<title>` element of a document, as scraper's
/// parser sees it, or `None` when the document has no title element.
pub uninterp spec fn title_of(html: Seq<char>) -> Option<Seq<char>>;

/// The text of each `<p>` element of a document, in document order, as
/// scraper's parser sees it.
pub uninterp spec fn paragraphs_of(html: Seq<char>) -> Seq<Seq<char>>;

/// Relies on scraper::Html::parse_document, Selector::parse("title") and
/// ElementRef::text: the first title element's text.
#[verifier::external_body]
fn html_title(html: &str) -> (r: Option<String>)
    ensures
        match (r, title_of(html@)) {
            (Some(t), Some(ts)) => t@ == ts,
            (None, None) => true,
            _ => false,
        },
{
    let document = scraper::Html::parse_document(html);
    let selector = scraper::Selector::parse("title").unwrap();
    document.select(&selector).next().map(|element| element.text().collect::<String>())
}

/// Relies on scraper::Html::parse_document, Selector::parse("p") and
/// ElementRef::text: the text of every paragraph element, in order.
#[verifier::external_body]
fn html_paragraphs(html: &str) -> (r: Vec<String>)
    ensures
        r@.map_values(|s: String| s@) == paragraphs_of(html@),
{
    let document = scraper::Html::parse_document(html);
    let selector = scraper::Selector::parse("p").unwrap();
    document.select(&selector).map(|element| element.text().collect::<String>()).collect()
}

/// The parts joined with a separator between neighbours.
pub open spec fn join_with(parts: Seq<Seq<char>>, sep: Seq<char>) -> Seq<char>
    decreases parts.len(),
{
    if parts.len() == 0 {
        Seq::empty()
    } else if parts.len() == 1 {
        parts[0]
    } else {
        parts[0] + sep + join_with(parts.skip(1), sep)
    }
}

proof fn lemma_join_push(parts: Seq<Seq<char>>, sep: Seq<char>, x: Seq<char>)
    ensures
        join_with(parts.push(x), sep) == if parts.len() == 0 {
            x
        } else {
            join_with(parts, sep) + sep + x
        },
    decreases parts.len(),
{
    let p = parts.push(x);
    if parts.len() == 0 {
        assert(p.len() == 1);
        assert(p[0] == x);
    } else {
        lemma_join_push(parts.skip(1), sep, x);
        assert(p[0] == parts[0]);
        assert(p.skip(1) =~= parts.skip(1).push(x));
        if parts.len() == 1 {
            assert(join_with(p, sep) =~= join_with(parts, sep) + sep + x);
        } else {
            assert(parts[0] + sep + (join_with(parts.skip(1), sep) + sep + x) =~= (parts[0] + sep
                + join_with(parts.skip(1), sep)) + sep + x);
        }
    }
}

/// Join the parts with the separator between neighbours.
pub fn join_strings(parts: &Vec<String>, sep: &str) -> (r: String)
    ensures
        r@ == join_with(parts@.map_values(|s: String| s@), sep@),
{
    let ghost ps = parts@.map_values(|s: String| s@);
    let mut r = String::new();
    let mut i: usize = 0;
    while i < parts.len()
        invariant
            i <= parts@.len(),
            ps == parts@.map_values(|s: String| s@),
            r@ == join_with(ps.take(i as int), sep@),
        decreases parts@.len() - i,
    {
        proof {
            lemma_join_push(ps.take(i as int), sep@, ps[i as int]);
            assert(ps.take(i as int).push(ps[i as int]) =~= ps.take(i as int + 1));
        }
        if i > 0 {
            r.append(sep);
        }
        r.append(parts[i].as_str());
        i += 1;
    }
    proof {
        assert(ps.take(i as int) =~= ps);
    }
    r
}

/// Represents parsed content from a web page.
#[derive(Debug)]
pub struct PageContent {
    /// The URL of the page.
    pub url: String,
    /// The title of the page (if available).
    pub title: Option<String>,
    /// The main text content of the page.
    pub text: String,
}

/// Build the page content for a URL from its fetched HTML: the document's
/// title, and its paragraph texts joined by blank lines.
pub fn parse_html(url: &str, html: &str) -> (r: PageContent)
    ensures
        r.url@ == url@,
        match (r.title, title_of(html@)) {
            (Some(t), Some(ts)) => t@ == ts,
            (None, None) => true,
            _ => false,
        },
        r.text@ == join_with(paragraphs_of(html@), "\n\n"@),
{
    let title = html_title(html);
    let paragraphs = html_paragraphs(html);
    let text = join_strings(&paragraphs, "\n\n");
    PageContent { url: url.to_owned(), title, text }
}

} // verus!
