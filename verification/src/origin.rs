//! Origin normalization for the politeness cache.
//!
//! An origin is `scheme://host[:port]`, with path, query and fragment
//! stripped.  Splitting a URL into those parts is the `url` crate's work;
//! assembling and formatting the origin is verified here.

use vstd::prelude::*;
use vstd::string::StrSliceExecFns;
use vstd::string::StringExecFns;

verus! {

/// What `url::Url::parse` yields of a URL: its scheme, its host (serialized)
/// and its explicit port, or `None` when the URL does not parse or has no
/// host.
pub uninterp spec fn url_parts(url: Seq<char>) -> Option<(Seq<char>, Seq<char>, Option<u16>)>;

/// The scheme, host and explicit port of a URL.
pub struct UrlParts {
    pub scheme: String,
    pub host: String,
    pub port: Option<u16>,
}

/// Relies on url::Url::parse, Url::scheme, Url::host_str and Url::port: the
/// parsed URL's scheme and host serialization, and its port where one is
/// spelled out and is not the scheme's default.
#[verifier::external_body]
fn parse_url_parts(url: &str) -> (r: Option<UrlParts>)
    ensures
        match (r, url_parts(url@)) {
            (Some(p), Some(q)) => p.scheme@ == q.0 && p.host@ == q.1 && p.port == q.2,
            (None, None) => true,
            _ => false,
        },
{
    match url::Url::parse(url) {
        Ok(u) => match u.host_str() {
            Some(h) => Some(
                UrlParts { scheme: u.scheme().to_string(), host: h.to_string(), port: u.port() },
            ),
            None => None,
        },
        Err(_) => None,
    }
}

/// The character for one decimal digit.
pub open spec fn digit_char(d: nat) -> char {
    if d == 0 {
        '0'
    } else if d == 1 {
        '1'
    } else if d == 2 {
        '2'
    } else if d == 3 {
        '3'
    } else if d == 4 {
        '4'
    } else if d == 5 {
        '5'
    } else if d == 6 {
        '6'
    } else if d == 7 {
        '7'
    } else if d == 8 {
        '8'
    } else {
        '9'
    }
}

/// The decimal representation of a number, most significant digit first.
pub open spec fn dec_digits(n: nat) -> Seq<char>
    decreases n,
{
    if n < 10 {
        seq![digit_char(n)]
    } else {
        dec_digits(n / 10).push(digit_char(n % 10))
    }
}

fn digit_str(d: u16) -> (r: &'static str)
    requires
        d < 10,
    ensures
        r@ == seq![digit_char(d as nat)],
{
    let r: &'static str = if d == 0 {
        "0"
    } else if d == 1 {
        "1"
    } else if d == 2 {
        "2"
    } else if d == 3 {
        "3"
    } else if d == 4 {
        "4"
    } else if d == 5 {
        "5"
    } else if d == 6 {
        "6"
    } else if d == 7 {
        "7"
    } else if d == 8 {
        "8"
    } else {
        "9"
    };
    proof {
        reveal_strlit("0");
        reveal_strlit("1");
        reveal_strlit("2");
        reveal_strlit("3");
        reveal_strlit("4");
        reveal_strlit("5");
        reveal_strlit("6");
        reveal_strlit("7");
        reveal_strlit("8");
        reveal_strlit("9");
        assert(r@ =~= seq![digit_char(d as nat)]);
    }
    r
}

/// Format a port number in decimal.
pub fn format_u16(n: u16) -> (r: String)
    ensures
        r@ == dec_digits(n as nat),
    decreases n,
{
    if n < 10 {
        String::from_str(digit_str(n))
    } else {
        let mut s = format_u16(n / 10);
        s.append(digit_str(n % 10));
        proof {
            assert(s@ =~= dec_digits(n as nat));
        }
        s
    }
}

/// The normalized origin of a URL: `scheme://host[:port]`, or `None` when
/// the URL cannot be normalized.
pub open spec fn origin_of(url: Seq<char>) -> Option<Seq<char>> {
    match url_parts(url) {
        None => None,
        Some(p) => Some(
            p.0 + "://"@ + p.1 + match p.2 {
                None => Seq::<char>::empty(),
                Some(pt) => ":"@ + dec_digits(pt as nat),
            },
        ),
    }
}

/// Extract the origin (scheme + host + optional port) from a URL, e.g.
/// `https://example.com/path` becomes `https://example.com`.
pub fn extract_origin(url: &str) -> (r: Option<String>)
    ensures
        match (r, origin_of(url@)) {
            (Some(s), Some(o)) => s@ == o,
            (None, None) => true,
            _ => false,
        },
{
    match parse_url_parts(url) {
        None => None,
        Some(p) => {
            let mut s = p.scheme;
            s.append("://");
            s.append(p.host.as_str());
            match p.port {
                None => {},
                Some(pt) => {
                    s.append(":");
                    let digits = format_u16(pt);
                    s.append(digits.as_str());
                },
            }
            Some(s)
        },
    }
}

/// The location of a site's crawl-policy document: `origin/robots.txt`.
pub open spec fn robots_url_of(origin: Seq<char>) -> Seq<char> {
    origin + "/robots.txt"@
}

/// Build the crawl-policy URL for an origin.
pub fn robots_txt_url(origin: &str) -> (r: String)
    ensures
        r@ == robots_url_of(origin@),
{
    let mut s = origin.to_owned();
    s.append("/robots.txt");
    s
}

} // verus!
