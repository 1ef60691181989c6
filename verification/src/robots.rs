//! Per-origin cache of crawl policies, with fail-open semantics.
//!
//! A miss requires a network fetch, which the library cannot do itself: the
//! cache exposes `probe` (decide from the cache alone, or name the document
//! to fetch) and `record` (fold a fetch outcome back in).  `is_allowed`
//! composes the two over an `HttpClient`.  Failures — a URL that cannot be
//! normalized, a failed fetch, an unparsable document — always resolve to
//! "allowed", and a failed fetch is cached negatively so it is not retried
//! on every call.

use vstd::prelude::*;

use crate::origin::extract_origin;
use crate::origin::origin_of;
use crate::origin::robots_txt_url;
use crate::origin::robots_url_of;
use crate::policy::crawler_user_agent;
use crate::policy::policy_allows;
use crate::policy::policy_parses;
use crate::policy::RobotsPolicy;
use crate::table::AssocTable;

verus! {

/// Abstraction over the HTTP client used for outbound fetches; implemented
/// by the network layer outside the library, and by test doubles.  Nothing
/// is assumed of what it returns.
pub trait HttpClient {
    /// Fetch the body of `url`, or report a failure message.
    fn get(&self, url: &str) -> Result<String, String>;
}

/// Per-origin cache value: a parsed policy, or the record of a failed fetch
/// (treated as allow-all, distinct from the key being absent).
pub enum RobotsEntry {
    /// The origin's policy document parsed successfully.
    Policy(RobotsPolicy),
    /// The policy could not be fetched or parsed; treat as allow-all.
    FetchFailed,
}

impl View for RobotsEntry {
    type V = Option<Seq<char>>;

    open spec fn view(&self) -> Option<Seq<char>> {
        match self {
            RobotsEntry::Policy(p) => Some(p.source_view()),
            RobotsEntry::FetchFailed => None,
        }
    }
}

/// The decision a cache entry yields for a URL: a failed fetch allows
/// everything, a policy decides.
pub open spec fn entry_allows(e: Option<Seq<char>>, url: Seq<char>) -> bool {
    match e {
        Some(body) => policy_allows(body, url),
        None => true,
    }
}

/// What `probe` found in the cache.
pub enum RobotsProbe {
    /// The cache alone decides: either the URL has no usable origin
    /// (fail-open), or the origin's entry is present.
    Decided(bool),
    /// The origin is unseen; the caller should fetch the named policy
    /// document and hand the outcome to `record`.
    NeedFetch(String),
}

/// Cache of crawl policies per origin.
pub struct RobotsCache {
    cache: AssocTable<RobotsEntry>,
}

impl View for RobotsCache {
    type V = Map<Seq<char>, Option<Seq<char>>>;

    closed spec fn view(&self) -> Map<Seq<char>, Option<Seq<char>>> {
        self.cache@
    }
}

impl RobotsCache {
    /// The cache's keys are pairwise distinct.
    pub closed spec fn wf(&self) -> bool {
        self.cache.wf()
    }

    /// An empty cache.
    pub fn new() -> (r: Self)
        ensures
            r.wf(),
            r@ == Map::<Seq<char>, Option<Seq<char>>>::empty(),
    {
        Self { cache: AssocTable::new() }
    }

    /// The number of origins recorded.
    pub fn len(&self) -> (r: usize)
        requires
            self.wf(),
        ensures
            r == self@.dom().len(),
    {
        self.cache.len()
    }

    /// Decide from the cache alone, or name the policy document to fetch.
    /// The cache itself is not changed.
    pub fn probe(&self, url: &str) -> (r: RobotsProbe)
        requires
            self.wf(),
        ensures
            match r {
                RobotsProbe::Decided(b) => match origin_of(url@) {
                    None => b == true,
                    Some(o) => self@.contains_key(o) && b == entry_allows(self@[o], url@),
                },
                RobotsProbe::NeedFetch(ru) => match origin_of(url@) {
                    None => false,
                    Some(o) => !self@.contains_key(o) && ru@ == robots_url_of(o),
                },
            },
    {
        let origin = match extract_origin(url) {
            Some(o) => o,
            None => {
                return RobotsProbe::Decided(true);
            },
        };
        match self.cache.get(origin.as_str()) {
            Some(RobotsEntry::Policy(p)) => RobotsProbe::Decided(p.allows(url)),
            Some(RobotsEntry::FetchFailed) => RobotsProbe::Decided(true),
            None => RobotsProbe::NeedFetch(robots_txt_url(origin.as_str())),
        }
    }

    /// Fold the outcome of a policy fetch back into the cache and decide for
    /// the URL: a failed fetch (`None`) or an unparsable document is cached
    /// negatively and allows; a parsed policy is cached and decides.
    pub fn record(&mut self, url: &str, fetched: Option<String>) -> (allowed: bool)
        requires
            old(self).wf(),
        ensures
            final(self).wf(),
            match origin_of(url@) {
                None => final(self)@ == old(self)@ && allowed == true,
                Some(o) => match fetched {
                    None => final(self)@ == old(self)@.insert(o, None) && allowed == true,
                    Some(body) => if policy_parses(body@) {
                        final(self)@ == old(self)@.insert(o, Some(body@)) && allowed
                            == policy_allows(body@, url@)
                    } else {
                        final(self)@ == old(self)@.insert(o, None) && allowed == true
                    },
                },
            },
    {
        let origin = match extract_origin(url) {
            Some(o) => o,
            None => {
                return true;
            },
        };
        match fetched {
            None => {
                self.cache.insert(origin, RobotsEntry::FetchFailed);
                true
            },
            Some(body) => {
                match RobotsPolicy::parse(crawler_user_agent(), body) {
                    Some(p) => {
                        let allowed = p.allows(url);
                        self.cache.insert(origin, RobotsEntry::Policy(p));
                        allowed
                    },
                    None => {
                        self.cache.insert(origin, RobotsEntry::FetchFailed);
                        true
                    },
                }
            },
        }
    }

    /// Check if the given URL is allowed by the site's crawl policy,
    /// fetching and caching the policy on a miss.  Fail-open: a URL without
    /// a usable origin, a failed fetch or an unparsable document all allow.
    /// A hit decides from the cache alone and leaves it unchanged; a miss
    /// creates exactly one entry for the URL's origin.
    pub fn is_allowed<C: HttpClient>(&mut self, client: &C, url: &str) -> (r: bool)
        requires
            old(self).wf(),
        ensures
            final(self).wf(),
            match origin_of(url@) {
                None => r == true && final(self)@ == old(self)@,
                Some(o) => {
                    &&& final(self)@.contains_key(o)
                    &&& if old(self)@.contains_key(o) {
                        final(self)@ == old(self)@ && r == entry_allows(old(self)@[o], url@)
                    } else {
                        exists|e: Option<Seq<char>>|
                            final(self)@ == old(self)@.insert(o, e) && r == entry_allows(e, url@)
                    }
                },
            },
    {
        match self.probe(url) {
            RobotsProbe::Decided(b) => b,
            RobotsProbe::NeedFetch(robots_url) => {
                let fetched = match client.get(robots_url.as_str()) {
                    Ok(body) => Some(body),
                    Err(_) => None,
                };
                let ghost gf: Option<Seq<char>> = match &fetched {
                    Some(body) => Some(body@),
                    None => None,
                };
                let allowed = self.record(url, fetched);
                proof {
                    if origin_of(url@) is Some {
                        let o = origin_of(url@).unwrap();
                        let e: Option<Seq<char>> = match gf {
                            Some(body) => if policy_parses(body) {
                                Some(body)
                            } else {
                                None
                            },
                            None => None,
                        };
                        assert(self@ == old(self)@.insert(o, e) && allowed == entry_allows(
                            e,
                            url@,
                        ));
                    }
                }
                allowed
            },
        }
    }
}

} // verus!
