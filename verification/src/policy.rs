//! A parsed crawl policy.
//!
//! Parsing a robots.txt document and evaluating it against a URL is the
//! `texting_robots` crate's work.  Both are deterministic functions of the
//! document text (for the library's fixed crawler agent), so their results
//! are named here and every value of `RobotsPolicy` is tied, by
//! construction, to the document it was parsed from: the fields are private
//! and `parse` is the only constructor.

use vstd::prelude::*;

verus! {

/// Whether `texting_robots::Robot::new`, given the library's crawler agent,
/// accepts a policy document.
pub uninterp spec fn policy_parses(body: Seq<char>) -> bool;

/// The decision `texting_robots::Robot::allowed` makes for a URL, under the
/// policy parsed from `body` for the library's crawler agent.
pub uninterp spec fn policy_allows(body: Seq<char>, url: Seq<char>) -> bool;

/// The User-Agent the library crawls as.
pub open spec fn crawler_agent() -> Seq<char> {
    "copal/0.1.0"@
}

/// The User-Agent string used for all outbound HTTP requests.
pub fn crawler_user_agent() -> (r: &'static str)
    ensures
        r@ == crawler_agent(),
{
    "copal/0.1.0"
}

#[verifier::external_type_specification]
#[verifier::external_body]
pub struct ExRobot(texting_robots::Robot);

/// A crawl policy parsed from a robots.txt document, kept together with the
/// document text it came from.
pub struct RobotsPolicy {
    robot: texting_robots::Robot,
    source: String,
}

impl RobotsPolicy {
    /// The policy document this policy was parsed from.
    pub closed spec fn source_view(&self) -> Seq<char> {
        self.source@
    }

    /// Relies on texting_robots::Robot::new: parsing a policy document for
    /// the crawler agent, a deterministic function of the document text.
    #[verifier::external_body]
    pub(crate) fn parse(agent: &str, body: String) -> (r: Option<RobotsPolicy>)
        requires
            agent@ == crawler_agent(),
        ensures
            r.is_some() == policy_parses(body@),
            match r {
                Some(p) => p.source_view() == body@,
                None => true,
            },
    {
        match texting_robots::Robot::new(agent, body.as_bytes()) {
            Ok(robot) => Some(RobotsPolicy { robot, source: body }),
            Err(_) => None,
        }
    }

    /// Relies on texting_robots::Robot::allowed: the policy's decision for a
    /// URL, a deterministic function of the document text and the URL.
    #[verifier::external_body]
    pub(crate) fn allows(&self, url: &str) -> (r: bool)
        ensures
            r == policy_allows(self.source_view(), url@),
    {
        self.robot.allowed(url)
    }
}

} // verus!
