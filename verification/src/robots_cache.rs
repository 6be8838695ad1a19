//! The robots rules of every host met so far, kept for the length of a run.
//!
//! Rules are kept by host alone. Only rules that were read from a fetched
//! robots.txt are kept: a host whose robots.txt could not be had is
//! allowed, and asked again the next time.

use crate::robots::{robots_rules, rules_allow, RobotsRules, RobotsTxt};
use crate::utils::url::{join_url, joined_url, parse_url, parsed_url};
use dashmap::DashMap;
use vstd::prelude::*;

verus! {

/// Makes `dashmap::DashMap` known as a type whose inside is not looked at.
#[verifier::external_type_specification]
#[verifier::external_body]
#[verifier::reject_recursive_types(K)]
#[verifier::reject_recursive_types(V)]
#[verifier::reject_recursive_types(S)]
pub struct ExDashMap<K, V, S>(DashMap<K, V, S>);

/// The rules that a map holds, by host.
pub uninterp spec fn map_contents(known: DashMap<String, RobotsTxt>) -> Map<Seq<char>, RobotsRules>;

/// Calls `DashMap::new`. Trusted: the new map is empty.
#[verifier::external_body]
fn rules_new() -> (rules: DashMap<String, RobotsTxt>)
    ensures
        map_contents(rules).dom() == Set::<Seq<char>>::empty(),
{
    DashMap::new()
}

/// Calls `DashMap::get` and copies the value out. Trusted: the result is
/// what the map holds under the key, `None` where it holds nothing.
#[verifier::external_body]
fn rules_get(known: &DashMap<String, RobotsTxt>, host: &str) -> (found: Option<RobotsTxt>)
    ensures
        found is Some <==> map_contents(*known).dom().contains(host@),
        found matches Some(rules) ==> rules@ == map_contents(*known)[host@],
{
    known.get(host).map(|entry| entry.value().clone())
}

/// Calls `DashMap::insert`. Trusted: the map then holds the value under
/// the key, in place of what it held there, and everything else as before.
#[verifier::external_body]
fn rules_insert(known: &mut DashMap<String, RobotsTxt>, host: String, rules: RobotsTxt)
    ensures
        map_contents(*final(known)) == map_contents(*old(known)).insert(host@, rules@),
{
    known.insert(host, rules);
}

/// What the cache says of a URL before anything is fetched.
#[derive(Clone, Debug)]
pub enum RobotsCheck {
    /// The URL may be fetched.
    Allowed,
    /// The rules of the URL's host forbid its path.
    Denied,
    /// The host's rules are not known yet: its robots.txt is at
    /// `robots_url`, and the path to judge is `path`.
    Unknown { robots_url: String, host: String, path: String },
}

/// What a `RobotsCheck` holds, as sequences of characters.
pub enum RobotsCheckView {
    Allowed,
    Denied,
    Unknown { robots_url: Seq<char>, host: Seq<char>, path: Seq<char> },
}

impl View for RobotsCheck {
    type V = RobotsCheckView;

    open spec fn view(&self) -> RobotsCheckView {
        match *self {
            RobotsCheck::Allowed => RobotsCheckView::Allowed,
            RobotsCheck::Denied => RobotsCheckView::Denied,
            RobotsCheck::Unknown { robots_url, host, path } => RobotsCheckView::Unknown {
                robots_url: robots_url@,
                host: host@,
                path: path@,
            },
        }
    }
}

/// What the rules in `known` say of `url`. A URL that does not parse or
/// has no host is allowed. Known rules of the host decide. Otherwise the
/// host's robots.txt is the path `/robots.txt` resolved against the URL;
/// where that cannot be resolved, the URL is allowed.
pub open spec fn robots_check(
    known: Map<Seq<char>, RobotsRules>,
    url: Seq<char>,
) -> RobotsCheckView {
    match parsed_url(url) {
        None => RobotsCheckView::Allowed,
        Some(parts) => match parts.host {
            None => RobotsCheckView::Allowed,
            Some(host) => if known.dom().contains(host) {
                if rules_allow(known[host], parts.path) {
                    RobotsCheckView::Allowed
                } else {
                    RobotsCheckView::Denied
                }
            } else {
                match joined_url(url, "/robots.txt"@) {
                    None => RobotsCheckView::Allowed,
                    Some(robots) => RobotsCheckView::Unknown {
                        robots_url: robots.href,
                        host,
                        path: parts.path,
                    },
                }
            },
        },
    }
}

/// The rules known once the robots.txt of `host` was asked for: with a
/// body, the rules read from it are known for the host; without one,
/// nothing is learnt.
pub open spec fn robots_learnt(
    known: Map<Seq<char>, RobotsRules>,
    host: Seq<char>,
    body: Option<Seq<char>>,
) -> Map<Seq<char>, RobotsRules> {
    match body {
        Some(text) => known.insert(host, robots_rules(text)),
        None => known,
    }
}

/// Whether `path` may be fetched once the host's robots.txt was asked
/// for: without a body, it may; with one, as the rules read from it say.
pub open spec fn robots_verdict(path: Seq<char>, body: Option<Seq<char>>) -> bool {
    match body {
        Some(text) => rules_allow(robots_rules(text), path),
        None => true,
    }
}

/// The robots rules known so far, by host.
pub struct RobotsCache {
    rules: DashMap<String, RobotsTxt>,
}

impl RobotsCache {
    /// The rules known, by host.
    pub closed spec fn known(&self) -> Map<Seq<char>, RobotsRules> {
        map_contents(self.rules)
    }

    /// A cache that knows no host.
    pub fn new() -> (cache: RobotsCache)
        ensures
            cache.known() == Map::<Seq<char>, RobotsRules>::empty(),
    {
        let cache = RobotsCache { rules: rules_new() };
        cache
    }

    /// Judges `url` by what is known, or says where the rules of its host
    /// are to be had.
    pub fn check(&self, url: &str) -> (verdict: RobotsCheck)
        ensures
            verdict@ == robots_check(self.known(), url@),
    {
        let parts = match parse_url(url) {
            Some(parts) => parts,
            None => {
                return RobotsCheck::Allowed;
            },
        };
        let host: String = match parts.host {
            Some(host) => host,
            None => {
                return RobotsCheck::Allowed;
            },
        };
        match rules_get(&self.rules, host.as_str()) {
            Some(rules) => {
                if rules.is_allowed(parts.path.as_str()) {
                    RobotsCheck::Allowed
                } else {
                    RobotsCheck::Denied
                }
            },
            None => match join_url(url, "/robots.txt") {
                Some(robots) => RobotsCheck::Unknown {
                    robots_url: robots.href,
                    host,
                    path: parts.path,
                },
                None => RobotsCheck::Allowed,
            },
        }
    }

    /// Takes the answer to a request for the robots.txt of `host`: `None`
    /// where it could not be had, else its text. Keeps the rules read from
    /// a text, and says whether `path` may be fetched.
    pub fn learn(&mut self, host: &str, path: &str, body: Option<&str>) -> (allowed: bool)
        ensures
            final(self).known() == robots_learnt(
                old(self).known(),
                host@,
                match body {
                    Some(text) => Some(text@),
                    None => None,
                },
            ),
            allowed == robots_verdict(
                path@,
                match body {
                    Some(text) => Some(text@),
                    None => None,
                },
            ),
    {
        match body {
            Some(text) => {
                let rules: RobotsTxt = RobotsTxt::parse(text);
                let allowed: bool = rules.is_allowed(path);
                rules_insert(&mut self.rules, host.to_owned(), rules);
                allowed
            },
            None => true,
        }
    }
}

} // verus!
