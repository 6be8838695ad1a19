//! What a run is given and what it reports.

use crate::utils::text::to_chars;
use vstd::prelude::*;

verus! {

/// The options of a run.
#[derive(Clone, Debug)]
pub struct CrawlerConfig {
    /// No page further than this many links from a seed is fetched.
    pub max_depth: usize,
    /// No more pages than this are stored.
    pub max_pages: usize,
    /// The number of workers.
    pub concurrent_requests: usize,
    /// How long a worker rests between two fetches, in milliseconds.
    pub delay_ms: u64,
    /// What is sent as `User-Agent` with every request.
    pub user_agent: String,
    /// Whether the robots rules of a host are asked before a fetch.
    pub respect_robots_txt: bool,
}

/// What a run did.
#[derive(Clone, Copy, Debug, PartialEq, Eq)]
pub struct CrawlResult {
    /// The number of pages that were handed to the sink.
    pub pages_processed: usize,
    /// The number of distinct canonical URLs that were queued.
    pub unique_urls: usize,
    /// The number of fetches that gave no page.
    pub errors: usize,
    /// How long the run took, in milliseconds.
    pub elapsed_millis: u64,
}

/// Why a run cannot start.
#[derive(Clone, Copy, Debug, PartialEq, Eq)]
pub enum ConfigError {
    /// The user agent holds a character that no HTTP header value may hold.
    InvalidUserAgent,
}

/// Whether `c` may stand in the value of an HTTP header: the tab and
/// every character but the control characters.
pub open spec fn is_header_char(c: char) -> bool {
    c == '\t' || (c as u32 >= 32 && c as u32 != 127)
}

/// Whether `value` may be sent as the value of an HTTP header.
pub open spec fn is_header_value(value: Seq<char>) -> bool {
    forall|i: int| 0 <= i < value.len() ==> is_header_char(#[trigger] value[i])
}

impl Default for CrawlerConfig {
    /// Depth 3, 100 pages, 5 workers, one second of rest, robots rules
    /// respected.
    fn default() -> (config: CrawlerConfig)
        ensures
            config.max_depth == 3,
            config.max_pages == 100,
            config.concurrent_requests == 5,
            config.delay_ms == 1000,
            config.user_agent@ == "RustWebCrawler/1.0"@,
            config.respect_robots_txt,
    {
        CrawlerConfig {
            max_depth: 3,
            max_pages: 100,
            concurrent_requests: 5,
            delay_ms: 1000,
            user_agent: "RustWebCrawler/1.0".to_owned(),
            respect_robots_txt: true,
        }
    }
}

impl CrawlerConfig {
    /// Tests whether the user agent may be sent as a header value.
    pub fn has_valid_user_agent(&self) -> (valid: bool)
        ensures
            valid == is_header_value(self.user_agent@),
    {
        let chars: Vec<char> = to_chars(self.user_agent.as_str());
        let mut i: usize = 0;
        while i < chars.len()
            invariant
                0 <= i <= chars.len(),
                chars@ == self.user_agent@,
                forall|k: int| 0 <= k < i ==> is_header_char(#[trigger] chars@[k]),
            decreases chars.len() - i,
        {
            let c: char = chars[i];
            let n: u32 = c as u32;
            if !(c == '\t' || (n >= 32 && n != 127)) {
                return false;
            }
            i += 1;
        }
        true
    }

    /// A copy of these options.
    pub fn duplicate(&self) -> (copy: CrawlerConfig)
        ensures
            copy.max_depth == self.max_depth,
            copy.max_pages == self.max_pages,
            copy.concurrent_requests == self.concurrent_requests,
            copy.delay_ms == self.delay_ms,
            copy.user_agent@ == self.user_agent@,
            copy.respect_robots_txt == self.respect_robots_txt,
    {
        CrawlerConfig {
            max_depth: self.max_depth,
            max_pages: self.max_pages,
            concurrent_requests: self.concurrent_requests,
            delay_ms: self.delay_ms,
            user_agent: self.user_agent.clone(),
            respect_robots_txt: self.respect_robots_txt,
        }
    }
}

} // verus!
