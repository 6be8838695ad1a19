//! Crawled pages and the sinks that take them.

pub mod memory;

use crate::robots::strings_view;
use crate::utils::url::option_string_view;
use vstd::prelude::*;

verus! {

/// One fetched page with what was read out of it.
#[derive(Debug)]
pub struct Page {
    /// The canonical URL under which the page was fetched.
    pub url: String,
    /// The text of the page's title element, where it has one.
    pub title: Option<String>,
    /// The page's meta description, where it has one.
    pub description: Option<String>,
    /// The body as it was received.
    pub content: String,
    /// The absolute `http` and `https` links of the page, in document order.
    pub links: Vec<String>,
    /// How many links away from a seed the page was found.
    pub crawl_depth: usize,
    /// When the page was fetched, in milliseconds since the Unix epoch.
    pub crawl_time: i64,
}

/// What a `Page` holds, as sequences of characters.
pub struct PageView {
    pub url: Seq<char>,
    pub title: Option<Seq<char>>,
    pub description: Option<Seq<char>>,
    pub content: Seq<char>,
    pub links: Seq<Seq<char>>,
    pub crawl_depth: usize,
    pub crawl_time: i64,
}

impl View for Page {
    type V = PageView;

    open spec fn view(&self) -> PageView {
        PageView {
            url: self.url@,
            title: option_string_view(self.title),
            description: option_string_view(self.description),
            content: self.content@,
            links: strings_view(self.links@),
            crawl_depth: self.crawl_depth,
            crawl_time: self.crawl_time,
        }
    }
}

/// The contents of a vector of pages.
pub open spec fn pages_view(pages: Seq<Page>) -> Seq<PageView> {
    pages.map_values(|p: Page| p@)
}

/// Copies an optional string.
pub fn clone_option_string(s: &Option<String>) -> (copy: Option<String>)
    ensures
        copy == *s,
{
    match s {
        Some(text) => Some(text.clone()),
        None => None,
    }
}

/// Copies a vector of strings.
pub fn clone_strings(v: &Vec<String>) -> (copy: Vec<String>)
    ensures
        copy@ == v@,
{
    let mut copy: Vec<String> = Vec::new();
    let mut i: usize = 0;
    while i < v.len()
        invariant
            0 <= i <= v.len(),
            copy@ == v@.take(i as int),
        decreases v.len() - i,
    {
        copy.push(v[i].clone());
        i += 1;
    }
    copy
}

impl Clone for Page {
    /// A page that holds the same.
    fn clone(&self) -> (copy: Page)
        ensures
            copy@ == self@,
    {
        let links: Vec<String> = clone_strings(&self.links);
        Page {
            url: self.url.clone(),
            title: clone_option_string(&self.title),
            description: clone_option_string(&self.description),
            content: self.content.clone(),
            links,
            crawl_depth: self.crawl_depth,
            crawl_time: self.crawl_time,
        }
    }
}

/// Why a sink did not take a page.
#[derive(Clone, Debug)]
pub struct StoreError {
    pub message: String,
}

/// A sink for crawled pages. The crawler hands each page over once and
/// keeps no copy. A sink that refuses a page says why; the crawl goes on.
pub trait ContentStore {
    /// Takes a page.
    fn add_page(&mut self, page: Page) -> Result<(), StoreError>;

    /// Copies of all pages the sink holds, oldest first.
    fn get_all_pages(&self) -> Vec<Page>;
}

} // verus!
