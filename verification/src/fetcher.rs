//! From an HTTP response to a page: which responses count, and what is
//! read out of the body.

use crate::html::{
    all_attrs, first_text, first_value, option_strings_view, select_all_attrs,
    select_first_text, take_first,
};
use crate::robots::strings_view;
use crate::storage::{Page, PageView};
use crate::utils::text::{contains_run, str_contains};
use crate::utils::url::{is_web_scheme, join_url, joined_url, parse_url, parsed_url, scheme_is_web};
use vstd::prelude::*;

verus! {

/// What came back for a GET request.
#[derive(Clone, Debug)]
pub struct HttpResponse {
    /// The status code.
    pub status: u16,
    /// The value of the `content-type` header; empty where there is none.
    pub content_type: String,
    /// The body, as text.
    pub body: String,
}

/// How a fetch ended.
#[derive(Clone, Debug)]
pub enum FetchOutcome {
    /// The server answered.
    Response(HttpResponse),
    /// No answer could be had: no connection, a timeout, an unreadable body.
    Failed { reason: String },
}

/// Why a URL gave no page.
#[derive(Clone, Debug)]
pub enum CrawlError {
    /// No answer could be had from the server.
    Network { reason: String },
    /// The server answered with a status outside 200 to 299.
    HttpStatus { status: u16 },
    /// The answer's content type does not name `text/html`.
    NotHtml,
    /// The page's own URL does not parse, so no link can be resolved.
    InvalidUrl,
}

/// Whether an HTTP status code lies in the success class.
pub open spec fn status_is_success(status: u16) -> bool {
    200 <= status < 300
}

/// The links that `hrefs` give on a page at `base`: each one that is
/// there, resolves against `base` and has the scheme `http` or `https`, in
/// its absolute written form, in the same order.
pub open spec fn resolved_links(base: Seq<char>, hrefs: Seq<Option<Seq<char>>>) -> Seq<Seq<char>>
    decreases hrefs.len(),
{
    if hrefs.len() == 0 {
        Seq::empty()
    } else {
        let before = resolved_links(base, hrefs.drop_last());
        match hrefs.last() {
            Some(href) => match joined_url(base, href) {
                Some(target) => if is_web_scheme(target.scheme) {
                    before.push(target.href)
                } else {
                    before
                },
                None => before,
            },
            None => before,
        }
    }
}

/// The page that the body `body` gives when fetched from `url` at `depth`.
pub open spec fn page_of(
    url: Seq<char>,
    depth: usize,
    body: Seq<char>,
    crawl_time: i64,
) -> PageView {
    PageView {
        url,
        title: first_text(body, "title"@),
        description: first_value(all_attrs(body, "meta[name='description']"@, "content"@)),
        content: body,
        links: resolved_links(url, all_attrs(body, "a[href]"@, "href"@)),
        crawl_depth: depth,
        crawl_time,
    }
}

/// Why the answer with `status` and `content_type` to a request for `url`
/// gives no page, if it gives none: the status is checked first, then the
/// content type, then the URL.
pub open spec fn response_error(url: Seq<char>, status: u16, content_type: Seq<char>) -> Option<
    CrawlError,
> {
    if !status_is_success(status) {
        Some(CrawlError::HttpStatus { status })
    } else if !contains_run(content_type, "text/html"@) {
        Some(CrawlError::NotHtml)
    } else if parsed_url(url) is None {
        Some(CrawlError::InvalidUrl)
    } else {
        None
    }
}

/// Whether an answer with `status` and `content_type` is one whose body is
/// read: a success that names `text/html`.
pub open spec fn body_is_wanted(status: u16, content_type: Seq<char>) -> bool {
    status_is_success(status) && contains_run(content_type, "text/html"@)
}

/// Calls `chrono::Utc::now` and reads `timestamp_millis`: the time in
/// milliseconds since the Unix epoch. Nothing is claimed of the result.
/// The call gives up where the system clock stands before 1970.
#[verifier::external_body]
pub(crate) fn now_millis() -> i64 {
    chrono::Utc::now().timestamp_millis()
}

/// Tests whether an HTTP status code lies in the success class.
pub fn is_success_status(status: u16) -> (ok: bool)
    ensures
        ok == status_is_success(status),
{
    200 <= status && status < 300
}

/// Tests whether an answer with `status` and `content_type` is one whose
/// body is read.
pub fn wants_body(status: u16, content_type: &str) -> (wanted: bool)
    ensures
        wanted == body_is_wanted(status, content_type@),
{
    is_success_status(status) && str_contains(content_type, "text/html")
}

/// Resolves the link targets of a page at `base` and keeps the `http` and
/// `https` ones.
pub fn resolve_links(base: &str, hrefs: &Vec<Option<String>>) -> (links: Vec<String>)
    ensures
        strings_view(links@) == resolved_links(base@, option_strings_view(hrefs@)),
{
    let ghost all = option_strings_view(hrefs@);
    let mut links: Vec<String> = Vec::new();
    let mut i: usize = 0;
    while i < hrefs.len()
        invariant
            0 <= i <= hrefs.len(),
            all == option_strings_view(hrefs@),
            strings_view(links@) == resolved_links(base@, all.take(i as int)),
        decreases hrefs.len() - i,
    {
        assert(all.take(i + 1).drop_last() =~= all.take(i as int));
        match &hrefs[i] {
            Some(href) => {
                match join_url(base, href.as_str()) {
                    Some(target) => {
                        if scheme_is_web(target.scheme.as_str()) {
                            links.push(target.href);
                        }
                    },
                    None => {},
                }
            },
            None => {},
        }
        i += 1;
    }
    assert(all.take(hrefs@.len() as int) =~= all);
    links
}

/// Makes the page out of the answer to a request for `url`, found at
/// `depth` and fetched at `crawl_time`. An answer with a status outside
/// 200 to 299, or whose content type does not name `text/html`, gives no
/// page; neither does a `url` that does not parse.
pub fn page_from_response(
    url: &str,
    depth: usize,
    response: &HttpResponse,
    crawl_time: i64,
) -> (made: Result<Page, CrawlError>)
    ensures
        made matches Ok(page) ==> response_error(url@, response.status, response.content_type@)
            is None && page@ == page_of(url@, depth, response.body@, crawl_time),
        made matches Err(error) ==> response_error(url@, response.status, response.content_type@)
            == Some(error),
{
    if !is_success_status(response.status) {
        return Err(CrawlError::HttpStatus { status: response.status });
    }
    if !str_contains(response.content_type.as_str(), "text/html") {
        return Err(CrawlError::NotHtml);
    }
    let body: &str = response.body.as_str();
    let title: Option<String> = select_first_text(body, "title");
    let description: Option<String> = take_first(
        select_all_attrs(body, "meta[name='description']", "content"),
    );
    let hrefs: Vec<Option<String>> = select_all_attrs(body, "a[href]", "href");
    if parse_url(url).is_none() {
        return Err(CrawlError::InvalidUrl);
    }
    let links: Vec<String> = resolve_links(url, &hrefs);
    Ok(
        Page {
            url: url.to_owned(),
            title,
            description,
            content: response.body.clone(),
            links,
            crawl_depth: depth,
            crawl_time,
        },
    )
}

/// Makes the page out of the answer to a request for `url`, stamped with
/// the time of this call.
pub fn crawl_page(url: &str, depth: usize, response: &HttpResponse) -> (made: Result<
    Page,
    CrawlError,
>)
    ensures
        made matches Ok(page) ==> response_error(url@, response.status, response.content_type@)
            is None && exists|crawl_time: i64|
            page@ == #[trigger] page_of(url@, depth, response.body@, crawl_time),
        made matches Err(error) ==> response_error(url@, response.status, response.content_type@)
            == Some(error),
{
    let crawl_time: i64 = now_millis();
    page_from_response(url, depth, response, crawl_time)
}

} // verus!
