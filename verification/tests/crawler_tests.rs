use multithreaded_web_crawler::config::{CrawlResult, CrawlerConfig};
use multithreaded_web_crawler::crawler::Crawler;
use multithreaded_web_crawler::fetcher::{CrawlError, FetchOutcome, HttpResponse};
use multithreaded_web_crawler::storage::memory::MemoryStore;
use multithreaded_web_crawler::storage::{ContentStore, Page, StoreError};
use multithreaded_web_crawler::worker::{
    StepNote, StepOutcome, WorkerAction, WorkerEvent, WorkerState, EMPTY_BACKOFF_MS,
};

const NOW: i64 = 1_700_000_000_000;

fn config(max_depth: usize, max_pages: usize, workers: usize, robots: bool) -> CrawlerConfig {
    CrawlerConfig {
        max_depth,
        max_pages,
        concurrent_requests: workers,
        delay_ms: 25,
        user_agent: "TestBot/1.0".to_string(),
        respect_robots_txt: robots,
    }
}

fn crawler(max_depth: usize, max_pages: usize, workers: usize, robots: bool) -> Crawler<MemoryStore> {
    Crawler::new(config(max_depth, max_pages, workers, robots), MemoryStore::new()).unwrap()
}

fn seeds(urls: &[&str]) -> Vec<String> {
    urls.iter().map(|u| u.to_string()).collect()
}

fn html(links: &[&str]) -> FetchOutcome {
    let mut body = String::from("<html><head><title>t</title></head><body>");
    for link in links {
        body.push_str(&format!("<a href=\"{}\">x</a>", link));
    }
    body.push_str("</body></html>");
    FetchOutcome::Response(HttpResponse {
        status: 200,
        content_type: "text/html".to_string(),
        body,
    })
}

fn wake(crawler: &mut Crawler<MemoryStore>, worker: usize) -> StepOutcome {
    crawler.step_at(worker, WorkerEvent::Wake, NOW)
}

fn page(crawler: &mut Crawler<MemoryStore>, worker: usize, outcome: FetchOutcome) -> StepOutcome {
    crawler.step_at(worker, WorkerEvent::PageFetched { outcome }, NOW)
}

fn robots(crawler: &mut Crawler<MemoryStore>, worker: usize, body: Option<&str>) -> StepOutcome {
    crawler.step_at(worker, WorkerEvent::RobotsFetched { body: body.map(|b| b.to_string()) }, NOW)
}

fn is_fetch_page(action: &WorkerAction, url: &str, depth: usize) -> bool {
    matches!(action, WorkerAction::FetchPage { url: u, depth: d } if u == url && *d == depth)
}

fn is_sleep(action: &WorkerAction, millis: u64) -> bool {
    matches!(action, WorkerAction::Sleep { millis: m } if *m == millis)
}

/// Runs one worker to its end on a site given as a function from URL to
/// answer, with every robots.txt answered by `robots_txt`. Gives the URLs
/// of the pages asked for, in order.
fn run_alone(
    crawler: &mut Crawler<MemoryStore>,
    site: &dyn Fn(&str) -> FetchOutcome,
    robots_txt: &dyn Fn(&str) -> Option<String>,
) -> Vec<(String, usize)> {
    let mut asked = Vec::new();
    let mut event = WorkerEvent::Wake;
    let mut steps: usize = 0;
    loop {
        steps += 1;
        assert!(steps < 10_000, "the worker does not stop");
        let outcome = crawler.step_at(0, event, NOW);
        event = match outcome.action {
            WorkerAction::Stop => break,
            WorkerAction::Continue => WorkerEvent::Wake,
            WorkerAction::Sleep { .. } => WorkerEvent::Wake,
            WorkerAction::FetchRobots { url } => WorkerEvent::RobotsFetched { body: robots_txt(&url) },
            WorkerAction::FetchPage { url, depth } => {
                let outcome = site(&url);
                asked.push((url, depth));
                WorkerEvent::PageFetched { outcome }
            }
        };
    }
    asked
}

#[test]
fn one_page_without_links_is_stored_and_the_run_ends() {
    let mut crawler = crawler(2, 10, 1, false);
    assert_eq!(crawler.seed(&seeds(&["https://x.test/"])), 1);
    let asked = run_alone(&mut crawler, &|_| html(&[]), &|_| None);
    assert_eq!(asked, vec![("https://x.test/".to_string(), 0)]);
    assert!(crawler.is_finished());
    assert_eq!(crawler.pending(), 0);
    assert_eq!(
        crawler.result(7),
        CrawlResult { pages_processed: 1, unique_urls: 1, errors: 0, elapsed_millis: 7 }
    );
    let pages = crawler.into_store().get_all_pages();
    assert_eq!(pages.len(), 1);
    assert_eq!(pages[0].url, "https://x.test/");
    assert_eq!(pages[0].title, Some("t".to_string()));
    assert_eq!(pages[0].crawl_depth, 0);
    assert_eq!(pages[0].crawl_time, NOW);
}

#[test]
fn a_link_to_the_page_itself_with_a_fragment_is_no_new_entry() {
    let mut crawler = crawler(2, 10, 1, false);
    crawler.seed(&seeds(&["https://x.test/a"]));
    let asked = run_alone(&mut crawler, &|_| html(&["https://x.test/a#frag"]), &|_| None);
    assert_eq!(asked, vec![("https://x.test/a".to_string(), 0)]);
    assert_eq!(
        crawler.result(0),
        CrawlResult { pages_processed: 1, unique_urls: 1, errors: 0, elapsed_millis: 0 }
    );
    let pages = crawler.into_store().get_all_pages();
    assert_eq!(pages[0].links, vec!["https://x.test/a#frag".to_string()]);
}

#[test]
fn with_a_budget_of_one_page_one_page_is_stored() {
    let mut crawler = crawler(2, 1, 1, false);
    crawler.seed(&seeds(&["https://x.test/"]));
    let asked = run_alone(&mut crawler, &|_| html(&["/a", "/b"]), &|_| None);
    assert_eq!(asked, vec![("https://x.test/".to_string(), 0)]);
    let result = crawler.result(0);
    assert_eq!(result.pages_processed, 1);
    assert_eq!(result.unique_urls, 3);
    assert_eq!(result.errors, 0);
    assert_eq!(crawler.pending(), 2);
    assert_eq!(crawler.into_store().get_all_pages().len(), 1);
}

#[test]
fn a_page_that_arrives_once_the_budget_is_used_up_is_dropped() {
    let mut crawler = crawler(2, 1, 2, false);
    crawler.seed(&seeds(&["https://x.test/1", "https://x.test/2"]));
    assert!(is_fetch_page(&wake(&mut crawler, 0).action, "https://x.test/1", 0));
    assert!(is_fetch_page(&wake(&mut crawler, 1).action, "https://x.test/2", 0));
    let first = page(&mut crawler, 0, html(&["/a"]));
    assert!(matches!(first.note, StepNote::Crawled { store_error: None }));
    assert!(is_sleep(&first.action, 25));
    let second = page(&mut crawler, 1, html(&["/b"]));
    assert!(matches!(second.note, StepNote::OverBudget));
    assert!(is_sleep(&second.action, 25));
    assert_eq!(crawler.pages_crawled(), 1);
    assert_eq!(crawler.errors(), 0);
    assert_eq!(crawler.pending(), 1);
    assert!(matches!(wake(&mut crawler, 1).action, WorkerAction::Continue));
    let stop = wake(&mut crawler, 1);
    assert!(matches!(stop.action, WorkerAction::Stop));
    assert!(matches!(stop.note, StepNote::StoppedAtMaxPages));
    assert_eq!(crawler.store().get_all_pages().len(), 1);
}

#[test]
fn the_seed_is_fetched_though_its_robots_txt_cannot_be_had() {
    let mut crawler = crawler(2, 10, 1, true);
    crawler.seed(&seeds(&["https://x.test/start"]));
    let first = wake(&mut crawler, 0);
    assert!(matches!(&first.action, WorkerAction::FetchRobots { url } if url == "https://x.test/robots.txt"));
    let second = robots(&mut crawler, 0, None);
    assert!(is_fetch_page(&second.action, "https://x.test/start", 0));
    assert!(matches!(second.note, StepNote::Nothing));
    let third = page(&mut crawler, 0, html(&["/next"]));
    assert!(matches!(third.note, StepNote::Crawled { store_error: None }));
    assert!(matches!(wake(&mut crawler, 0).action, WorkerAction::Continue));
    let again = wake(&mut crawler, 0);
    assert!(matches!(&again.action, WorkerAction::FetchRobots { url } if url == "https://x.test/robots.txt"));
    assert_eq!(crawler.pages_crawled(), 1);
}

#[test]
fn robots_rules_that_forbid_a_path_drop_the_entry() {
    let mut crawler = crawler(2, 10, 1, true);
    crawler.seed(&seeds(&["https://x.test/private/a", "https://x.test/public", "https://x.test/private/b"]));
    let asked = run_alone(
        &mut crawler,
        &|_| html(&[]),
        &|url| {
            assert_eq!(url, "https://x.test/robots.txt");
            Some("Disallow: /private\n".to_string())
        },
    );
    assert_eq!(asked, vec![("https://x.test/public".to_string(), 0)]);
    assert_eq!(
        crawler.result(0),
        CrawlResult { pages_processed: 1, unique_urls: 3, errors: 0, elapsed_millis: 0 }
    );
}

#[test]
fn robots_rules_are_asked_once_for_a_host() {
    let mut crawler = crawler(2, 10, 1, true);
    crawler.seed(&seeds(&["https://x.test/a", "https://x.test/b"]));
    assert!(matches!(wake(&mut crawler, 0).action, WorkerAction::FetchRobots { .. }));
    let denied = robots(&mut crawler, 0, Some("Disallow: /a"));
    assert!(matches!(denied.action, WorkerAction::Continue));
    assert!(matches!(&denied.note, StepNote::SkippedByRobots { url } if url == "https://x.test/a"));
    assert!(is_fetch_page(&wake(&mut crawler, 0).action, "https://x.test/b", 0));
}

#[test]
fn a_cached_rule_drops_an_entry_without_a_request() {
    let mut crawler = crawler(2, 10, 1, true);
    crawler.seed(&seeds(&["https://x.test/ok", "https://x.test/no/1", "https://x.test/ok2"]));
    assert!(matches!(wake(&mut crawler, 0).action, WorkerAction::FetchRobots { .. }));
    assert!(is_fetch_page(&robots(&mut crawler, 0, Some("Disallow: /no")).action, "https://x.test/ok", 0));
    assert!(is_sleep(&page(&mut crawler, 0, html(&[])).action, 25));
    assert!(matches!(wake(&mut crawler, 0).action, WorkerAction::Continue));
    let skipped = wake(&mut crawler, 0);
    assert!(matches!(skipped.action, WorkerAction::Continue));
    assert!(matches!(&skipped.note, StepNote::SkippedByRobots { url } if url == "https://x.test/no/1"));
    assert!(is_fetch_page(&wake(&mut crawler, 0).action, "https://x.test/ok2", 0));
}

#[test]
fn no_page_deeper_than_the_limit_is_asked_for() {
    let mut crawler = crawler(1, 100, 1, false);
    crawler.seed(&seeds(&["https://x.test/0"]));
    let asked = run_alone(
        &mut crawler,
        &|url| match url {
            "https://x.test/0" => html(&["/1a", "/1b"]),
            "https://x.test/1a" => html(&["/2a", "/2b", "/0"]),
            "https://x.test/1b" => html(&["/2c", "/1a"]),
            _ => html(&["/never"]),
        },
        &|_| None,
    );
    assert_eq!(
        asked,
        vec![
            ("https://x.test/0".to_string(), 0),
            ("https://x.test/1a".to_string(), 1),
            ("https://x.test/1b".to_string(), 1),
        ]
    );
    assert_eq!(
        crawler.result(0),
        CrawlResult { pages_processed: 3, unique_urls: 6, errors: 0, elapsed_millis: 0 }
    );
}

#[test]
fn with_depth_zero_only_the_seeds_are_asked_for() {
    let mut crawler = crawler(0, 100, 1, false);
    crawler.seed(&seeds(&["https://x.test/s1", "https://x.test/s2"]));
    let asked = run_alone(&mut crawler, &|_| html(&["/deeper"]), &|_| None);
    assert_eq!(
        asked,
        vec![("https://x.test/s1".to_string(), 0), ("https://x.test/s2".to_string(), 0)]
    );
    assert_eq!(crawler.result(0).unique_urls, 3);
}

#[test]
fn failures_are_counted_and_the_run_goes_on() {
    let mut crawler = crawler(2, 100, 1, false);
    crawler.seed(&seeds(&[
        "https://x.test/down",
        "https://x.test/missing",
        "https://x.test/pdf",
        "https://x.test/fine",
    ]));
    let asked = run_alone(
        &mut crawler,
        &|url| match url {
            "https://x.test/down" => FetchOutcome::Failed { reason: "connection refused".to_string() },
            "https://x.test/missing" => FetchOutcome::Response(HttpResponse {
                status: 404,
                content_type: "text/html".to_string(),
                body: String::new(),
            }),
            "https://x.test/pdf" => FetchOutcome::Response(HttpResponse {
                status: 200,
                content_type: "application/pdf".to_string(),
                body: "%PDF".to_string(),
            }),
            _ => html(&[]),
        },
        &|_| None,
    );
    assert_eq!(asked.len(), 4);
    assert_eq!(
        crawler.result(0),
        CrawlResult { pages_processed: 1, unique_urls: 4, errors: 3, elapsed_millis: 0 }
    );
    assert_eq!(crawler.store().get_all_pages().len(), 1);
}

#[test]
fn each_kind_of_failure_is_told_in_the_note() {
    let mut crawler = crawler(2, 100, 1, false);
    crawler.seed(&seeds(&["https://x.test/1", "https://x.test/2", "https://x.test/3"]));
    assert!(is_fetch_page(&wake(&mut crawler, 0).action, "https://x.test/1", 0));
    let down = page(&mut crawler, 0, FetchOutcome::Failed { reason: "timeout".to_string() });
    assert!(matches!(&down.note, StepNote::Failed { error: CrawlError::Network { reason } } if reason == "timeout"));
    assert!(is_sleep(&down.action, 25));
    assert!(matches!(wake(&mut crawler, 0).action, WorkerAction::Continue));
    assert!(is_fetch_page(&wake(&mut crawler, 0).action, "https://x.test/2", 0));
    let missing = page(
        &mut crawler,
        0,
        FetchOutcome::Response(HttpResponse { status: 503, content_type: "text/html".to_string(), body: String::new() }),
    );
    assert!(matches!(missing.note, StepNote::Failed { error: CrawlError::HttpStatus { status: 503 } }));
    assert!(matches!(wake(&mut crawler, 0).action, WorkerAction::Continue));
    assert!(is_fetch_page(&wake(&mut crawler, 0).action, "https://x.test/3", 0));
    let image = page(
        &mut crawler,
        0,
        FetchOutcome::Response(HttpResponse { status: 200, content_type: "image/png".to_string(), body: String::new() }),
    );
    assert!(matches!(image.note, StepNote::Failed { error: CrawlError::NotHtml }));
    assert_eq!(crawler.errors(), 3);
    assert_eq!(crawler.pages_crawled(), 0);
}

#[test]
fn a_worker_stops_once_it_has_found_the_frontier_empty_twice() {
    let mut crawler = crawler(2, 10, 1, false);
    let first = wake(&mut crawler, 0);
    assert!(is_sleep(&first.action, EMPTY_BACKOFF_MS));
    assert_eq!(EMPTY_BACKOFF_MS, 100);
    assert!(!crawler.is_finished());
    let second = wake(&mut crawler, 0);
    assert!(matches!(second.action, WorkerAction::Stop));
    assert!(matches!(second.note, StepNote::StoppedOnEmptyQueue));
    assert!(crawler.is_finished());
}

#[test]
fn a_worker_goes_on_when_the_frontier_has_filled_during_its_rest() {
    let mut crawler = crawler(2, 10, 2, false);
    crawler.seed(&seeds(&["https://x.test/"]));
    assert!(is_fetch_page(&wake(&mut crawler, 0).action, "https://x.test/", 0));
    assert!(is_sleep(&wake(&mut crawler, 1).action, 100));
    assert!(is_sleep(&page(&mut crawler, 0, html(&["/a", "/b"])).action, 25));
    assert!(matches!(wake(&mut crawler, 1).action, WorkerAction::Continue));
    assert!(is_fetch_page(&wake(&mut crawler, 1).action, "https://x.test/a", 1));
    assert!(matches!(wake(&mut crawler, 0).action, WorkerAction::Continue));
    assert!(is_fetch_page(&wake(&mut crawler, 0).action, "https://x.test/b", 1));
}

#[test]
fn a_worker_with_a_budget_of_no_page_stops_at_once() {
    let mut crawler = crawler(2, 0, 1, false);
    crawler.seed(&seeds(&["https://x.test/"]));
    let stop = wake(&mut crawler, 0);
    assert!(matches!(stop.action, WorkerAction::Stop));
    assert!(matches!(stop.note, StepNote::StoppedAtMaxPages));
    assert_eq!(crawler.pending(), 1);
    assert!(crawler.is_finished());
}

#[test]
fn a_stopped_worker_stays_stopped() {
    let mut crawler = crawler(2, 10, 1, false);
    wake(&mut crawler, 0);
    wake(&mut crawler, 0);
    crawler.seed(&seeds(&["https://x.test/"]));
    assert!(matches!(wake(&mut crawler, 0).action, WorkerAction::Stop));
    assert!(matches!(page(&mut crawler, 0, html(&[])).action, WorkerAction::Stop));
    assert!(matches!(robots(&mut crawler, 0, None).action, WorkerAction::Stop));
    assert_eq!(crawler.pending(), 1);
    assert_eq!(crawler.pages_crawled(), 0);
}

#[test]
fn a_worker_that_does_not_exist_is_told_to_stop() {
    let mut crawler = crawler(2, 10, 2, false);
    crawler.seed(&seeds(&["https://x.test/"]));
    assert!(matches!(wake(&mut crawler, 2).action, WorkerAction::Stop));
    assert!(matches!(page(&mut crawler, usize::MAX, html(&[])).action, WorkerAction::Stop));
    assert_eq!(crawler.pending(), 1);
    assert!(!crawler.is_finished());
}

#[test]
fn an_event_that_is_not_waited_for_changes_nothing() {
    let mut crawler = crawler(2, 10, 1, true);
    crawler.seed(&seeds(&["https://x.test/a"]));
    let stray = page(&mut crawler, 0, html(&["/x"]));
    assert!(matches!(stray.action, WorkerAction::Continue));
    assert_eq!(crawler.pending(), 1);
    assert_eq!(crawler.pages_crawled(), 0);
    assert!(matches!(wake(&mut crawler, 0).action, WorkerAction::FetchRobots { .. }));
    let early = page(&mut crawler, 0, html(&["/x"]));
    assert!(matches!(&early.action, WorkerAction::FetchRobots { url } if url == "https://x.test/robots.txt"));
    assert!(matches!(wake(&mut crawler, 0).action, WorkerAction::FetchRobots { .. }));
    assert!(is_fetch_page(&robots(&mut crawler, 0, Some("")).action, "https://x.test/a", 0));
    assert!(is_fetch_page(&wake(&mut crawler, 0).action, "https://x.test/a", 0));
    assert!(is_fetch_page(&robots(&mut crawler, 0, None).action, "https://x.test/a", 0));
    assert_eq!(crawler.pages_crawled(), 0);
    assert_eq!(crawler.errors(), 0);
    assert!(is_sleep(&page(&mut crawler, 0, html(&[])).action, 25));
    assert!(is_sleep(&page(&mut crawler, 0, html(&[])).action, 25));
    assert_eq!(crawler.pages_crawled(), 1);
}

#[test]
fn seeds_are_queued_once_and_only_if_canonical() {
    let mut crawler = crawler(2, 10, 1, false);
    let queued = crawler.seed(&seeds(&[
        "https://x.test/a",
        "https://x.test/a#again",
        "nonsense",
        "ftp://x.test/",
        "https://x.test/b",
    ]));
    assert_eq!(queued, 2);
    assert_eq!(crawler.pending(), 2);
    assert_eq!(crawler.result(0).unique_urls, 2);
}

#[test]
fn pages_and_errors_never_outnumber_the_urls_seen() {
    let mut crawler = crawler(3, 5, 3, false);
    crawler.seed(&seeds(&["https://x.test/0"]));
    let mut events = vec![WorkerEvent::Wake, WorkerEvent::Wake, WorkerEvent::Wake];
    let mut stopped = [false, false, false];
    let mut round: usize = 0;
    while !crawler.is_finished() {
        assert!(round < 10_000);
        let worker = round % 3;
        round += 1;
        if stopped[worker] {
            continue;
        }
        let event = std::mem::replace(&mut events[worker], WorkerEvent::Wake);
        let outcome = crawler.step_at(worker, event, NOW);
        events[worker] = match outcome.action {
            WorkerAction::Stop => {
                stopped[worker] = true;
                WorkerEvent::Wake
            }
            WorkerAction::FetchPage { url, depth } => {
                assert!(depth <= 3);
                let n = url.len() % 4;
                let outcome = if n == 1 {
                    FetchOutcome::Failed { reason: "down".to_string() }
                } else {
                    html(&[&format!("{}x", url), &format!("{}yy", url), "/0"])
                };
                WorkerEvent::PageFetched { outcome }
            }
            _ => WorkerEvent::Wake,
        };
        let result = crawler.result(0);
        assert!(result.pages_processed <= 5);
        assert!(result.pages_processed + result.errors <= result.unique_urls);
    }
    let result = crawler.result(0);
    assert_eq!(result.pages_processed, 5);
    assert_eq!(crawler.into_store().get_all_pages().len(), 5);
}

struct FullStore {
    refused: usize,
}

impl ContentStore for FullStore {
    fn add_page(&mut self, _page: Page) -> Result<(), StoreError> {
        self.refused += 1;
        Err(StoreError { message: "no room".to_string() })
    }

    fn get_all_pages(&self) -> Vec<Page> {
        Vec::new()
    }
}

#[test]
fn a_page_that_the_sink_refuses_still_counts_and_its_links_are_followed() {
    let mut crawler = Crawler::new(config(2, 10, 1, false), FullStore { refused: 0 }).unwrap();
    crawler.seed(&seeds(&["https://x.test/"]));
    assert!(matches!(crawler.step_at(0, WorkerEvent::Wake, NOW).action, WorkerAction::FetchPage { .. }));
    let outcome = crawler.step_at(0, WorkerEvent::PageFetched { outcome: html(&["/a"]) }, NOW);
    assert!(matches!(&outcome.note, StepNote::Crawled { store_error: Some(e) } if e.message == "no room"));
    assert_eq!(crawler.pages_crawled(), 1);
    assert_eq!(crawler.errors(), 0);
    assert_eq!(crawler.pending(), 1);
    assert_eq!(crawler.store().refused, 1);
}

#[test]
fn step_stamps_a_page_with_the_present() {
    let mut crawler = crawler(2, 10, 1, false);
    crawler.seed(&seeds(&["https://x.test/"]));
    assert!(matches!(crawler.step(0, WorkerEvent::Wake).action, WorkerAction::FetchPage { .. }));
    let outcome = crawler.step(0, WorkerEvent::PageFetched { outcome: html(&[]) });
    assert!(matches!(outcome.note, StepNote::Crawled { store_error: None }));
    let pages = crawler.into_store().get_all_pages();
    assert!(pages[0].crawl_time > 1_600_000_000_000);
}

#[test]
fn a_state_tells_what_its_worker_is_to_do() {
    assert!(matches!(WorkerState::FetchNext.action(5), WorkerAction::Continue));
    assert!(is_sleep(&WorkerState::EmptyBackoff.action(5), 100));
    assert!(is_sleep(&WorkerState::Pausing.action(5), 5));
    assert!(matches!(WorkerState::Stopped.action(5), WorkerAction::Stop));
    let copy = WorkerState::Pausing.duplicate();
    assert!(matches!(copy, WorkerState::Pausing));
}
