//! The crawler: the state that the workers of a run share, and the step
//! that takes a worker from one point of its protocol to the next.
//!
//! The crawler fetches nothing itself. Each step tells the worker what
//! to do next; the worker does it and reports back with what came of it.

use crate::config::{is_header_value, ConfigError, CrawlResult, CrawlerConfig};
use crate::fetcher::{now_millis, page_from_response, page_of, CrawlError, FetchOutcome};
use crate::frontier::{Frontier, FrontierEntry};
use crate::model::{
    initial_model, lemma_counts_bounded, lemma_fetch_within_depth, lemma_seeded_well_formed,
    lemma_step_well_formed, page_handed, CrawlerModel,
};
use crate::robots::strings_view;
use crate::robots_cache::{RobotsCache, RobotsCheck};
use crate::storage::{ContentStore, Page, PageView, StoreError};
use crate::utils::url::option_string_view;
use crate::worker::{
    error_view, lemma_busy_count_none, outcome_view, pending_action, StepNote, StepOutcome,
    WorkerAction, WorkerEvent, WorkerState, WorkerView,
};
use vstd::prelude::*;

verus! {

/// The contents of a vector of worker states.
pub open spec fn workers_view(workers: Seq<WorkerState>) -> Seq<WorkerView> {
    workers.map_values(|w: WorkerState| w@)
}

/// The state that the workers of one run share.
pub struct Crawler<S: ContentStore> {
    config: CrawlerConfig,
    frontier: Frontier,
    robots: RobotsCache,
    store: S,
    pages_crawled: usize,
    errors: usize,
    workers: Vec<WorkerState>,
    handed: Ghost<Seq<PageView>>,
}

impl<S: ContentStore> View for Crawler<S> {
    type V = CrawlerModel;

    closed spec fn view(&self) -> CrawlerModel {
        CrawlerModel {
            max_depth: self.config.max_depth,
            max_pages: self.config.max_pages,
            delay_ms: self.config.delay_ms,
            respect_robots_txt: self.config.respect_robots_txt,
            frontier: self.frontier@,
            robots: self.robots.known(),
            workers: workers_view(self.workers@),
            pages_crawled: self.pages_crawled,
            errors: self.errors,
        }
    }
}

impl<S: ContentStore> Crawler<S> {
    /// The sink that takes the pages.
    pub closed spec fn sink(&self) -> S {
        self.store
    }

    /// The pages that were handed to the sink, oldest first.
    pub closed spec fn handed(&self) -> Seq<PageView> {
        self.handed@
    }

    /// The options of the run.
    pub closed spec fn options(&self) -> CrawlerConfig {
        self.config
    }

    /// The state is well formed and agrees with the options, and the
    /// pages counted are the pages that were handed to the sink.
    pub open spec fn well_formed(&self) -> bool {
        &&& self@.well_formed()
        &&& self.handed().len() == self@.pages_crawled
        &&& self@.max_depth == self.options().max_depth
        &&& self@.max_pages == self.options().max_pages
        &&& self@.delay_ms == self.options().delay_ms
        &&& self@.respect_robots_txt == self.options().respect_robots_txt
        &&& self@.workers.len() == self.options().concurrent_requests
    }

    /// The state for a run with the options `config` and the sink
    /// `store`. Refuses a user agent that cannot be sent.
    pub fn new(config: CrawlerConfig, store: S) -> (made: Result<Crawler<S>, ConfigError>)
        ensures
            made is Ok <==> is_header_value(config.user_agent@),
            made matches Ok(crawler) ==> {
                &&& crawler.well_formed()
                &&& crawler@ == initial_model(config)
                &&& crawler.options() == config
                &&& crawler.sink() == store
                &&& crawler.handed() == Seq::<PageView>::empty()
            },
            made matches Err(error) ==> error == ConfigError::InvalidUserAgent,
    {
        if !config.has_valid_user_agent() {
            return Err(ConfigError::InvalidUserAgent);
        }
        let mut workers: Vec<WorkerState> = Vec::new();
        let mut i: usize = 0;
        while i < config.concurrent_requests
            invariant
                0 <= i <= config.concurrent_requests,
                workers@.len() == i,
                forall|k: int| 0 <= k < i ==> (#[trigger] workers@[k])@ == WorkerView::FetchNext,
            decreases config.concurrent_requests - i,
        {
            workers.push(WorkerState::FetchNext);
            i += 1;
        }
        let crawler = Crawler {
            config,
            frontier: Frontier::new(),
            robots: RobotsCache::new(),
            store,
            pages_crawled: 0,
            errors: 0,
            workers,
            handed: Ghost(Seq::empty()),
        };
        proof {
            assert(crawler@.workers =~= initial_model(config).workers);
            lemma_busy_count_none(crawler@.workers);
        }
        Ok(crawler)
    }

    /// The options of the run.
    pub fn config(&self) -> (config: &CrawlerConfig)
        ensures
            *config == self.options(),
    {
        &self.config
    }

    /// The sink.
    pub fn store(&self) -> (store: &S)
        ensures
            *store == self.sink(),
    {
        &self.store
    }

    /// Ends the run and gives the sink back.
    pub fn into_store(self) -> (store: S)
        ensures
            store == self.sink(),
    {
        self.store
    }

    /// The number of pages handed to the sink.
    pub fn pages_crawled(&self) -> (count: usize)
        ensures
            count == self@.pages_crawled,
    {
        self.pages_crawled
    }

    /// The number of fetches that gave no page.
    pub fn errors(&self) -> (count: usize)
        ensures
            count == self@.errors,
    {
        self.errors
    }

    /// The number of workers.
    pub fn worker_count(&self) -> (count: usize)
        ensures
            count == self@.workers.len(),
    {
        self.workers.len()
    }

    /// The number of entries that wait in the frontier.
    pub fn pending(&self) -> (count: usize)
        ensures
            count == self@.frontier.pending.len(),
    {
        self.frontier.len()
    }

    /// Offers the seeds of the run to the frontier, at depth 0. Says how
    /// many were queued.
    pub fn seed(&mut self, urls: &Vec<String>) -> (queued: usize)
        ensures
            final(self)@ == old(self)@.seeded(strings_view(urls@)),
            old(self).well_formed() ==> final(self).well_formed(),
            final(self).options() == old(self).options(),
            final(self).sink() == old(self).sink(),
            final(self).handed() == old(self).handed(),
            queued == final(self)@.frontier.pending.len() - old(self)@.frontier.pending.len(),
    {
        proof {
            if self.well_formed() {
                lemma_seeded_well_formed(self@, strings_view(urls@));
            }
        }
        self.frontier.enqueue_all(urls, 0)
    }

    /// Tells whether every worker has stopped.
    pub fn is_finished(&self) -> (finished: bool)
        ensures
            finished == self@.finished(),
    {
        let mut i: usize = 0;
        while i < self.workers.len()
            invariant
                0 <= i <= self.workers.len(),
                forall|k: int| 0 <= k < i ==> #[trigger] self@.workers[k] is Stopped,
            decreases self.workers.len() - i,
        {
            let stopped: bool = match &self.workers[i] {
                WorkerState::Stopped => true,
                _ => false,
            };
            if !stopped {
                assert(!(self@.workers[i as int] is Stopped));
                return false;
            }
            i += 1;
        }
        true
    }

    /// What the run did, `elapsed_millis` milliseconds after it began. Of
    /// a well-formed run the pages are within the budget, and pages and
    /// errors together are no more than the URLs seen.
    pub fn result(&self, elapsed_millis: u64) -> (result: CrawlResult)
        ensures
            result.pages_processed == self@.pages_crawled,
            result.errors == self@.errors,
            result.elapsed_millis == elapsed_millis,
            self@.frontier.seen.finite() ==> result.unique_urls == self@.frontier.seen.len(),
            self.well_formed() ==> result.pages_processed <= self@.max_pages,
            self.well_formed() ==> result.pages_processed + result.errors <= result.unique_urls,
    {
        proof {
            if self.well_formed() {
                lemma_counts_bounded(self@);
            }
        }
        CrawlResult {
            pages_processed: self.pages_crawled,
            unique_urls: self.frontier.unique_urls(),
            errors: self.errors,
            elapsed_millis,
        }
    }

    /// Puts the worker `worker` into `state`, and says what a worker in
    /// that state is to do.
    fn move_worker(&mut self, worker: usize, state: WorkerState, note: StepNote) -> (out:
        StepOutcome)
        requires
            worker < old(self)@.workers.len(),
        ensures
            final(self)@ == old(self)@.with_worker(worker as int, state@),
            final(self).options() == old(self).options(),
            final(self).sink() == old(self).sink(),
            final(self).handed() == old(self).handed(),
            out.action@ == pending_action(state@, old(self)@.delay_ms),
            out.note == note,
    {
        let action: WorkerAction = state.action(self.config.delay_ms);
        self.workers.set(worker, state);
        assert(workers_view(self.workers@) =~= workers_view(old(self).workers@).update(
            worker as int,
            state@,
        ));
        StepOutcome { action, note }
    }

    /// Decides what becomes of an entry just taken off the frontier.
    fn take_in(&mut self, worker: usize, entry: FrontierEntry) -> (out: StepOutcome)
        requires
            worker < old(self)@.workers.len(),
        ensures
            final(self)@ == old(self)@.admitted(worker as int, entry@).post,
            out.action@ == old(self)@.admitted(worker as int, entry@).action,
            out.note@ == old(self)@.admitted(worker as int, entry@).note,
            final(self).options() == old(self).options(),
            final(self).sink() == old(self).sink(),
            final(self).handed() == old(self).handed(),
    {
        if entry.depth > self.config.max_depth {
            return self.move_worker(worker, WorkerState::FetchNext, StepNote::Nothing);
        }
        if !self.config.respect_robots_txt {
            return self.move_worker(worker, WorkerState::Fetching { entry }, StepNote::Nothing);
        }
        match self.robots.check(entry.url.as_str()) {
            RobotsCheck::Allowed => self.move_worker(
                worker,
                WorkerState::Fetching { entry },
                StepNote::Nothing,
            ),
            RobotsCheck::Denied => self.move_worker(
                worker,
                WorkerState::FetchNext,
                StepNote::SkippedByRobots { url: entry.url },
            ),
            RobotsCheck::Unknown { robots_url, host, path } => self.move_worker(
                worker,
                WorkerState::CheckingRobots { entry, host, path, robots_url },
                StepNote::Nothing,
            ),
        }
    }

    /// The step of a worker that is ready for the next entry.
    fn fetch_next(&mut self, worker: usize) -> (out: StepOutcome)
        requires
            worker < old(self)@.workers.len(),
        ensures
            final(self)@ == old(self)@.fetch_next(worker as int).post,
            out.action@ == old(self)@.fetch_next(worker as int).action,
            out.note@ == old(self)@.fetch_next(worker as int).note,
            final(self).options() == old(self).options(),
            final(self).sink() == old(self).sink(),
            final(self).handed() == old(self).handed(),
    {
        if self.pages_crawled >= self.config.max_pages {
            return self.move_worker(worker, WorkerState::Stopped, StepNote::StoppedAtMaxPages);
        }
        match self.frontier.dequeue() {
            Some(entry) => self.take_in(worker, entry),
            None => self.move_worker(worker, WorkerState::EmptyBackoff, StepNote::Nothing),
        }
    }

    /// The step of a worker whose rest on an empty frontier is over.
    fn backoff_over(&mut self, worker: usize) -> (out: StepOutcome)
        requires
            worker < old(self)@.workers.len(),
        ensures
            final(self)@ == old(self)@.backoff_over(worker as int).post,
            out.action@ == old(self)@.backoff_over(worker as int).action,
            out.note@ == old(self)@.backoff_over(worker as int).note,
            final(self).options() == old(self).options(),
            final(self).sink() == old(self).sink(),
            final(self).handed() == old(self).handed(),
    {
        if self.frontier.is_empty() {
            self.move_worker(worker, WorkerState::Stopped, StepNote::StoppedOnEmptyQueue)
        } else {
            self.move_worker(worker, WorkerState::FetchNext, StepNote::Nothing)
        }
    }

    /// The step of a worker that has the answer to its request for a
    /// robots.txt.
    fn robots_answered(
        &mut self,
        worker: usize,
        entry: FrontierEntry,
        host: String,
        path: String,
        body: Option<String>,
    ) -> (out: StepOutcome)
        requires
            worker < old(self)@.workers.len(),
        ensures
            final(self)@ == old(self)@.robots_answered(
                worker as int,
                entry@,
                host@,
                path@,
                option_string_view(body),
            ).post,
            out.action@ == old(self)@.robots_answered(
                worker as int,
                entry@,
                host@,
                path@,
                option_string_view(body),
            ).action,
            out.note@ == old(self)@.robots_answered(
                worker as int,
                entry@,
                host@,
                path@,
                option_string_view(body),
            ).note,
            final(self).options() == old(self).options(),
            final(self).sink() == old(self).sink(),
            final(self).handed() == old(self).handed(),
    {
        let allowed: bool = match &body {
            Some(text) => self.robots.learn(host.as_str(), path.as_str(), Some(text.as_str())),
            None => self.robots.learn(host.as_str(), path.as_str(), None),
        };
        if allowed {
            self.move_worker(worker, WorkerState::Fetching { entry }, StepNote::Nothing)
        } else {
            self.move_worker(
                worker,
                WorkerState::FetchNext,
                StepNote::SkippedByRobots { url: entry.url },
            )
        }
    }

    /// The step of a worker whose fetch gave no page.
    fn fetch_failed(&mut self, worker: usize, error: CrawlError) -> (out: StepOutcome)
        requires
            worker < old(self)@.workers.len(),
        ensures
            final(self)@ == old(self)@.fetch_failed(worker as int, error_view(error)).post,
            out.action@ == old(self)@.fetch_failed(worker as int, error_view(error)).action,
            out.note@ == old(self)@.fetch_failed(worker as int, error_view(error)).note,
            final(self).options() == old(self).options(),
            final(self).sink() == old(self).sink(),
            final(self).handed() == old(self).handed(),
    {
        if self.errors < usize::MAX {
            self.errors = self.errors + 1;
        }
        self.move_worker(worker, WorkerState::Pausing, StepNote::Failed { error })
    }

    /// The step of a worker that has the answer to its request for a page.
    fn page_answered(
        &mut self,
        worker: usize,
        entry: FrontierEntry,
        outcome: FetchOutcome,
        crawl_time: i64,
    ) -> (out: StepOutcome)
        requires
            worker < old(self)@.workers.len(),
        ensures
            final(self)@ == old(self)@.page_answered(
                worker as int,
                entry@,
                outcome_view(outcome),
            ).post,
            out.action@ == old(self)@.page_answered(
                worker as int,
                entry@,
                outcome_view(outcome),
            ).action,
            out.note@ == old(self)@.page_answered(
                worker as int,
                entry@,
                outcome_view(outcome),
            ).note,
            final(self).options() == old(self).options(),
            !(out.note is Crawled) ==> final(self).sink() == old(self).sink(),
            !(out.note is Crawled) ==> final(self).handed() == old(self).handed(),
            out.note is Crawled ==> final(self).handed() == old(self).handed().push(
                page_of(entry.url@, entry.depth, outcome->Response_0.body@, crawl_time),
            ),
    {
        let response = match outcome {
            FetchOutcome::Response(response) => response,
            FetchOutcome::Failed { reason } => {
                return self.fetch_failed(worker, CrawlError::Network { reason });
            },
        };
        let page: Page = match page_from_response(
            entry.url.as_str(),
            entry.depth,
            &response,
            crawl_time,
        ) {
            Ok(page) => page,
            Err(error) => {
                return self.fetch_failed(worker, error);
            },
        };
        if self.pages_crawled >= self.config.max_pages {
            return self.move_worker(worker, WorkerState::Pausing, StepNote::OverBudget);
        }
        if entry.depth < usize::MAX {
            self.frontier.enqueue_all(&page.links, entry.depth + 1);
        }
        proof {
            self.handed = Ghost(self.handed@.push(page@));
        }
        let taken = self.store.add_page(page);
        self.pages_crawled = self.pages_crawled + 1;
        let store_error: Option<StoreError> = match taken {
            Ok(_) => None,
            Err(error) => Some(error),
        };
        self.move_worker(worker, WorkerState::Pausing, StepNote::Crawled { store_error })
    }

    /// Takes the worker `worker` one step on: `event` is what has
    /// happened to it since it was last told what to do, and `crawl_time`
    /// is the time to stamp a page with, in milliseconds since the Unix
    /// epoch. Hands back what the worker is to do next.
    pub fn step_at(&mut self, worker: usize, event: WorkerEvent, crawl_time: i64) -> (out:
        StepOutcome)
        ensures
            final(self)@ == old(self)@.step(worker as int, event@).post,
            out.action@ == old(self)@.step(worker as int, event@).action,
            out.note@ == old(self)@.step(worker as int, event@).note,
            final(self).options() == old(self).options(),
            old(self).well_formed() ==> final(self).well_formed(),
            old(self).well_formed() ==> (out.action matches WorkerAction::FetchPage {
                depth,
                ..
            } ==> depth <= old(self)@.max_depth),
            !(out.note is Crawled) ==> final(self).sink() == old(self).sink(),
            !(out.note is Crawled) ==> final(self).handed() == old(self).handed(),
            out.note is Crawled ==> final(self).handed() == old(self).handed().push(
                page_handed(old(self)@, worker as int, event@, crawl_time),
            ),
    {
        proof {
            if self.well_formed() {
                lemma_step_well_formed(self@, worker as int, event@);
                lemma_fetch_within_depth(self@, worker as int, event@);
            }
        }
        if worker >= self.workers.len() {
            return StepOutcome { action: WorkerAction::Stop, note: StepNote::Nothing };
        }
        let state: WorkerState = self.workers[worker].duplicate();
        match state {
            WorkerState::FetchNext => match event {
                WorkerEvent::Wake => self.fetch_next(worker),
                _ => StepOutcome {
                    action: state.action(self.config.delay_ms),
                    note: StepNote::Nothing,
                },
            },
            WorkerState::EmptyBackoff => match event {
                WorkerEvent::Wake => self.backoff_over(worker),
                _ => StepOutcome {
                    action: state.action(self.config.delay_ms),
                    note: StepNote::Nothing,
                },
            },
            WorkerState::Pausing => match event {
                WorkerEvent::Wake => self.move_worker(
                    worker,
                    WorkerState::FetchNext,
                    StepNote::Nothing,
                ),
                _ => StepOutcome {
                    action: state.action(self.config.delay_ms),
                    note: StepNote::Nothing,
                },
            },
            WorkerState::CheckingRobots { entry, host, path, robots_url } => match event {
                WorkerEvent::RobotsFetched { body } => self.robots_answered(
                    worker,
                    entry,
                    host,
                    path,
                    body,
                ),
                _ => StepOutcome {
                    action: WorkerAction::FetchRobots { url: robots_url },
                    note: StepNote::Nothing,
                },
            },
            WorkerState::Fetching { entry } => match event {
                WorkerEvent::PageFetched { outcome } => self.page_answered(
                    worker,
                    entry,
                    outcome,
                    crawl_time,
                ),
                _ => StepOutcome {
                    action: WorkerAction::FetchPage { url: entry.url, depth: entry.depth },
                    note: StepNote::Nothing,
                },
            },
            WorkerState::Stopped => StepOutcome {
                action: WorkerAction::Stop,
                note: StepNote::Nothing,
            },
        }
    }

    /// Takes the worker `worker` one step on, as `step_at` does, with the
    /// time of this call as the time to stamp a page with.
    pub fn step(&mut self, worker: usize, event: WorkerEvent) -> (out: StepOutcome)
        ensures
            final(self)@ == old(self)@.step(worker as int, event@).post,
            out.action@ == old(self)@.step(worker as int, event@).action,
            out.note@ == old(self)@.step(worker as int, event@).note,
            final(self).options() == old(self).options(),
            old(self).well_formed() ==> final(self).well_formed(),
            old(self).well_formed() ==> (out.action matches WorkerAction::FetchPage {
                depth,
                ..
            } ==> depth <= old(self)@.max_depth),
            !(out.note is Crawled) ==> final(self).sink() == old(self).sink(),
            !(out.note is Crawled) ==> final(self).handed() == old(self).handed(),
            out.note is Crawled ==> exists|crawl_time: i64|
                final(self).handed() == old(self).handed().push(
                    #[trigger] page_handed(old(self)@, worker as int, event@, crawl_time),
                ),
    {
        let crawl_time: i64 = now_millis();
        self.step_at(worker, event, crawl_time)
    }
}

} // verus!
