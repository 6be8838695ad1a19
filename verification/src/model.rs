//! The states of a run and the steps between them, as mathematics: what
//! a step of a worker does to the frontier, the robots rules, the counts
//! and the worker itself, and what always holds of a run.

use crate::config::CrawlerConfig;
use crate::fetcher::{page_of, resolved_links, response_error};
use crate::frontier::{
    lemma_dequeued_well_formed, lemma_emitted_once, lemma_enqueued_all_well_formed, EntryView,
    FrontierModel,
};
use crate::html::all_attrs;
use crate::robots::RobotsRules;
use crate::storage::PageView;
use crate::robots_cache::{robots_check, robots_learnt, robots_verdict, RobotsCheckView};
use crate::worker::{
    busy_count, error_view, held_entry, is_busy, lemma_busy_count_none, lemma_busy_count_update,
    pending_action, ActionView, ErrorView, EventView, NoteView, OutcomeView, WorkerView,
};
use vstd::prelude::*;

verus! {

/// The state of a run, but for the pages in the sink.
pub struct CrawlerModel {
    /// No page further than this many links from a seed is fetched.
    pub max_depth: usize,
    /// No more pages than this are stored.
    pub max_pages: usize,
    /// How long a worker rests between two fetches, in milliseconds.
    pub delay_ms: u64,
    /// Whether the robots rules of a host are asked before a fetch.
    pub respect_robots_txt: bool,
    /// The frontier.
    pub frontier: FrontierModel,
    /// The robots rules known, by host.
    pub robots: Map<Seq<char>, RobotsRules>,
    /// Where each worker stands.
    pub workers: Seq<WorkerView>,
    /// The number of pages handed to the sink.
    pub pages_crawled: usize,
    /// The number of fetches that gave no page, as far as the machine
    /// counts.
    pub errors: usize,
}

/// A state of a run together with what a step hands back.
pub struct StepModel {
    pub post: CrawlerModel,
    pub action: ActionView,
    pub note: NoteView,
}

/// The links of the page with the body `body` at `url`.
pub open spec fn page_links(url: Seq<char>, body: Seq<char>) -> Seq<Seq<char>> {
    resolved_links(url, all_attrs(body, "a[href]"@, "href"@))
}

impl CrawlerModel {
    /// The frontier is well formed; no more pages are counted than the
    /// budget allows; the pages and errors counted and the entries that
    /// workers hold together never outnumber the entries that left the
    /// frontier; every entry that a worker holds has left the frontier
    /// and is no deeper than the depth limit; and no two workers hold an
    /// entry for the same URL.
    pub open spec fn well_formed(self) -> bool {
        &&& self.frontier.well_formed()
        &&& self.pages_crawled <= self.max_pages
        &&& self.pages_crawled + self.errors + busy_count(self.workers)
            <= self.frontier.emitted.len()
        &&& forall|i: int|
            0 <= i < self.workers.len() ==> worker_sound(
                #[trigger] self.workers[i],
                self.max_depth,
                self.frontier.emitted,
            )
        &&& forall|i: int, j: int|
            0 <= i < j < self.workers.len() && is_busy(#[trigger] self.workers[i]) && is_busy(
                #[trigger] self.workers[j],
            ) ==> held_entry(self.workers[i])->0.url != held_entry(self.workers[j])->0.url
    }

    /// Whether every worker has stopped.
    pub open spec fn finished(self) -> bool {
        forall|i: int| 0 <= i < self.workers.len() ==> #[trigger] self.workers[i] is Stopped
    }

    /// This state with the worker `worker` in `state`.
    pub open spec fn with_worker(self, worker: int, state: WorkerView) -> CrawlerModel {
        CrawlerModel { workers: self.workers.update(worker, state), ..self }
    }

    /// This state with the worker `worker` in `state`, and what a worker
    /// in that state is to do.
    pub open spec fn moved(self, worker: int, state: WorkerView, note: NoteView) -> StepModel {
        StepModel {
            post: self.with_worker(worker, state),
            action: pending_action(state, self.delay_ms),
            note,
        }
    }

    /// What becomes of `entry`, just taken off the frontier by `worker`.
    /// Beyond the depth limit it is dropped. Where robots rules are not
    /// asked, or allow it, its page is to be fetched; where they forbid
    /// it, it is dropped; where they are not known, they are to be
    /// fetched first.
    pub open spec fn admitted(self, worker: int, entry: EntryView) -> StepModel {
        if entry.depth > self.max_depth {
            self.moved(worker, WorkerView::FetchNext, NoteView::Nothing)
        } else if !self.respect_robots_txt {
            self.moved(worker, WorkerView::Fetching { entry }, NoteView::Nothing)
        } else {
            match robots_check(self.robots, entry.url) {
                RobotsCheckView::Allowed => self.moved(
                    worker,
                    WorkerView::Fetching { entry },
                    NoteView::Nothing,
                ),
                RobotsCheckView::Denied => self.moved(
                    worker,
                    WorkerView::FetchNext,
                    NoteView::SkippedByRobots { url: entry.url },
                ),
                RobotsCheckView::Unknown { robots_url, host, path } => self.moved(
                    worker,
                    WorkerView::CheckingRobots { entry, host, path, robots_url },
                    NoteView::Nothing,
                ),
            }
        }
    }

    /// The step of a worker that is ready for the next entry. It stops
    /// where the page budget is used up, rests where the frontier is
    /// empty, and else takes the first entry.
    pub open spec fn fetch_next(self, worker: int) -> StepModel {
        if self.pages_crawled >= self.max_pages {
            self.moved(worker, WorkerView::Stopped, NoteView::StoppedAtMaxPages)
        } else if self.frontier.pending.len() == 0 {
            self.moved(worker, WorkerView::EmptyBackoff, NoteView::Nothing)
        } else {
            CrawlerModel { frontier: self.frontier.dequeued(), ..self }.admitted(
                worker,
                self.frontier.pending[0],
            )
        }
    }

    /// The step of a worker whose rest on an empty frontier is over: it
    /// stops where the frontier is still empty, and else goes on.
    pub open spec fn backoff_over(self, worker: int) -> StepModel {
        if self.frontier.pending.len() == 0 {
            self.moved(worker, WorkerView::Stopped, NoteView::StoppedOnEmptyQueue)
        } else {
            self.moved(worker, WorkerView::FetchNext, NoteView::Nothing)
        }
    }

    /// The step of a worker that has the answer to its request for the
    /// robots.txt of `host`. Rules that were read are kept. Without an
    /// answer the entry's page is to be fetched; with one, the rules
    /// decide.
    pub open spec fn robots_answered(
        self,
        worker: int,
        entry: EntryView,
        host: Seq<char>,
        path: Seq<char>,
        body: Option<Seq<char>>,
    ) -> StepModel {
        let learnt = CrawlerModel { robots: robots_learnt(self.robots, host, body), ..self };
        if robots_verdict(path, body) {
            learnt.moved(worker, WorkerView::Fetching { entry }, NoteView::Nothing)
        } else {
            learnt.moved(
                worker,
                WorkerView::FetchNext,
                NoteView::SkippedByRobots { url: entry.url },
            )
        }
    }

    /// The step of a worker whose fetch gave no page: the error is
    /// counted, and the worker rests.
    pub open spec fn fetch_failed(self, worker: int, error: ErrorView) -> StepModel {
        CrawlerModel {
            errors: if self.errors < usize::MAX {
                (self.errors + 1) as usize
            } else {
                self.errors
            },
            ..self
        }.moved(
            worker,
            WorkerView::Pausing,
            NoteView::Failed { error },
        )
    }

    /// The step of a worker that has the answer to its request for the
    /// page of `entry`. A failure, a status outside 200 to 299 and a
    /// content type other than HTML are errors. A page that arrives once
    /// the budget is used up is dropped. Else the page's links are
    /// offered to the frontier one level deeper, and the page is counted.
    /// In every case the worker rests.
    pub open spec fn page_answered(
        self,
        worker: int,
        entry: EntryView,
        outcome: OutcomeView,
    ) -> StepModel {
        match outcome {
            OutcomeView::Failed { reason } => self.fetch_failed(
                worker,
                ErrorView::Network { reason },
            ),
            OutcomeView::Response { status, content_type, body } => match response_error(
                entry.url,
                status,
                content_type,
            ) {
                Some(error) => self.fetch_failed(worker, error_view(error)),
                None => if self.pages_crawled >= self.max_pages {
                    self.moved(worker, WorkerView::Pausing, NoteView::OverBudget)
                } else {
                    CrawlerModel {
                        frontier: if entry.depth < usize::MAX {
                            self.frontier.enqueued_all(
                                page_links(entry.url, body),
                                (entry.depth + 1) as usize,
                            )
                        } else {
                            self.frontier
                        },
                        pages_crawled: (self.pages_crawled + 1) as usize,
                        ..self
                    }.moved(worker, WorkerView::Pausing, NoteView::Crawled)
                },
            },
        }
    }

    /// The step of the worker `worker` on `event`. A worker that does not
    /// exist is told to stop. An event that a worker in its state does
    /// not wait for changes nothing: the worker is told again what it is
    /// to do.
    pub open spec fn step(self, worker: int, event: EventView) -> StepModel {
        if worker < 0 || worker >= self.workers.len() {
            StepModel { post: self, action: ActionView::Stop, note: NoteView::Nothing }
        } else {
            match (self.workers[worker], event) {
                (WorkerView::FetchNext, EventView::Wake) => self.fetch_next(worker),
                (WorkerView::EmptyBackoff, EventView::Wake) => self.backoff_over(worker),
                (WorkerView::Pausing, EventView::Wake) => self.moved(
                    worker,
                    WorkerView::FetchNext,
                    NoteView::Nothing,
                ),
                (
                    WorkerView::CheckingRobots { entry, host, path, robots_url },
                    EventView::RobotsFetched { body },
                ) => self.robots_answered(worker, entry, host, path, body),
                (WorkerView::Fetching { entry }, EventView::PageFetched { outcome }) => {
                    self.page_answered(worker, entry, outcome)
                },
                (state, _) => StepModel {
                    post: self,
                    action: pending_action(state, self.delay_ms),
                    note: NoteView::Nothing,
                },
            }
        }
    }
}

/// Whether the entry that a worker in `state` holds, if it holds one, is
/// no deeper than `max_depth` and is among `emitted`, the URLs of the
/// entries that left the frontier.
pub open spec fn worker_sound(
    state: WorkerView,
    max_depth: usize,
    emitted: Seq<Seq<char>>,
) -> bool {
    match held_entry(state) {
        Some(entry) => entry.depth <= max_depth && emitted.contains(entry.url),
        None => true,
    }
}

/// A step keeps the frontier well formed and only ever adds to the
/// entries that left it, and an entry that a worker newly holds is the
/// one that left last.
proof fn lemma_step_emits(m: CrawlerModel, worker: int, event: EventView)
    requires
        m.well_formed(),
        0 <= worker < m.workers.len(),
    ensures
        ({
            let after = m.step(worker, event).post;
            let held = held_entry(after.workers[worker]);
            &&& after.frontier.well_formed()
            &&& after.workers == m.workers.update(worker, after.workers[worker])
            &&& after.max_depth == m.max_depth
            &&& after.frontier.emitted == m.frontier.emitted || (m.frontier.pending.len() > 0
                && after.frontier.emitted == m.frontier.emitted.push(m.frontier.pending[0].url)
                && (held is Some ==> held->0 == m.frontier.pending[0]))
            &&& after.frontier.emitted == m.frontier.emitted ==> held is None || held
                == held_entry(m.workers[worker])
            &&& held matches Some(entry) ==> entry.depth <= m.max_depth
        }),
{
    lemma_dequeued_well_formed(m.frontier);
    match (m.workers[worker], event) {
        (WorkerView::Fetching { entry }, EventView::PageFetched { outcome }) => {
            match outcome {
                OutcomeView::Response { status, content_type, body } => {
                    if entry.depth < usize::MAX {
                        lemma_enqueued_all_well_formed(
                            m.frontier,
                            page_links(entry.url, body),
                            (entry.depth + 1) as usize,
                        );
                    }
                },
                _ => {},
            }
        },
        _ => {},
    }
}

/// Every step keeps the state of a run well formed: no URL is queued
/// twice, no more pages are counted than the budget allows, pages and
/// errors together never outnumber the entries that left the frontier,
/// and no entry is held by two workers.
pub proof fn lemma_step_well_formed(m: CrawlerModel, worker: int, event: EventView)
    requires
        m.well_formed(),
    ensures
        m.step(worker, event).post.well_formed(),
{
    let after = m.step(worker, event).post;
    if 0 <= worker < m.workers.len() {
        let old_urls = m.frontier.emitted;
        let new_urls = after.frontier.emitted;
        lemma_step_emits(m, worker, event);
        lemma_busy_count_update(m.workers, worker, after.workers[worker]);
        lemma_emitted_once(m.frontier);
        assert forall|u: Seq<char>| old_urls.contains(u) implies new_urls.contains(u) by {
            let k = choose|k: int| 0 <= k < old_urls.len() && old_urls[k] == u;
            assert(new_urls[k] == u);
        }
        assert forall|i: int| 0 <= i < after.workers.len() implies worker_sound(
            #[trigger] after.workers[i],
            after.max_depth,
            new_urls,
        ) by {
            if i == worker && new_urls != old_urls {
                assert(new_urls[new_urls.len() - 1] == m.frontier.pending[0].url);
            }
        }
    }
}

/// No page is asked for that lies deeper than the depth limit.
pub proof fn lemma_fetch_within_depth(m: CrawlerModel, worker: int, event: EventView)
    requires
        m.well_formed(),
    ensures
        m.step(worker, event).action matches ActionView::FetchPage { depth, .. } ==> depth
            <= m.max_depth,
{
}

/// Where the robots.txt of a host could not be had, the page is asked
/// for all the same, and nothing is kept of the host.
pub proof fn lemma_robots_fail_open(m: CrawlerModel, worker: int)
    requires
        0 <= worker < m.workers.len(),
        m.workers[worker] is CheckingRobots,
    ensures
        ({
            let entry = m.workers[worker]->CheckingRobots_entry;
            let after = m.step(worker, EventView::RobotsFetched { body: None });
            &&& after.action == ActionView::FetchPage { url: entry.url, depth: entry.depth }
            &&& after.post.robots == m.robots
            &&& after.post.workers[worker] == WorkerView::Fetching { entry }
        }),
{
}

/// Pages and errors together never outnumber the URLs that were seen,
/// and the pages never outnumber the budget.
pub proof fn lemma_counts_bounded(m: CrawlerModel)
    requires
        m.well_formed(),
    ensures
        m.pages_crawled + m.errors <= m.frontier.seen.len(),
        m.pages_crawled <= m.max_pages,
{
    lemma_emitted_once(m.frontier);
}

/// A worker that has stopped stays stopped, whatever it is told.
pub proof fn lemma_stopped_stays(m: CrawlerModel, worker: int, event: EventView)
    requires
        0 <= worker < m.workers.len(),
        m.workers[worker] is Stopped,
    ensures
        m.step(worker, event).post == m,
        m.step(worker, event).action == ActionView::Stop,
{
}

/// A step of one worker leaves every other worker where it stands.
pub proof fn lemma_step_leaves_others(m: CrawlerModel, worker: int, event: EventView, other: int)
    requires
        0 <= other < m.workers.len(),
        other != worker,
    ensures
        m.step(worker, event).post.workers.len() == m.workers.len(),
        m.step(worker, event).post.workers[other] == m.workers[other],
{
}

/// A step never takes a URL out of the set of seen URLs, and never
/// forgets an entry that has left the frontier.
pub proof fn lemma_step_keeps_history(m: CrawlerModel, worker: int, event: EventView)
    requires
        m.well_formed(),
    ensures
        m.frontier.seen.subset_of(m.step(worker, event).post.frontier.seen),
        m.frontier.emitted.is_prefix_of(m.step(worker, event).post.frontier.emitted),
{
    if 0 <= worker < m.workers.len() {
        match (m.workers[worker], event) {
            (WorkerView::Fetching { entry }, EventView::PageFetched { outcome }) => {
                match outcome {
                    OutcomeView::Response { status, content_type, body } => {
                        if entry.depth < usize::MAX {
                            lemma_enqueued_all_well_formed(
                                m.frontier,
                                page_links(entry.url, body),
                                (entry.depth + 1) as usize,
                            );
                        }
                    },
                    _ => {},
                }
            },
            _ => {},
        }
    }
}

/// The state in which a run with the options `config` begins: nothing
/// seen, nothing known, nothing counted, and every worker ready.
pub open spec fn initial_model(config: CrawlerConfig) -> CrawlerModel {
    CrawlerModel {
        max_depth: config.max_depth,
        max_pages: config.max_pages,
        delay_ms: config.delay_ms,
        respect_robots_txt: config.respect_robots_txt,
        frontier: FrontierModel {
            seen: Set::empty(),
            pending: Seq::empty(),
            emitted: Seq::empty(),
        },
        robots: Map::empty(),
        workers: Seq::new(config.concurrent_requests as nat, |i: int| WorkerView::FetchNext),
        pages_crawled: 0,
        errors: 0,
    }
}

/// The page that the worker `worker` hands to the sink when, waiting for
/// a page, it is given `event` at the time `crawl_time`.
pub open spec fn page_handed(
    m: CrawlerModel,
    worker: int,
    event: EventView,
    crawl_time: i64,
) -> PageView {
    let entry = m.workers[worker]->Fetching_entry;
    page_of(entry.url, entry.depth, event->outcome->Response_body, crawl_time)
}

impl CrawlerModel {
    /// This state once each of `urls` was offered to the frontier as a
    /// seed, at depth 0.
    pub open spec fn seeded(self, urls: Seq<Seq<char>>) -> CrawlerModel {
        CrawlerModel { frontier: self.frontier.enqueued_all(urls, 0), ..self }
    }

    /// This state once the workers have taken `steps`, one after the
    /// other: each step is a worker and what has happened to it.
    pub open spec fn after_steps(self, steps: Seq<(int, EventView)>) -> CrawlerModel
        decreases steps.len(),
    {
        if steps.len() == 0 {
            self
        } else {
            self.after_steps(steps.drop_last()).step(steps.last().0, steps.last().1).post
        }
    }
}

/// A run begins well formed.
pub proof fn lemma_initial_well_formed(config: CrawlerConfig)
    ensures
        initial_model(config).well_formed(),
{
    let m = initial_model(config);
    lemma_busy_count_none(m.workers);
    assert(m.frontier.history().to_set() =~= Set::<Seq<char>>::empty());
}

/// Seeding keeps the state of a run well formed.
pub proof fn lemma_seeded_well_formed(m: CrawlerModel, urls: Seq<Seq<char>>)
    requires
        m.well_formed(),
    ensures
        m.seeded(urls).well_formed(),
{
    lemma_enqueued_all_well_formed(m.frontier, urls, 0);
}

/// Whatever the workers do and in whatever order, the state of a run
/// stays well formed.
pub proof fn lemma_run_well_formed(m: CrawlerModel, steps: Seq<(int, EventView)>)
    requires
        m.well_formed(),
    ensures
        m.after_steps(steps).well_formed(),
    decreases steps.len(),
{
    if steps.len() > 0 {
        lemma_run_well_formed(m, steps.drop_last());
        lemma_step_well_formed(m.after_steps(steps.drop_last()), steps.last().0, steps.last().1);
    }
}

/// Of every run, from its seeds through any steps of its workers in any
/// order: no entry leaves the frontier twice; no more pages are counted
/// than the budget allows; pages and errors together never outnumber the
/// URLs seen; no two workers hold an entry for the same URL; and the next
/// step asks for no page deeper than the depth limit.
pub proof fn lemma_every_run(
    config: CrawlerConfig,
    seeds: Seq<Seq<char>>,
    steps: Seq<(int, EventView)>,
    worker: int,
    event: EventView,
)
    ensures
        ({
            let m = initial_model(config).seeded(seeds).after_steps(steps);
            &&& m.frontier.emitted.no_duplicates()
            &&& m.pages_crawled <= config.max_pages
            &&& m.pages_crawled + m.errors <= m.frontier.seen.len()
            &&& forall|i: int, j: int|
                0 <= i < j < m.workers.len() && is_busy(#[trigger] m.workers[i]) && is_busy(
                    #[trigger] m.workers[j],
                ) ==> held_entry(m.workers[i])->0.url != held_entry(m.workers[j])->0.url
            &&& m.step(worker, event).action matches ActionView::FetchPage { depth, .. } ==> depth
                <= config.max_depth
        }),
{
    let start = initial_model(config).seeded(seeds);
    lemma_initial_well_formed(config);
    lemma_seeded_well_formed(initial_model(config), seeds);
    lemma_run_well_formed(start, steps);
    lemma_run_keeps_options(start, steps);
    let m = start.after_steps(steps);
    lemma_emitted_once(m.frontier);
    lemma_counts_bounded(m);
    lemma_fetch_within_depth(m, worker, event);
}

/// No step changes the options of a run or the number of its workers.
pub proof fn lemma_run_keeps_options(m: CrawlerModel, steps: Seq<(int, EventView)>)
    ensures
        m.after_steps(steps).max_depth == m.max_depth,
        m.after_steps(steps).max_pages == m.max_pages,
        m.after_steps(steps).delay_ms == m.delay_ms,
        m.after_steps(steps).respect_robots_txt == m.respect_robots_txt,
        m.after_steps(steps).workers.len() == m.workers.len(),
    decreases steps.len(),
{
    if steps.len() > 0 {
        lemma_run_keeps_options(m, steps.drop_last());
    }
}

/// An entry for one URL is held by one worker at most.
pub proof fn lemma_held_by_one(m: CrawlerModel, first: int, second: int)
    requires
        m.well_formed(),
        0 <= first < m.workers.len(),
        0 <= second < m.workers.len(),
        first != second,
        is_busy(m.workers[first]),
        is_busy(m.workers[second]),
    ensures
        held_entry(m.workers[first])->0.url != held_entry(m.workers[second])->0.url,
        m.frontier.emitted.contains(held_entry(m.workers[first])->0.url),
{
    if first < second {
    } else {
    }
}

} // verus!
