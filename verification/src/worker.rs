//! The protocol of one worker: where it stands, what may happen to it,
//! and what it is to do next.
//!
//! A worker takes an entry off the frontier, asks for the robots rules of
//! the entry's host where they are wanted and not known, asks for the
//! page, and rests. It stops once the page budget is used up, or once it
//! has found the frontier empty twice with a short rest in between.

use crate::fetcher::{CrawlError, FetchOutcome};
use crate::frontier::{EntryView, FrontierEntry};
use crate::storage::StoreError;
use crate::utils::url::option_string_view;
use vstd::prelude::*;

verus! {

/// How long a worker rests once it has found the frontier empty, in
/// milliseconds.
pub const EMPTY_BACKOFF_MS: u64 = 100;

/// Where a worker stands.
#[derive(Debug)]
pub enum WorkerState {
    /// Ready to take the next entry.
    FetchNext,
    /// Resting, having found the frontier empty.
    EmptyBackoff,
    /// Waiting for the robots.txt of the entry's host.
    CheckingRobots { entry: FrontierEntry, host: String, path: String, robots_url: String },
    /// Waiting for the entry's page.
    Fetching { entry: FrontierEntry },
    /// Resting after a fetch.
    Pausing,
    /// Done for this run.
    Stopped,
}

/// What a `WorkerState` holds, as sequences of characters.
pub enum WorkerView {
    FetchNext,
    EmptyBackoff,
    CheckingRobots { entry: EntryView, host: Seq<char>, path: Seq<char>, robots_url: Seq<char> },
    Fetching { entry: EntryView },
    Pausing,
    Stopped,
}

impl View for WorkerState {
    type V = WorkerView;

    open spec fn view(&self) -> WorkerView {
        match *self {
            WorkerState::FetchNext => WorkerView::FetchNext,
            WorkerState::EmptyBackoff => WorkerView::EmptyBackoff,
            WorkerState::CheckingRobots { entry, host, path, robots_url } => {
                WorkerView::CheckingRobots {
                    entry: entry@,
                    host: host@,
                    path: path@,
                    robots_url: robots_url@,
                }
            },
            WorkerState::Fetching { entry } => WorkerView::Fetching { entry: entry@ },
            WorkerState::Pausing => WorkerView::Pausing,
            WorkerState::Stopped => WorkerView::Stopped,
        }
    }
}

/// What has happened to a worker since it was last told what to do.
#[derive(Debug)]
pub enum WorkerEvent {
    /// Nothing was to be awaited, or the rest is over.
    Wake,
    /// The request for a robots.txt has ended: with its text where the
    /// server answered with success, else with `None`.
    RobotsFetched { body: Option<String> },
    /// The request for a page has ended.
    PageFetched { outcome: FetchOutcome },
}

/// What a `FetchOutcome` holds, as sequences of characters.
pub enum OutcomeView {
    Response { status: u16, content_type: Seq<char>, body: Seq<char> },
    Failed { reason: Seq<char> },
}

/// What a `WorkerEvent` holds, as sequences of characters.
pub enum EventView {
    Wake,
    RobotsFetched { body: Option<Seq<char>> },
    PageFetched { outcome: OutcomeView },
}

/// The contents of a fetch outcome.
pub open spec fn outcome_view(outcome: FetchOutcome) -> OutcomeView {
    match outcome {
        FetchOutcome::Response(response) => OutcomeView::Response {
            status: response.status,
            content_type: response.content_type@,
            body: response.body@,
        },
        FetchOutcome::Failed { reason } => OutcomeView::Failed { reason: reason@ },
    }
}

impl View for WorkerEvent {
    type V = EventView;

    open spec fn view(&self) -> EventView {
        match *self {
            WorkerEvent::Wake => EventView::Wake,
            WorkerEvent::RobotsFetched { body } => EventView::RobotsFetched {
                body: option_string_view(body),
            },
            WorkerEvent::PageFetched { outcome } => EventView::PageFetched {
                outcome: outcome_view(outcome),
            },
        }
    }
}

/// What a worker is to do before it reports back.
#[derive(Debug)]
pub enum WorkerAction {
    /// Nothing: report back with `Wake` at once.
    Continue,
    /// Rest, then report back with `Wake`.
    Sleep { millis: u64 },
    /// Ask for the robots.txt at `url`, then report back with
    /// `RobotsFetched`.
    FetchRobots { url: String },
    /// Ask for the page at `url`, then report back with `PageFetched`.
    FetchPage { url: String, depth: usize },
    /// Stop: this worker is done.
    Stop,
}

/// What a `WorkerAction` holds, as sequences of characters.
pub enum ActionView {
    Continue,
    Sleep { millis: u64 },
    FetchRobots { url: Seq<char> },
    FetchPage { url: Seq<char>, depth: usize },
    Stop,
}

impl View for WorkerAction {
    type V = ActionView;

    open spec fn view(&self) -> ActionView {
        match *self {
            WorkerAction::Continue => ActionView::Continue,
            WorkerAction::Sleep { millis } => ActionView::Sleep { millis },
            WorkerAction::FetchRobots { url } => ActionView::FetchRobots { url: url@ },
            WorkerAction::FetchPage { url, depth } => ActionView::FetchPage { url: url@, depth },
            WorkerAction::Stop => ActionView::Stop,
        }
    }
}

/// What a step did, for the record.
#[derive(Debug)]
pub enum StepNote {
    /// Nothing worth a line.
    Nothing,
    /// The worker stopped because the page budget is used up.
    StoppedAtMaxPages,
    /// The worker stopped because the frontier stayed empty.
    StoppedOnEmptyQueue,
    /// The robots rules of its host forbid the entry: it was dropped.
    SkippedByRobots { url: String },
    /// The page was made and handed to the sink, which may have refused it.
    Crawled { store_error: Option<StoreError> },
    /// The fetch gave no page.
    Failed { error: CrawlError },
    /// The page arrived after the page budget was used up: it was dropped.
    OverBudget,
}

/// What a `CrawlError` holds, as sequences of characters.
pub enum ErrorView {
    Network { reason: Seq<char> },
    HttpStatus { status: u16 },
    NotHtml,
    InvalidUrl,
}

/// The contents of a crawl error.
pub open spec fn error_view(error: CrawlError) -> ErrorView {
    match error {
        CrawlError::Network { reason } => ErrorView::Network { reason: reason@ },
        CrawlError::HttpStatus { status } => ErrorView::HttpStatus { status },
        CrawlError::NotHtml => ErrorView::NotHtml,
        CrawlError::InvalidUrl => ErrorView::InvalidUrl,
    }
}

/// What a `StepNote` says, without the sink's answer.
pub enum NoteView {
    Nothing,
    StoppedAtMaxPages,
    StoppedOnEmptyQueue,
    SkippedByRobots { url: Seq<char> },
    Crawled,
    Failed { error: ErrorView },
    OverBudget,
}

impl View for StepNote {
    type V = NoteView;

    open spec fn view(&self) -> NoteView {
        match *self {
            StepNote::Nothing => NoteView::Nothing,
            StepNote::StoppedAtMaxPages => NoteView::StoppedAtMaxPages,
            StepNote::StoppedOnEmptyQueue => NoteView::StoppedOnEmptyQueue,
            StepNote::SkippedByRobots { url } => NoteView::SkippedByRobots { url: url@ },
            StepNote::Crawled { store_error } => NoteView::Crawled,
            StepNote::Failed { error } => NoteView::Failed { error: error_view(error) },
            StepNote::OverBudget => NoteView::OverBudget,
        }
    }
}

/// What a step hands back: what to do next, and what it did.
#[derive(Debug)]
pub struct StepOutcome {
    pub action: WorkerAction,
    pub note: StepNote,
}

/// The entry that a worker in this state holds: one that it took off the
/// frontier and has not yet accounted for.
pub open spec fn held_entry(state: WorkerView) -> Option<EntryView> {
    match state {
        WorkerView::CheckingRobots { entry, .. } => Some(entry),
        WorkerView::Fetching { entry } => Some(entry),
        _ => None,
    }
}

/// Whether a worker in this state holds an entry.
pub open spec fn is_busy(state: WorkerView) -> bool {
    held_entry(state) is Some
}

/// The number of busy workers.
pub open spec fn busy_count(workers: Seq<WorkerView>) -> nat
    decreases workers.len(),
{
    if workers.len() == 0 {
        0
    } else {
        busy_count(workers.drop_last()) + if is_busy(workers.last()) {
            1nat
        } else {
            0nat
        }
    }
}

/// What a worker in `state` is to do: what it was last told, again.
pub open spec fn pending_action(state: WorkerView, delay_ms: u64) -> ActionView {
    match state {
        WorkerView::FetchNext => ActionView::Continue,
        WorkerView::EmptyBackoff => ActionView::Sleep { millis: EMPTY_BACKOFF_MS },
        WorkerView::CheckingRobots { robots_url, .. } => ActionView::FetchRobots {
            url: robots_url,
        },
        WorkerView::Fetching { entry } => ActionView::FetchPage {
            url: entry.url,
            depth: entry.depth,
        },
        WorkerView::Pausing => ActionView::Sleep { millis: delay_ms },
        WorkerView::Stopped => ActionView::Stop,
    }
}

/// Putting a worker into another state changes the number of busy
/// workers by that worker alone.
pub proof fn lemma_busy_count_update(workers: Seq<WorkerView>, index: int, state: WorkerView)
    requires
        0 <= index < workers.len(),
    ensures
        busy_count(workers.update(index, state)) + (if is_busy(workers[index]) {
            1nat
        } else {
            0nat
        }) == busy_count(workers) + (if is_busy(state) {
            1nat
        } else {
            0nat
        }),
    decreases workers.len(),
{
    let updated = workers.update(index, state);
    if index == workers.len() - 1 {
        assert(updated.drop_last() =~= workers.drop_last());
    } else {
        assert(updated.drop_last() =~= workers.drop_last().update(index, state));
        lemma_busy_count_update(workers.drop_last(), index, state);
    }
}

/// Workers of which none is busy count none.
pub proof fn lemma_busy_count_none(workers: Seq<WorkerView>)
    requires
        forall|i: int| 0 <= i < workers.len() ==> !is_busy(#[trigger] workers[i]),
    ensures
        busy_count(workers) == 0,
    decreases workers.len(),
{
    if workers.len() > 0 {
        lemma_busy_count_none(workers.drop_last());
    }
}

impl FrontierEntry {
    /// An entry that holds the same.
    pub fn duplicate(&self) -> (copy: FrontierEntry)
        ensures
            copy@ == self@,
    {
        FrontierEntry { url: self.url.clone(), depth: self.depth }
    }
}

impl WorkerState {
    /// A state that holds the same.
    pub fn duplicate(&self) -> (copy: WorkerState)
        ensures
            copy@ == self@,
    {
        match self {
            WorkerState::FetchNext => WorkerState::FetchNext,
            WorkerState::EmptyBackoff => WorkerState::EmptyBackoff,
            WorkerState::CheckingRobots { entry, host, path, robots_url } => {
                WorkerState::CheckingRobots {
                    entry: entry.duplicate(),
                    host: host.clone(),
                    path: path.clone(),
                    robots_url: robots_url.clone(),
                }
            },
            WorkerState::Fetching { entry } => WorkerState::Fetching { entry: entry.duplicate() },
            WorkerState::Pausing => WorkerState::Pausing,
            WorkerState::Stopped => WorkerState::Stopped,
        }
    }

    /// What a worker in this state is to do: what it was last told, again.
    pub fn action(&self, delay_ms: u64) -> (action: WorkerAction)
        ensures
            action@ == pending_action(self@, delay_ms),
    {
        match self {
            WorkerState::FetchNext => WorkerAction::Continue,
            WorkerState::EmptyBackoff => WorkerAction::Sleep { millis: EMPTY_BACKOFF_MS },
            WorkerState::CheckingRobots { robots_url, .. } => WorkerAction::FetchRobots {
                url: robots_url.clone(),
            },
            WorkerState::Fetching { entry } => WorkerAction::FetchPage {
                url: entry.url.clone(),
                depth: entry.depth,
            },
            WorkerState::Pausing => WorkerAction::Sleep { millis: delay_ms },
            WorkerState::Stopped => WorkerAction::Stop,
        }
    }
}

} // verus!
