//! The frontier: the queue of pages still to fetch, and the set of every
//! URL ever queued, which keeps a URL from being queued twice.
//!
//! Whether a URL is new and its entry into the set are one step, so that
//! no URL can slip in twice between a test and an insert.

use crate::robots::strings_view;
use crate::utils::url::{normalize_url, normalized};
use dashmap::DashSet;
use std::collections::VecDeque;
use vstd::prelude::*;

verus! {

/// Makes `dashmap::DashSet` known as a type whose inside is not looked at.
#[verifier::external_type_specification]
#[verifier::external_body]
#[verifier::reject_recursive_types(K)]
#[verifier::reject_recursive_types(S)]
pub struct ExDashSet<K, S>(DashSet<K, S>);

/// The strings that a set holds.
pub uninterp spec fn set_contents(set: DashSet<String>) -> Set<Seq<char>>;

/// Calls `DashSet::new`. Trusted: the new set is empty.
#[verifier::external_body]
fn visited_new() -> (set: DashSet<String>)
    ensures
        set_contents(set) == Set::<Seq<char>>::empty(),
{
    DashSet::new()
}

/// Calls `DashSet::insert`. Trusted: the set then holds the string beside
/// what it held, and the result tells whether the string is new to it.
#[verifier::external_body]
fn visited_insert(set: &mut DashSet<String>, key: String) -> (fresh: bool)
    ensures
        fresh == !set_contents(*old(set)).contains(key@),
        set_contents(*final(set)) == set_contents(*old(set)).insert(key@),
{
    set.insert(key)
}

/// Calls `DashSet::len`. Trusted: it counts what the set holds.
#[verifier::external_body]
fn visited_len(set: &DashSet<String>) -> (count: usize)
    ensures
        set_contents(*set).finite() ==> count == set_contents(*set).len(),
{
    set.len()
}

/// A page still to fetch: its canonical URL and how many links away from
/// a seed it was found.
#[derive(Clone, Debug)]
pub struct FrontierEntry {
    pub url: String,
    pub depth: usize,
}

/// What a `FrontierEntry` holds.
pub struct EntryView {
    pub url: Seq<char>,
    pub depth: usize,
}

impl View for FrontierEntry {
    type V = EntryView;

    open spec fn view(&self) -> EntryView {
        EntryView { url: self.url@, depth: self.depth }
    }
}

/// The contents of a queue of entries.
pub open spec fn entries_view(entries: Seq<FrontierEntry>) -> Seq<EntryView> {
    entries.map_values(|e: FrontierEntry| e@)
}

/// The URLs of a sequence of entries.
pub open spec fn entry_urls(entries: Seq<EntryView>) -> Seq<Seq<char>> {
    entries.map_values(|e: EntryView| e.url)
}

/// The state of a frontier.
pub struct FrontierModel {
    /// Every canonical URL that was ever queued.
    pub seen: Set<Seq<char>>,
    /// The entries that wait, the next one to leave first.
    pub pending: Seq<EntryView>,
    /// The URLs of the entries that have left the queue, oldest first.
    pub emitted: Seq<Seq<char>>,
}

impl FrontierModel {
    /// Every URL that was ever queued: those that left, then those that
    /// wait.
    pub open spec fn history(self) -> Seq<Seq<char>> {
        self.emitted + entry_urls(self.pending)
    }

    /// No URL was queued twice, and the set of seen URLs is exactly the
    /// URLs that were queued.
    pub open spec fn well_formed(self) -> bool {
        &&& self.seen.finite()
        &&& self.history().no_duplicates()
        &&& self.history().to_set() == self.seen
    }

    /// The frontier once `url` was offered at `depth`: its canonical form
    /// waits last and is seen, unless it has none or was seen before.
    pub open spec fn enqueued(self, url: Seq<char>, depth: usize) -> FrontierModel {
        match normalized(url) {
            Some(canonical) => if self.seen.contains(canonical) {
                self
            } else {
                FrontierModel {
                    seen: self.seen.insert(canonical),
                    pending: self.pending.push(EntryView { url: canonical, depth }),
                    emitted: self.emitted,
                }
            },
            None => self,
        }
    }

    /// The frontier once each of `urls` was offered at `depth`, in order.
    pub open spec fn enqueued_all(self, urls: Seq<Seq<char>>, depth: usize) -> FrontierModel
        decreases urls.len(),
    {
        if urls.len() == 0 {
            self
        } else {
            self.enqueued_all(urls.drop_last(), depth).enqueued(urls.last(), depth)
        }
    }

    /// The frontier once the entry that waited first has left.
    pub open spec fn dequeued(self) -> FrontierModel {
        if self.pending.len() == 0 {
            self
        } else {
            FrontierModel {
                seen: self.seen,
                pending: self.pending.drop_first(),
                emitted: self.emitted.push(self.pending[0].url),
            }
        }
    }
}

/// Offering a URL keeps a frontier well formed.
pub proof fn lemma_enqueued_well_formed(m: FrontierModel, url: Seq<char>, depth: usize)
    requires
        m.well_formed(),
    ensures
        m.enqueued(url, depth).well_formed(),
        m.enqueued(url, depth).emitted == m.emitted,
        m.seen.subset_of(m.enqueued(url, depth).seen),
{
    let after = m.enqueued(url, depth);
    if after != m {
        let canonical = normalized(url)->0;
        let before = m.history();
        let now = after.history();
        assert forall|i: int, j: int| 0 <= i < j < now.len() implies now[i] != now[j] by {
            if j < before.len() {
                assert(before[i] != before[j]);
            } else {
                assert(before.to_set().contains(before[i]));
            }
        }
        assert forall|u: Seq<char>| now.to_set().contains(u) implies before.to_set().insert(
            canonical,
        ).contains(u) by {
            let k = choose|k: int| 0 <= k < now.len() && now[k] == u;
            if k < before.len() {
                assert(before[k] == u);
            }
        }
        assert forall|u: Seq<char>|
            before.to_set().insert(canonical).contains(u) implies now.to_set().contains(u) by {
            if u == canonical {
                assert(now[now.len() - 1] == u);
            } else {
                let k = choose|k: int| 0 <= k < before.len() && before[k] == u;
                assert(now[k] == u);
            }
        }
        assert(now.to_set() =~= after.seen);
    }
}

/// Offering URLs keeps a frontier well formed, and takes nothing from what
/// has left the queue or was seen.
pub proof fn lemma_enqueued_all_well_formed(m: FrontierModel, urls: Seq<Seq<char>>, depth: usize)
    requires
        m.well_formed(),
    ensures
        m.enqueued_all(urls, depth).well_formed(),
        m.enqueued_all(urls, depth).emitted == m.emitted,
        m.seen.subset_of(m.enqueued_all(urls, depth).seen),
    decreases urls.len(),
{
    if urls.len() > 0 {
        lemma_enqueued_all_well_formed(m, urls.drop_last(), depth);
        lemma_enqueued_well_formed(m.enqueued_all(urls.drop_last(), depth), urls.last(), depth);
    }
}

/// Taking the next entry keeps a frontier well formed.
pub proof fn lemma_dequeued_well_formed(m: FrontierModel)
    requires
        m.well_formed(),
    ensures
        m.dequeued().well_formed(),
{
    if m.pending.len() > 0 {
        assert(m.dequeued().history() =~= m.history());
    }
}

/// In a well-formed frontier no URL has left the queue twice, none that
/// has left waits again, and every URL that has left or waits was seen.
pub proof fn lemma_emitted_once(m: FrontierModel)
    requires
        m.well_formed(),
    ensures
        m.emitted.no_duplicates(),
        entry_urls(m.pending).no_duplicates(),
        forall|i: int, j: int|
            0 <= i < m.emitted.len() && 0 <= j < m.pending.len() ==> #[trigger] m.emitted[i]
                != (#[trigger] m.pending[j]).url,
        forall|i: int| 0 <= i < m.emitted.len() ==> m.seen.contains(#[trigger] m.emitted[i]),
        forall|j: int| 0 <= j < m.pending.len() ==> m.seen.contains((#[trigger] m.pending[j]).url),
        m.seen.len() == m.emitted.len() + m.pending.len(),
{
    let h = m.history();
    let n = m.emitted.len() as int;
    assert forall|i: int, j: int| 0 <= i < j < m.emitted.len() implies m.emitted[i]
        != m.emitted[j] by {
        assert(h[i] == m.emitted[i] && h[j] == m.emitted[j]);
    }
    assert forall|i: int, j: int| 0 <= i < j < m.pending.len() implies entry_urls(m.pending)[i]
        != entry_urls(m.pending)[j] by {
        assert(h[n + i] == entry_urls(m.pending)[i] && h[n + j] == entry_urls(m.pending)[j]);
    }
    assert forall|i: int, j: int|
        0 <= i < m.emitted.len() && 0 <= j < m.pending.len() implies #[trigger] m.emitted[i] != (
    #[trigger] m.pending[j]).url by {
        assert(h[i] == m.emitted[i]);
        assert(h[n + j] == entry_urls(m.pending)[j]);
    }
    assert forall|i: int| 0 <= i < m.emitted.len() implies m.seen.contains(
        #[trigger] m.emitted[i],
    ) by {
        assert(h.to_set().contains(h[i]));
    }
    assert forall|j: int| 0 <= j < m.pending.len() implies m.seen.contains(
        (#[trigger] m.pending[j]).url,
    ) by {
        assert(h.to_set().contains(h[n + j]));
    }
    h.unique_seq_to_set();
}

/// The queue and the set of seen URLs.
pub struct Frontier {
    visited: DashSet<String>,
    queue: VecDeque<FrontierEntry>,
    emitted: Ghost<Seq<Seq<char>>>,
}

impl View for Frontier {
    type V = FrontierModel;

    closed spec fn view(&self) -> FrontierModel {
        FrontierModel {
            seen: set_contents(self.visited),
            pending: entries_view(self.queue@),
            emitted: self.emitted@,
        }
    }
}

impl Frontier {
    /// A frontier that has seen nothing.
    pub fn new() -> (frontier: Frontier)
        ensures
            frontier@.well_formed(),
            frontier@.seen == Set::<Seq<char>>::empty(),
            frontier@.pending == Seq::<EntryView>::empty(),
            frontier@.emitted == Seq::<Seq<char>>::empty(),
    {
        let visited = visited_new();
        let queue: VecDeque<FrontierEntry> = VecDeque::new();
        let frontier = Frontier { visited, queue, emitted: Ghost(Seq::empty()) };
        proof {
            assert(frontier@.history().to_set() =~= Set::<Seq<char>>::empty());
        }
        frontier
    }

    /// Queues the canonical form of `url` at `depth`, unless `url` has no
    /// canonical form or that form was queued before. Says whether an
    /// entry was queued.
    pub fn try_enqueue(&mut self, url: &str, depth: usize) -> (queued: bool)
        ensures
            final(self)@ == old(self)@.enqueued(url@, depth),
            queued <==> normalized(url@) is Some && !old(self)@.seen.contains(normalized(url@)->0),
            old(self)@.well_formed() ==> final(self)@.well_formed(),
    {
        proof {
            if self@.well_formed() {
                lemma_enqueued_well_formed(self@, url@, depth);
            }
        }
        match normalize_url(url) {
            Some(canonical) => {
                let fresh: bool = visited_insert(&mut self.visited, canonical.clone());
                if fresh {
                    let entry = FrontierEntry { url: canonical, depth };
                    self.queue.push_back(entry);
                    assert(self@.pending =~= old(self)@.pending.push(entry@));
                } else {
                    assert(self@.seen =~= old(self)@.seen);
                }
                fresh
            },
            None => false,
        }
    }

    /// Offers each of `urls` at `depth`, in order. Says how many entries
    /// were queued.
    pub fn enqueue_all(&mut self, urls: &Vec<String>, depth: usize) -> (queued: usize)
        ensures
            final(self)@ == old(self)@.enqueued_all(strings_view(urls@), depth),
            queued == final(self)@.pending.len() - old(self)@.pending.len(),
            old(self)@.well_formed() ==> final(self)@.well_formed(),
    {
        let ghost all = strings_view(urls@);
        let mut queued: usize = 0;
        let mut i: usize = 0;
        while i < urls.len()
            invariant
                0 <= i <= urls.len(),
                all == strings_view(urls@),
                old(self)@.well_formed() ==> self@.well_formed(),
                self@ == old(self)@.enqueued_all(all.take(i as int), depth),
                queued <= i,
                queued == self@.pending.len() - old(self)@.pending.len(),
            decreases urls.len() - i,
        {
            proof {
                assert(all.take(i + 1).drop_last() =~= all.take(i as int));
            }
            if self.try_enqueue(urls[i].as_str(), depth) {
                queued += 1;
            }
            i += 1;
        }
        assert(all.take(urls@.len() as int) =~= all);
        queued
    }

    /// Takes the next entry off the queue, if one waits.
    pub fn dequeue(&mut self) -> (next: Option<FrontierEntry>)
        ensures
            final(self)@ == old(self)@.dequeued(),
            next is Some <==> old(self)@.pending.len() > 0,
            next matches Some(entry) ==> entry@ == old(self)@.pending[0],
            old(self)@.well_formed() ==> final(self)@.well_formed(),
    {
        proof {
            if self@.well_formed() {
                lemma_dequeued_well_formed(self@);
            }
        }
        let next = self.queue.pop_front();
        if let Some(entry) = &next {
            proof {
                self.emitted = Ghost(self.emitted@.push(entry.url@));
            }
            assert(self@.pending =~= old(self)@.pending.drop_first());
        }
        next
    }

    /// Tells whether no entry waits.
    pub fn is_empty(&self) -> (empty: bool)
        ensures
            empty == (self@.pending.len() == 0),
    {
        self.queue.len() == 0
    }

    /// The number of entries that wait.
    pub fn len(&self) -> (count: usize)
        ensures
            count == self@.pending.len(),
    {
        self.queue.len()
    }

    /// The number of distinct canonical URLs that were ever queued: of a
    /// well-formed frontier, as many as entries have left or wait.
    pub fn unique_urls(&self) -> (count: usize)
        ensures
            self@.seen.finite() ==> count == self@.seen.len(),
            self@.well_formed() ==> count == self@.emitted.len() + self@.pending.len(),
    {
        proof {
            if self@.well_formed() {
                lemma_emitted_once(self@);
            }
        }
        visited_len(&self.visited)
    }
}

} // verus!
