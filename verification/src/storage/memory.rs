//! A sink that keeps its pages in memory.

use crate::storage::{pages_view, ContentStore, Page, PageView, StoreError};
use vstd::prelude::*;

verus! {

/// Keeps every page it is given, in the order of arrival.
#[derive(Debug)]
pub struct MemoryStore {
    pub pages: Vec<Page>,
}

impl View for MemoryStore {
    type V = Seq<PageView>;

    /// The pages the store holds, oldest first.
    open spec fn view(&self) -> Seq<PageView> {
        pages_view(self.pages@)
    }
}

impl MemoryStore {
    /// An empty store.
    pub fn new() -> (store: MemoryStore)
        ensures
            store@ == Seq::<PageView>::empty(),
    {
        let store = MemoryStore { pages: Vec::new() };
        store
    }
}

impl ContentStore for MemoryStore {
    /// Appends the page. Never fails.
    fn add_page(&mut self, page: Page) -> (taken: Result<(), StoreError>)
        ensures
            taken is Ok,
            final(self)@ == old(self)@.push(page@),
    {
        self.pages.push(page);
        Ok(())
    }

    /// Copies of all pages, oldest first.
    fn get_all_pages(&self) -> (pages: Vec<Page>)
        ensures
            pages_view(pages@) == self@,
    {
        let mut pages: Vec<Page> = Vec::new();
        let mut i: usize = 0;
        while i < self.pages.len()
            invariant
                0 <= i <= self.pages.len(),
                pages_view(pages@) == pages_view(self.pages@.take(i as int)),
            decreases self.pages.len() - i,
        {
            let copy: Page = self.pages[i].clone();
            proof {
                assert(self.pages@.take(i + 1) =~= self.pages@.take(i as int).push(
                    self.pages@[i as int],
                ));
                assert(pages_view(self.pages@.take(i as int).push(self.pages@[i as int]))
                    =~= pages_view(self.pages@.take(i as int)).push(self.pages@[i as int]@));
            }
            pages.push(copy);
            i += 1;
        }
        pages
    }
}

} // verus!
