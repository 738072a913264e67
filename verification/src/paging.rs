//! Paginated catalog fetch: the remote lists groups and projects page by
//! page, and a partial page must not silently truncate the catalog.
//!
//! [`Paginator`] holds the decision logic of that walk: it accumulates every
//! page handed to it and says, after each one, whether another page must be
//! requested. The surrounding binary performs the network call per page and
//! feeds the result back in.

use vstd::prelude::*;

verus! {

/// Accumulates the pages of one paginated listing and decides, after each
/// page, whether the listing may continue. A page shorter than the page size
/// is the last one; exactly a full page means more may follow.
pub struct Paginator<T> {
    per_page: usize,
    items: Vec<T>,
    done: bool,
}

impl<T> Paginator<T> {
    /// The number of items requested per page.
    pub closed spec fn page_size(self) -> int {
        self.per_page as int
    }

    /// Every item fetched so far, in arrival order.
    pub closed spec fn fetched(self) -> Seq<T> {
        self.items@
    }

    /// Whether the listing is known to be exhausted.
    pub closed spec fn exhausted(self) -> bool {
        self.done
    }

    /// Start a walk that requests `per_page` items per page.
    pub fn new(per_page: usize) -> (r: Self)
        requires
            per_page >= 1,
        ensures
            r.page_size() == per_page,
            r.fetched() == Seq::<T>::empty(),
            !r.exhausted(),
    {
        Paginator { per_page, items: Vec::new(), done: false }
    }

    /// Take in one fetched page; the result says whether another page must
    /// be requested. Every item of every page is kept, in order: the walk
    /// only ends on a page shorter than the page size.
    pub fn push_page(&mut self, page: Vec<T>) -> (more: bool)
        requires
            !old(self).exhausted(),
        ensures
            final(self).fetched() == old(self).fetched() + page@,
            final(self).page_size() == old(self).page_size(),
            more == (page@.len() == old(self).page_size()),
            final(self).exhausted() == !more,
    {
        let full = page.len() == self.per_page;
        let mut incoming = page;
        self.items.append(&mut incoming);
        self.done = !full;
        full
    }

    /// The accumulated catalog, once the listing is exhausted.
    pub fn into_items(self) -> (r: Vec<T>)
        ensures
            r@ == self.fetched(),
    {
        self.items
    }
}

} // verus!
