use vstd::prelude::*;
use crate::model::ListCreatorItem;

verus! {

/// What the walker asks of its driver next: fetch a page listing and hand
/// its items back, take one post summary, or stop.
#[derive(Debug, PartialEq)]
pub enum PaginatorStep {
    FetchPage(String),
    Item(ListCreatorItem),
    Finished,
}

/// The pagination walker: turns the creator's ordered list of opaque page
/// URLs into one continuous ordered sequence of post summaries. It holds
/// only the remaining page URLs and the current page's remaining items, so
/// a creator's whole history is never in memory at once. Pages are fetched
/// lazily, exactly once each, in the given order; a page's items are all
/// yielded, in order, before the next page is touched.
#[derive(Debug, PartialEq)]
pub struct Paginator {
    page_urls: Vec<String>,
    next_page: usize,
    current_items: Vec<ListCreatorItem>,
    next_item: usize,
}

impl Paginator {
    /// True of every walker this module hands out.
    pub closed spec fn wf(&self) -> bool {
        &&& self.next_page <= self.page_urls@.len()
        &&& self.next_item <= self.current_items@.len()
    }

    /// The page URLs not yet fetched, in the order they will be fetched.
    pub closed spec fn pending_pages(&self) -> Seq<Seq<char>> {
        self.page_urls.deep_view().skip(self.next_page as int)
    }

    /// The current page's items not yet yielded, in the order they will be
    /// yielded.
    pub closed spec fn pending_items(&self) -> Seq<crate::model::ListCreatorItemView> {
        self.current_items.deep_view().skip(self.next_item as int)
    }

    /// Starts a walk over the given page URLs, in order.
    pub fn new(page_urls: Vec<String>) -> (r: Paginator)
        ensures
            r.wf(),
            r.pending_pages() == page_urls.deep_view(),
            r.pending_items() == Seq::<crate::model::ListCreatorItemView>::empty(),
    {
        let r = Paginator { page_urls, next_page: 0, current_items: Vec::new(), next_item: 0 };
        proof {
            assert(r.pending_pages() =~= r.page_urls.deep_view());
            assert(r.pending_items() =~= Seq::<crate::model::ListCreatorItemView>::empty());
        }
        r
    }

    /// One step of the walk. Yields the current page's next item if one is
    /// pending; otherwise asks for the next page, without consuming it, so
    /// the same URL is asked for until `supply_page` answers it; otherwise
    /// the walk is over.
    pub fn poll(&mut self) -> (r: PaginatorStep)
        requires
            old(self).wf(),
        ensures
            final(self).wf(),
            old(self).pending_items().len() > 0 ==> ({
                &&& final(self).pending_items() == old(self).pending_items().skip(1)
                &&& final(self).pending_pages() == old(self).pending_pages()
                &&& (r matches PaginatorStep::Item(it) && it.deep_view() == old(
                    self,
                ).pending_items()[0])
            }),
            old(self).pending_items().len() == 0 && old(self).pending_pages().len() > 0 ==> ({
                &&& *final(self) == *old(self)
                &&& (r matches PaginatorStep::FetchPage(u) && u@ == old(self).pending_pages()[0])
            }),
            old(self).pending_items().len() == 0 && old(self).pending_pages().len() == 0 ==> ({
                &&& *final(self) == *old(self)
                &&& r is Finished
            }),
    {
        if self.next_item < self.current_items.len() {
            let it = self.current_items[self.next_item].clone();
            proof {
                assert(it.deep_view() == self.current_items.deep_view()[self.next_item as int]);
                assert(self.pending_items()[0] == self.current_items.deep_view()[self.next_item as int]);
            }
            let ghost before = self.pending_items();
            self.next_item = self.next_item + 1;
            proof {
                assert(self.pending_items() =~= before.skip(1));
            }
            PaginatorStep::Item(it)
        } else if self.next_page < self.page_urls.len() {
            let u = self.page_urls[self.next_page].clone();
            proof {
                assert(u@ == self.page_urls.deep_view()[self.next_page as int]);
                assert(self.pending_pages()[0] == self.page_urls.deep_view()[self.next_page as int]);
            }
            PaginatorStep::FetchPage(u)
        } else {
            proof {
                assert(self.pending_items().len() == 0);
                assert(self.pending_pages().len() == 0);
            }
            PaginatorStep::Finished
        }
    }

    /// Answers a `FetchPage` request with the page's items. The page URL is
    /// consumed here, exactly once, and its items become the pending ones,
    /// all to be yielded before the next page is asked for.
    pub fn supply_page(&mut self, items: Vec<ListCreatorItem>)
        requires
            old(self).wf(),
            old(self).pending_items().len() == 0,
            old(self).pending_pages().len() > 0,
        ensures
            final(self).wf(),
            final(self).pending_items() == items.deep_view(),
            final(self).pending_pages() == old(self).pending_pages().skip(1),
    {
        let ghost before = self.pending_pages();
        self.current_items = items;
        self.next_item = 0;
        let n = self.page_urls.len();
        proof {
            assert(self.page_urls.deep_view().len() == n);
            assert(before.len() == n - self.next_page);
            assert(self.next_page < n);
        }
        self.next_page = self.next_page + 1;
        proof {
            assert(self.pending_items() =~= self.current_items.deep_view());
            assert(self.pending_pages() =~= before.skip(1));
        }
    }
}

} // verus!
