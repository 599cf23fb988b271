use vstd::prelude::*;

use crate::feed::{next_pagination, FeedEvent};
use crate::fetch::{Fetch, FetchModel, FetchStatus};
use crate::pages::{page_controls, PageControl};
use crate::pagination::{default_model, Pagination, PaginationModel};

verus! {

/// An article fetch to issue: the request's number and the selection to
/// load.
#[derive(Clone, Copy, Debug, PartialEq, Eq)]
pub struct ArticleRequest {
    pub ticket: u64,
    pub pagination: Pagination,
}

/// The state of the home feed: the current selection and the fetch of its
/// articles, answered by the total article count and the articles of the
/// page (`T`).
pub struct HomeFeed<T> {
    pagination: Pagination,
    articles: Fetch<(u32, T)>,
}

impl<T> HomeFeed<T> {
    pub closed spec fn pagination_spec(&self) -> PaginationModel {
        self.pagination@
    }

    pub closed spec fn articles_spec(&self) -> FetchModel<(u32, T)> {
        self.articles@
    }

    /// The feed as it is when the page opens: default selection, and the
    /// first article fetch issued.
    pub fn new() -> (r: (Self, ArticleRequest))
        ensures
            r.0.pagination_spec() == default_model(),
            r.0.articles_spec().status is Loading,
            r.0.articles_spec().latest == r.1.ticket,
            r.1.pagination@ == r.0.pagination_spec(),
    {
        let pagination = Pagination::new();
        let mut articles = Fetch::new();
        let ticket = articles.start();
        (HomeFeed { pagination, articles }, ArticleRequest { ticket, pagination })
    }

    /// The current selection.
    pub fn pagination(&self) -> (r: Pagination)
        ensures
            r@ == self.pagination_spec(),
    {
        self.pagination
    }

    /// Handles a click. A click on the disabled "Your Feed" tab changes
    /// nothing and asks for nothing; any other click moves to the selection
    /// that `next_pagination` gives and returns the fetch to issue for it.
    pub fn click(&mut self, signed_in: bool, event: FeedEvent) -> (r: Option<ArticleRequest>)
        requires
            event matches FeedEvent::Page(n) ==> n >= 1,
        ensures
            event is YourFeed && !signed_in ==> {
                &&& r is None
                &&& final(self).pagination_spec() == old(self).pagination_spec()
                &&& final(self).articles_spec() == old(self).articles_spec()
            },
            !(event is YourFeed && !signed_in) ==> {
                &&& r matches Some(req)
                &&& req.pagination@ == final(self).pagination_spec()
                &&& req.ticket == final(self).articles_spec().latest
                &&& req.ticket as int == (old(self).articles_spec().latest as int + 1)
                    % 0x1_0000_0000_0000_0000
                &&& final(self).articles_spec().status is Loading
            },
            event is YourFeed && signed_in ==> final(self).pagination_spec() == (PaginationModel {
                page: 1,
                my_feed: true,
                ..old(self).pagination_spec()
            }),
            event is GlobalFeed ==> final(self).pagination_spec() == (PaginationModel {
                page: 1,
                my_feed: false,
                ..old(self).pagination_spec()
            }),
            event matches FeedEvent::Page(n) ==> final(self).pagination_spec() == (
            PaginationModel { page: n as nat, ..old(self).pagination_spec() }),
    {
        if matches!(event, FeedEvent::YourFeed) && !signed_in {
            return None;
        }
        self.pagination = next_pagination(self.pagination, signed_in, event);
        let ticket = self.articles.start();
        Some(ArticleRequest { ticket, pagination: self.pagination })
    }

    /// Hands in the answer to the article request `ticket`: the total
    /// article count and the page's articles. Taken only when it answers the
    /// latest request, as `Fetch::finish` says.
    pub fn receive(&mut self, ticket: u64, articles_count: u32, articles: T) -> (taken: bool)
        ensures
            final(self).pagination_spec() == old(self).pagination_spec(),
            taken == (ticket == old(self).articles_spec().latest
                && old(self).articles_spec().status is Loading),
            taken ==> final(self).articles_spec() == (FetchModel {
                latest: ticket,
                status: FetchStatus::Done((articles_count, articles)),
            }),
            !taken ==> final(self).articles_spec() == old(self).articles_spec(),
    {
        self.articles.finish(ticket, (articles_count, articles))
    }

    /// The articles of the current page, once they have come.
    pub fn articles(&self) -> (r: Option<&T>)
        ensures
            self.articles_spec().status matches FetchStatus::Done(v) ==> r == Some(&v.1),
            !(self.articles_spec().status is Done) ==> r is None,
    {
        match self.articles.value() {
            Some(answer) => Some(&answer.1),
            None => None,
        }
    }

    /// The page controls: none until the articles have come, then one per
    /// page of the total count, the current page marked.
    pub fn page_controls(&self) -> (r: Vec<PageControl>)
        ensures
            !(self.articles_spec().status is Done) ==> r@.len() == 0,
            self.articles_spec().status matches FetchStatus::Done(v) ==> r@.len()
                == crate::pages::ceil_div(v.0 as nat, self.pagination_spec().amount),
            forall|i: int|
                #![trigger r@[i]]
                0 <= i < r@.len() ==> r@[i].number == i + 1 && r@[i].active == (i + 1
                    == self.pagination_spec().page),
    {
        let count = match self.articles.value() {
            Some(answer) => Some(answer.0),
            None => None,
        };
        page_controls(count, &self.pagination)
    }
}

} // verus!
