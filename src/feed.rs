use vstd::prelude::*;

use crate::pagination::{Pagination, PaginationModel};

verus! {

/// A click on one of the home page's controls.
#[derive(Clone, Copy, Debug, PartialEq, Eq)]
pub enum FeedEvent {
    /// The "Your Feed" tab.
    YourFeed,
    /// The "Global Feed" tab.
    GlobalFeed,
    /// The page control with this number.
    Page(u32),
}

/// The pagination after `event`. "Your Feed" is disabled without a signed-in
/// user; a feed tab goes back to page 1 and picks its feed; a page control
/// moves to its page and keeps the feed.
pub fn next_pagination(pagination: Pagination, signed_in: bool, event: FeedEvent) -> (r: Pagination)
    requires
        event matches FeedEvent::Page(n) ==> n >= 1,
    ensures
        event is YourFeed && !signed_in ==> r@ == pagination@,
        event is YourFeed && signed_in ==> r@ == (PaginationModel {
            page: 1,
            my_feed: true,
            ..pagination@
        }),
        event is GlobalFeed ==> r@ == (PaginationModel { page: 1, my_feed: false, ..pagination@ }),
        event matches FeedEvent::Page(n) ==> r@ == (PaginationModel {
            page: n as nat,
            ..pagination@
        }),
{
    match event {
        FeedEvent::YourFeed => {
            if signed_in {
                pagination.reset_page().set_my_feed(true)
            } else {
                pagination
            }
        },
        FeedEvent::GlobalFeed => pagination.reset_page().set_my_feed(false),
        FeedEvent::Page(n) => pagination.set_page(n),
    }
}

/// How a feed tab is drawn.
#[derive(Clone, Copy, Debug, PartialEq, Eq)]
pub enum TabStyle {
    Disabled,
    Active,
    Inactive,
}

/// The style of the "Your Feed" tab: disabled without a signed-in user, else
/// active exactly when the user's own feed is shown.
pub fn your_feed_style(signed_in: bool, pagination: &Pagination) -> (r: TabStyle)
    ensures
        !signed_in ==> r == TabStyle::Disabled,
        signed_in && pagination@.my_feed ==> r == TabStyle::Active,
        signed_in && !pagination@.my_feed ==> r == TabStyle::Inactive,
{
    if !signed_in {
        TabStyle::Disabled
    } else if pagination.get_my_feed() {
        TabStyle::Active
    } else {
        TabStyle::Inactive
    }
}

/// The style of the "Global Feed" tab: active exactly when the global feed
/// is shown. It is never disabled.
pub fn global_feed_style(pagination: &Pagination) -> (r: TabStyle)
    ensures
        pagination@.my_feed ==> r == TabStyle::Inactive,
        !pagination@.my_feed ==> r == TabStyle::Active,
{
    if pagination.get_my_feed() {
        TabStyle::Inactive
    } else {
        TabStyle::Active
    }
}

pub open spec fn tab_class_spec(style: TabStyle) -> Seq<char> {
    match style {
        TabStyle::Disabled => "nav-link disabled"@,
        TabStyle::Active => "nav-link active"@,
        TabStyle::Inactive => "nav-link"@,
    }
}

impl TabStyle {
    /// The CSS classes of a tab drawn in this style.
    pub fn class_name(&self) -> (r: String)
        ensures
            r@ == tab_class_spec(*self),
    {
        match self {
            TabStyle::Disabled => "nav-link disabled".to_owned(),
            TabStyle::Active => "nav-link active".to_owned(),
            TabStyle::Inactive => "nav-link".to_owned(),
        }
    }
}

} // verus!
