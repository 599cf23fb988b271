//! Page-state logic of a home feed: pagination with a feed filter, the page
//! controls derived from an article count, the feed toggle, the state of the
//! article fetch and what the tag sidebar shows.
pub mod pagination;
pub mod pages;
pub mod feed;
pub mod fetch;
pub mod tags;
pub mod home;
