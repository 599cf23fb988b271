use vstd::prelude::*;

use crate::fetch::FetchStatus;

verus! {

/// The text shown while the tags are on their way.
pub open spec fn loading_text() -> Seq<char> {
    "Loading Tags"@
}

/// The text shown when the tags could not be fetched.
pub open spec fn error_text() -> Seq<char> {
    "Something went wrong."@
}

/// What the tag sidebar shows.
pub enum TagListView {
    /// A placeholder while the tags are on their way.
    Loading(String),
    /// An error message, with no detail of the failure.
    Error(String),
    /// One link per tag, in the order fetched.
    Tags(Vec<String>),
}

/// The sidebar for the tag fetch in `status`. A failed fetch shows the fixed
/// error message and nothing of the tags.
pub fn tag_list_view(status: FetchStatus<Result<Vec<String>, ()>>) -> (r: TagListView)
    ensures
        status is Idle || status is Loading ==> (r matches TagListView::Loading(s) && s@
            == loading_text()),
        status matches FetchStatus::Done(Err(_)) ==> (r matches TagListView::Error(s) && s@
            == error_text()),
        status matches FetchStatus::Done(Ok(tags)) ==> (r matches TagListView::Tags(t) && t@
            == tags@),
{
    match status {
        FetchStatus::Idle | FetchStatus::Loading => TagListView::Loading("Loading Tags".to_owned()),
        FetchStatus::Done(Err(_)) => TagListView::Error("Something went wrong.".to_owned()),
        FetchStatus::Done(Ok(tags)) => TagListView::Tags(tags),
    }
}

} // verus!
