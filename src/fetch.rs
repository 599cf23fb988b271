use vstd::prelude::*;

verus! {

/// Where a fetch stands: not started, waiting for an answer, or answered.
#[derive(Clone)]
pub enum FetchStatus<T> {
    Idle,
    Loading,
    Done(T),
}

/// What a `Fetch` means: the number of the latest request and its status.
pub struct FetchModel<T> {
    pub latest: u64,
    pub status: FetchStatus<T>,
}

/// A value fetched again whenever its key changes. Each request gets a
/// number; only the answer to the latest request is taken, so a slow answer
/// to an earlier request never replaces a later one.
pub struct Fetch<T> {
    latest: u64,
    status: FetchStatus<T>,
}

impl<T> View for Fetch<T> {
    type V = FetchModel<T>;

    closed spec fn view(&self) -> FetchModel<T> {
        FetchModel { latest: self.latest, status: self.status }
    }
}

impl<T> Fetch<T> {
    /// No request made yet.
    pub fn new() -> (r: Self)
        ensures
            r@.latest == 0,
            r@.status is Idle,
    {
        Fetch { latest: 0, status: FetchStatus::Idle }
    }

    /// Issues a new request and returns its number. Any earlier request is
    /// superseded.
    pub fn start(&mut self) -> (ticket: u64)
        ensures
            ticket as int == (old(self)@.latest as int + 1) % 0x1_0000_0000_0000_0000,
            final(self)@.latest == ticket,
            final(self)@.status is Loading,
    {
        let ticket = self.latest.wrapping_add(1);
        self.latest = ticket;
        self.status = FetchStatus::Loading;
        ticket
    }

    /// Hands in the answer to request `ticket`. It is taken, and `true`
    /// returned, exactly when `ticket` is the latest request and that one is
    /// still waiting; otherwise nothing changes.
    pub fn finish(&mut self, ticket: u64, value: T) -> (taken: bool)
        ensures
            taken == (ticket == old(self)@.latest && old(self)@.status is Loading),
            taken ==> final(self)@ == (FetchModel { latest: ticket, status: FetchStatus::Done(value) }),
            !taken ==> final(self)@ == old(self)@,
    {
        if ticket == self.latest && matches!(self.status, FetchStatus::Loading) {
            self.status = FetchStatus::Done(value);
            true
        } else {
            false
        }
    }

    /// The current status.
    pub fn status(&self) -> (r: &FetchStatus<T>)
        ensures
            *r == self@.status,
    {
        &self.status
    }

    /// The answer to the latest request, once it has come.
    pub fn value(&self) -> (r: Option<&T>)
        ensures
            self@.status matches FetchStatus::Done(v) ==> r == Some(&v),
            !(self@.status is Done) ==> r is None,
    {
        match &self.status {
            FetchStatus::Done(v) => Some(v),
            _ => None,
        }
    }
}

} // verus!
