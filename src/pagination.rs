use vstd::prelude::*;

verus! {

/// Number of articles on one page unless another size is chosen.
pub const DEFAULT_AMOUNT: u32 = 10;

/// What a `Pagination` means: the page shown (counted from 1), the number of
/// articles per page, and whether only the signed-in user's feed is shown.
pub struct PaginationModel {
    pub page: nat,
    pub amount: nat,
    pub my_feed: bool,
}

/// Page 1, the default page size, the global feed.
pub open spec fn default_model() -> PaginationModel {
    PaginationModel { page: 1, amount: DEFAULT_AMOUNT as nat, my_feed: false }
}

/// The selection that drives the article fetch. It is replaced, never
/// changed in place: each setter takes it by value and returns the new one.
#[derive(Clone, Copy, Debug, PartialEq, Eq)]
pub struct Pagination {
    page: u32,
    amount: u32,
    my_feed: bool,
}

impl View for Pagination {
    type V = PaginationModel;

    closed spec fn view(&self) -> PaginationModel {
        PaginationModel { page: self.page as nat, amount: self.amount as nat, my_feed: self.my_feed }
    }
}

impl Pagination {
    #[verifier::type_invariant]
    spec fn valid(&self) -> bool {
        self.page >= 1 && self.amount >= 1
    }

    /// Page 1, the default page size, the global feed.
    pub fn new() -> (r: Self)
        ensures
            r@ == default_model(),
    {
        Pagination { page: 1, amount: DEFAULT_AMOUNT, my_feed: false }
    }

    pub fn get_page(&self) -> (r: u32)
        ensures
            r as nat == self@.page,
            r >= 1,
    {
        proof { use_type_invariant(self); }
        self.page
    }

    pub fn get_amount(&self) -> (r: u32)
        ensures
            r as nat == self@.amount,
            r >= 1,
    {
        proof { use_type_invariant(self); }
        self.amount
    }

    pub fn get_my_feed(&self) -> (r: bool)
        ensures
            r == self@.my_feed,
    {
        self.my_feed
    }

    pub fn set_page(self, page: u32) -> (r: Self)
        requires
            page >= 1,
        ensures
            r@ == (PaginationModel { page: page as nat, ..self@ }),
    {
        proof { use_type_invariant(&self); }
        Pagination { page, ..self }
    }

    pub fn reset_page(self) -> (r: Self)
        ensures
            r@ == (PaginationModel { page: 1, ..self@ }),
    {
        proof { use_type_invariant(&self); }
        Pagination { page: 1, ..self }
    }

    pub fn set_my_feed(self, my_feed: bool) -> (r: Self)
        ensures
            r@ == (PaginationModel { my_feed, ..self@ }),
    {
        proof { use_type_invariant(&self); }
        Pagination { my_feed, ..self }
    }
}

impl Default for Pagination {
    fn default() -> (r: Self)
        ensures
            r@ == default_model(),
    {
        Pagination::new()
    }
}

} // verus!
