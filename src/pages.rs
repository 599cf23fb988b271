use vstd::prelude::*;

use crate::pagination::Pagination;

verus! {

/// `c / p` rounded up.
pub open spec fn ceil_div(c: nat, p: nat) -> nat
    recommends
        p > 0,
{
    if c % p == 0 {
        c / p
    } else {
        c / p + 1
    }
}

/// `ceil_div(c, p)` is the ceiling of `c / p`: the fewest pages of `p`
/// articles that hold `c` articles.
pub proof fn lemma_ceil_div_is_ceiling(c: nat, p: nat)
    requires
        p > 0,
    ensures
        ceil_div(c, p) * p >= c,
        ceil_div(c, p) == 0 || (ceil_div(c, p) - 1) * p < c,
{
    let q = c / p;
    let r = c % p;
    assert(c == q * p + r && r < p) by (nonlinear_arith)
        requires
            p > 0,
            q == c / p,
            r == c % p,
    ;
    if r == 0 {
        assert(ceil_div(c, p) * p >= c);
        if q > 0 {
            assert((q - 1) * p < c) by (nonlinear_arith)
                requires
                    c == q * p,
                    p > 0,
                    q > 0,
            ;
        }
    } else {
        assert((q + 1) * p >= c && q * p < c) by (nonlinear_arith)
            requires
                c == q * p + r,
                0 < r < p,
        ;
    }
}

/// Number of pages needed for `articles_count` articles, `amount` per page.
pub fn page_count(articles_count: u32, amount: u32) -> (r: u32)
    requires
        amount > 0,
    ensures
        r as nat == ceil_div(articles_count as nat, amount as nat),
{
    let q = articles_count / amount;
    if articles_count % amount == 0 {
        q
    } else {
        assert(amount >= 2);
        assert(q <= articles_count / 2) by {
            vstd::arithmetic::div_mod::lemma_div_is_ordered_by_denominator(
                articles_count as int,
                2,
                amount as int,
            );
        }
        q + 1
    }
}

/// One numbered page control; `active` marks the page being shown.
#[derive(Clone, Copy, Debug, PartialEq, Eq)]
pub struct PageControl {
    pub number: u32,
    pub active: bool,
}

/// The page controls for a feed whose article count has arrived (`Some`),
/// numbered from 1 up to the page count; none while it is still pending.
pub fn page_controls(articles_count: Option<u32>, pagination: &Pagination) -> (r: Vec<PageControl>)
    ensures
        articles_count is None ==> r@.len() == 0,
        articles_count matches Some(c) ==> r@.len() == ceil_div(c as nat, pagination@.amount),
        forall|i: int|
            #![trigger r@[i]]
            0 <= i < r@.len() ==> r@[i].number == i + 1 && r@[i].active == (i + 1
                == pagination@.page),
{
    let mut controls: Vec<PageControl> = Vec::new();
    match articles_count {
        None => controls,
        Some(count) => {
            let max_page = page_count(count, pagination.get_amount());
            let current = pagination.get_page();
            let mut n: u32 = 0;
            while n < max_page
                invariant
                    n <= max_page,
                    current as nat == pagination@.page,
                    controls@.len() == n,
                    forall|i: int|
                        #![trigger controls@[i]]
                        0 <= i < n ==> controls@[i].number == i + 1
                            && controls@[i].active == (i + 1 == pagination@.page),
                decreases max_page - n,
            {
                n = n + 1;
                controls.push(PageControl { number: n, active: n == current });
            }
            controls
        },
    }
}

} // verus!
