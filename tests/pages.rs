use home_feed::pages::{page_controls, page_count, PageControl};
use home_feed::pagination::{Pagination, DEFAULT_AMOUNT};

#[test]
fn page_count_rounds_up() {
    assert_eq!(page_count(25, 10), 3);
    assert_eq!(page_count(30, 10), 3);
    assert_eq!(page_count(31, 10), 4);
    assert_eq!(page_count(1, 10), 1);
    assert_eq!(page_count(7, 1), 7);
}

#[test]
fn page_count_of_nothing_is_zero() {
    assert_eq!(page_count(0, 10), 0);
    assert_eq!(page_count(0, 1), 0);
}

#[test]
fn page_count_at_the_largest_count() {
    assert_eq!(page_count(u32::MAX, 1), u32::MAX);
    assert_eq!(page_count(u32::MAX, 2), 2_147_483_648);
    assert_eq!(page_count(u32::MAX, u32::MAX), 1);
}

#[test]
fn page_count_matches_ceiling_of_quotient() {
    for c in 0u32..200 {
        for p in 1u32..25 {
            let expected = (c as f64 / p as f64).ceil() as u32;
            assert_eq!(page_count(c, p), expected);
        }
    }
}

#[test]
fn twenty_five_articles_give_three_controls() {
    let p = Pagination::new();
    assert_eq!(p.get_amount(), DEFAULT_AMOUNT);
    assert_eq!(DEFAULT_AMOUNT, 10);
    let controls = page_controls(Some(25), &p);
    assert_eq!(
        controls,
        vec![
            PageControl { number: 1, active: true },
            PageControl { number: 2, active: false },
            PageControl { number: 3, active: false },
        ]
    );
}

#[test]
fn no_articles_give_no_controls() {
    let p = Pagination::new();
    assert!(page_controls(Some(0), &p).is_empty());
}

#[test]
fn pending_fetch_gives_no_controls() {
    let p = Pagination::new();
    assert!(page_controls(None, &p).is_empty());
}

#[test]
fn current_page_is_marked() {
    let p = Pagination::new().set_page(2);
    let controls = page_controls(Some(25), &p);
    let active: Vec<u32> = controls.iter().filter(|c| c.active).map(|c| c.number).collect();
    assert_eq!(active, vec![2]);
}
