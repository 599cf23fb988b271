use home_feed::feed::{global_feed_style, next_pagination, your_feed_style, FeedEvent, TabStyle};
use home_feed::pagination::Pagination;

#[test]
fn default_pagination() {
    let p = Pagination::default();
    assert_eq!(p.get_page(), 1);
    assert_eq!(p.get_amount(), 10);
    assert!(!p.get_my_feed());
    assert_eq!(p, Pagination::new());
}

#[test]
fn setters_replace_one_field() {
    let p = Pagination::new().set_page(4);
    assert_eq!(p.get_page(), 4);
    let q = p.set_my_feed(true);
    assert_eq!(q.get_page(), 4);
    assert!(q.get_my_feed());
    let r = q.reset_page();
    assert_eq!(r.get_page(), 1);
    assert!(r.get_my_feed());
    assert_eq!(r.get_amount(), 10);
}

#[test]
fn your_feed_without_user_has_no_effect() {
    let p = Pagination::new().set_page(3);
    assert_eq!(next_pagination(p, false, FeedEvent::YourFeed), p);
    let q = p.set_my_feed(true);
    assert_eq!(next_pagination(q, false, FeedEvent::YourFeed), q);
}

#[test]
fn your_feed_with_user_resets_page_and_sets_flag() {
    let p = Pagination::new().set_page(3);
    let r = next_pagination(p, true, FeedEvent::YourFeed);
    assert_eq!(r.get_page(), 1);
    assert!(r.get_my_feed());
    assert_eq!(r.get_amount(), p.get_amount());
}

#[test]
fn global_feed_resets_page_and_clears_flag() {
    let p = Pagination::new().set_page(5).set_my_feed(true);
    for signed_in in [false, true] {
        let r = next_pagination(p, signed_in, FeedEvent::GlobalFeed);
        assert_eq!(r.get_page(), 1);
        assert!(!r.get_my_feed());
    }
}

#[test]
fn page_click_keeps_feed_flag() {
    for my_feed in [false, true] {
        let p = Pagination::new().set_my_feed(my_feed);
        let r = next_pagination(p, true, FeedEvent::Page(3));
        assert_eq!(r.get_page(), 3);
        assert_eq!(r.get_my_feed(), my_feed);
        let r = next_pagination(p, false, FeedEvent::Page(2));
        assert_eq!(r.get_page(), 2);
        assert_eq!(r.get_my_feed(), my_feed);
    }
}

#[test]
fn tab_styles() {
    let global = Pagination::new();
    let mine = global.set_my_feed(true);
    assert_eq!(your_feed_style(false, &global), TabStyle::Disabled);
    assert_eq!(your_feed_style(false, &mine), TabStyle::Disabled);
    assert_eq!(your_feed_style(true, &mine), TabStyle::Active);
    assert_eq!(your_feed_style(true, &global), TabStyle::Inactive);
    assert_eq!(global_feed_style(&global), TabStyle::Active);
    assert_eq!(global_feed_style(&mine), TabStyle::Inactive);
}

#[test]
fn tab_class_names() {
    assert_eq!(TabStyle::Disabled.class_name(), "nav-link disabled");
    assert_eq!(TabStyle::Active.class_name(), "nav-link active");
    assert_eq!(TabStyle::Inactive.class_name(), "nav-link");
}
