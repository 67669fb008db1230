use feed_bot::timestamp::Timestamp;

#[test]
fn newer_iff_strictly_later() {
    let earlier = Timestamp::new(100);
    let later = Timestamp::new(101);
    assert!(later.is_newer(earlier));
    assert!(!earlier.is_newer(later));
}

#[test]
fn equal_instants_are_not_newer() {
    let a = Timestamp::new(1704888000);
    let b = Timestamp::new(1704888000);
    assert!(!a.is_newer(b));
    assert!(!b.is_newer(a));
}

#[test]
fn comparator_is_idempotent() {
    let post = Timestamp::new(1704888000);
    let last = Timestamp::new(1704758400);
    let first_call = post.is_newer(last);
    let second_call = post.is_newer(last);
    assert_eq!(first_call, second_call);
    let first_rev = last.is_newer(post);
    let second_rev = last.is_newer(post);
    assert_eq!(first_rev, second_rev);
}

#[test]
fn negative_epochs_compare_chronologically() {
    let before_epoch = Timestamp::new(-5);
    let at_epoch = Timestamp::new(0);
    assert!(at_epoch.is_newer(before_epoch));
    assert!(!before_epoch.is_newer(at_epoch));
}
