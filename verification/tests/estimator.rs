use eb::estimator::update;
use eb::SlotTime;

#[test]
fn first_sample_seeds_the_estimate() {
    assert_eq!(update(None, 1, 123), SlotTime::AutoGenerated(123));
}

#[test]
fn estimates_follow_the_running_mean() {
    let s1 = update(None, 1, 4);
    assert_eq!(s1, SlotTime::AutoGenerated(4));
    let s2 = update(Some(s1), 2, 8);
    assert_eq!(s2, SlotTime::AutoGenerated(6));
    let s3 = update(Some(s2), 3, 3);
    assert_eq!(s3, SlotTime::AutoGenerated(5));
}

#[test]
fn outliers_have_diminishing_weight() {
    let mut slot = update(None, 1, 1_000);
    for n in 2..=10 {
        slot = update(Some(slot), n, 1_000);
    }
    assert_eq!(slot, SlotTime::AutoGenerated(1_000));
    slot = update(Some(slot), 11, 12_000);
    assert_eq!(slot, SlotTime::AutoGenerated(2_000));
}

#[test]
fn user_specified_is_never_altered() {
    let mut slot = SlotTime::UserSpecified(777);
    for (n, elapsed) in [(1u32, 5u64), (2, 1_000_000), (3, 0), (4, u64::MAX)] {
        slot = update(Some(slot), n, elapsed);
        assert_eq!(slot, SlotTime::UserSpecified(777));
    }
}

#[test]
fn average_floors_at_nanosecond_granularity() {
    let s = update(Some(SlotTime::AutoGenerated(0)), 2, 1);
    assert_eq!(s, SlotTime::AutoGenerated(0));
}
