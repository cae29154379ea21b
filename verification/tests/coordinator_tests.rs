use property_defs_rs::coordinator::{Coordinator, Directive, Phase};
use property_defs_rs::limiter::{checked_saturation, saturation};
use property_defs_rs::update::Update;

fn updates(from: u64, count: u64) -> Vec<Update> {
    (from..from + count).map(Update::new).collect()
}

#[test]
fn new_coordinator_asks_for_a_full_batch() {
    let c = Coordinator::new(4, 30);
    assert_eq!(c.phase, Phase::Accumulating);
    assert_eq!(c.remaining(), 4);
    assert_eq!(c.directive(), Directive::Receive { limit: 4 });
    assert!(c.batch.is_empty());
}

#[test]
fn full_batch_has_exactly_the_target_size() {
    let mut c = Coordinator::new(4, 30);
    assert_eq!(c.on_received(updates(0, 3)), Directive::Receive { limit: 1 });
    assert_eq!(c.phase, Phase::Accumulating);
    assert_eq!(c.on_received(updates(3, 1)), Directive::AcquirePermit { forced: false });
    assert_eq!(c.phase, Phase::PermitWait);
    let batch = c.on_permit();
    assert_eq!(batch, updates(0, 4));
    assert_eq!(c.phase, Phase::Accumulating);
    assert!(c.batch.is_empty());
    assert_eq!(c.directive(), Directive::Receive { limit: 4 });
}

#[test]
fn received_updates_keep_their_order() {
    let mut c = Coordinator::new(5, 30);
    c.on_received(vec![Update::new(9), Update::new(2)]);
    c.on_received(vec![Update::new(7)]);
    assert_eq!(c.batch, vec![Update::new(9), Update::new(2), Update::new(7)]);
    assert_eq!(c.remaining(), 2);
}

#[test]
fn tick_within_the_issue_period_keeps_receiving() {
    let mut c = Coordinator::new(4, 2);
    c.on_received(updates(0, 2));
    assert_eq!(c.on_tick(1_000_000_000), Directive::Receive { limit: 2 });
    assert_eq!(c.on_tick(2_000_000_000), Directive::Receive { limit: 2 });
    assert_eq!(c.phase, Phase::Accumulating);
    assert_eq!(c.batch, updates(0, 2));
    assert!(!c.forced);
}

#[test]
fn tick_past_the_issue_period_forces_a_small_batch() {
    let mut c = Coordinator::new(4, 2);
    c.on_received(updates(0, 2));
    assert_eq!(c.on_tick(2_000_000_001), Directive::AcquirePermit { forced: true });
    assert_eq!(c.phase, Phase::PermitWait);
    assert!(c.forced);
    let batch = c.on_permit();
    assert_eq!(batch, updates(0, 2));
    assert!(!c.forced);
    assert_eq!(c.phase, Phase::Accumulating);
}

#[test]
fn forced_batch_may_be_empty() {
    let mut c = Coordinator::new(3, 0);
    assert_eq!(c.on_tick(1), Directive::AcquirePermit { forced: true });
    assert_eq!(c.on_permit(), Vec::<Update>::new());
}

#[test]
fn longest_issue_period_does_not_overflow() {
    let mut c = Coordinator::new(3, u64::MAX);
    assert_eq!(c.on_tick(u128::from(u64::MAX) * 1_000_000_000), Directive::Receive { limit: 3 });
    assert_eq!(
        c.on_tick(u128::from(u64::MAX) * 1_000_000_000 + 1),
        Directive::AcquirePermit { forced: true }
    );
}

#[test]
fn empty_receive_stops_the_coordinator() {
    let mut c = Coordinator::new(4, 30);
    c.on_received(updates(0, 1));
    assert_eq!(c.on_received(Vec::new()), Directive::Exit);
    assert_eq!(c.phase, Phase::Stopped);
    assert_eq!(c.directive(), Directive::Exit);
    assert_eq!(c.batch, updates(0, 1));
}

#[test]
fn target_of_zero_goes_straight_to_the_permit() {
    let mut c = Coordinator::new(0, 30);
    assert_eq!(c.phase, Phase::PermitWait);
    assert_eq!(c.directive(), Directive::AcquirePermit { forced: false });
    assert_eq!(c.on_permit(), Vec::<Update>::new());
    assert_eq!(c.phase, Phase::PermitWait);
}

#[test]
fn saturation_counts_the_permits_that_are_out() {
    assert_eq!(saturation(8, 8), 0);
    assert_eq!(saturation(8, 3), 5);
    assert_eq!(saturation(8, 0), 8);
}

#[test]
fn index_names_the_service() {
    assert_eq!(property_defs_rs::index(), "property definitions service");
}

#[test]
fn checked_saturation_refuses_a_count_out_of_range() {
    assert_eq!(checked_saturation(8, 3), Some(5));
    assert_eq!(checked_saturation(8, 8), Some(0));
    assert_eq!(checked_saturation(8, 0), Some(8));
    assert_eq!(checked_saturation(8, 9), None);
    assert_eq!(checked_saturation(usize::MAX, usize::MAX), Some(0));
}
