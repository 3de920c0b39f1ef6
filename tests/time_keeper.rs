use rigid_sim::time_keeper::TimeKeeper;

#[test]
fn time_keeper_consumes_only_what_was_produced() {
    let mut keeper = TimeKeeper::new();
    assert_eq!(keeper.accumulated(), 0);
    keeper.produce(10);
    assert!(keeper.consume(4));
    assert!(!keeper.consume(7));
    assert_eq!(keeper.accumulated(), 6);
    assert_eq!(keeper.consumed(), 4);
    assert_eq!(keeper.produced(), 10);
    assert!(keeper.consume(6));
    assert_eq!(keeper.accumulated(), 0);
}

#[test]
fn time_keeper_saturates_instead_of_overflowing() {
    let mut keeper = TimeKeeper::new();
    keeper.produce(u64::MAX - 1);
    keeper.produce(5);
    assert_eq!(keeper.accumulated(), u64::MAX);
    assert_eq!(keeper.produced(), u64::MAX);
}

#[test]
fn time_keeper_frame_produces_elapsed_time() {
    let mut keeper = TimeKeeper::new();
    let elapsed = keeper.produce_frame();
    assert_eq!(keeper.accumulated(), elapsed);
    assert_eq!(keeper.produced(), elapsed);
    let more = keeper.produce_frame();
    assert_eq!(keeper.produced(), elapsed + more);
}
