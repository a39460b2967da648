use pyckitup::clock::FrameClock;

#[test]
fn fires_exactly_twice_over_forty_ms() {
    // Three frames adding up to ~40 ms of real time against a 16.66 ms
    // period: the update fires exactly twice and ~6.6 ms remain
    // accumulated rather than being discarded.
    let period: u64 = 16_660;
    let mut clock = FrameClock::new();
    let mut fires: u32 = 0;
    for dt in [13_333u64, 13_333, 13_333] {
        if clock.tick(dt, period) {
            fires += 1;
        }
    }
    assert_eq!(fires, 2);
    assert_eq!(clock.acc_us, 3 * 13_333 - 2 * period);
    assert_eq!(clock.acc_us, 6_679);
}

#[test]
fn no_fire_before_one_period() {
    let mut clock = FrameClock::new();
    assert!(!clock.tick(16_659, 16_660));
    assert_eq!(clock.acc_us, 16_659);
}

#[test]
fn firing_subtracts_exactly_one_period() {
    let mut clock = FrameClock::new();
    assert!(clock.tick(40_000, 16_660));
    // One period consumed, the rest preserved; a lagging clock fires
    // again on the next frame.
    assert_eq!(clock.acc_us, 23_340);
    assert!(clock.tick(0, 16_660));
    assert_eq!(clock.acc_us, 6_680);
    assert!(!clock.tick(0, 16_660));
}
