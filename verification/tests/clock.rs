use industria::utility::Clock;

#[test]
fn elapsed_time_does_not_run_backwards() {
    let clock = Clock::new();
    let first = clock.elapsed();
    let second = clock.elapsed();
    assert!(first <= second);
}

#[test]
fn a_reset_starts_the_measure_anew() {
    let mut clock = Clock::new();
    let mut spun: u64 = 0;
    while clock.elapsed() < 2_000 {
        spun += 1;
    }
    assert!(spun > 0);
    let before = clock.elapsed();
    clock.reset();
    let after = clock.elapsed();
    assert!(before >= 2_000);
    assert!(after < before);
}
