use nothing::fps_capper::FpsLimiter;

#[test]
fn capped_rate_spaces_ticks() {
    let mut l = FpsLimiter::new(30);
    let frame = 1_000_000_000 / 30;

    // the loop arrives early: it is told to sleep out the rest of the frame
    let sleep = l.sleep_duration(10_000_000);
    assert_eq!(sleep, frame - 10_000_000);
    // waking after that sleep puts the tick at least one frame after the last
    assert!(10_000_000 + sleep >= frame);
    l.record_tick(10_000_000 + sleep);

    // same spacing holds from the newly recorded boundary
    let sleep2 = l.sleep_duration(40_000_000);
    assert_eq!(sleep2, frame + frame - 40_000_000);
    assert!(40_000_000 + sleep2 >= frame + frame);
}

#[test]
fn slow_frames_are_not_slept() {
    let l = FpsLimiter::new(30);
    assert_eq!(l.sleep_duration(1_000_000_000 / 30), 0);
    assert_eq!(l.sleep_duration(5_000_000_000), 0);
}

#[test]
fn unlimited_never_sleeps() {
    let mut l = FpsLimiter::new(-1);
    assert_eq!(l.sleep_duration(0), 0);
    assert_eq!(l.sleep_duration(1), 0);
    l.record_tick(123_456);
    assert_eq!(l.sleep_duration(123_456), 0);
    assert_eq!(l.sleep_duration(99_000_000_000), 0);
}

#[test]
fn zero_rate_disables_entirely() {
    let mut l = FpsLimiter::new(0);
    assert_eq!(l.sleep_duration(5), 0);
    // a disabled limiter keeps no bookkeeping either
    l.record_tick(999);
    assert_eq!(l.sleep_duration(5), 0);
}
