use bekoedit::release_launch::{LaunchWatch, LAUNCH_DEADLINE_MS, WATCH_AFTER_READY_MS};

#[test]
fn sampling_goes_on_for_the_watch_window_after_ready() {
    let mut watch = LaunchWatch::new();
    assert!(!watch.sampled(0, false));
    assert!(!watch.sampled(200, true), "just became ready");
    assert!(!watch.sampled(200 + WATCH_AFTER_READY_MS - 1, true));
    assert!(watch.sampled(200 + WATCH_AFTER_READY_MS, false), "watched long enough");
}

#[test]
fn only_the_first_ready_sample_starts_the_window() {
    let mut watch = LaunchWatch::new();
    assert!(!watch.sampled(100, true));
    assert!(!watch.sampled(1_000, true));
    assert!(watch.sampled(1_600, true), "the window runs from 100, not 1000");
}

#[test]
fn a_scenario_that_never_looks_ready_stops_at_the_deadline() {
    let mut watch = LaunchWatch::new();
    assert!(!watch.sampled(LAUNCH_DEADLINE_MS - 1, false));
    assert!(watch.sampled(LAUNCH_DEADLINE_MS, false));
    assert_eq!(LAUNCH_DEADLINE_MS, 15_000);
    assert_eq!(WATCH_AFTER_READY_MS, 1_500);
}
