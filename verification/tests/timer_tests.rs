use agent_ui::timer::GenerationTimer;
use std::time::Duration;

#[test]
fn formats_seconds_under_a_minute() {
    assert_eq!(GenerationTimer::format_elapsed_secs(0), " 0s");
    assert_eq!(GenerationTimer::format_elapsed_secs(7), " 7s");
    assert_eq!(GenerationTimer::format_elapsed_secs(59), " 59s");
}

#[test]
fn formats_minutes_and_seconds() {
    assert_eq!(GenerationTimer::format_elapsed_secs(60), " 1m 0s");
    assert_eq!(GenerationTimer::format_elapsed_secs(125), " 2m 5s");
    assert_eq!(GenerationTimer::format_elapsed_secs(3600), " 60m 0s");
    assert_eq!(GenerationTimer::format_elapsed_secs(3671), " 61m 11s");
}

#[test]
fn formats_large_values() {
    assert_eq!(
        GenerationTimer::format_elapsed_secs(u64::MAX),
        format!(" {}m {}s", u64::MAX / 60, u64::MAX % 60)
    );
}

#[test]
fn formats_durations_by_whole_seconds() {
    assert_eq!(GenerationTimer::format_elapsed_time(Duration::from_millis(75_900)), " 1m 15s");
    assert_eq!(GenerationTimer::format_elapsed_time(Duration::from_millis(999)), " 0s");
}

#[test]
fn new_timer_shows_nothing() {
    let timer = GenerationTimer::new();
    assert_eq!(timer.render(), "");
    let timer = GenerationTimer::default();
    assert_eq!(timer.render(), "");
}

#[test]
fn running_timer_shows_time_since_start() {
    let mut timer = GenerationTimer::new();
    timer.start();
    assert_eq!(timer.render(), " 0s");
}

#[test]
fn stopped_timer_shows_recorded_duration() {
    let mut timer = GenerationTimer::new();
    timer.start();
    timer.stop();
    assert_eq!(timer.render(), " 0s");
    // Stopping again keeps the recorded duration.
    timer.stop();
    assert_eq!(timer.render(), " 0s");
}

#[test]
fn cancel_clears_the_timer() {
    let mut timer = GenerationTimer::new();
    timer.start();
    timer.stop();
    timer.cancel();
    assert_eq!(timer.render(), "");
    timer.start();
    timer.cancel();
    assert_eq!(timer.render(), "");
}

#[test]
fn stop_without_start_changes_nothing() {
    let mut timer = GenerationTimer::new();
    timer.stop();
    assert_eq!(timer.render(), "");
}

fn wait(duration: Duration) {
    let start = std::time::Instant::now();
    while start.elapsed() < duration {}
}

#[test]
fn stopped_timer_text_is_frozen() {
    let mut timer = GenerationTimer::new();
    timer.start();
    wait(Duration::from_millis(1100));
    assert_eq!(timer.render(), " 1s");
    timer.stop();
    let frozen = timer.render();
    assert_eq!(frozen, " 1s");
    wait(Duration::from_millis(1100));
    assert_eq!(timer.render(), frozen);
}
