use lap_stopwatch::live::LapStopwatch;
use lap_stopwatch::state::{Control, StopwatchState};

#[test]
fn a_new_live_stopwatch_is_idle() {
    let watch = LapStopwatch::new();
    assert!(!watch.is_running());
    assert_eq!(watch.elapsed(), 0);
    assert_eq!(watch.state(), &StopwatchState::new());
}

#[test]
fn a_live_stopwatch_keeps_time_between_start_and_stop() {
    let mut watch = LapStopwatch::new();
    let before = std::time::Instant::now();
    watch.start();
    assert!(watch.is_running());
    let shown = watch.elapsed();
    let again = watch.elapsed();
    assert!(again >= shown);
    watch.stop();
    let around = before.elapsed().as_nanos();
    assert!(!watch.is_running());
    let kept = watch.elapsed();
    assert!(kept >= again);
    assert!(kept <= around);
    assert_eq!(watch.elapsed(), kept);
    assert_eq!(watch.state().accumulated(), kept);
}

#[test]
fn a_live_lap_is_the_elapsed_time_of_its_moment() {
    let mut watch = LapStopwatch::new();
    watch.start();
    let earlier = watch.elapsed();
    watch.lap();
    let later = watch.elapsed();
    let laps = watch.state().laps().clone();
    assert_eq!(laps.len(), 1);
    assert!(earlier <= laps[0] && laps[0] <= later);
    watch.stop();
    watch.lap();
    assert_eq!(watch.state().laps().len(), 2);
    assert_eq!(watch.state().laps()[1], watch.elapsed());
}

#[test]
fn a_live_reset_sets_zero() {
    let mut watch = LapStopwatch::new();
    watch.start();
    watch.lap();
    watch.reset();
    assert!(!watch.is_running());
    assert_eq!(watch.elapsed(), 0);
    assert_eq!(watch.state().laps().len(), 1);
    watch.clear_laps();
    assert!(watch.state().laps().is_empty());
}

#[test]
fn live_controls() {
    let mut watch = LapStopwatch::new();
    watch.press(Control::Start);
    assert!(watch.is_running());
    watch.press(Control::Lap);
    watch.press(Control::Stop);
    assert!(!watch.is_running());
    assert_eq!(watch.state().laps().len(), 1);
    assert!(watch.state().laps()[0] <= watch.elapsed());
    watch.press(Control::Clear);
    assert_eq!(watch.state(), &StopwatchState::new());
}

#[test]
fn a_live_display_of_a_stopped_stopwatch_is_its_kept_time() {
    let mut watch = LapStopwatch::default();
    assert_eq!(watch.display(), "00:00:00.000");
    watch.start();
    watch.stop();
    let kept = watch.elapsed();
    assert_eq!(watch.display(), lap_stopwatch::text::format_elapsed(kept));
    watch.lap();
    assert_eq!(watch.lap_texts(), vec![watch.display()]);
    watch.press(Control::Clear);
    assert_eq!(watch.display(), "00:00:00.000");
    assert!(watch.lap_texts().is_empty());
}

#[test]
fn a_waiting_stopwatch_shows_the_wait() {
    let mut watch = LapStopwatch::new();
    watch.start();
    let began = std::time::Instant::now();
    while began.elapsed() < std::time::Duration::from_millis(30) {
        std::hint::spin_loop();
    }
    watch.lap();
    watch.stop();
    let kept = watch.elapsed();
    assert!(kept >= 30_000_000);
    assert!(kept < 10_000_000_000);
    let laps = watch.state().laps().clone();
    assert_eq!(laps.len(), 1);
    assert!(laps[0] >= 30_000_000 && laps[0] <= kept);
    while began.elapsed() < std::time::Duration::from_millis(40) {
        std::hint::spin_loop();
    }
    assert_eq!(watch.elapsed(), kept);
}
