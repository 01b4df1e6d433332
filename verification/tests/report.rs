use raw_speed::mode::Mode;
use raw_speed::report::compose_line;
use raw_speed::report::render_line;
use raw_speed::report::size_text;
use raw_speed::report::Averages;
use raw_speed::report::DirectionStats;
use raw_speed::report::Reporter;
use raw_speed::report::FIVE_SECONDS;
use raw_speed::report::ONE_MINUTE;
use raw_speed::sample::Sample;
use std::sync::atomic::AtomicUsize;
use std::sync::atomic::Ordering;
use std::time::Instant;

const SECOND: u64 = 1_000_000_000;

fn at(seconds: u64, bytes: usize) -> Sample {
    Sample { time: seconds * SECOND, bytes }
}

#[test]
fn horizons_are_five_seconds_and_one_minute() {
    assert_eq!(FIVE_SECONDS, 5 * SECOND);
    assert_eq!(ONE_MINUTE, 60 * SECOND);
}

#[test]
fn sizes_are_shown_in_binary_units() {
    assert_eq!(size_text(0), "0 B");
    assert_eq!(size_text(999), "999 B");
    assert_eq!(size_text(1023), "1023 B");
    assert_eq!(size_text(1024), "1 KiB");
    assert_eq!(size_text(1536), "1.50 KiB");
    assert_eq!(size_text(1_048_576), "1 MiB");
    assert_eq!(size_text(123_456_789), "117.74 MiB");
    assert_eq!(size_text(5 * 1024 * 1024 * 1024), "5 GiB");
}

#[test]
fn line_is_put_together_in_order() {
    assert_eq!(
        compose_line("Up", "a", "b", "c"),
        "Up: 1s avg: a/s, 5s avg: b/s, 1min avg: c/s"
    );
    assert_eq!(compose_line("", "", "", ""), ": 1s avg: /s, 5s avg: /s, 1min avg: /s");
}

#[test]
fn line_shows_the_three_rates() {
    let averages = Averages { one_second: 1024, five_seconds: 1536, one_minute: 999 };
    assert_eq!(
        render_line("Down", &averages),
        "Down: 1s avg: 1 KiB/s, 5s avg: 1.50 KiB/s, 1min avg: 999 B/s"
    );
}

#[test]
fn first_tick_gives_the_same_rate_three_times() {
    let mut stats = DirectionStats::new(0);
    let averages = stats.record(at(1, 4096));
    assert_eq!(averages, Averages { one_second: 4096, five_seconds: 4096, one_minute: 4096 });
}

#[test]
fn one_second_rate_is_measured_from_the_previous_tick() {
    let mut stats = DirectionStats::new(0);
    stats.record(at(1, 1000));
    let averages = stats.record(at(3, 3000));
    assert_eq!(averages.one_second, 1500);
    assert_eq!(averages.five_seconds, 1333);
    assert_eq!(averages.one_minute, 1333);
}

#[test]
fn windows_slide_at_their_own_horizons() {
    let mut stats = DirectionStats::new(0);
    let mut averages = stats.record(at(1, 600));
    for second in 2..=10 {
        averages = stats.record(at(second, 100));
    }
    assert_eq!(averages.one_second, 100);
    assert_eq!(averages.five_seconds, 100);
    assert_eq!(averages.one_minute, 150);
    for second in 11..=70 {
        averages = stats.record(at(second, 100));
    }
    assert_eq!(averages, Averages { one_second: 100, five_seconds: 100, one_minute: 100 });
}

#[test]
fn tick_at_the_instant_of_the_previous_one_gives_zero_for_one_second() {
    let mut stats = DirectionStats::new(0);
    stats.record(at(1, 500));
    let averages = stats.record(at(1, 700));
    assert_eq!(averages.one_second, 0);
    assert_eq!(averages.five_seconds, 1200);
}

#[test]
fn reporter_shows_one_line_for_each_active_direction() {
    let mut up_only = Reporter::new(Mode::up(), 0);
    assert_eq!(
        up_only.tick(at(1, 2048), at(1, 7)),
        vec!["Up: 1s avg: 2 KiB/s, 5s avg: 2 KiB/s, 1min avg: 2 KiB/s"]
    );
    let mut down_only = Reporter::new(Mode::down(), 0);
    assert_eq!(
        down_only.tick(at(1, 7), at(1, 512)),
        vec!["Down: 1s avg: 512 B/s, 5s avg: 512 B/s, 1min avg: 512 B/s"]
    );
    let mut both = Reporter::new(Mode::both(), 0);
    assert_eq!(
        both.tick(at(1, 2048), at(1, 512)),
        vec![
            "Up: 1s avg: 2 KiB/s, 5s avg: 2 KiB/s, 1min avg: 2 KiB/s",
            "Down: 1s avg: 512 B/s, 5s avg: 512 B/s, 1min avg: 512 B/s",
        ]
    );
}

#[test]
fn reporter_without_a_direction_shows_nothing() {
    let mut idle = Reporter::new(Mode::empty(), 0);
    assert!(idle.tick(at(1, 1), at(1, 1)).is_empty());
}

#[test]
fn reporter_keeps_its_windows_between_ticks() {
    let mut reporter = Reporter::new(Mode::up(), 0);
    reporter.tick(at(1, 1024), at(1, 0));
    let lines = reporter.tick(at(2, 3072), at(2, 0));
    assert_eq!(lines, vec!["Up: 1s avg: 3 KiB/s, 5s avg: 2 KiB/s, 1min avg: 2 KiB/s"]);
}

#[test]
fn sample_from_a_reading() {
    assert_eq!(Sample::from_reading(0, 0), Sample { time: 0, bytes: 0 });
    assert_eq!(Sample::from_reading(1_500_000_000, 77), Sample { time: 1_500_000_000, bytes: 77 });
    assert_eq!(
        Sample::from_reading(u64::MAX as u128, usize::MAX),
        Sample { time: u64::MAX, bytes: usize::MAX }
    );
}

#[test]
fn sample_from_a_reading_beyond_the_clock_range() {
    assert_eq!(Sample::from_reading(u64::MAX as u128 + 1, 1), Sample { time: u64::MAX, bytes: 1 });
    assert_eq!(Sample::from_reading(u128::MAX, 1), Sample { time: u64::MAX, bytes: 1 });
}

#[test]
fn sampling_reads_and_resets_the_counter() {
    let origin = Instant::now();
    let counter = AtomicUsize::new(0);
    counter.fetch_add(40, Ordering::Relaxed);
    counter.fetch_add(2, Ordering::Relaxed);
    let first = Sample::now_from(&counter, &origin);
    assert_eq!(first.bytes, 42);
    assert_eq!(counter.load(Ordering::Relaxed), 0);
    counter.fetch_add(5, Ordering::Relaxed);
    let second = Sample::now_from(&counter, &origin);
    assert_eq!(second.bytes, 5);
    assert!(second.time >= first.time);
    let third = Sample::now_from(&counter, &origin);
    assert_eq!(third.bytes, 0);
    assert!(third.time >= second.time);
}
