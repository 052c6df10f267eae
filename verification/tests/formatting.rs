use lap_stopwatch::text::format_elapsed;

const MS: u128 = 1_000_000;

#[test]
fn zero_is_all_zeros() {
    assert_eq!(format_elapsed(0), "00:00:00.000");
}

#[test]
fn one_minute_one_second() {
    assert_eq!(format_elapsed(61_000 * MS), "00:01:01.000");
}

#[test]
fn one_hour_one_minute_one_second_and_a_half() {
    assert_eq!(format_elapsed(3_661_500 * MS), "01:01:01.500");
}

#[test]
fn below_a_millisecond_is_dropped() {
    assert_eq!(format_elapsed(999_999), "00:00:00.000");
    assert_eq!(format_elapsed(1_000_000), "00:00:00.001");
    assert_eq!(format_elapsed(1_999_999), "00:00:00.001");
}

#[test]
fn milliseconds_wrap_at_a_thousand() {
    assert_eq!(format_elapsed(999 * MS), "00:00:00.999");
    assert_eq!(format_elapsed(1_000 * MS), "00:00:01.000");
    assert_eq!(format_elapsed(1_045 * MS), "00:00:01.045");
}

#[test]
fn seconds_and_minutes_wrap_at_sixty() {
    assert_eq!(format_elapsed(59_999 * MS), "00:00:59.999");
    assert_eq!(format_elapsed(60_000 * MS), "00:01:00.000");
    assert_eq!(format_elapsed(3_599_999 * MS), "00:59:59.999");
    assert_eq!(format_elapsed(3_600_000 * MS), "01:00:00.000");
}

#[test]
fn hours_do_not_wrap_at_a_day() {
    assert_eq!(format_elapsed(24 * 3_600_000 * MS), "24:00:00.000");
    assert_eq!(format_elapsed(99 * 3_600_000 * MS + 59 * 60_000 * MS), "99:59:00.000");
}

#[test]
fn hours_take_the_digits_they_need() {
    assert_eq!(format_elapsed(100 * 3_600_000 * MS), "100:00:00.000");
    assert_eq!(format_elapsed(12_345 * 3_600_000 * MS + 7 * MS), "12345:00:00.007");
}

#[test]
fn the_largest_time_is_rendered() {
    assert_eq!(format_elapsed(u128::MAX), "94522879700260684295381835:23:51.768");
}

#[test]
fn single_digits_are_padded() {
    assert_eq!(format_elapsed(9 * 3_600_000 * MS + 8 * 60_000 * MS + 7_006 * MS), "09:08:07.006");
}
