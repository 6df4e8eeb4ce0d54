use rusty_golem::clock::TimeOfDay;
use rusty_golem::config::Config;
use rusty_golem::window::{in_window, minutes_left, Window, WindowError, MINUTES_PER_DAY};

fn hm(hour: u32, minute: u32) -> TimeOfDay {
    TimeOfDay::from_hm(hour, minute).unwrap()
}

fn hms(hour: u32, minute: u32, second: u32) -> TimeOfDay {
    TimeOfDay::new(hour * 3600 + minute * 60 + second, 0).unwrap()
}

#[test]
fn same_day_window_is_half_open() {
    let (start, end) = (hm(8, 0), hm(22, 0));
    assert!(!in_window(hm(0, 0), start, end));
    assert!(!in_window(hm(7, 59), start, end));
    assert!(!in_window(TimeOfDay::new(28_799, 999_999_999).unwrap(), start, end));
    assert!(in_window(hm(8, 0), start, end));
    assert!(in_window(hm(12, 0), start, end));
    assert!(in_window(hm(21, 59), start, end));
    assert!(in_window(TimeOfDay::new(79_199, 999_999_999).unwrap(), start, end));
    assert!(!in_window(hm(22, 0), start, end));
    assert!(!in_window(hm(23, 59), start, end));
}

#[test]
fn overnight_window_wraps_over_midnight() {
    let (start, end) = (hm(22, 0), hm(8, 0));
    assert!(in_window(hm(22, 0), start, end));
    assert!(in_window(hm(23, 30), start, end));
    assert!(in_window(hm(23, 59), start, end));
    assert!(in_window(hm(0, 0), start, end));
    assert!(in_window(hm(7, 59), start, end));
    assert!(!in_window(hm(8, 0), start, end));
    assert!(!in_window(hm(12, 0), start, end));
    assert!(!in_window(hm(21, 59), start, end));
    assert!(!in_window(TimeOfDay::new(79_199, 999_999_999).unwrap(), start, end));
}

#[test]
fn window_with_equal_ends_is_empty() {
    let at = hm(9, 0);
    assert!(!in_window(hm(9, 0), at, at));
    assert!(!in_window(hm(8, 59), at, at));
    assert!(!in_window(hm(9, 1), at, at));
    assert!(!in_window(hm(0, 0), hm(0, 0), hm(0, 0)));
}

#[test]
fn every_minute_of_the_day_is_in_exactly_one_of_two_opposite_windows() {
    let (a, b) = (hm(6, 30), hm(19, 45));
    let mut minute = 0;
    while minute < 1440 {
        let now = hm(minute / 60, minute % 60);
        let day = in_window(now, a, b);
        let night = in_window(now, b, a);
        assert_ne!(day, night);
        assert_eq!(day, minute >= 6 * 60 + 30 && minute < 19 * 60 + 45);
        minute += 1;
    }
}

#[test]
fn in_window_gives_the_same_answer_twice() {
    let (start, end) = (hm(22, 0), hm(8, 0));
    let now = hm(23, 30);
    assert_eq!(in_window(now, start, end), in_window(now, start, end));
    assert_eq!(minutes_left(now, start, end), minutes_left(now, start, end));
    assert_eq!(minutes_left(now, start, end), 510);
}

#[test]
fn scenario_overnight_window_at_half_past_eleven() {
    let (start, end) = (hm(22, 0), hm(8, 0));
    let now = hm(23, 30);
    assert!(in_window(now, start, end));
    assert_eq!(minutes_left(now, start, end), 510);
}

#[test]
fn minutes_left_in_a_same_day_window() {
    let (start, end) = (hm(8, 0), hm(22, 0));
    assert_eq!(minutes_left(hm(8, 0), start, end), 840);
    assert_eq!(minutes_left(hm(21, 50), start, end), 10);
    assert_eq!(minutes_left(hm(21, 55), start, end), 5);
    assert_eq!(minutes_left(hm(21, 59), start, end), 1);
}

#[test]
fn minutes_left_drops_the_seconds() {
    let (start, end) = (hm(8, 0), hm(22, 0));
    assert_eq!(minutes_left(hms(21, 49, 1), start, end), 10);
    assert_eq!(minutes_left(hms(21, 49, 59), start, end), 10);
    assert_eq!(minutes_left(hms(21, 50, 1), start, end), 9);
    assert_eq!(minutes_left(hms(21, 59, 1), start, end), 0);
    assert_eq!(minutes_left(TimeOfDay::new(78_600, 1).unwrap(), start, end), 9);
}

#[test]
fn minutes_left_in_an_overnight_window() {
    let (start, end) = (hm(22, 0), hm(8, 0));
    assert_eq!(minutes_left(hm(22, 0), start, end), 600);
    assert_eq!(minutes_left(hm(23, 59), start, end), 481);
    assert_eq!(minutes_left(hm(0, 0), start, end), 480);
    assert_eq!(minutes_left(hm(7, 50), start, end), 10);
    assert_eq!(minutes_left(hm(7, 59), start, end), 1);
}

#[test]
fn minutes_left_before_midnight_drops_the_seconds_of_the_time_left() {
    let (start, end) = (hm(22, 0), hm(8, 0));
    assert_eq!(minutes_left(hms(23, 30, 0), start, end), 510);
    // From 23:30:30 to 08:00 are 509 minutes and 30 seconds.
    assert_eq!(minutes_left(hms(23, 30, 1), start, end), 509);
    assert_eq!(minutes_left(hms(23, 30, 30), start, end), 509);
    assert_eq!(minutes_left(hms(23, 30, 59), start, end), 509);
    assert_eq!(minutes_left(hms(23, 31, 0), start, end), 509);
    assert_eq!(minutes_left(hms(23, 31, 1), start, end), 508);
    assert_eq!(minutes_left(TimeOfDay::new(84_600, 1).unwrap(), start, end), 509);
}

#[test]
fn minutes_left_is_the_same_on_both_sides_of_midnight() {
    // Ten and a half minutes before a window closes, wherever midnight lies.
    assert_eq!(minutes_left(hms(23, 59, 30), hm(22, 0), hm(0, 10)), 10);
    assert_eq!(minutes_left(hms(0, 4, 30), hm(22, 0), hm(0, 15)), 10);
    assert_eq!(minutes_left(hms(12, 19, 30), hm(8, 0), hm(12, 30)), 10);
    assert_eq!(minutes_left(hms(23, 59, 59), hm(22, 0), hm(0, 10)), 10);
    assert_eq!(minutes_left(hms(23, 59, 0), hm(22, 0), hm(0, 10)), 11);
    assert_eq!(minutes_left(hms(23, 59, 59), hm(22, 0), hm(0, 0)), 0);
    assert_eq!(minutes_left(hms(23, 59, 0), hm(22, 0), hm(0, 0)), 1);
}

#[test]
fn minutes_left_outside_the_window_follows_the_same_rule() {
    let (start, end) = (hm(8, 0), hm(22, 0));
    assert_eq!(minutes_left(hm(22, 0), start, end), 0);
    assert_eq!(minutes_left(hm(23, 0), start, end), -60);
    let (start, end) = (hm(22, 0), hm(8, 0));
    assert_eq!(minutes_left(hm(8, 0), start, end), MINUTES_PER_DAY);
    assert_eq!(minutes_left(hm(12, 0), start, end), 1200);
}

#[test]
fn minutes_left_counts_a_leap_second_at_the_earlier_end() {
    let (start, end) = (hm(8, 0), hm(22, 0));
    // 21:58:59 with a second and a half of nanoseconds: 60.5 s before 22:00.
    let now = TimeOfDay::new(79_139, 1_500_000_000).unwrap();
    assert_eq!(minutes_left(now, start, end), 1);
    // 21:58:59.5 is the same distance away.
    let now = TimeOfDay::new(79_139, 500_000_000).unwrap();
    assert_eq!(minutes_left(now, start, end), 1);
    // 21:59:00.5 is 59.5 s away.
    let now = TimeOfDay::new(79_140, 500_000_000).unwrap();
    assert_eq!(minutes_left(now, start, end), 0);
}

#[test]
fn minutes_left_counts_a_leap_second_at_the_later_end() {
    // The window closes within a leap second, 60.5 s after 07:59:00.
    let start = hm(6, 0);
    let end = TimeOfDay::new(28_799, 1_500_000_000).unwrap();
    assert_eq!(minutes_left(hms(7, 59, 0), start, end), 1);
    // 08:00:59 lies 59.5 s past that end, 08:01:00 lies 60.5 s past it: a
    // day less 59.5 s and a day less 60.5 s are left.
    let start = hm(22, 0);
    assert_eq!(minutes_left(hms(8, 0, 59), start, end), 1439);
    assert_eq!(minutes_left(hms(8, 1, 0), start, end), 1438);
    // Without the second that the leap second adds, 08:00:59 would lie
    // 58.5 s past the end and 08:01:00 59.5 s: both 1439 minutes.
    assert_eq!(minutes_left(hms(8, 0, 58), start, end), 1439);
}

#[test]
fn window_methods_agree_with_the_functions() {
    let window = Window { start: hm(22, 0), end: hm(8, 0) };
    assert!(window.contains(hm(23, 30)));
    assert!(!window.contains(hm(8, 0)));
    assert_eq!(window.minutes_left(hm(23, 30)), 510);
}

#[test]
fn parse_reads_hours_and_minutes() {
    let window = Window::parse("08:00", "22:00").unwrap();
    assert_eq!(window.start, hm(8, 0));
    assert_eq!(window.end, hm(22, 0));
    let window = Window::parse("22:30", "00:05").unwrap();
    assert_eq!(window.start.seconds_from_midnight(), 81_000);
    assert_eq!(window.start.subsec_nanos(), 0);
    assert_eq!(window.end.seconds_from_midnight(), 300);
    let window = Window::parse("7:15", "23:59").unwrap();
    assert_eq!(window.start, hm(7, 15));
    assert_eq!(window.end, hm(23, 59));
}

#[test]
fn parse_names_the_first_time_that_is_wrong() {
    assert_eq!(Window::parse("25:00", "22:00"), Err(WindowError::InvalidStart));
    assert_eq!(Window::parse("17:60", "22:00"), Err(WindowError::InvalidStart));
    assert_eq!(Window::parse("", "22:00"), Err(WindowError::InvalidStart));
    assert_eq!(Window::parse("noon", "22:00"), Err(WindowError::InvalidStart));
    assert_eq!(Window::parse("08:00:00", "22:00"), Err(WindowError::InvalidStart));
    assert_eq!(Window::parse("08:00", "24:00"), Err(WindowError::InvalidEnd));
    assert_eq!(Window::parse("08:00", "22"), Err(WindowError::InvalidEnd));
    assert_eq!(Window::parse("08:00", ""), Err(WindowError::InvalidEnd));
    assert_eq!(Window::parse("bad", "worse"), Err(WindowError::InvalidStart));
}

#[test]
fn from_fields_builds_the_window_of_two_times() {
    let window = Window::from_fields(Some((28_800, 0)), Some((79_200, 0))).unwrap();
    assert_eq!(window, Window { start: hm(8, 0), end: hm(22, 0) });
    let window = Window::from_fields(Some((59, 1_500_000_000)), Some((0, 7))).unwrap();
    assert_eq!(window.start.seconds_from_midnight(), 59);
    assert_eq!(window.start.subsec_nanos(), 1_500_000_000);
    assert_eq!(window.end.subsec_nanos(), 7);
}

#[test]
fn from_fields_names_the_first_time_that_is_wrong() {
    assert_eq!(Window::from_fields(None, Some((0, 0))), Err(WindowError::InvalidStart));
    assert_eq!(Window::from_fields(None, None), Err(WindowError::InvalidStart));
    assert_eq!(Window::from_fields(Some((86_400, 0)), Some((0, 0))), Err(WindowError::InvalidStart));
    assert_eq!(
        Window::from_fields(Some((0, 1_000_000_000)), Some((0, 0))),
        Err(WindowError::InvalidStart)
    );
    assert_eq!(Window::from_fields(Some((0, 0)), None), Err(WindowError::InvalidEnd));
    assert_eq!(Window::from_fields(Some((0, 0)), Some((86_400, 0))), Err(WindowError::InvalidEnd));
    assert_eq!(
        Window::from_fields(Some((0, 0)), Some((0, 2_000_000_000))),
        Err(WindowError::InvalidEnd)
    );
}

#[test]
fn window_errors_have_their_texts() {
    assert_eq!(WindowError::InvalidStart.message(), "Invalid start_time format");
    assert_eq!(WindowError::InvalidEnd.message(), "Invalid end_time format");
}

#[test]
fn config_gives_its_window() {
    let config = Config {
        server_bat_path: String::from("run.bat"),
        start_time: String::from("08:00"),
        end_time: String::from("22:00"),
        discord_webhook_url: String::from("https://example.invalid/hook"),
    };
    assert_eq!(config.window(), Ok(Window { start: hm(8, 0), end: hm(22, 0) }));
    let config = Config { end_time: String::from("late"), ..config };
    assert_eq!(config.window(), Err(WindowError::InvalidEnd));
    let config = Config { start_time: String::from("early"), ..config };
    assert_eq!(config.window(), Err(WindowError::InvalidStart));
}

#[test]
fn the_time_format_is_hours_and_minutes() {
    assert_eq!(rusty_golem::window::TIME_FORMAT, "%H:%M");
    assert_eq!(Window::parse("00:00", "23:59").unwrap().end, hm(23, 59));
    assert_eq!(Window::parse("8h00", "22:00"), Err(WindowError::InvalidStart));
}
