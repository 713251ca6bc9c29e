use countdown::countdown::Countdown;
use countdown::slider_number::{Point, SliderNumber, STEP};
use countdown::utils::{
    format_duration, format_hm, format_two_digits, remaining_until, LocalTime, TimeSpan,
};

use chrono::NaiveTime;

fn at(y: i32) -> Point {
    Point { x: 0, y }
}

fn id(s: &str) -> String {
    s.to_string()
}

fn drag(start: u32, min: u32, max: u32, dy: i32) -> (SliderNumber, Option<u32>) {
    let mut s = SliderNumber::new(id("n"), start, min, max);
    s.on_drag_handler(at(100));
    let r = s.on_drag_move_handler(&id("n"), at(100 + dy));
    (s, r)
}

#[test]
fn format_hm_pads_both_parts() {
    assert_eq!(format_hm(8, 0), "08:00");
    assert_eq!(format_hm(0, 5), "00:05");
    assert_eq!(format_hm(23, 59), "23:59");
    assert_eq!(format_hm(10, 10), "10:10");
}

#[test]
fn format_hm_matches_padded_concatenation_for_all_valid_times() {
    for h in 0..24u32 {
        for m in 0..60u32 {
            assert_eq!(format_hm(h, m), format!("{:02}:{:02}", h, m));
        }
    }
}

#[test]
fn format_two_digits_widens_large_numbers() {
    assert_eq!(format_two_digits(0), "00");
    assert_eq!(format_two_digits(7), "07");
    assert_eq!(format_two_digits(42), "42");
    assert_eq!(format_two_digits(123), "123");
}

#[test]
fn format_duration_hours_and_minutes() {
    assert_eq!(format_duration(&TimeSpan { seconds: 0 }), "00:00");
    assert_eq!(format_duration(&TimeSpan { seconds: 30 * 60 }), "00:30");
    assert_eq!(format_duration(&TimeSpan { seconds: 22 * 3600 + 30 * 60 + 59 }), "22:30");
    assert_eq!(format_duration(&TimeSpan { seconds: 49 * 3600 + 5 * 60 }), "49:05");
    assert_eq!(format_duration(&TimeSpan { seconds: 100 * 3600 }), "100:00");
}

#[test]
fn remaining_until_later_today() {
    let now = LocalTime { hour: 7, minute: 30, second: 0 };
    assert_eq!(remaining_until(8, 0, &now), TimeSpan { seconds: 30 * 60 });
}

#[test]
fn remaining_until_past_target_is_tomorrow() {
    let now = LocalTime { hour: 7, minute: 30, second: 0 };
    assert_eq!(remaining_until(6, 0, &now), TimeSpan { seconds: (22 * 60 + 30) * 60 });
}

#[test]
fn remaining_until_now_is_zero() {
    let now = LocalTime { hour: 12, minute: 15, second: 42 };
    assert_eq!(remaining_until(12, 15, &now), TimeSpan { seconds: 0 });
}

#[test]
fn next_occurrence_reads_target_within_a_day() {
    let now = LocalTime { hour: 23, minute: 59, second: 30 };
    for (h, m) in [(0u32, 0u32), (23, 58), (23, 59), (12, 0)] {
        let r = remaining_until(h, m, &now).seconds;
        assert!(r < 86400);
        let t = (23 * 3600 + 59 * 60 + 30 + r) % 86400;
        assert_eq!((t / 3600, t / 60 % 60), (h as u64, m as u64));
    }
}

#[test]
fn startup_defaults() {
    let c = Countdown::new(8, 0);
    let now = LocalTime { hour: 7, minute: 30, second: 0 };
    assert_eq!(c.remaining_text(&now), "00:30");
    assert_eq!(c.target_text(), "08:00");
}

#[test]
fn past_target_advances_a_day() {
    let c = Countdown::new(6, 0);
    let now = LocalTime { hour: 7, minute: 30, second: 0 };
    assert_eq!(c.remaining_text(&now), "22:30");
    assert_eq!(c.target_text(), "06:00");
}

#[test]
fn drag_increments_minute() {
    let mut c = Countdown::new(8, 0);
    c.on_drag_begin(&id("minute"), at(0));
    assert!(c.on_drag_move(&id("minute"), at(25)));
    assert_eq!(c.minute_slider().value(), 2);
    assert_eq!(c.minute(), 2);
    assert_eq!(c.hour(), 8);
}

#[test]
fn drag_clamps_at_maximum() {
    let mut s = SliderNumber::new(id("hour"), 22, 0, 23);
    s.on_drag_handler(at(0));
    assert_eq!(s.on_drag_move_handler(&id("hour"), at(1000)), Some(23));
    assert_eq!(s.value(), 23);
    assert_eq!(s.on_drag_move_handler(&id("hour"), at(1010)), None);
    assert_eq!(s.value(), 23);

    let mut c = Countdown::new(22, 0);
    c.on_drag_begin(&id("hour"), at(0));
    assert!(c.on_drag_move(&id("hour"), at(1000)));
    assert_eq!(c.hour(), 23);
}

#[test]
fn drag_clamps_at_zero_no_underflow() {
    let mut c = Countdown::new(8, 3);
    c.on_drag_begin(&id("minute"), at(600));
    assert!(c.on_drag_move(&id("minute"), at(100)));
    assert_eq!(c.minute(), 0);
    assert_eq!(c.minute_slider().value(), 0);
}

#[test]
fn cross_widget_drag_isolation() {
    let mut c = Countdown::new(8, 0);
    c.on_drag_begin(&id("hour"), at(0));
    assert!(!c.on_drag_move(&id("elsewhere"), at(300)));
    assert_eq!(c.hour(), 8);
    assert!(!c.on_drag_move(&id("minute"), at(300)));
    assert_eq!(c.hour(), 8);
    assert_eq!(c.minute(), 0);
}

#[test]
fn drag_stays_within_bounds() {
    for dy in [-10_000, -95, -10, -1, 0, 1, 9, 10, 55, 10_000] {
        for start in [3u32, 5, 9] {
            let (s, _) = drag(start, 3, 9, dy);
            assert!(3 <= s.value() && s.value() <= 9);
        }
    }
}

#[test]
fn drag_direction() {
    for dy in [0, 1, 10, 35, 400] {
        assert!(drag(4, 0, 20, dy).0.value() >= 4);
        assert!(drag(4, 0, 20, -dy).0.value() <= 4);
    }
}

#[test]
fn drag_step_quantum() {
    let step = STEP as i32;
    for dy in [-(step - 1), -1, 0, 1, step - 1] {
        assert_eq!(drag(5, 0, 10, dy).0.value(), 5);
    }
    assert_eq!(drag(5, 0, 10, step).0.value(), 6);
    assert_eq!(drag(5, 0, 10, 2 * step - 1).0.value(), 6);
    assert_eq!(drag(5, 0, 10, -step).0.value(), 4);
    assert_eq!(drag(5, 0, 10, -(2 * step - 1)).0.value(), 4);
    assert_eq!(drag(5, 0, 10, 2 * step).0.value(), 7);
}

#[test]
fn callback_only_on_change() {
    let (s, r) = drag(5, 0, 10, 30);
    assert_eq!((s.value(), r), (8, Some(8)));
    let (s, r) = drag(5, 0, 10, 5);
    assert_eq!((s.value(), r), (5, None));
    let (s, r) = drag(10, 0, 10, 50);
    assert_eq!((s.value(), r), (10, None));
}

#[test]
fn no_underflow_from_zero() {
    for dy in [-1, -10, -11, -1000, i32::MIN / 2] {
        let (s, r) = drag(0, 0, 59, dy);
        assert_eq!((s.value(), r), (0, None));
    }
}

#[test]
fn begin_twice_uses_latest_snapshot() {
    let mut s = SliderNumber::new(id("n"), 7, 0, 50);
    s.on_drag_handler(at(0));
    let first = s.start_value();
    s.on_drag_handler(at(100));
    assert_eq!(s.start_value(), first);
    assert_eq!(s.start_position(), Some(at(100)));
    s.on_drag_move_handler(&id("n"), at(130));
    assert_eq!(s.value(), 10);
}

#[test]
fn move_without_drag_changes_nothing() {
    let mut s = SliderNumber::new(id("n"), 7, 0, 50);
    assert_eq!(s.on_drag_move_handler(&id("n"), at(500)), None);
    assert_eq!(s.value(), 7);
}

#[test]
fn drag_end_keeps_value() {
    let mut s = SliderNumber::new(id("n"), 7, 0, 50);
    s.on_drag_handler(at(0));
    s.on_drag_move_handler(&id("n"), at(40));
    s.on_drag_end();
    assert!(!s.is_dragging());
    assert_eq!(s.value(), 11);
    assert_eq!(s.text(), "11");
}

#[test]
fn new_clamps_value() {
    assert_eq!(SliderNumber::new(id("n"), 70, 0, 59).value(), 59);
    assert_eq!(SliderNumber::new(id("n"), 1, 5, 9).value(), 5);
    assert_eq!(SliderNumber::new(id("n"), 0, 0, 9).text(), "0");
}

#[test]
fn local_time_from_chrono() {
    let t = NaiveTime::from_hms_nano_opt(23, 56, 4, 12_345_678).unwrap();
    assert_eq!(LocalTime::from_naive(&t), LocalTime { hour: 23, minute: 56, second: 4 });
    let t = NaiveTime::from_hms_opt(7, 30, 0).unwrap();
    assert_eq!(LocalTime::from_naive(&t), LocalTime { hour: 7, minute: 30, second: 0 });
    let leap = NaiveTime::from_hms_milli_opt(23, 59, 59, 1_500).unwrap();
    assert_eq!(LocalTime::from_naive(&leap), LocalTime { hour: 23, minute: 59, second: 59 });
}
