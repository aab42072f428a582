use weather_clock::app::DisplayMessage;
use weather_clock::clock::{clock_message, clock_message_from};

fn update(date: &str, time: &str) -> Option<DisplayMessage> {
    Some(DisplayMessage::UpdateTime(date.to_string(), time.to_string()))
}

#[test]
fn texts_become_a_clock_update() {
    assert_eq!(
        clock_message_from(Some(("2025-03-01".to_string(), "12:34:56".to_string()))),
        update("2025-03-01", "12:34:56")
    );
}

#[test]
fn no_texts_no_update() {
    assert_eq!(clock_message_from(None), None);
}

#[test]
fn the_epoch_is_eight_in_the_morning_in_shanghai() {
    assert_eq!(clock_message(0), update("1970-01-01", "08:00:00"));
}

#[test]
fn a_late_evening_in_utc_is_the_next_day_in_shanghai() {
    // 2023-11-14 22:13:20 UTC
    assert_eq!(clock_message(1_700_000_000), update("2023-11-15", "06:13:20"));
}

#[test]
fn the_last_second_of_a_shanghai_day() {
    // 2024-02-29 15:59:59 UTC
    assert_eq!(clock_message(1_709_222_399), update("2024-02-29", "23:59:59"));
    assert_eq!(clock_message(1_709_222_400), update("2024-03-01", "00:00:00"));
}

#[test]
fn summer_time_of_1988_is_nine_hours_ahead() {
    // 1988-07-01 00:00:00 UTC, while Shanghai kept daylight saving time.
    assert_eq!(clock_message(583_718_400), update("1988-07-01", "09:00:00"));
}

#[test]
fn seconds_before_the_epoch() {
    // 1969-12-31 23:59:59 UTC
    assert_eq!(clock_message(-1), update("1970-01-01", "07:59:59"));
}

#[test]
fn an_instant_beyond_the_calendar_gives_nothing() {
    assert_eq!(clock_message(i64::MAX), None);
    assert_eq!(clock_message(i64::MIN), None);
}
