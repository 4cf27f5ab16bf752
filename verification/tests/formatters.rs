use furtherance::helpers::formatters::{
    seconds_to_formatted_duration, seconds_to_hm, seconds_to_hms, to_decimal,
};

#[test]
fn hms_of_typical_durations() {
    assert_eq!(seconds_to_hms(0), "0:00:00");
    assert_eq!(seconds_to_hms(59), "0:00:59");
    assert_eq!(seconds_to_hms(60), "0:01:00");
    assert_eq!(seconds_to_hms(3599), "0:59:59");
    assert_eq!(seconds_to_hms(3600), "1:00:00");
    assert_eq!(seconds_to_hms(3661), "1:01:01");
    assert_eq!(seconds_to_hms(25 * 60), "0:25:00");
    assert_eq!(seconds_to_hms(360_000), "100:00:00");
    assert_eq!(seconds_to_hms(86_399), "23:59:59");
}

#[test]
fn hm_of_typical_durations() {
    assert_eq!(seconds_to_hm(0), "0:00");
    assert_eq!(seconds_to_hm(59), "0:00");
    assert_eq!(seconds_to_hm(60), "0:01");
    assert_eq!(seconds_to_hm(3661), "1:01");
    assert_eq!(seconds_to_hm(360_000 + 600), "100:10");
}

#[test]
fn hms_of_negative_durations_is_as_the_machine_formats_them() {
    assert_eq!(seconds_to_hms(-1), format!("{}:{:02}:{:02}", 0, 0, -1));
    assert_eq!(seconds_to_hms(-1), "0:00:-1");
    assert_eq!(seconds_to_hms(-75), "0:-1:-15");
    assert_eq!(seconds_to_hms(-3661), "-1:-1:-1");
    assert_eq!(seconds_to_hm(-3661), "-1:-1");
}

#[test]
fn hms_of_the_extremes() {
    let max = i64::MAX;
    assert_eq!(
        seconds_to_hms(max),
        format!("{}:{:02}:{:02}", max / 3600, max % 3600 / 60, max % 60)
    );
    let min = i64::MIN;
    assert_eq!(
        seconds_to_hms(min),
        format!("{}:{:02}:{:02}", min / 3600, min % 3600 / 60, min % 60)
    );
}

#[test]
fn formatted_duration_shows_seconds_on_request() {
    assert_eq!(seconds_to_formatted_duration(3661, true), "1:01:01");
    assert_eq!(seconds_to_formatted_duration(3661, false), "1:01");
}

#[test]
fn decimal_text_of_integers() {
    assert_eq!(to_decimal(0), "0");
    assert_eq!(to_decimal(7), "7");
    assert_eq!(to_decimal(10), "10");
    assert_eq!(to_decimal(1_700_000_000), "1700000000");
    assert_eq!(to_decimal(-1), "-1");
    assert_eq!(to_decimal(-120), "-120");
    assert_eq!(to_decimal(i64::MAX), "9223372036854775807");
    assert_eq!(to_decimal(i64::MIN), "-9223372036854775808");
}
