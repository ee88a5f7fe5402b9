use site_builder::timefmt::format_civil_time;
use site_builder::timefmt::CivilTime;
use site_builder::web_page::WebPage;

fn civil(year: i32, month: u8, day: u8, hour: u8, minute: u8) -> CivilTime {
    CivilTime { year, month, day, hour, minute }
}

#[test]
fn afternoon_time_formats_as_specified() {
    // 15:45 local time on March 9, 2024.
    let c = civil(2024, 3, 9, 15, 45);
    assert_eq!(format_civil_time(c), "03:45pm, mar 9, 2024");
}

#[test]
fn midnight_is_twelve_am() {
    assert_eq!(format_civil_time(civil(2024, 1, 1, 0, 5)), "12:05am, jan 1, 2024");
}

#[test]
fn noon_is_twelve_pm() {
    assert_eq!(format_civil_time(civil(2024, 6, 15, 12, 0)), "12:00pm, jun 15, 2024");
}

#[test]
fn late_evening_rolls_to_eleven_pm() {
    assert_eq!(format_civil_time(civil(1999, 12, 31, 23, 59)), "11:59pm, dec 31, 1999");
}

#[test]
fn morning_hours_are_zero_padded() {
    assert_eq!(format_civil_time(civil(2024, 11, 2, 9, 7)), "09:07am, nov 2, 2024");
}

#[test]
fn early_years_are_zero_padded_to_four_digits() {
    assert_eq!(format_civil_time(civil(99, 2, 28, 1, 30)), "01:30am, feb 28, 0099");
}

#[test]
fn two_digit_days_print_in_full() {
    assert_eq!(format_civil_time(civil(2024, 10, 31, 18, 15)), "06:15pm, oct 31, 2024");
}

#[test]
fn formatted_time_has_the_clock_shape() {
    let p = WebPage::from_string("home".to_string(), String::new());
    let t = p.get_formatted_time();
    assert_eq!(&t[2..3], ":");
    assert!(t.contains("m, "));
    assert!(t.ends_with(|c: char| c.is_ascii_digit()));
}

#[test]
fn formatted_time_tracks_the_stored_instant() {
    // 2024-03-09 15:45:00 UTC; a zone offset below one day keeps the
    // local reading between March 8 and March 10, 2024.
    let p = WebPage {
        name: "notes".to_string(),
        content: String::new(),
        date_edited: site_builder::timefmt::Instant { secs: 1_709_999_100, nanos: 0 },
    };
    let t = p.get_formatted_time();
    assert!(t.contains("mar "));
    assert!(t.ends_with(", 2024"));
}
