//! Timezone conversion for time-and-sales: offsets, renderings, and the
//! UTC to local to UTC round trip.

use tradier::time::{format_minute, format_rfc3339, ny_local_to_utc, ny_utc_to_local};

#[test]
fn test_winter_offset_is_five_hours() {
    // 2021-01-07T12:00:00Z, deep in standard time.
    let utc: i64 = 1_610_020_800;
    assert_eq!(ny_utc_to_local(utc), utc - 5 * 3600);
}

#[test]
fn test_summer_offset_is_four_hours() {
    // 2021-08-13T00:00:00Z, deep in daylight-saving time.
    let utc: i64 = 1_628_812_800;
    assert_eq!(ny_utc_to_local(utc), utc - 4 * 3600);
}

#[test]
fn test_round_trip_away_from_transitions() {
    for utc in [
        1_610_020_800_i64, // winter noon
        1_628_812_800,     // summer midnight
        86_400,            // 1970-01-02T00:00:00Z
        4_000_000_000,     // 2096-10-02T07:06:40Z
    ] {
        let local = ny_utc_to_local(utc);
        assert_eq!(ny_local_to_utc(local), Some(utc));
    }
}

#[test]
fn test_ambiguous_local_time_maps_to_a_matching_instant() {
    // 2021-11-07 01:30 exchange-local falls in the repeated hour of the
    // daylight-saving fall-back: two UTC instants render to it.  Whichever
    // is returned must render back to the same local time.
    let local: i64 = 18_938 * 86_400 + 90 * 60;
    let utc = ny_local_to_utc(local).unwrap();
    assert!(utc == local + 4 * 3600 || utc == local + 5 * 3600);
    assert_eq!(ny_utc_to_local(utc), local);
}

#[test]
fn test_gap_local_time_has_no_instant() {
    // 2021-03-14 02:30 exchange-local sits inside the spring-forward gap:
    // no UTC instant renders to it.
    let local: i64 = 18_700 * 86_400 + 2 * 3600 + 30 * 60;
    assert_eq!(ny_local_to_utc(local), None);
}

#[test]
fn test_format_minute_epoch() {
    assert_eq!(format_minute(0), "1970-01-01 00:00");
    assert_eq!(format_minute(1_628_798_400), "2021-08-12 20:00");
}

#[test]
fn test_format_rfc3339_exact() {
    assert_eq!(format_rfc3339(0), "1970-01-01T00:00:00Z");
    assert_eq!(format_rfc3339(1_628_812_800), "2021-08-13T00:00:00Z");
    assert_eq!(format_rfc3339(951_827_696), "2000-02-29T12:34:56Z");
}

#[test]
fn test_calendar_edges() {
    // Leap day of a leap century, last day of a year, first of the next.
    assert_eq!(format_minute(1_709_164_800), "2024-02-29 00:00");
    assert_eq!(format_minute(1_704_067_199), "2023-12-31 23:59");
    assert_eq!(format_minute(1_704_067_200), "2024-01-01 00:00");
    // The upper end of the supported range.
    assert_eq!(format_rfc3339(4_102_444_800), "2100-01-01T00:00:00Z");
    // 1900 logic does not apply: 2000 was a leap year, 2100 is not, and
    // 2023 was not.
    assert_eq!(format_minute(951_868_800 - 86_400), "2000-02-29 00:00");
}
