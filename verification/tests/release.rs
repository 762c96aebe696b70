use boxpigma::artist::release_date;

#[test]
fn a_release_time_the_api_left_at_zero_is_a_dash() {
    assert_eq!(release_date(0, 8 * 3600), "\u{2014}");
}

#[test]
fn midnight_china_time_is_the_same_day_in_china() {
    // 2022-07-15 00:00 at +08:00 is 2022-07-14 16:00 UTC.
    assert_eq!(release_date(1_657_814_400_000, 8 * 3600), "2022-07-15");
}

#[test]
fn the_same_moment_read_in_utc_is_the_day_before() {
    assert_eq!(release_date(1_657_814_400_000, 0), "2022-07-14");
}

#[test]
fn milliseconds_are_cut_to_whole_seconds() {
    assert_eq!(release_date(1_657_814_399_999, 0), "2022-07-14");
    assert_eq!(release_date(1, 0), "1970-01-01");
}

#[test]
fn a_time_past_the_years_time_handles_is_a_dash() {
    assert_eq!(release_date(253_402_300_800_000, 0), "\u{2014}");
}

#[test]
fn a_date_pushed_past_the_last_year_by_the_offset_is_a_dash() {
    assert_eq!(release_date(253_402_300_799_000, 0), "9999-12-31");
    assert_eq!(release_date(253_402_300_799_000, 3600), "\u{2014}");
}

#[test]
fn an_offset_out_of_range_is_a_dash() {
    assert_eq!(release_date(1_657_814_400_000, 100_000), "\u{2014}");
}
