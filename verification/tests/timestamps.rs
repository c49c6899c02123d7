use utc_offset::{
    format_timestamp, from_offset_pair, local_timestamp_at, parse_offset, timestamp_of, CivilTime,
    Error, UtcOffset,
};

fn offset(hours: i8, minutes: i8) -> UtcOffset {
    from_offset_pair(hours, minutes).unwrap()
}

fn civil(year: i32, month: u8, day: u8, hour: u8, minute: u8, second: u8) -> CivilTime {
    CivilTime { year, month, day, hour, minute, second }
}

#[test]
fn the_layout_field_by_field() {
    assert_eq!(
        format_timestamp(&civil(2024, 3, 1, 14, 5, 9), offset(-8, 0)),
        Ok(String::from("2024-03-01T14:05:09-08:00"))
    );
    assert_eq!(
        format_timestamp(&civil(1999, 12, 31, 23, 59, 59), offset(5, 30)),
        Ok(String::from("1999-12-31T23:59:59+05:30"))
    );
    assert_eq!(
        format_timestamp(&civil(0, 1, 1, 0, 0, 0), UtcOffset::utc()),
        Ok(String::from("0000-01-01T00:00:00+00:00"))
    );
    assert_eq!(
        format_timestamp(&civil(9999, 10, 20, 10, 10, 10), offset(-12, 59)),
        Ok(String::from("9999-10-20T10:10:10-12:59"))
    );
    assert_eq!(
        format_timestamp(&civil(806, 7, 4, 1, 2, 3), offset(0, 45)),
        Ok(String::from("0806-07-04T01:02:03+00:45"))
    );
}

#[test]
fn what_the_layout_has_no_room_for() {
    let zero = UtcOffset::utc();
    assert_eq!(format_timestamp(&civil(10000, 1, 1, 0, 0, 0), zero), Err(Error::TimeFormat));
    assert_eq!(format_timestamp(&civil(-1, 1, 1, 0, 0, 0), zero), Err(Error::TimeFormat));
    assert_eq!(format_timestamp(&civil(2024, 0, 1, 0, 0, 0), zero), Err(Error::TimeFormat));
    assert_eq!(format_timestamp(&civil(2024, 13, 1, 0, 0, 0), zero), Err(Error::TimeFormat));
    assert_eq!(format_timestamp(&civil(2024, 1, 0, 0, 0, 0), zero), Err(Error::TimeFormat));
    assert_eq!(format_timestamp(&civil(2024, 1, 32, 0, 0, 0), zero), Err(Error::TimeFormat));
    assert_eq!(format_timestamp(&civil(2024, 1, 1, 24, 0, 0), zero), Err(Error::TimeFormat));
    assert_eq!(format_timestamp(&civil(2024, 1, 1, 0, 60, 0), zero), Err(Error::TimeFormat));
    assert_eq!(format_timestamp(&civil(2024, 1, 1, 0, 0, 60), zero), Err(Error::TimeFormat));
}

#[test]
fn the_clock_is_moved_by_hours_and_minutes() {
    let moment = 1_709_301_909;
    assert_eq!(
        local_timestamp_at(moment, UtcOffset::utc()),
        Ok(String::from("2024-03-01T14:05:09+00:00"))
    );
    assert_eq!(
        local_timestamp_at(moment, offset(-8, 0)),
        Ok(String::from("2024-03-01T06:05:09-08:00"))
    );
    assert_eq!(
        local_timestamp_at(moment, offset(5, 30)),
        Ok(String::from("2024-03-01T19:35:09+05:30"))
    );
    assert_eq!(
        local_timestamp_at(moment, offset(-9, 30)),
        Ok(String::from("2024-03-01T04:35:09-09:30"))
    );
    assert_eq!(
        local_timestamp_at(moment, offset(14, 0)),
        Ok(String::from("2024-03-02T04:05:09+14:00"))
    );
    assert_eq!(local_timestamp_at(0, offset(0, 1)), Ok(String::from("1970-01-01T00:01:00+00:01")));
    assert_eq!(
        local_timestamp_at(0, offset(-12, 59)),
        Ok(String::from("1969-12-31T11:01:00-12:59"))
    );
}

#[test]
fn the_date_rolls_with_the_clock() {
    let evening = 1_709_330_709;
    assert_eq!(
        local_timestamp_at(evening, UtcOffset::utc()),
        Ok(String::from("2024-03-01T22:05:09+00:00"))
    );
    assert_eq!(
        local_timestamp_at(evening, offset(-8, 0)),
        Ok(String::from("2024-03-01T14:05:09-08:00"))
    );
    assert_eq!(
        local_timestamp_at(evening, offset(5, 30)),
        Ok(String::from("2024-03-02T03:35:09+05:30"))
    );
    let night = 1_709_258_400;
    assert_eq!(
        local_timestamp_at(night, offset(-8, 0)),
        Ok(String::from("2024-02-29T18:00:00-08:00"))
    );
}

#[test]
fn moving_past_the_last_date_overflows() {
    let last = 253_402_300_799;
    assert_eq!(
        local_timestamp_at(last, UtcOffset::utc()),
        Ok(String::from("9999-12-31T23:59:59+00:00"))
    );
    assert_eq!(
        local_timestamp_at(last, offset(-1, 0)),
        Ok(String::from("9999-12-31T22:59:59-01:00"))
    );
    assert_eq!(local_timestamp_at(last, offset(0, 1)), Err(Error::DatetimeOverflow));
    assert_eq!(local_timestamp_at(last - 59, offset(0, 1)), Err(Error::DatetimeOverflow));
    assert_eq!(
        local_timestamp_at(last - 60, offset(0, 1)),
        Ok(String::from("9999-12-31T23:59:59+00:01"))
    );
    assert_eq!(local_timestamp_at(last + 1, UtcOffset::utc()), Err(Error::DatetimeOverflow));
    assert_eq!(local_timestamp_at(i64::MAX, offset(1, 0)), Err(Error::DatetimeOverflow));
    assert_eq!(local_timestamp_at(i64::MIN, offset(-1, 0)), Err(Error::DatetimeOverflow));
}

#[test]
fn years_before_the_first_have_no_room() {
    let first = -62_167_219_200;
    assert_eq!(
        local_timestamp_at(first, UtcOffset::utc()),
        Ok(String::from("0000-01-01T00:00:00+00:00"))
    );
    assert_eq!(local_timestamp_at(first - 1, UtcOffset::utc()), Err(Error::TimeFormat));
    assert_eq!(local_timestamp_at(first, offset(-1, 0)), Err(Error::TimeFormat));
    assert_eq!(
        local_timestamp_at(first - 60, offset(0, 1)),
        Ok(String::from("0000-01-01T00:00:00+00:01"))
    );
}

#[test]
fn what_is_shown_of_an_offset_can_be_read_again() {
    let noon = civil(2000, 6, 15, 12, 0, 0);
    for hours in -12i8..=14 {
        for minutes in 0i8..=59 {
            let shown = format_timestamp(&noon, offset(hours, minutes)).unwrap();
            let marker: String = shown.chars().skip(19).collect();
            assert_eq!(marker.chars().count(), 6);
            assert_eq!(parse_offset(&marker), Ok(offset(hours, minutes)), "{}", marker);
        }
    }
}

#[test]
fn a_move_that_failed_is_an_overflow() {
    assert_eq!(timestamp_of(None, offset(1, 0)), Err(Error::DatetimeOverflow));
    assert_eq!(timestamp_of(None, UtcOffset::utc()), Err(Error::DatetimeOverflow));
    assert_eq!(
        timestamp_of(Some(civil(2031, 11, 5, 8, 30, 0)), offset(9, 0)),
        Ok(String::from("2031-11-05T08:30:00+09:00"))
    );
    assert_eq!(
        timestamp_of(Some(civil(12031, 11, 5, 8, 30, 0)), offset(9, 0)),
        Err(Error::TimeFormat)
    );
}
