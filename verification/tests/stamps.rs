use courier::stamp::Timestamp;

fn text_of(year: i32, month: u32, day: u32, hour: u32, minute: u32, second: u32) -> String {
    Timestamp::new(year, month, day, hour, minute, second)
        .expect("a valid moment")
        .text()
}

#[test]
fn stamp_is_zero_padded() {
    assert_eq!(text_of(2024, 3, 9, 8, 5, 1), "2024-03-09 08:05:01");
}

#[test]
fn stamp_of_the_first_and_the_last_moment() {
    assert_eq!(text_of(0, 1, 1, 0, 0, 0), "0000-01-01 00:00:00");
    assert_eq!(text_of(9999, 12, 31, 23, 59, 59), "9999-12-31 23:59:59");
}

#[test]
fn stamp_pads_small_years_to_four_digits() {
    assert_eq!(text_of(7, 1, 2, 0, 0, 0), "0007-01-02 00:00:00");
    assert_eq!(text_of(987, 10, 20, 13, 14, 15), "0987-10-20 13:14:15");
}

#[test]
fn leap_day_exists_in_leap_years_only() {
    assert!(Timestamp::new(2024, 2, 29, 0, 0, 0).is_some());
    assert!(Timestamp::new(2000, 2, 29, 0, 0, 0).is_some());
    assert!(Timestamp::new(2023, 2, 29, 0, 0, 0).is_none());
    assert!(Timestamp::new(1900, 2, 29, 0, 0, 0).is_none());
    assert!(Timestamp::new(2023, 2, 28, 0, 0, 0).is_some());
}

#[test]
fn months_have_their_own_lengths() {
    for month in [1u32, 3, 5, 7, 8, 10, 12] {
        assert!(Timestamp::new(2023, month, 31, 0, 0, 0).is_some());
        assert!(Timestamp::new(2023, month, 32, 0, 0, 0).is_none());
    }
    for month in [4u32, 6, 9, 11] {
        assert!(Timestamp::new(2023, month, 30, 0, 0, 0).is_some());
        assert!(Timestamp::new(2023, month, 31, 0, 0, 0).is_none());
    }
}

#[test]
fn fields_out_of_range_are_refused() {
    assert!(Timestamp::new(2023, 0, 1, 0, 0, 0).is_none());
    assert!(Timestamp::new(2023, 13, 1, 0, 0, 0).is_none());
    assert!(Timestamp::new(2023, 1, 0, 0, 0, 0).is_none());
    assert!(Timestamp::new(2023, 1, 1, 24, 0, 0).is_none());
    assert!(Timestamp::new(2023, 1, 1, 0, 60, 0).is_none());
    assert!(Timestamp::new(2023, 1, 1, 0, 0, 60).is_none());
    assert!(Timestamp::new(-1, 1, 1, 0, 0, 0).is_none());
    assert!(Timestamp::new(10000, 1, 1, 0, 0, 0).is_none());
}

#[test]
fn the_local_clock_gives_a_stamp_of_the_fixed_shape() {
    let now = Timestamp::now().expect("a clock within four-digit years");
    let text = now.text();
    let chars: Vec<char> = text.chars().collect();
    assert_eq!(chars.len(), 19);
    for (at, c) in chars.iter().enumerate() {
        match at {
            4 | 7 => assert_eq!(*c, '-'),
            10 => assert_eq!(*c, ' '),
            13 | 16 => assert_eq!(*c, ':'),
            _ => assert!(c.is_ascii_digit()),
        }
    }
    let year: i32 = text[0..4].parse().unwrap();
    assert!(year >= 2024);
}
