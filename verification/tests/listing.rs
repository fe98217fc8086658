use travel_plan::listing::{list_trips, total_fare, trip_label, trip_labels, trip_line, NO_TRIPS};
use travel_plan::trip::Trip;

fn morning() -> Trip {
    Trip {
        departure_time: "08:00".to_string(),
        departure_station: "Tokyo".to_string(),
        line: "Yamanote".to_string(),
        train_type: "Local".to_string(),
        destination: "Shinjuku".to_string(),
        fare: 150,
        arrival_time: "08:20".to_string(),
        arrival_station: "Shinjuku".to_string(),
    }
}

fn noon() -> Trip {
    Trip {
        departure_time: "12:30".to_string(),
        departure_station: "新宿".to_string(),
        line: "中央".to_string(),
        train_type: "快速".to_string(),
        destination: "高尾".to_string(),
        fare: 320,
        arrival_time: "13:05".to_string(),
        arrival_station: "立川".to_string(),
    }
}

fn costly(fare: u32) -> Trip {
    Trip { fare, ..morning() }
}

#[test]
fn line_shows_every_attribute() {
    assert_eq!(
        trip_line(0, &morning()),
        "1. 08:00 Tokyo → 08:20 Shinjuku (Yamanote線 Local Shinjuku行 ¥150)"
    );
    assert_eq!(trip_line(1, &noon()), "2. 12:30 新宿 → 13:05 立川 (中央線 快速 高尾行 ¥320)");
}

#[test]
fn line_counts_positions_from_one() {
    assert!(trip_line(0, &morning()).starts_with("1. "));
    assert!(trip_line(9, &morning()).starts_with("10. "));
    assert!(trip_line(122, &morning()).starts_with("123. "));
    assert!(trip_line(usize::MAX, &morning()).starts_with(&format!("{}. ", usize::MAX as u128 + 1)));
}

#[test]
fn line_of_a_blank_trip_keeps_the_frame() {
    assert_eq!(trip_line(0, &Trip::blank()), "1.   →   (線  行 ¥0)");
}

#[test]
fn label_shows_the_two_stations() {
    assert_eq!(trip_label(0, &morning()), "1. Tokyo → Shinjuku");
    assert_eq!(trip_label(4, &noon()), "5. 新宿 → 立川");
}

#[test]
fn labels_follow_the_collection() {
    assert_eq!(
        trip_labels(&vec![morning(), noon(), morning()]),
        vec!["1. Tokyo → Shinjuku", "2. 新宿 → 立川", "3. Tokyo → Shinjuku"]
    );
}

#[test]
fn labels_of_no_trips_are_none() {
    assert!(trip_labels(&Vec::new()).is_empty());
}

#[test]
fn total_of_no_trips_is_zero() {
    assert_eq!(total_fare(&Vec::new()), 0);
}

#[test]
fn total_adds_all_fares() {
    assert_eq!(total_fare(&vec![morning()]), 150);
    assert_eq!(total_fare(&vec![morning(), noon()]), 470);
    assert_eq!(total_fare(&vec![noon(), morning(), noon()]), 790);
}

#[test]
fn total_goes_beyond_a_single_fare() {
    assert_eq!(total_fare(&vec![costly(u32::MAX), costly(u32::MAX)]), 8589934590);
    assert_eq!(total_fare(&vec![costly(u32::MAX), costly(1), costly(u32::MAX)]), 8589934591);
}

#[test]
fn listing_of_no_trips_says_so() {
    assert_eq!(list_trips(&Vec::new()), vec![NO_TRIPS]);
    assert_eq!(NO_TRIPS, "保存された旅行計画はありません。");
}

#[test]
fn listing_shows_lines_then_total() {
    assert_eq!(
        list_trips(&vec![morning(), noon()]),
        vec![
            "1. 08:00 Tokyo → 08:20 Shinjuku (Yamanote線 Local Shinjuku行 ¥150)",
            "2. 12:30 新宿 → 13:05 立川 (中央線 快速 高尾行 ¥320)",
            "",
            "合計金額: ¥470",
        ]
    );
}

#[test]
fn listing_keeps_the_order_of_the_collection() {
    let lines = list_trips(&vec![noon(), morning(), noon()]);
    assert_eq!(lines.len(), 5);
    assert_eq!(lines[0], trip_line(0, &noon()));
    assert_eq!(lines[1], trip_line(1, &morning()));
    assert_eq!(lines[2], trip_line(2, &noon()));
    assert_eq!(lines[4], "合計金額: ¥790");
}

#[test]
fn listing_twice_gives_the_same_lines() {
    let trips = vec![morning(), noon(), costly(7)];
    let first = list_trips(&trips);
    let second = list_trips(&trips);
    assert_eq!(first, second);
    assert_eq!(first.last().unwrap(), "合計金額: ¥477");
    assert_eq!(total_fare(&trips), 477);
    assert_eq!(total_fare(&trips), total_fare(&trips));
}

#[test]
fn listing_shows_a_total_that_no_fare_could_hold() {
    let lines = list_trips(&vec![costly(u32::MAX), costly(u32::MAX)]);
    assert_eq!(lines[3], "合計金額: ¥8589934590");
}
