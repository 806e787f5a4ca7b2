use dosekeeper::{Action, Config, LocalDateTime, Medicine, MedicineTimer};

#[test]
fn format_seconds_pads_each_field() {
    let c = Config::new();
    assert_eq!(c.format_seconds(0), "00:00:00");
    assert_eq!(c.format_seconds(3_725), "01:02:05");
    assert_eq!(c.format_seconds(59), "00:00:59");
    assert_eq!(c.format_seconds(86_399), "23:59:59");
    assert_eq!(c.format_seconds(360_000), "100:00:00");
}

#[test]
fn summary_lists_cooling_medicines_in_order() {
    let c = Config::new();
    let mut t = MedicineTimer::new_at(0);
    t.start(&Medicine::Lorazepam, 1_010);
    t.start(&Medicine::Cephalexin, 1_000);
    assert_eq!(
        c.calculate_all_remaining_at(&t, 1_020),
        "Cephalexin: 00:00:10, Lorazepam: 00:00:20"
    );
    assert_eq!(c.calculate_all_remaining_at(&t, 5_000), "Cephalexin: 00:00:00, Lorazepam: 00:00:00");
}

#[test]
fn summary_empty_when_idle() {
    let c = Config::new();
    let t = MedicineTimer::new_at(0);
    assert_eq!(c.calculate_all_remaining_at(&t, 10), "");
    assert_eq!(c.calculate_all_remaining(&t), "");
}

#[test]
fn summary_with_clock_after_old_start() {
    let c = Config::new();
    let mut t = MedicineTimer::new_at(0);
    t.start(&Medicine::Oxycodone, 0);
    assert_eq!(c.calculate_all_remaining(&t), "Oxycodone: 00:00:00");
}

#[test]
fn medicine_names() {
    assert_eq!(Medicine::Cephalexin.name(), "Cephalexin");
    assert_eq!(Medicine::Oxycodone.as_str(), "Oxycodone");
    assert_eq!(Medicine::from_name("Ibuprofen"), Some(Medicine::Ibuprofen));
    assert_eq!(Medicine::from_name("Allegra"), Some(Medicine::Allegra));
    assert_eq!(Medicine::from_name("Lorazepam"), Some(Medicine::Lorazepam));
    assert_eq!(Medicine::from_name("aspirin"), None);
    assert_eq!(Medicine::from_name(""), None);
}

#[test]
fn menu_choices() {
    assert_eq!(Medicine::from_menu_choice(1), Some(Medicine::Cephalexin));
    assert_eq!(Medicine::from_menu_choice(2), Some(Medicine::Ibuprofen));
    assert_eq!(Medicine::from_menu_choice(3), Some(Medicine::Oxycodone));
    assert_eq!(Medicine::from_menu_choice(4), Some(Medicine::Lorazepam));
    assert_eq!(Medicine::from_menu_choice(5), Some(Medicine::Allegra));
    assert_eq!(Medicine::from_menu_choice(0), None);
    assert_eq!(Medicine::from_menu_choice(6), None);
}

#[test]
fn index_round_trip() {
    for i in 0..5 {
        assert_eq!(Medicine::from_index(i).index(), i);
    }
}

#[test]
fn timestamp_text_round_trip() {
    let t = LocalDateTime { timestamp: 1_700_000_000, offset: 19_800 };
    let text = t.to_rfc3339().unwrap();
    assert_eq!(text, "2023-11-15T03:43:20+05:30");
    assert_eq!(LocalDateTime::parse_rfc3339(&text), Some(t));
    let w = LocalDateTime { timestamp: -86_400, offset: -3_600 };
    let back = LocalDateTime::parse_rfc3339(&w.to_rfc3339().unwrap());
    assert_eq!(back, Some(w));
}

#[test]
fn timestamp_text_utc() {
    let t = LocalDateTime { timestamp: 1_700_000_000, offset: 0 };
    assert_eq!(t.to_rfc3339().unwrap(), "2023-11-14T22:13:20+00:00");
}

#[test]
fn timestamp_text_rejects_bad_offset_and_garbage() {
    let t = LocalDateTime { timestamp: 0, offset: 86_400 };
    assert_eq!(t.to_rfc3339(), None);
    assert_eq!(LocalDateTime::parse_rfc3339("yesterday"), None);
    assert_eq!(LocalDateTime::new(0, 86_400), None);
    assert_eq!(LocalDateTime::new(5, -3_600), Some(LocalDateTime { timestamp: 5, offset: -3_600 }));
}

#[test]
fn day_window_holds_now() {
    let now = 1_700_000_000;
    if let Some((start, end)) = LocalDateTime::local_day_window(now) {
        assert!(start <= now && now <= end);
        assert!(end - start >= 82_799 && end - start <= 90_000);
    }
}

#[test]
fn checked_window_keeps_only_spans_holding_now() {
    assert_eq!(LocalDateTime::checked_window(Some((10, 20)), 15), Some((10, 20)));
    assert_eq!(LocalDateTime::checked_window(Some((10, 20)), 10), Some((10, 20)));
    assert_eq!(LocalDateTime::checked_window(Some((10, 20)), 20), Some((10, 20)));
    assert_eq!(LocalDateTime::checked_window(Some((10, 20)), 21), None);
    assert_eq!(LocalDateTime::checked_window(None, 5), None);
}

#[test]
fn timestamp_text_round_trip_with_signed_offset() {
    let t = LocalDateTime { timestamp: 1_000, offset: -34_200 };
    let back = LocalDateTime::parse_rfc3339(&t.to_rfc3339().unwrap());
    assert_eq!(back, Some(t));
    let last = LocalDateTime { timestamp: 253_402_300_799, offset: 3_600 };
    let back = LocalDateTime::parse_rfc3339(&last.to_rfc3339().unwrap());
    assert_eq!(back, Some(last));
}

#[test]
fn now_is_a_plausible_instant() {
    let a = Action::new(Medicine::Allegra);
    assert_eq!(a.medicine, Medicine::Allegra);
    assert!(a.taken_at.timestamp > 1_600_000_000);
    assert!(a.taken_at.offset > -86_400 && a.taken_at.offset < 86_400);
}
