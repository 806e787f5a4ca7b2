use dosekeeper::{Action, Config, DoseDecision, LocalDateTime, Medicine, MedicineTimer};

fn dose(medicine: Medicine, timestamp: i64) -> Action {
    Action { medicine, taken_at: LocalDateTime { timestamp, offset: 0 } }
}

#[test]
fn new_config_starts_empty_with_catalog_values() {
    let c = Config::new();
    assert_eq!(c.dose_count(&Medicine::Cephalexin), 0);
    assert_eq!(c.get_max_limit(&Medicine::Cephalexin), 4);
    assert_eq!(c.get_max_limit(&Medicine::Oxycodone), usize::MAX);
    assert_eq!(c.get_max_limit(&Medicine::Ibuprofen), 4);
    assert_eq!(c.get_max_limit(&Medicine::Lorazepam), 1);
    assert_eq!(c.get_max_limit(&Medicine::Allegra), 1);
    assert_eq!(c.get_default_duration(&Medicine::Cephalexin), 30);
    assert_eq!(c.get_default_duration(&Medicine::Oxycodone), 120);
    assert_eq!(c.get_default_duration(&Medicine::Allegra), 30);
}

#[test]
fn limit_reached_then_refused() {
    let mut c = Config::new();
    for _ in 0..4 {
        assert!(c.check_and_insert(&Medicine::Cephalexin));
    }
    assert_eq!(c.dose_count(&Medicine::Cephalexin), 4);
    assert!(!c.check_and_insert(&Medicine::Cephalexin));
    assert_eq!(c.dose_count(&Medicine::Cephalexin), 4);
    assert_eq!(c.dose_count(&Medicine::Ibuprofen), 0);
}

#[test]
fn single_dose_limit() {
    let mut c = Config::new();
    assert!(c.check_and_insert(&Medicine::Lorazepam));
    assert!(!c.check_and_insert(&Medicine::Lorazepam));
    assert_eq!(c.dose_count(&Medicine::Lorazepam), 1);
}

#[test]
fn unbounded_medicine_keeps_accepting() {
    let mut c = Config::new();
    for _ in 0..100 {
        assert!(c.check_and_insert(&Medicine::Oxycodone));
    }
    assert_eq!(c.dose_count(&Medicine::Oxycodone), 100);
}

#[test]
fn seeding_counts_history() {
    let history = vec![
        dose(Medicine::Cephalexin, 10),
        dose(Medicine::Ibuprofen, 20),
        dose(Medicine::Cephalexin, 30),
    ];
    let c = Config::from_actions(&history);
    assert_eq!(c.dose_count(&Medicine::Cephalexin), 2);
    assert_eq!(c.dose_count(&Medicine::Ibuprofen), 1);
    assert_eq!(c.dose_count(&Medicine::Allegra), 0);
}

#[test]
fn seeding_over_limit_then_refused() {
    let history = vec![
        dose(Medicine::Allegra, 10),
        dose(Medicine::Allegra, 20),
        dose(Medicine::Allegra, 30),
    ];
    let mut c = Config::from_actions(&history);
    assert_eq!(c.dose_count(&Medicine::Allegra), 3);
    assert!(!c.check_and_insert(&Medicine::Allegra));
    assert!(!c.check_and_insert(&Medicine::Allegra));
    assert_eq!(c.dose_count(&Medicine::Allegra), 3);
}

#[test]
fn seeding_within_window_skips_other_days() {
    let history = vec![
        dose(Medicine::Cephalexin, 99),
        dose(Medicine::Cephalexin, 100),
        dose(Medicine::Cephalexin, 150),
        dose(Medicine::Ibuprofen, 199),
        dose(Medicine::Ibuprofen, 200),
    ];
    let c = Config::from_actions_within(&history, Some((100, 199)));
    assert_eq!(c.dose_count(&Medicine::Cephalexin), 2);
    assert_eq!(c.dose_count(&Medicine::Ibuprofen), 1);
    let all = Config::from_actions_within(&history, None);
    assert_eq!(all.dose_count(&Medicine::Cephalexin), 3);
    assert_eq!(all.dose_count(&Medicine::Ibuprofen), 2);
}

#[test]
fn seeding_today_drops_yesterday() {
    let now = 1_700_000_000;
    let history = vec![
        dose(Medicine::Lorazepam, now - 3 * 86_400),
        dose(Medicine::Lorazepam, now),
    ];
    let c = Config::seed_from_history(&history, now);
    let expected = match LocalDateTime::local_day_window(now) {
        Some(_) => 1,
        None => 2,
    };
    assert_eq!(c.dose_count(&Medicine::Lorazepam), expected);
}

#[test]
fn seeding_from_empty_history() {
    let c = Config::from_actions(&[]);
    assert_eq!(c.dose_count(&Medicine::Oxycodone), 0);
}

#[test]
fn request_dose_decisions() {
    let mut c = Config::new();
    let mut timer = MedicineTimer::new_at(0);
    assert_eq!(
        c.request_dose(&timer, &Medicine::Allegra),
        DoseDecision::Accepted { duration: 30 }
    );
    assert_eq!(c.dose_count(&Medicine::Allegra), 1);
    timer.start(&Medicine::Allegra, 5);
    assert_eq!(c.request_dose(&timer, &Medicine::Allegra), DoseDecision::InCooldown);
    timer.end(&Medicine::Allegra);
    assert_eq!(c.request_dose(&timer, &Medicine::Allegra), DoseDecision::LimitExceeded);
    assert_eq!(c.dose_count(&Medicine::Allegra), 1);
    assert_eq!(
        c.request_dose(&timer, &Medicine::Oxycodone),
        DoseDecision::Accepted { duration: 120 }
    );
}

#[test]
fn cooldown_in_progress_records_nothing() {
    let mut c = Config::new();
    let mut timer = MedicineTimer::new_at(0);
    timer.start(&Medicine::Cephalexin, 0);
    assert_eq!(c.request_dose(&timer, &Medicine::Cephalexin), DoseDecision::InCooldown);
    assert_eq!(c.dose_count(&Medicine::Cephalexin), 0);
}
