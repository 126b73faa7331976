use chrono::Datelike;
use enclave::attendance::{check_submission, history_outcome, submission_outcome, AttendanceError, HISTORY_LIMIT};
use enclave::calendar::{CalendarDate, Weekday};
use enclave::meals::{get_available_meals, get_available_meals_for_today, meals_for_day};
use enclave::model::{AttendanceEntry, MealType};

fn entry(user: &str, meal: MealType, y: i32, m: u32, d: u32) -> AttendanceEntry {
    AttendanceEntry {
        id: None,
        user_id: user.to_string(),
        meal,
        date: CalendarDate::new(y, m, d).unwrap(),
        response: true,
        remarks: "late".to_string(),
    }
}

#[test]
fn weekday_meals() {
    for day in [Weekday::Mon, Weekday::Tue, Weekday::Wed, Weekday::Thu, Weekday::Fri] {
        assert_eq!(meals_for_day(day), vec![MealType::Breakfast, MealType::Dinner]);
    }
}

#[test]
fn weekend_meals() {
    for day in [Weekday::Sat, Weekday::Sun] {
        assert_eq!(meals_for_day(day), vec![MealType::Breakfast, MealType::Lunch, MealType::Dinner]);
    }
}

#[test]
fn todays_meals_follow_the_clock() {
    let utc_weekend = chrono::Utc::now().date_naive().weekday().number_from_monday() > 5;
    let expected = if utc_weekend { 3 } else { 2 };
    let meals = get_available_meals_for_today();
    assert!(meals.len() == expected || meals.len() == 5 - expected);
    let local = get_available_meals();
    assert!(local.len() == 2 || local.len() == 3);
    assert_eq!(local[0], MealType::Breakfast);
    assert_eq!(*local.last().unwrap(), MealType::Dinner);
}

#[test]
fn member_answers_for_themself() {
    let e = entry("900101", MealType::Dinner, 2024, 1, 8);
    let stored = check_submission("900101", false, e).unwrap();
    assert_eq!(stored.user_id, "900101");
    assert_eq!(stored.meal, MealType::Dinner);
    assert_eq!(stored.remarks, "late");
}

#[test]
fn member_cannot_answer_for_another() {
    let e = entry("900102", MealType::Breakfast, 2024, 1, 8);
    match check_submission("900101", false, e) {
        Err(AttendanceError::Forbidden(m)) => assert_eq!(m, "Cannot submit for another member"),
        other => panic!("unexpected {:?}", other),
    }
}

#[test]
fn admin_answers_for_anyone() {
    let e = entry("900102", MealType::Breakfast, 2024, 1, 8);
    let stored = check_submission("1", true, e).unwrap();
    assert_eq!(stored.user_id, "900102");
}

#[test]
fn lunch_on_a_weekday_is_refused() {
    let e = entry("900101", MealType::Lunch, 2024, 1, 10);
    match check_submission("900101", false, e) {
        Err(AttendanceError::RuleViolation(m)) => {
            assert_eq!(m, "Lunch is only served on weekends (Saturday & Sunday)")
        }
        other => panic!("unexpected {:?}", other),
    }
    let e = entry("900102", MealType::Lunch, 2024, 1, 12);
    assert!(matches!(check_submission("1", true, e), Err(AttendanceError::RuleViolation(_))));
}

#[test]
fn lunch_at_the_weekend_is_accepted() {
    assert!(check_submission("900101", false, entry("900101", MealType::Lunch, 2024, 1, 6)).is_ok());
    assert!(check_submission("900101", false, entry("900101", MealType::Lunch, 2024, 1, 7)).is_ok());
}

#[test]
fn forbidden_comes_before_the_lunch_rule() {
    let e = entry("someone", MealType::Lunch, 2024, 1, 10);
    assert!(matches!(check_submission("900101", false, e), Err(AttendanceError::Forbidden(_))));
}

#[test]
fn store_failures() {
    assert!(submission_outcome(Ok(())).is_ok());
    match submission_outcome(Err(())) {
        Err(AttendanceError::Internal(m)) => assert_eq!(m, "Failed to record entry"),
        other => panic!("unexpected {:?}", other),
    }
    match history_outcome(Err(())) {
        Err(AttendanceError::Internal(m)) => assert_eq!(m, "Database read error"),
        other => panic!("unexpected {:?}", other),
    }
    let h = history_outcome(Ok(vec![entry("a", MealType::Dinner, 2024, 1, 1)])).unwrap();
    assert_eq!(h.len(), 1);
    assert_eq!(HISTORY_LIMIT, 30);
}
