use enclave::calendar::CalendarDate;
use enclave::model::{AttendanceEntry, MealType, UserRecord};
use enclave::storage::{decode_entry, entry_row, lookup_key, meal_from_label, meal_label, user_row, StoredEntry};

#[test]
fn meal_labels() {
    assert_eq!(meal_label(MealType::Breakfast), "Breakfast");
    assert_eq!(meal_label(MealType::Lunch), "Lunch");
    assert_eq!(meal_label(MealType::Dinner), "Dinner");
    for m in [MealType::Breakfast, MealType::Lunch, MealType::Dinner] {
        assert_eq!(meal_from_label(meal_label(m)), m);
    }
    assert_eq!(meal_from_label("Supper"), MealType::Dinner);
    assert_eq!(meal_from_label("lunch"), MealType::Dinner);
}

#[test]
fn entry_is_laid_out_in_column_order() {
    let e = AttendanceEntry {
        id: None,
        user_id: "900101".to_string(),
        meal: MealType::Lunch,
        date: CalendarDate::new(2024, 1, 6).unwrap(),
        response: false,
        remarks: "away".to_string(),
    };
    let row = entry_row(&e);
    assert_eq!(row.user_id, "900101");
    assert_eq!(row.meal_type, "Lunch");
    assert_eq!(row.date, "2024-01-06");
    assert_eq!(row.response, "0");
    assert_eq!(row.remarks, "away");
}

#[test]
fn written_entry_reads_back() {
    let e = AttendanceEntry {
        id: None,
        user_id: "900101".to_string(),
        meal: MealType::Breakfast,
        date: CalendarDate::new(2023, 11, 30).unwrap(),
        response: true,
        remarks: "".to_string(),
    };
    let row = entry_row(&e);
    let stored = StoredEntry {
        id: 17,
        user_id: row.user_id.clone(),
        meal_type: row.meal_type.clone(),
        date: row.date.clone(),
        response: row.response.parse().unwrap(),
        remarks: Some(row.remarks.clone()),
    };
    let back = decode_entry(stored);
    assert_eq!(back.id, Some(17));
    assert_eq!(back.user_id, e.user_id);
    assert_eq!(back.meal, e.meal);
    assert_eq!(back.date, e.date);
    assert_eq!(back.response, e.response);
    assert_eq!(back.remarks, e.remarks);
}

#[test]
fn odd_rows_read_with_defaults() {
    let stored = StoredEntry {
        id: 3,
        user_id: "u".to_string(),
        meal_type: "Brunch".to_string(),
        date: "not a date".to_string(),
        response: 2,
        remarks: None,
    };
    let before = CalendarDate::utc_today();
    let back = decode_entry(stored);
    let after = CalendarDate::utc_today();
    assert_eq!(back.meal, MealType::Dinner);
    assert!(!back.response);
    assert_eq!(back.remarks, "");
    // an unreadable date is replaced by today's UTC date
    assert!(back.date == before || back.date == after);
}

#[test]
fn account_row() {
    let u = UserRecord {
        id: "-42".to_string(),
        ic_no: -42,
        name: "N".to_string(),
        email: "e@x".to_string(),
        password_hash: "h".to_string(),
        designation: "D".to_string(),
        ci: "C".to_string(),
        is_admin: true,
    };
    let row = user_row(&u);
    assert_eq!(row.id, "-42");
    assert_eq!(row.ic_no, "-42");
    assert_eq!(row.is_admin, "1");
    assert_eq!(row.password_hash, "h");
    assert_eq!(row.email, "e@x");
}

#[test]
fn lookup_key_trims() {
    assert_eq!(lookup_key("  900101\n"), "900101");
    assert_eq!(lookup_key("900101"), "900101");
}
