//! How accounts and attendance entries are laid out in the store's rows, and
//! how rows are read back.

use crate::calendar::{chrono_parse_iso, is_valid_ymd, CalendarDate};
use crate::model::{AttendanceEntry, EntryView, MealType, UserRecord};
use crate::text::{decimal_digits, decimal_text, digit_char, int_to_decimal, trim, trim_seq};
use vstd::prelude::*;

verus! {

/// The label under which a meal is stored.
pub open spec fn meal_label_text(meal: MealType) -> Seq<char> {
    match meal {
        MealType::Breakfast => "Breakfast"@,
        MealType::Lunch => "Lunch"@,
        MealType::Dinner => "Dinner"@,
    }
}

/// The meal a stored label stands for; an unknown label reads as dinner.
pub open spec fn meal_of_label(label: Seq<char>) -> MealType {
    if label == "Breakfast"@ {
        MealType::Breakfast
    } else if label == "Lunch"@ {
        MealType::Lunch
    } else {
        MealType::Dinner
    }
}

/// How a yes/no answer is stored.
pub open spec fn flag_text(b: bool) -> Seq<char> {
    if b {
        "1"@
    } else {
        "0"@
    }
}

/// The label under which a meal is stored.
pub fn meal_label(meal: MealType) -> (s: &'static str)
    ensures
        s@ == meal_label_text(meal),
{
    match meal {
        MealType::Breakfast => "Breakfast",
        MealType::Lunch => "Lunch",
        MealType::Dinner => "Dinner",
    }
}

/// Reads a stored meal label; anything but `Breakfast` or `Lunch` is dinner.
pub fn meal_from_label(label: &str) -> (m: MealType)
    ensures
        m == meal_of_label(label@),
{
    let label = String::from_str(label);
    if label == String::from_str("Breakfast") {
        MealType::Breakfast
    } else if label == String::from_str("Lunch") {
        MealType::Lunch
    } else {
        MealType::Dinner
    }
}

fn flag(b: bool) -> (s: String)
    ensures
        s@ == flag_text(b),
{
    if b {
        String::from_str("1")
    } else {
        String::from_str("0")
    }
}

/// The values written for a new attendance entry, in column order:
/// `user_id, meal_type, date, response, remarks`.
pub struct EntryRow {
    pub user_id: String,
    pub meal_type: String,
    pub date: String,
    pub response: String,
    pub remarks: String,
}

/// Lays an attendance entry out as a row.
pub fn entry_row(entry: &AttendanceEntry) -> (row: EntryRow)
    ensures
        row.user_id@ == entry.user_id@,
        row.meal_type@ == meal_label_text(entry.meal),
        row.date@ == entry.date.spec_iso_text(),
        row.response@ == flag_text(entry.response),
        row.remarks@ == entry.remarks@,
        chrono_parse_iso(row.date@) == Some(
            (entry.date@.0 as i32, entry.date@.1 as u32, entry.date@.2 as u32),
        ),
{
    EntryRow {
        user_id: entry.user_id.clone(),
        meal_type: String::from_str(meal_label(entry.meal)),
        date: entry.date.to_iso_text(),
        response: flag(entry.response),
        remarks: entry.remarks.clone(),
    }
}

/// A row of the entries table as read back: `id, user_id, meal_type, date,
/// response` and, when it could be read as text, `remarks`.
pub struct StoredEntry {
    pub id: i64,
    pub user_id: String,
    pub meal_type: String,
    pub date: String,
    pub response: i32,
    pub remarks: Option<String>,
}

/// Reads a stored row back as an entry, leaving its date to `date`: the id is
/// the row's, an unknown meal label is dinner, the answer is yes exactly when
/// the stored value is 1, and unreadable remarks are empty.
pub open spec fn entry_of_row(row: StoredEntry, date: (int, int, int)) -> EntryView {
    EntryView {
        id: Some(row.id),
        user_id: row.user_id@,
        meal: meal_of_label(row.meal_type@),
        date: date,
        response: row.response == 1,
        remarks: match row.remarks {
            Some(r) => r@,
            None => Seq::empty(),
        },
    }
}

/// Reads a stored row back as an entry dated `date`.
pub fn entry_from_row(row: StoredEntry, date: CalendarDate) -> (e: AttendanceEntry)
    ensures
        e@ == entry_of_row(row, date@),
        e.date == date,
{
    let remarks = match row.remarks {
        Some(r) => r,
        None => String::new(),
    };
    let meal = meal_from_label(row.meal_type.as_str());
    AttendanceEntry {
        id: Some(row.id),
        user_id: row.user_id,
        meal,
        date,
        response: row.response == 1,
        remarks,
    }
}

/// Reads a stored row back as an entry. A date that does not read as
/// `%Y-%m-%d` is replaced by today's UTC date.
pub fn decode_entry(row: StoredEntry) -> (e: AttendanceEntry)
    ensures
        match chrono_parse_iso(row.date@) {
            Some(t) => e@ == entry_of_row(row, (t.0 as int, t.1 as int, t.2 as int)),
            None => e@ == entry_of_row(row, e.date@),
        },
{
    let date = match CalendarDate::parse_iso(row.date.as_str()) {
        Some(d) => d,
        None => CalendarDate::utc_today(),
    };
    entry_from_row(row, date)
}

/// The values written for a new account, in column order:
/// `id, ic_no, name, email, password_hash, designation, ci, is_admin`.
pub struct UserRow {
    pub id: String,
    pub ic_no: String,
    pub name: String,
    pub email: String,
    pub password_hash: String,
    pub designation: String,
    pub ci: String,
    pub is_admin: String,
}

/// Lays an account out as a row.
pub fn user_row(user: &UserRecord) -> (row: UserRow)
    ensures
        row.id@ == user.id@,
        row.ic_no@ == decimal_text(user.ic_no as int),
        row.name@ == user.name@,
        row.email@ == user.email@,
        row.password_hash@ == user.password_hash@,
        row.designation@ == user.designation@,
        row.ci@ == user.ci@,
        row.is_admin@ == flag_text(user.is_admin),
{
    UserRow {
        id: user.id.clone(),
        ic_no: int_to_decimal(user.ic_no as i64),
        name: user.name.clone(),
        email: user.email.clone(),
        password_hash: user.password_hash.clone(),
        designation: user.designation.clone(),
        ci: user.ci.clone(),
        is_admin: flag(user.is_admin),
    }
}

/// The key an account is looked up by: the typed IC number without surrounding
/// whitespace. It matches an account whose id, or whose IC number in decimal,
/// equals it.
pub fn lookup_key(ic_input: &str) -> (k: String)
    ensures
        k@ == trim_seq(ic_input@),
{
    trim(ic_input)
}

/// Law: a meal read back from the label it is stored under is the same meal.
pub proof fn meal_label_reads_back(meal: MealType)
    ensures
        meal_of_label(meal_label_text(meal)) == meal,
{
    reveal_strlit("Breakfast");
    reveal_strlit("Lunch");
    reveal_strlit("Dinner");
    assert("Breakfast"@.len() == 9);
    assert("Lunch"@.len() == 5);
    assert("Dinner"@.len() == 6);
}

proof fn decimal_digits_nonempty(n: nat)
    ensures
        decimal_digits(n).len() >= 1,
    decreases n,
{
    if n >= 10 {
        decimal_digits_nonempty(n / 10);
    }
}

/// The only integer written as `1` is 1, the only one written as `0` is 0.
proof fn single_digit_text(x: int, d: int)
    requires
        0 <= d <= 9,
        decimal_text(x) == seq![digit_char(d)],
    ensures
        x == d,
{
    if x < 0 {
        decimal_digits_nonempty((-x) as nat);
        assert(decimal_text(x).len() >= 2);
    } else if x >= 10 {
        decimal_digits_nonempty((x / 10) as nat);
        assert(decimal_text(x).len() >= 2);
    } else {
        assert(decimal_text(x)[0] == digit_char(x));
    }
}

/// Law: an entry laid out by [`entry_row`] and read back by [`decode_entry`]
/// is the same entry, under the id the store gave the row. `row` is what the
/// store gives back for the written values: the same texts, the answer as the
/// integer the written flag denotes, the remarks as written.
pub proof fn stored_entry_reads_back(entry: EntryView, row: StoredEntry)
    requires
        is_valid_ymd(entry.date.0, entry.date.1, entry.date.2),
        row.user_id@ == entry.user_id,
        row.meal_type@ == meal_label_text(entry.meal),
        chrono_parse_iso(row.date@) == Some(
            (entry.date.0 as i32, entry.date.1 as u32, entry.date.2 as u32),
        ),
        decimal_text(row.response as int) == flag_text(entry.response),
        row.remarks matches Some(r) && r@ == entry.remarks,
    ensures
        chrono_parse_iso(row.date@) matches Some(t) && (t.0 as int, t.1 as int, t.2 as int)
            == entry.date,
        entry_of_row(row, entry.date) == (EntryView {
            id: Some(row.id),
            user_id: entry.user_id,
            meal: entry.meal,
            date: entry.date,
            response: entry.response,
            remarks: entry.remarks,
        }),
{
    meal_label_reads_back(entry.meal);
    reveal_strlit("1");
    reveal_strlit("0");
    if entry.response {
        assert("1"@ =~= seq![digit_char(1)]);
        single_digit_text(row.response as int, 1);
    } else {
        assert("0"@ =~= seq![digit_char(0)]);
        single_digit_text(row.response as int, 0);
    }
}

} // verus!
