//! Which meals the mess serves on which day: breakfast and dinner every day,
//! lunch on Saturdays and Sundays only.

use crate::calendar::{CalendarDate, Weekday};
use crate::model::MealType;
use vstd::prelude::*;

verus! {

/// The meals served on `day`, in serving order.
pub open spec fn meals_on(day: Weekday) -> Seq<MealType> {
    if day.spec_is_weekend() {
        seq![MealType::Breakfast, MealType::Lunch, MealType::Dinner]
    } else {
        seq![MealType::Breakfast, MealType::Dinner]
    }
}

/// Whether `meal` is served on `day`.
pub open spec fn is_served(meal: MealType, day: Weekday) -> bool {
    meal != MealType::Lunch || day.spec_is_weekend()
}

/// The meals served on `day`, in serving order.
pub fn meals_for_day(day: Weekday) -> (r: Vec<MealType>)
    ensures
        r@ == meals_on(day),
{
    if day.is_weekend() {
        vec![MealType::Breakfast, MealType::Lunch, MealType::Dinner]
    } else {
        vec![MealType::Breakfast, MealType::Dinner]
    }
}

/// The meals served today, by the machine's local calendar: breakfast and
/// dinner on Monday to Friday (days 1 to 5 counted from Monday), all three
/// otherwise.
pub fn get_available_meals() -> (r: Vec<MealType>)
    ensures
        exists|day: Weekday| r@ == meals_on(day),
{
    let today = CalendarDate::local_today();
    let day = today.weekday();
    meals_for_day(day)
}

/// The meals served today, by the UTC calendar.
pub fn get_available_meals_for_today() -> (r: Vec<MealType>)
    ensures
        exists|day: Weekday| r@ == meals_on(day),
{
    let today = CalendarDate::utc_today();
    let day = today.weekday();
    meals_for_day(day)
}

/// Law: a meal is offered on a day exactly when it is served that day; in
/// particular breakfast and dinner are offered every day, lunch only at the
/// weekend.
pub proof fn offered_iff_served(meal: MealType, day: Weekday)
    ensures
        meals_on(day).contains(meal) <==> is_served(meal, day),
        meals_on(day).contains(MealType::Breakfast),
        meals_on(day).contains(MealType::Dinner),
        meals_on(day).contains(MealType::Lunch) <==> (day == Weekday::Sat || day == Weekday::Sun),
{
    let s = meals_on(day);
    assert(s[0] == MealType::Breakfast);
    if day.spec_is_weekend() {
        assert(s[1] == MealType::Lunch);
        assert(s[2] == MealType::Dinner);
        assert(s.contains(meal)) by {
            match meal {
                MealType::Breakfast => assert(s[0] == meal),
                MealType::Lunch => assert(s[1] == meal),
                MealType::Dinner => assert(s[2] == meal),
            }
        }
    } else {
        assert(s[1] == MealType::Dinner);
        if meal != MealType::Lunch {
            assert(s.contains(meal)) by {
                match meal {
                    MealType::Breakfast => assert(s[0] == meal),
                    MealType::Lunch => {},
                    MealType::Dinner => assert(s[1] == meal),
                }
            }
        }
        assert(!s.contains(MealType::Lunch)) by {
            if s.contains(MealType::Lunch) {
                let i = choose|i: int| 0 <= i < s.len() && s[i] == MealType::Lunch;
                assert(i == 0 || i == 1);
            }
        }
    }
}

} // verus!
