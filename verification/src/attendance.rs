//! The attendance rules: who may answer for whom, which meals can be answered
//! for on which day, and what a failed store operation is reported as.

use crate::calendar::Weekday;
use crate::meals::{is_served, meals_on, offered_iff_served};
use crate::model::{AttendanceEntry, EntryView, MealType};
use vstd::prelude::*;

verus! {

/// Why an attendance request was refused.
#[derive(Clone, Debug)]
pub enum AttendanceError {
    /// The requester may not answer for this member.
    Forbidden(String),
    /// The answer breaks a mess rule.
    RuleViolation(String),
    /// The store failed.
    Internal(String),
}

/// The mathematical content of an [`AttendanceError`].
pub enum AttendanceFailure {
    Forbidden(Seq<char>),
    RuleViolation(Seq<char>),
    Internal(Seq<char>),
}

impl View for AttendanceError {
    type V = AttendanceFailure;

    open spec fn view(&self) -> AttendanceFailure {
        match self {
            AttendanceError::Forbidden(m) => AttendanceFailure::Forbidden(m@),
            AttendanceError::RuleViolation(m) => AttendanceFailure::RuleViolation(m@),
            AttendanceError::Internal(m) => AttendanceFailure::Internal(m@),
        }
    }
}

/// How many past entries a member's history shows.
pub const HISTORY_LIMIT: u32 = 30;

/// Why a submission of `entry` by `requester` (an administrator when
/// `is_admin`) is refused, when `entry`'s date falls on `day`; `None` when it is
/// accepted. A member answers only for themself; an administrator answers for
/// anyone. Lunch can only be answered for on a weekend.
pub open spec fn submission_refusal(
    requester: Seq<char>,
    is_admin: bool,
    entry: EntryView,
    day: Weekday,
) -> Option<AttendanceFailure> {
    if !is_admin && entry.user_id != requester {
        Some(AttendanceFailure::Forbidden("Cannot submit for another member"@))
    } else if !is_served(entry.meal, day) {
        Some(
            AttendanceFailure::RuleViolation(
                "Lunch is only served on weekends (Saturday & Sunday)"@,
            ),
        )
    } else {
        None
    }
}

/// Checks a submission before it is stored, given the day of the week of the
/// entry's date, and gives the entry to store. The entry of a member who is
/// not an administrator is stored under the requester's own id.
pub fn check_submission_on(
    requester_id: &str,
    is_admin: bool,
    entry: AttendanceEntry,
    day: Weekday,
) -> (r: Result<AttendanceEntry, AttendanceError>)
    ensures
        match submission_refusal(requester_id@, is_admin, entry@, day) {
            Some(f) => r matches Err(e) && e@ == f,
            None => r matches Ok(stored) && stored@ == entry@ && stored.date == entry.date && (
            !is_admin ==> stored.user_id@ == requester_id@),
        },
{
    let mut entry = entry;
    let requester = String::from_str(requester_id);
    if !is_admin && !(entry.user_id == requester) {
        return Err(AttendanceError::Forbidden(String::from_str("Cannot submit for another member")));
    }
    if !is_admin {
        entry.user_id = requester;
    }
    if entry.meal == MealType::Lunch && !day.is_weekend() {
        return Err(
            AttendanceError::RuleViolation(
                String::from_str("Lunch is only served on weekends (Saturday & Sunday)"),
            ),
        );
    }
    Ok(entry)
}

/// Checks a submission before it is stored, on the day of the week of the
/// entry's date, and gives the entry to store.
pub fn check_submission(requester_id: &str, is_admin: bool, entry: AttendanceEntry) -> (r: Result<
    AttendanceEntry,
    AttendanceError,
>)
    ensures
        match submission_refusal(requester_id@, is_admin, entry@, entry.date.spec_weekday()) {
            Some(f) => r matches Err(e) && e@ == f,
            None => r matches Ok(stored) && stored@ == entry@ && stored.date == entry.date && (
            !is_admin ==> stored.user_id@ == requester_id@),
        },
{
    let day = entry.date.weekday();
    check_submission_on(requester_id, is_admin, entry, day)
}

/// What a submission answers once the store has tried to save the entry.
pub fn submission_outcome(saved: Result<(), ()>) -> (r: Result<(), AttendanceError>)
    ensures
        saved is Ok ==> r is Ok,
        saved is Err ==> (r matches Err(e) && e@ == AttendanceFailure::Internal(
            "Failed to record entry"@,
        )),
{
    match saved {
        Ok(()) => Ok(()),
        Err(()) => Err(AttendanceError::Internal(String::from_str("Failed to record entry"))),
    }
}

/// What a history request answers once the store has been read.
pub fn history_outcome(read: Result<Vec<AttendanceEntry>, ()>) -> (r: Result<
    Vec<AttendanceEntry>,
    AttendanceError,
>)
    ensures
        read matches Ok(v) ==> (r matches Ok(w) && w == v),
        read is Err ==> (r matches Err(e) && e@ == AttendanceFailure::Internal(
            "Database read error"@,
        )),
{
    match read {
        Ok(entries) => Ok(entries),
        Err(()) => Err(AttendanceError::Internal(String::from_str("Database read error"))),
    }
}

/// Law: an administrator is never refused as a requester, whoever the entry is
/// for.
pub proof fn administrators_are_never_forbidden(
    requester: Seq<char>,
    entry: EntryView,
    day: Weekday,
)
    ensures
        !(submission_refusal(requester, true, entry, day) matches Some(
            AttendanceFailure::Forbidden(_),
        )),
{
}

/// Law: a member's own answer (or any answer by an administrator) is accepted
/// exactly when its meal is among the meals offered on its day.
pub proof fn accepted_exactly_when_offered(
    requester: Seq<char>,
    is_admin: bool,
    entry: EntryView,
    day: Weekday,
)
    requires
        is_admin || entry.user_id == requester,
    ensures
        submission_refusal(requester, is_admin, entry, day) is None <==> meals_on(day).contains(
            entry.meal,
        ),
{
    offered_iff_served(entry.meal, day);
}

} // verus!
