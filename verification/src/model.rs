//! The data exchanged between the client, the server and the store.

use crate::calendar::CalendarDate;
use vstd::prelude::*;

verus! {

/// The three meals of the mess.
#[derive(Clone, Copy, Debug, PartialEq, Eq, Structural)]
pub enum MealType {
    Breakfast,
    Lunch,
    Dinner,
}

/// A member's yes/no answer for one meal on one day.
#[derive(Clone, Debug)]
pub struct AttendanceEntry {
    pub id: Option<i64>,
    pub user_id: String,
    pub meal: MealType,
    pub date: CalendarDate,
    pub response: bool,
    pub remarks: String,
}

/// The mathematical content of an [`AttendanceEntry`].
pub struct EntryView {
    pub id: Option<i64>,
    pub user_id: Seq<char>,
    pub meal: MealType,
    pub date: (int, int, int),
    pub response: bool,
    pub remarks: Seq<char>,
}

impl View for AttendanceEntry {
    type V = EntryView;

    open spec fn view(&self) -> EntryView {
        EntryView {
            id: self.id,
            user_id: self.user_id@,
            meal: self.meal,
            date: self.date@,
            response: self.response,
            remarks: self.remarks@,
        }
    }
}

impl AttendanceEntry {
    /// A copy of the entry.
    pub fn duplicate(&self) -> (r: AttendanceEntry)
        ensures
            r@ == self@,
            r.date == self.date,
    {
        AttendanceEntry {
            id: self.id,
            user_id: self.user_id.clone(),
            meal: self.meal,
            date: self.date,
            response: self.response,
            remarks: self.remarks.clone(),
        }
    }
}

/// A member's profile as shown to the client.
#[derive(Clone, Debug)]
pub struct UserProfile {
    pub user_id: String,
    pub name: String,
    pub ic_no: i32,
    pub email: String,
    pub designation: String,
    pub ci: String,
    pub is_admin: bool,
}

/// What a new member submits to open an account.
#[derive(Clone, Debug)]
pub struct SignupRequest {
    pub ic_no: i32,
    pub name: String,
    pub email: String,
    pub password: String,
    pub designation: String,
    pub ci: String,
}

/// The mathematical content of a [`SignupRequest`].
pub struct SignupRequestView {
    pub ic_no: i32,
    pub name: Seq<char>,
    pub email: Seq<char>,
    pub password: Seq<char>,
    pub designation: Seq<char>,
    pub ci: Seq<char>,
}

impl View for SignupRequest {
    type V = SignupRequestView;

    open spec fn view(&self) -> SignupRequestView {
        SignupRequestView {
            ic_no: self.ic_no,
            name: self.name@,
            email: self.email@,
            password: self.password@,
            designation: self.designation@,
            ci: self.ci@,
        }
    }
}

/// Credentials submitted to sign in: the IC number as typed, and the password.
#[derive(Clone, Debug)]
pub struct LoginRequest {
    pub ic_no: String,
    pub password: String,
}

/// What a successful sign-in or sign-up answers: the session token and the
/// member's public details.
#[derive(Clone, Debug)]
pub struct LoginResponse {
    pub token: String,
    pub user_id: String,
    pub name: String,
    pub designation: String,
    pub ci: String,
    pub is_admin: bool,
}

/// The mathematical content of a [`LoginResponse`].
pub struct LoginResponseView {
    pub token: Seq<char>,
    pub user_id: Seq<char>,
    pub name: Seq<char>,
    pub designation: Seq<char>,
    pub ci: Seq<char>,
    pub is_admin: bool,
}

impl View for LoginResponse {
    type V = LoginResponseView;

    open spec fn view(&self) -> LoginResponseView {
        LoginResponseView {
            token: self.token@,
            user_id: self.user_id@,
            name: self.name@,
            designation: self.designation@,
            ci: self.ci@,
            is_admin: self.is_admin,
        }
    }
}

/// The claims carried by a session token: subject (the member's id), the
/// member's details and the expiry as a Unix timestamp in seconds.
#[derive(Clone, Debug)]
pub struct Claims {
    pub sub: String,
    pub name: String,
    pub designation: String,
    pub ci: String,
    pub is_admin: bool,
    pub exp: usize,
}

/// The mathematical content of [`Claims`].
pub struct ClaimsView {
    pub sub: Seq<char>,
    pub name: Seq<char>,
    pub designation: Seq<char>,
    pub ci: Seq<char>,
    pub is_admin: bool,
    pub exp: usize,
}

impl View for Claims {
    type V = ClaimsView;

    open spec fn view(&self) -> ClaimsView {
        ClaimsView {
            sub: self.sub@,
            name: self.name@,
            designation: self.designation@,
            ci: self.ci@,
            is_admin: self.is_admin,
            exp: self.exp,
        }
    }
}

/// A stored account. `id` is the IC number as text.
#[derive(Clone, Debug)]
pub struct UserRecord {
    pub id: String,
    pub ic_no: i32,
    pub name: String,
    pub email: String,
    pub password_hash: String,
    pub designation: String,
    pub ci: String,
    pub is_admin: bool,
}

/// The mathematical content of a [`UserRecord`].
pub struct UserRecordView {
    pub id: Seq<char>,
    pub ic_no: i32,
    pub name: Seq<char>,
    pub email: Seq<char>,
    pub password_hash: Seq<char>,
    pub designation: Seq<char>,
    pub ci: Seq<char>,
    pub is_admin: bool,
}

impl View for UserRecord {
    type V = UserRecordView;

    open spec fn view(&self) -> UserRecordView {
        UserRecordView {
            id: self.id@,
            ic_no: self.ic_no,
            name: self.name@,
            email: self.email@,
            password_hash: self.password_hash@,
            designation: self.designation@,
            ci: self.ci@,
            is_admin: self.is_admin,
        }
    }
}

/// The claims of a request's verified bearer token.
#[derive(Clone, Debug)]
pub struct JwtAuth(pub Claims);

} // verus!
