//! What the HTTP endpoints answer: the status and body for each outcome of
//! the attendance and account services.

use crate::attendance::AttendanceError;
use crate::auth::AuthError;
use crate::meals::{get_available_meals_for_today, meals_on};
use crate::calendar::Weekday;
use crate::model::{AttendanceEntry, LoginResponse, MealType};
use vstd::prelude::*;

verus! {

/// Answer of `POST /entry`.
#[derive(Debug)]
pub enum EntryResponse {
    /// 200
    Success(String),
    /// 400
    BadRequest(String),
    /// 403
    Forbidden(String),
    /// 500
    InternalError(String),
}

impl EntryResponse {
    /// The HTTP status of this answer.
    pub fn status(&self) -> (code: u16)
        ensures
            code == match self {
                EntryResponse::Success(_) => 200u16,
                EntryResponse::BadRequest(_) => 400u16,
                EntryResponse::Forbidden(_) => 403u16,
                EntryResponse::InternalError(_) => 500u16,
            },
    {
        match self {
            EntryResponse::Success(_) => 200,
            EntryResponse::BadRequest(_) => 400,
            EntryResponse::Forbidden(_) => 403,
            EntryResponse::InternalError(_) => 500,
        }
    }
}

/// The answer to an attendance submission: a refused rule is a bad request
/// and a refused requester is forbidden, each with the service's message; a
/// store failure is an internal error with a fixed message.
pub fn entry_response(result: Result<(), AttendanceError>) -> (r: EntryResponse)
    ensures
        match result {
            Ok(()) => r matches EntryResponse::Success(m) && m@ == "Attendance recorded successfully"@,
            Err(AttendanceError::RuleViolation(msg)) => r matches EntryResponse::BadRequest(m) && m@
                == msg@,
            Err(AttendanceError::Forbidden(msg)) => r matches EntryResponse::Forbidden(m) && m@
                == msg@,
            Err(AttendanceError::Internal(_)) => r matches EntryResponse::InternalError(m) && m@
                == "Could not save attendance"@,
        },
{
    match result {
        Ok(()) => EntryResponse::Success(String::from_str("Attendance recorded successfully")),
        Err(AttendanceError::RuleViolation(msg)) => EntryResponse::BadRequest(msg),
        Err(AttendanceError::Forbidden(msg)) => EntryResponse::Forbidden(msg),
        Err(AttendanceError::Internal(_)) => EntryResponse::InternalError(
            String::from_str("Could not save attendance"),
        ),
    }
}

/// Answer of `GET /meals` (always 200).
#[derive(Debug)]
pub enum MealsResponse {
    Meals(Vec<MealType>),
}

/// The answer to `GET /meals`: today's meals (UTC calendar).
pub fn get_meals() -> (r: MealsResponse)
    ensures
        r matches MealsResponse::Meals(meals) && exists|day: Weekday| meals@ == meals_on(day),
{
    MealsResponse::Meals(get_available_meals_for_today())
}

/// Answer of `GET /history`.
#[derive(Debug)]
pub enum HistoryResponse {
    /// 200
    History(Vec<AttendanceEntry>),
    /// 500
    InternalError(String),
}

impl HistoryResponse {
    /// The HTTP status of this answer.
    pub fn status(&self) -> (code: u16)
        ensures
            code == match self {
                HistoryResponse::History(_) => 200u16,
                HistoryResponse::InternalError(_) => 500u16,
            },
    {
        match self {
            HistoryResponse::History(_) => 200,
            HistoryResponse::InternalError(_) => 500,
        }
    }
}

/// The answer to a history request.
pub fn history_response(result: Result<Vec<AttendanceEntry>, AttendanceError>) -> (r:
    HistoryResponse)
    ensures
        match result {
            Ok(h) => r matches HistoryResponse::History(g) && g == h,
            Err(_) => r matches HistoryResponse::InternalError(m) && m@
                == "Failed to retrieve history"@,
        },
{
    match result {
        Ok(history) => HistoryResponse::History(history),
        Err(_) => HistoryResponse::InternalError(String::from_str("Failed to retrieve history")),
    }
}

/// Answer of `POST /auth/login`.
#[derive(Debug)]
pub enum LoginResult {
    /// 200
    Success(LoginResponse),
    /// 401
    Unauthorized(String),
    /// 500
    InternalError(String),
}

impl LoginResult {
    /// The HTTP status of this answer.
    pub fn status(&self) -> (code: u16)
        ensures
            code == match self {
                LoginResult::Success(_) => 200u16,
                LoginResult::Unauthorized(_) => 401u16,
                LoginResult::InternalError(_) => 500u16,
            },
    {
        match self {
            LoginResult::Success(_) => 200,
            LoginResult::Unauthorized(_) => 401,
            LoginResult::InternalError(_) => 500,
        }
    }
}

/// The answer to a sign-in: wrong credentials are unauthorized, any other
/// failure an internal error, both with fixed messages.
pub fn login_result(result: Result<LoginResponse, AuthError>) -> (r: LoginResult)
    ensures
        match result {
            Ok(resp) => r matches LoginResult::Success(x) && x@ == resp@,
            Err(AuthError::InvalidCredentials) => r matches LoginResult::Unauthorized(m) && m@
                == "Invalid IC number or password."@,
            Err(_) => r matches LoginResult::InternalError(m) && m@
                == "An error occurred. Please try again later."@,
        },
{
    match result {
        Ok(response) => LoginResult::Success(response),
        Err(AuthError::InvalidCredentials) => LoginResult::Unauthorized(
            String::from_str("Invalid IC number or password."),
        ),
        Err(_) => LoginResult::InternalError(
            String::from_str("An error occurred. Please try again later."),
        ),
    }
}

/// Answer of `POST /auth/signup`.
#[derive(Debug)]
pub enum SignupResult {
    /// 201
    Created(LoginResponse),
    /// 400
    BadRequest(String),
    /// 409
    Conflict(String),
    /// 500
    InternalError(String),
}

impl SignupResult {
    /// The HTTP status of this answer.
    pub fn status(&self) -> (code: u16)
        ensures
            code == match self {
                SignupResult::Created(_) => 201u16,
                SignupResult::BadRequest(_) => 400u16,
                SignupResult::Conflict(_) => 409u16,
                SignupResult::InternalError(_) => 500u16,
            },
    {
        match self {
            SignupResult::Created(_) => 201,
            SignupResult::BadRequest(_) => 400,
            SignupResult::Conflict(_) => 409,
            SignupResult::InternalError(_) => 500,
        }
    }
}

/// The answer to a sign-up: a refused form is a bad request with the
/// service's message, a taken IC number a conflict, any other failure an
/// internal error.
pub fn signup_result(result: Result<LoginResponse, AuthError>) -> (r: SignupResult)
    ensures
        match result {
            Ok(resp) => r matches SignupResult::Created(x) && x@ == resp@,
            Err(AuthError::ValidationError(msg)) => r matches SignupResult::BadRequest(m) && m@
                == msg@,
            Err(AuthError::UserAlreadyExists) => r matches SignupResult::Conflict(m) && m@
                == "An account with this IC Number already exists."@,
            Err(_) => r matches SignupResult::InternalError(m) && m@
                == "Registration failed. Please try again later."@,
        },
{
    match result {
        Ok(response) => SignupResult::Created(response),
        Err(AuthError::ValidationError(msg)) => SignupResult::BadRequest(msg),
        Err(AuthError::UserAlreadyExists) => SignupResult::Conflict(
            String::from_str("An account with this IC Number already exists."),
        ),
        Err(_) => SignupResult::InternalError(
            String::from_str("Registration failed. Please try again later."),
        ),
    }
}

} // verus!
