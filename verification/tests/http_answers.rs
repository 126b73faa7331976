use enclave::api::{
    entry_response, get_meals, history_response, login_result, signup_result, EntryResponse,
    HistoryResponse, LoginResult, MealsResponse, SignupResult,
};
use enclave::attendance::AttendanceError;
use enclave::auth::AuthError;
use enclave::model::{LoginResponse, MealType};

fn session() -> LoginResponse {
    LoginResponse {
        token: "t".to_string(),
        user_id: "1".to_string(),
        name: "N".to_string(),
        designation: "D".to_string(),
        ci: "C".to_string(),
        is_admin: false,
    }
}

#[test]
fn entry_answers() {
    let r = entry_response(Ok(()));
    assert_eq!(r.status(), 200);
    assert!(matches!(r, EntryResponse::Success(m) if m == "Attendance recorded successfully"));
    let r = entry_response(Err(AttendanceError::RuleViolation("no lunch".to_string())));
    assert_eq!(r.status(), 400);
    assert!(matches!(r, EntryResponse::BadRequest(m) if m == "no lunch"));
    let r = entry_response(Err(AttendanceError::Forbidden("not yours".to_string())));
    assert_eq!(r.status(), 403);
    assert!(matches!(r, EntryResponse::Forbidden(m) if m == "not yours"));
    let r = entry_response(Err(AttendanceError::Internal("db down".to_string())));
    assert_eq!(r.status(), 500);
    assert!(matches!(r, EntryResponse::InternalError(m) if m == "Could not save attendance"));
}

#[test]
fn meals_answer() {
    let MealsResponse::Meals(meals) = get_meals();
    assert!(meals.len() == 2 || meals.len() == 3);
    assert_eq!(meals[0], MealType::Breakfast);
}

#[test]
fn history_answers() {
    let r = history_response(Ok(vec![]));
    assert_eq!(r.status(), 200);
    let r = history_response(Err(AttendanceError::Internal("x".to_string())));
    assert_eq!(r.status(), 500);
    assert!(matches!(r, HistoryResponse::InternalError(m) if m == "Failed to retrieve history"));
}

#[test]
fn login_answers() {
    let r = login_result(Ok(session()));
    assert_eq!(r.status(), 200);
    assert!(matches!(r, LoginResult::Success(s) if s.token == "t"));
    let r = login_result(Err(AuthError::InvalidCredentials));
    assert_eq!(r.status(), 401);
    assert!(matches!(r, LoginResult::Unauthorized(m) if m == "Invalid IC number or password."));
    let r = login_result(Err(AuthError::Internal("x".to_string())));
    assert_eq!(r.status(), 500);
    assert!(matches!(r, LoginResult::InternalError(m) if m == "An error occurred. Please try again later."));
}

#[test]
fn signup_answers() {
    let r = signup_result(Ok(session()));
    assert_eq!(r.status(), 201);
    let r = signup_result(Err(AuthError::ValidationError("Invalid IC Number".to_string())));
    assert_eq!(r.status(), 400);
    assert!(matches!(r, SignupResult::BadRequest(m) if m == "Invalid IC Number"));
    let r = signup_result(Err(AuthError::UserAlreadyExists));
    assert_eq!(r.status(), 409);
    assert!(matches!(r, SignupResult::Conflict(m) if m == "An account with this IC Number already exists."));
    let r = signup_result(Err(AuthError::InvalidCredentials));
    assert_eq!(r.status(), 500);
    assert!(matches!(r, SignupResult::InternalError(m) if m == "Registration failed. Please try again later."));
}
