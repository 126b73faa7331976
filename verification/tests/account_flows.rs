use enclave::auth::{
    account_for, hash_outcome, hash_password, issue_token, issue_token_at, login_after_lookup,
    login_decision, password_matches, respond_with_token, signup_after_insert, signup_after_lookup,
    signup_begin, token_claims, AuthError, PendingSignup, SignupStep, DUMMY_HASH,
    TOKEN_LIFETIME_SECS,
};
use jsonwebtoken::{decode, Algorithm, DecodingKey, Validation};

const SECRET: &[u8] = b"test-secret";

/// The payload of an HS256 token signed with `SECRET`.
fn payload(token: &str) -> serde_json::Map<String, serde_json::Value> {
    let mut validation = Validation::new(Algorithm::HS256);
    validation.validate_exp = false;
    validation.required_spec_claims.clear();
    decode::<serde_json::Map<String, serde_json::Value>>(token, &DecodingKey::from_secret(SECRET), &validation)
        .unwrap()
        .claims
}
use enclave::model::{LoginRequest, SignupRequest, UserRecord};

fn form(ic: i32, name: &str, password: &str) -> SignupRequest {
    SignupRequest {
        ic_no: ic,
        name: name.to_string(),
        email: "  ali@example.com ".to_string(),
        password: password.to_string(),
        designation: " Officer ".to_string(),
        ci: "CI-3 ".to_string(),
    }
}

fn validation_message(step: SignupStep) -> String {
    match step {
        SignupStep::Done(Err(AuthError::ValidationError(m))) => m,
        _ => panic!("expected a validation error"),
    }
}

#[test]
fn blank_name_is_refused() {
    assert_eq!(validation_message(signup_begin(form(900101, " \t ", "secret1"))), "Name cannot be empty");
}

#[test]
fn short_password_is_refused() {
    assert_eq!(
        validation_message(signup_begin(form(900101, "Ali", "abcde"))),
        "Password must be at least 6 characters"
    );
    // six bytes in UTF-8 although only three characters
    assert!(matches!(signup_begin(form(900101, "Ali", "ééé")), SignupStep::LookUp(_)));
}

#[test]
fn non_positive_ic_is_refused() {
    assert_eq!(validation_message(signup_begin(form(0, "Ali", "secret1"))), "Invalid IC Number");
    assert_eq!(validation_message(signup_begin(form(-5, "Ali", "secret1"))), "Invalid IC Number");
}

#[test]
fn name_is_checked_first() {
    assert_eq!(validation_message(signup_begin(form(-5, "", "x"))), "Name cannot be empty");
}

#[test]
fn accepted_form_looks_up_its_ic_number() {
    match signup_begin(form(900101, "Ali", "secret1")) {
        SignupStep::LookUp(p) => assert_eq!(p.user_id, "900101"),
        _ => panic!("expected a lookup"),
    }
}

fn pending() -> PendingSignup {
    match signup_begin(form(900101, "  Ali bin Abu ", "secret1")) {
        SignupStep::LookUp(p) => p,
        _ => panic!("expected a lookup"),
    }
}

#[test]
fn taken_ic_number_conflicts() {
    assert!(matches!(signup_after_lookup(pending(), Ok(true)), SignupStep::Done(Err(AuthError::UserAlreadyExists))));
    match signup_after_lookup(pending(), Err(())) {
        SignupStep::Done(Err(AuthError::Internal(m))) => assert_eq!(m, "Database error"),
        _ => panic!("expected an internal error"),
    }
}

#[test]
fn free_ic_number_gets_a_plain_account() {
    match signup_after_lookup(pending(), Ok(false)) {
        SignupStep::Insert(u) => {
            assert_eq!(u.id, "900101");
            assert_eq!(u.ic_no, 900101);
            assert_eq!(u.name, "Ali bin Abu");
            assert_eq!(u.email, "ali@example.com");
            assert_eq!(u.designation, "Officer");
            assert_eq!(u.ci, "CI-3");
            assert!(!u.is_admin);
            assert!(u.password_hash.starts_with("$argon2id$v=19$m=19456,t=2,p=1$"));
            assert_ne!(u.password_hash, "secret1");
            assert!(password_matches("secret1", &u.password_hash));
            assert!(!password_matches("secret2", &u.password_hash));
        }
        _ => panic!("expected an insert"),
    }
}

#[test]
fn account_for_uses_the_given_hash() {
    let u = account_for(&pending(), "HASH".to_string());
    assert_eq!(u.password_hash, "HASH");
    assert_eq!(u.name, "Ali bin Abu");
}

#[test]
fn insert_failure_and_success() {
    let u = account_for(&pending(), "HASH".to_string());
    match signup_after_insert(u.clone(), Err(()), SECRET) {
        Err(AuthError::Internal(m)) => assert_eq!(m, "Database insert failed"),
        _ => panic!("expected an internal error"),
    }
    let r = signup_after_insert(u, Ok(()), SECRET).unwrap();
    assert_eq!(r.user_id, "900101");
    assert!(!r.is_admin);
    let p = payload(&r.token);
    assert_eq!(p["sub"], "900101");
    assert_eq!(p["name"], "Ali bin Abu");
    assert_eq!(p["is_admin"], false);
}

#[test]
fn hashing() {
    let h = hash_password("hunter42").unwrap();
    assert!(h.starts_with("$argon2id$v=19$m=19456,t=2,p=1$"));
    assert_ne!(h, "hunter42");
    assert!(password_matches("hunter42", &h));
    assert!(!password_matches("hunter43", &h));
    assert_eq!(hash_outcome(Err("bad salt".to_string())), Err("Argon2 hash failed: bad salt".to_string()));
    assert_eq!(hash_outcome(Ok("x".to_string())), Ok("x".to_string()));
}

#[test]
fn dummy_hash_parses_and_rejects() {
    assert!(!password_matches("secret1", DUMMY_HASH));
    assert!(!password_matches("", "not a phc string"));
}

fn member(password: &str) -> UserRecord {
    UserRecord {
        id: "900101".to_string(),
        ic_no: 900101,
        name: "Ali".to_string(),
        email: "ali@example.com".to_string(),
        password_hash: hash_password(password).unwrap(),
        designation: "Officer".to_string(),
        ci: "CI-3".to_string(),
        is_admin: false,
    }
}

fn login(ic: &str, password: &str) -> LoginRequest {
    LoginRequest { ic_no: ic.to_string(), password: password.to_string() }
}

#[test]
fn sign_in_with_the_right_password() {
    let now = chrono::Utc::now().timestamp();
    let r = login_after_lookup(&login("900101", "secret1"), Ok(Some(member("secret1"))), SECRET).unwrap();
    assert_eq!(r.user_id, "900101");
    assert_eq!(r.name, "Ali");
    assert_eq!(r.designation, "Officer");
    assert_eq!(r.ci, "CI-3");
    assert!(!r.is_admin);
    let p = payload(&r.token);
    assert_eq!(p.len(), 6);
    assert_eq!(p["sub"], "900101");
    assert_eq!(p["name"], "Ali");
    assert_eq!(p["designation"], "Officer");
    assert_eq!(p["ci"], "CI-3");
    assert_eq!(p["is_admin"], false);
    let exp = p["exp"].as_i64().unwrap();
    assert!(exp >= now + 43_200 && exp <= now + 43_260);
}

#[test]
fn wrong_password_and_unknown_user_answer_alike() {
    assert!(matches!(
        login_after_lookup(&login("900101", "wrong!"), Ok(Some(member("secret1"))), SECRET),
        Err(AuthError::InvalidCredentials)
    ));
    assert!(matches!(
        login_after_lookup(&login("123", "secret1"), Ok(None), SECRET),
        Err(AuthError::InvalidCredentials)
    ));
    match login_after_lookup(&login("123", "secret1"), Err(()), SECRET) {
        Err(AuthError::Internal(m)) => assert_eq!(m, "Database query failed"),
        _ => panic!("expected an internal error"),
    }
}

#[test]
fn login_decision_table() {
    assert!(matches!(login_decision(None, true), Err(AuthError::InvalidCredentials)));
    assert!(matches!(login_decision(Some(member("a123456")), false), Err(AuthError::InvalidCredentials)));
    assert!(matches!(login_decision(Some(member("a123456")), true), Ok(u) if u.id == "900101"));
}

#[test]
fn sign_up_then_sign_in() {
    let user = match signup_after_lookup(pending(), Ok(false)) {
        SignupStep::Insert(u) => u,
        _ => panic!("expected an insert"),
    };
    let first = signup_after_insert(user.clone(), Ok(()), SECRET).unwrap();
    let later = login_after_lookup(&login(" 900101 ", "secret1"), Ok(Some(user)), SECRET).unwrap();
    assert_eq!(first.user_id, later.user_id);
    assert_eq!(first.name, later.name);
    assert!(!later.is_admin);
    assert_eq!(payload(&later.token)["sub"], "900101");
}

#[test]
fn claims_expire_after_twelve_hours() {
    let u = member("secret1");
    let c = token_claims(&u, 1_700_000_000);
    assert_eq!(c.exp, 1_700_043_200);
    assert_eq!(c.sub, "900101");
    assert_eq!(c.name, "Ali");
    assert!(!c.is_admin);
    assert_eq!(TOKEN_LIFETIME_SECS, 43_200);
    let token = issue_token_at(&u, 1_700_000_000, SECRET).unwrap();
    let p = payload(&token);
    assert_eq!(p["exp"], 1_700_043_200u64);
    assert_eq!(p["sub"], "900101");
    assert!(p.get("email").is_none() && p.get("password_hash").is_none() && p.get("ic_no").is_none());
    let header = jsonwebtoken::decode_header(&token).unwrap();
    assert_eq!(header.alg, Algorithm::HS256);
    let now = chrono::Utc::now().timestamp();
    let live = payload(&issue_token(&u, SECRET).unwrap())["exp"].as_i64().unwrap();
    assert!(live >= now + 43_200 && live <= now + 43_260);
    // a token signed with another key does not verify
    let other = issue_token_at(&u, 1_700_000_000, b"another").unwrap();
    let mut validation = Validation::new(Algorithm::HS256);
    validation.validate_exp = false;
    assert!(decode::<serde_json::Value>(&other, &DecodingKey::from_secret(SECRET), &validation).is_err());
}

#[test]
fn token_answers() {
    let r = respond_with_token(member("secret1"), Ok("tok".to_string())).unwrap();
    assert_eq!(r.token, "tok");
    assert_eq!(r.user_id, "900101");
    assert_eq!(r.name, "Ali");
    assert_eq!(r.designation, "Officer");
    assert_eq!(r.ci, "CI-3");
    assert!(!r.is_admin);
    match respond_with_token(member("secret1"), Err(AuthError::Internal("Token generation failed".to_string()))) {
        Err(AuthError::Internal(m)) => assert_eq!(m, "Token generation failed"),
        _ => panic!("expected an internal error"),
    }
}

#[test]
fn token_payload_keeps_the_claims_field_order() {
    let u = member("secret1");
    let token = issue_token_at(&u, 1_700_000_000, SECRET).unwrap();
    let expected_payload: serde_json::Value = serde_json::from_str(
        r#"{"sub":"900101","name":"Ali","designation":"Officer","ci":"CI-3","is_admin":false,"exp":1700043200}"#,
    )
    .unwrap();
    let expected = jsonwebtoken::encode(
        &jsonwebtoken::Header::new(Algorithm::HS256),
        &expected_payload,
        &jsonwebtoken::EncodingKey::from_secret(SECRET),
    )
    .unwrap();
    assert_eq!(token, expected);
}
