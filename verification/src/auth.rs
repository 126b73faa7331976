//! Accounts and sessions: password hashing, the sign-up and sign-in flows and
//! the claims of a session token.
//!
//! Each flow stops wherever the store or the token signer has to act. A step
//! function takes what that outside work gave and tells the caller what to do
//! next, until a step answers with `Done`.

use argon2::{Argon2, PasswordHash, PasswordHasher, PasswordVerifier};
use crate::model::{
    Claims, ClaimsView, LoginRequest, LoginResponse, LoginResponseView, SignupRequest,
    SignupRequestView, UserRecord, UserRecordView,
};
use jsonwebtoken::{Algorithm, EncodingKey, Header};
use crate::text::{decimal_text, decimal_text_is_trimmed, int_to_decimal, trim, trim_seq};
use vstd::prelude::*;
use vstd::utf8::encode_utf8;

verus! {

/// Why a sign-in or sign-up failed.
#[derive(Clone, Debug)]
pub enum AuthError {
    /// Unknown IC number or wrong password; the two are not told apart.
    InvalidCredentials,
    /// An account with this IC number exists already.
    UserAlreadyExists,
    /// The sign-up form is not acceptable.
    ValidationError(String),
    /// The store, the hasher or the token signer failed.
    Internal(String),
}

/// The mathematical content of an [`AuthError`].
pub enum AuthFailure {
    InvalidCredentials,
    UserAlreadyExists,
    ValidationError(Seq<char>),
    Internal(Seq<char>),
}

impl View for AuthError {
    type V = AuthFailure;

    open spec fn view(&self) -> AuthFailure {
        match self {
            AuthError::InvalidCredentials => AuthFailure::InvalidCredentials,
            AuthError::UserAlreadyExists => AuthFailure::UserAlreadyExists,
            AuthError::ValidationError(m) => AuthFailure::ValidationError(m@),
            AuthError::Internal(m) => AuthFailure::Internal(m@),
        }
    }
}

/// A well-formed Argon2id hash (PHC text) that no member's password is meant to
/// match. Sign-in checks the typed password against it when no account
/// matches, so that an unknown IC number costs as much time as a wrong
/// password.
pub const DUMMY_HASH: &'static str = "$argon2id$v=19$m=19456,t=2,p=1$eHh4eHh4eHh4eHh4eHh4eA$Y2Fubm90YmVndWVzc2VkeHh4eHh4eHh4eHh4eHh4eHg";

/// How long a session token stays valid: twelve hours, in seconds.
pub const TOKEN_LIFETIME_SECS: i64 = 43200;

/// Whether Argon2 accepts `password` against the PHC-format hash text `phc`,
/// with the algorithm, version, parameters and salt that `phc` names (false
/// when `phc` does not parse).
pub uninterp spec fn argon2_accepts(password: Seq<u8>, phc: Seq<char>) -> bool;

/// `argon2::PasswordHash::new` on `phc`, then
/// `Argon2::default().verify_password`: the result is whether both succeed.
#[verifier::external_body]
fn argon2_verify(password: &[u8], phc: &str) -> (ok: bool)
    ensures
        ok == argon2_accepts(password@, phc@),
{
    match PasswordHash::new(phc) {
        Ok(hash) => Argon2::default().verify_password(password, &hash).is_ok(),
        Err(_) => false,
    }
}

/// `Argon2::default().hash_password` (salt drawn from the system's random
/// source), the hash rendered as PHC text, an error as its message. Which
/// text comes out depends on the salt and is not stated; what is stated is that
/// it starts with the identifier, version and parameters of `Argon2::default()`
/// (Argon2id, version 19, m = 19456, t = 2, p = 1) and that Argon2 accepts the
/// same password against it.
#[verifier::external_body]
fn argon2_hash(password: &[u8]) -> (r: Result<String, String>)
    ensures
        r matches Ok(h) ==> argon2_accepts(password@, h@),
        r matches Ok(h) ==> default_phc_prefix().is_prefix_of(h@),
{
    match PasswordHasher::<PasswordHash>::hash_password(&Argon2::default(), password) {
        Ok(hash) => Ok(hash.to_string()),
        Err(e) => Err(e.to_string()),
    }
}

/// How the PHC text of every hash made with `Argon2::default()` begins: the
/// algorithm (Argon2id), the version (19) and the parameters, before the salt
/// and the hash output.
pub open spec fn default_phc_prefix() -> Seq<char> {
    "$argon2id$v=19$m=19456,t=2,p=1$"@
}

/// Whether sign-in with `password` is let into the account `user`.
pub open spec fn password_admits(password: Seq<char>, user: UserRecordView) -> bool {
    argon2_accepts(encode_utf8(password), user.password_hash)
}

/// Checks a password against a stored PHC hash.
pub fn password_matches(password: &str, phc: &str) -> (ok: bool)
    ensures
        ok == argon2_accepts(encode_utf8(password@), phc@),
{
    argon2_verify(password.as_bytes(), phc)
}

/// What hashing answers, given what Argon2 gave: the hash, or the message of
/// its error after `Argon2 hash failed: `.
pub fn hash_outcome(hashed: Result<String, String>) -> (r: Result<String, String>)
    ensures
        hashed matches Ok(h) ==> (r matches Ok(k) && k@ == h@),
        hashed matches Err(e) ==> (r matches Err(m) && m@ == "Argon2 hash failed: "@ + e@),
{
    match hashed {
        Ok(h) => Ok(h),
        Err(e) => {
            let mut m = String::from_str("Argon2 hash failed: ");
            m.append(e.as_str());
            Err(m)
        },
    }
}

/// Hashes a password with Argon2 and a fresh random salt. A hash it gives is
/// Argon2id PHC text with the default parameters, and admits the same password.
pub fn hash_password(raw_password: &str) -> (r: Result<String, String>)
    ensures
        r matches Ok(h) ==> argon2_accepts(encode_utf8(raw_password@), h@),
        r matches Ok(h) ==> default_phc_prefix().is_prefix_of(h@),
        r matches Err(m) ==> exists|e: Seq<char>| m@ == "Argon2 hash failed: "@ + e,
{
    let hashed = argon2_hash(raw_password.as_bytes());
    hash_outcome(hashed)
}

/// Why a sign-up form is refused, in the order the checks are made; `None`
/// when it is acceptable. The password is measured in UTF-8 bytes.
pub open spec fn signup_refusal(req: SignupRequestView) -> Option<Seq<char>> {
    if trim_seq(req.name).len() == 0 {
        Some("Name cannot be empty"@)
    } else if encode_utf8(req.password).len() < 6 {
        Some("Password must be at least 6 characters"@)
    } else if req.ic_no <= 0 {
        Some("Invalid IC Number"@)
    } else {
        None
    }
}

/// The account that sign-up creates from `req`, under the id `id`, with the
/// password hash `hash`: text fields without surrounding whitespace, never an
/// administrator.
pub open spec fn new_account(req: SignupRequestView, id: Seq<char>, hash: Seq<char>) -> UserRecordView {
    UserRecordView {
        id: id,
        ic_no: req.ic_no,
        name: trim_seq(req.name),
        email: trim_seq(req.email),
        password_hash: hash,
        designation: trim_seq(req.designation),
        ci: trim_seq(req.ci),
        is_admin: false,
    }
}

/// What sign-in and sign-up answer with for the account `user` and the signed
/// token `token`.
pub open spec fn session_for(user: UserRecordView, token: Seq<char>) -> LoginResponseView {
    LoginResponseView {
        token: token,
        user_id: user.id,
        name: user.name,
        designation: user.designation,
        ci: user.ci,
        is_admin: user.is_admin,
    }
}

/// The session token that `jsonwebtoken` signs, with HS256 and the key
/// `secret`, for a payload of exactly the claims `claims`.
pub uninterp spec fn hs256_token(claims: ClaimsView, secret: Seq<u8>) -> Seq<char>;

/// `jsonwebtoken::encode` with `Header::new(Algorithm::HS256)` and
/// `EncodingKey::from_secret(secret)`, the payload being the JSON object of the
/// six claims in the order of the `Claims` fields (`sub`, `name`,
/// `designation`, `ci`, `is_admin`, `exp`; `serde_json` keeps insertion order
/// with its `preserve_order` feature). A token
/// it gives is the one named by `hs256_token`; when it fails is not stated
/// (it depends on the crypto provider installed in the process).
#[verifier::external_body]
fn sign_hs256(claims: &Claims, secret: &[u8]) -> (r: Result<String, ()>)
    ensures
        r matches Ok(t) ==> t@ == hs256_token(claims@, secret@),
{
    let mut payload = serde_json::Map::new();
    payload.insert("sub".into(), claims.sub.as_str().into());
    payload.insert("name".into(), claims.name.as_str().into());
    payload.insert("designation".into(), claims.designation.as_str().into());
    payload.insert("ci".into(), claims.ci.as_str().into());
    payload.insert("is_admin".into(), claims.is_admin.into());
    payload.insert("exp".into(), claims.exp.into());
    let key = EncodingKey::from_secret(secret);
    match jsonwebtoken::encode(&Header::new(Algorithm::HS256), &payload, &key) {
        Ok(token) => Ok(token),
        Err(_) => Err(()),
    }
}

/// The expiry, as the token carries it, of a token issued at Unix time `now`:
/// twelve hours later.
pub open spec fn expiry_after(now: i64) -> usize {
    (now + TOKEN_LIFETIME_SECS) as usize
}

/// The claims of a session token for the account `user` that expires at
/// `exp`: the account's id as subject and its public details; no e-mail, IC
/// number or password hash.
pub open spec fn claims_of(user: UserRecordView, exp: usize) -> ClaimsView {
    ClaimsView {
        sub: user.id,
        name: user.name,
        designation: user.designation,
        ci: user.ci,
        is_admin: user.is_admin,
        exp: exp,
    }
}

/// The session token for the account `user` issued at Unix time `now` and
/// signed with `secret`.
pub open spec fn token_for(user: UserRecordView, now: i64, secret: Seq<u8>) -> Seq<char> {
    hs256_token(claims_of(user, expiry_after(now)), secret)
}

/// What a sign-in or sign-up answers for the account `user`, signed with
/// `secret`, when the token was issued at some clock reading: the session with
/// the signed claims, or the signing failure.
pub open spec fn answered_with_session(
    r: Result<LoginResponse, AuthError>,
    user: UserRecordView,
    secret: Seq<u8>,
) -> bool {
    ||| (r matches Ok(resp) && exists|now: i64|
        -10_000_000_000_000 < now < 10_000_000_000_000 && resp@ == session_for(
            user,
            #[trigger] token_for(user, now, secret),
        ))
    ||| (r matches Err(e) && e@ == AuthFailure::Internal("Token generation failed"@))
}

/// An accepted sign-up form and the id its account gets: the IC number in
/// decimal.
pub struct PendingSignup {
    pub request: SignupRequest,
    pub user_id: String,
}

/// The next thing a sign-up needs.
pub enum SignupStep {
    /// Find out whether an account answers to `user_id`.
    LookUp(PendingSignup),
    /// Store this new account.
    Insert(UserRecord),
    /// The answer.
    Done(Result<LoginResponse, AuthError>),
}


fn validation_error(msg: &str) -> (e: AuthError)
    ensures
        e@ == AuthFailure::ValidationError(msg@),
{
    AuthError::ValidationError(String::from_str(msg))
}

fn internal_error(msg: &str) -> (e: AuthError)
    ensures
        e@ == AuthFailure::Internal(msg@),
{
    AuthError::Internal(String::from_str(msg))
}

/// Starts a sign-up: checks the form, then asks whether the IC number is taken.
pub fn signup_begin(req: SignupRequest) -> (s: SignupStep)
    ensures
        match signup_refusal(req@) {
            Some(msg) => s matches SignupStep::Done(Err(e)) && e@ == AuthFailure::ValidationError(
                msg,
            ),
            None => s matches SignupStep::LookUp(p) && p.request@ == req@ && p.user_id@
                == decimal_text(req.ic_no as int),
        },
{
    let user_id = int_to_decimal(req.ic_no as i64);
    let name = trim(req.name.as_str());
    if name.as_str().is_empty() {
        return SignupStep::Done(Err(validation_error("Name cannot be empty")));
    }
    if req.password.as_str().as_bytes().len() < 6 {
        return SignupStep::Done(Err(validation_error("Password must be at least 6 characters")));
    }
    if req.ic_no <= 0 {
        return SignupStep::Done(Err(validation_error("Invalid IC Number")));
    }
    SignupStep::LookUp(PendingSignup { request: req, user_id })
}

/// The account sign-up stores for `pending`, given the password hash.
pub fn account_for(pending: &PendingSignup, password_hash: String) -> (u: UserRecord)
    ensures
        u@ == new_account(pending.request@, pending.user_id@, password_hash@),
{
    UserRecord {
        id: pending.user_id.clone(),
        ic_no: pending.request.ic_no,
        name: trim(pending.request.name.as_str()),
        email: trim(pending.request.email.as_str()),
        password_hash,
        designation: trim(pending.request.designation.as_str()),
        ci: trim(pending.request.ci.as_str()),
        is_admin: false,
    }
}

/// Continues a sign-up once the store has been asked whether an account
/// answers to the IC number (`found`: whether one does, or that the store
/// failed). A free IC number gets its password hashed here; the account to
/// store admits the sign-up password.
pub fn signup_after_lookup(pending: PendingSignup, found: Result<bool, ()>) -> (s: SignupStep)
    ensures
        found is Err ==> (s matches SignupStep::Done(Err(e)) && e@ == AuthFailure::Internal(
            "Database error"@,
        )),
        found matches Ok(true) ==> (s matches SignupStep::Done(Err(e)) && e@
            == AuthFailure::UserAlreadyExists),
        found matches Ok(false) ==> ((s matches SignupStep::Insert(u) && u@ == new_account(
            pending.request@,
            pending.user_id@,
            u.password_hash@,
        ) && password_admits(pending.request.password@, u@) && default_phc_prefix().is_prefix_of(
            u.password_hash@,
        )) || (s matches SignupStep::Done(
            Err(e),
        ) && e@ == AuthFailure::Internal("Encryption error"@))),
{
    match found {
        Err(()) => SignupStep::Done(Err(internal_error("Database error"))),
        Ok(true) => SignupStep::Done(Err(AuthError::UserAlreadyExists)),
        Ok(false) => match hash_password(pending.request.password.as_str()) {
            Ok(hash) => SignupStep::Insert(account_for(&pending, hash)),
            Err(_) => SignupStep::Done(Err(internal_error("Encryption error"))),
        },
    }
}

/// The claims of a session token for `user`, issued at Unix time `now`: they
/// expire twelve hours later.
pub fn token_claims(user: &UserRecord, now: i64) -> (c: Claims)
    requires
        now <= i64::MAX - TOKEN_LIFETIME_SECS,
    ensures
        c@ == claims_of(user@, expiry_after(now)),
        c.sub@ == user.id@,
        c.name@ == user.name@,
        c.designation@ == user.designation@,
        c.ci@ == user.ci@,
        c.is_admin == user.is_admin,
        c.exp == (now + TOKEN_LIFETIME_SECS) as usize,
{
    let expiry: i64 = now + TOKEN_LIFETIME_SECS;
    Claims {
        sub: user.id.clone(),
        name: user.name.clone(),
        designation: user.designation.clone(),
        ci: user.ci.clone(),
        is_admin: user.is_admin,
        exp: expiry as usize,
    }
}

/// Signs a session token for `user` issued at Unix time `now` with the key
/// `secret` (HS256).
pub fn issue_token_at(user: &UserRecord, now: i64, secret: &[u8]) -> (r: Result<String, AuthError>)
    requires
        now <= i64::MAX - TOKEN_LIFETIME_SECS,
    ensures
        r matches Ok(t) ==> t@ == token_for(user@, now, secret@),
        r matches Err(e) ==> e@ == AuthFailure::Internal("Token generation failed"@),
{
    let claims = token_claims(user, now);
    match sign_hs256(&claims, secret) {
        Ok(token) => Ok(token),
        Err(()) => Err(internal_error("Token generation failed")),
    }
}

/// Signs a session token for `user`, issued now (UTC clock), with the key
/// `secret` (HS256): its payload is the account's claims, expiring twelve
/// hours on.
pub fn issue_token(user: &UserRecord, secret: &[u8]) -> (r: Result<String, AuthError>)
    ensures
        r matches Ok(t) ==> exists|now: i64|
            -10_000_000_000_000 < now < 10_000_000_000_000 && t@ == #[trigger] token_for(
                user@,
                now,
                secret@,
            ),
        r matches Err(e) ==> e@ == AuthFailure::Internal("Token generation failed"@),
{
    let now = crate::calendar::utc_now_timestamp();
    issue_token_at(user, now, secret)
}

/// The answer of a sign-in or sign-up for `user`, given the outcome of signing
/// its token.
pub fn respond_with_token(user: UserRecord, token: Result<String, AuthError>) -> (r: Result<
    LoginResponse,
    AuthError,
>)
    ensures
        token matches Ok(t) ==> (r matches Ok(resp) && resp@ == session_for(user@, t@)),
        token matches Ok(t) ==> (r matches Ok(resp) && resp.token@ == t@ && resp.user_id@
            == user.id@ && resp.name@ == user.name@ && resp.designation@ == user.designation@
            && resp.ci@ == user.ci@ && resp.is_admin == user.is_admin),
        token matches Err(e) ==> (r matches Err(f) && f@ == e@),
{
    match token {
        Ok(t) => Ok(
            LoginResponse {
                token: t,
                user_id: user.id,
                name: user.name,
                designation: user.designation,
                ci: user.ci,
                is_admin: user.is_admin,
            },
        ),
        Err(e) => Err(e),
    }
}

/// Signs a token for `user` now and answers with the session.
fn answer_with_session(user: UserRecord, secret: &[u8]) -> (r: Result<LoginResponse, AuthError>)
    ensures
        answered_with_session(r, user@, secret@),
{
    let token = issue_token(&user, secret);
    let ghost u = user@;
    let r = respond_with_token(user, token);
    proof {
        if r is Ok {
            let resp = r->Ok_0;
            let t = token->Ok_0;
            let now = choose|now: i64|
                -10_000_000_000_000 < now < 10_000_000_000_000 && t@ == #[trigger] token_for(
                    u,
                    now,
                    secret@,
                );
            assert(resp@ == session_for(u, token_for(u, now, secret@)));
        }
    }
    r
}

/// Finishes a sign-up once the store has tried to save the new account: on
/// success the answer carries a token signed with `secret` for the account's
/// claims.
pub fn signup_after_insert(user: UserRecord, inserted: Result<(), ()>, secret: &[u8]) -> (r:
    Result<LoginResponse, AuthError>)
    ensures
        inserted is Ok ==> answered_with_session(r, user@, secret@),
        inserted is Err ==> (r matches Err(e) && e@ == AuthFailure::Internal(
            "Database insert failed"@,
        )),
{
    match inserted {
        Ok(()) => answer_with_session(user, secret),
        Err(()) => Err(internal_error("Database insert failed")),
    }
}

/// Decides a sign-in from the account found for the IC number (if any) and
/// whether the password checked out: the account to let in, or the one answer
/// for both failures.
pub fn login_decision(found: Option<UserRecord>, password_valid: bool) -> (r: Result<
    UserRecord,
    AuthError,
>)
    ensures
        match found {
            Some(u) => if password_valid {
                r matches Ok(v) && v@ == u@
            } else {
                r matches Err(e) && e@ == AuthFailure::InvalidCredentials
            },
            None => r matches Err(e) && e@ == AuthFailure::InvalidCredentials,
        },
{
    match found {
        Some(user) => if password_valid {
            Ok(user)
        } else {
            Err(AuthError::InvalidCredentials)
        },
        None => Err(AuthError::InvalidCredentials),
    }
}

/// Finishes a sign-in once the store has been searched for the IC number
/// (`found`: the matching account if any, or that the store failed). The
/// password is checked against the account's hash, or against
/// [`DUMMY_HASH`] when there is no account; a member let in is answered with
/// a token signed with `secret` for the account's claims.
pub fn login_after_lookup(
    req: &LoginRequest,
    found: Result<Option<UserRecord>, ()>,
    secret: &[u8],
) -> (r: Result<LoginResponse, AuthError>)
    ensures
        match found {
            Err(()) => r matches Err(e) && e@ == AuthFailure::Internal("Database query failed"@),
            Ok(None) => r matches Err(e) && e@ == AuthFailure::InvalidCredentials,
            Ok(Some(u)) => if password_admits(req.password@, u@) {
                answered_with_session(r, u@, secret@)
            } else {
                r matches Err(e) && e@ == AuthFailure::InvalidCredentials
            },
        },
{
    match found {
        Err(()) => Err(internal_error("Database query failed")),
        Ok(user) => {
            let valid = match &user {
                Some(u) => password_matches(req.password.as_str(), u.password_hash.as_str()),
                None => password_matches(req.password.as_str(), DUMMY_HASH),
            };
            match login_decision(user, valid) {
                Ok(member) => answer_with_session(member, secret),
                Err(e) => Err(e),
            }
        },
    }
}

/// Law: the claims of a session token carry the account they were issued
/// for, whatever it is (an administrator too): its id as subject, its name,
/// designation and ci, its administrator flag, and the expiry they were
/// issued with.
pub proof fn token_claims_carry_the_account(user: UserRecordView, exp: usize)
    ensures
        claims_of(user, exp).sub == user.id,
        claims_of(user, exp).name == user.name,
        claims_of(user, exp).designation == user.designation,
        claims_of(user, exp).ci == user.ci,
        claims_of(user, exp).is_admin == user.is_admin,
        claims_of(user, exp).exp == exp,
{
}

/// Law: a session answer reports the account it was given for, whatever it
/// is (an administrator too): its id, name, designation and ci, and its
/// administrator flag, beside the token.
pub proof fn session_reports_the_account(user: UserRecordView, token: Seq<char>)
    ensures
        session_for(user, token).token == token,
        session_for(user, token).user_id == user.id,
        session_for(user, token).name == user.name,
        session_for(user, token).designation == user.designation,
        session_for(user, token).ci == user.ci,
        session_for(user, token).is_admin == user.is_admin,
{
}

/// Law: a successful sign-in or sign-up answer for an account reports the
/// account's id, name, designation, ci and administrator flag, and its token
/// is the one signed with `secret` for claims that carry the same id, name,
/// designation, ci and administrator flag, expiring twelve hours after some
/// issue time.
pub proof fn signed_in_answers_report_the_account(
    r: Result<LoginResponse, AuthError>,
    user: UserRecordView,
    secret: Seq<u8>,
)
    requires
        answered_with_session(r, user, secret),
        r is Ok,
    ensures
        ({
            let resp = r->Ok_0@;
            &&& resp.user_id == user.id
            &&& resp.name == user.name
            &&& resp.designation == user.designation
            &&& resp.ci == user.ci
            &&& resp.is_admin == user.is_admin
            &&& exists|c: ClaimsView, now: i64|
                #![trigger hs256_token(c, secret), expiry_after(now)]
                -10_000_000_000_000 < now < 10_000_000_000_000 && resp.token == hs256_token(
                    c,
                    secret,
                ) && c.sub == user.id && c.name == user.name && c.designation
                    == user.designation && c.ci == user.ci && c.is_admin == user.is_admin
                    && c.exp == expiry_after(now)
        }),
{
    let resp = r->Ok_0@;
    let now = choose|now: i64|
        -10_000_000_000_000 < now < 10_000_000_000_000 && resp == session_for(
            user,
            #[trigger] token_for(user, now, secret),
        );
    let c = claims_of(user, expiry_after(now));
    assert(resp.token == hs256_token(c, secret));
}

/// Law: sign-up never creates an administrator, and the account's id is the
/// IC number in decimal.
pub proof fn sign_up_creates_plain_members(req: SignupRequestView, hash: Seq<char>)
    ensures
        !new_account(req, decimal_text(req.ic_no as int), hash).is_admin,
        new_account(req, decimal_text(req.ic_no as int), hash).id == decimal_text(
            req.ic_no as int,
        ),
{
}

/// Law: a member who signed up is let in by signing in with the IC number as
/// they entered it and the same password. Typing the IC number gives, after
/// trimming, exactly the new account's id, and the stored hash (one that
/// Argon2 accepts for the sign-up password, as [`signup_after_lookup`]
/// ensures) admits the password.
pub proof fn signed_up_member_can_sign_in(
    req: SignupRequestView,
    hash: Seq<char>,
    typed_ic: Seq<char>,
    typed_password: Seq<char>,
)
    requires
        argon2_accepts(encode_utf8(req.password), hash),
        typed_ic == decimal_text(req.ic_no as int),
        typed_password == req.password,
    ensures
        trim_seq(typed_ic) == new_account(req, decimal_text(req.ic_no as int), hash).id,
        password_admits(typed_password, new_account(req, decimal_text(req.ic_no as int), hash)),
{
    decimal_text_is_trimmed(req.ic_no as int);
}

/// Law: an accepted sign-up form has a name that is not blank, a password of
/// at least six UTF-8 bytes and a positive IC number.
pub proof fn accepted_forms_are_well_formed(req: SignupRequestView)
    requires
        signup_refusal(req) is None,
    ensures
        trim_seq(req.name).len() > 0,
        encode_utf8(req.password).len() >= 6,
        req.ic_no > 0,
{
}

/// Law: the token a sign-up answers with carries member claims: the IC number
/// in decimal as subject, the trimmed name, designation and ci, no
/// administrator rights, and an expiry twelve hours after issue.
pub proof fn sign_up_tokens_carry_member_claims(
    req: SignupRequestView,
    hash: Seq<char>,
    now: i64,
    secret: Seq<u8>,
)
    ensures
        token_for(new_account(req, decimal_text(req.ic_no as int), hash), now, secret)
            == hs256_token(
            ClaimsView {
                sub: decimal_text(req.ic_no as int),
                name: trim_seq(req.name),
                designation: trim_seq(req.designation),
                ci: trim_seq(req.ci),
                is_admin: false,
                exp: expiry_after(now),
            },
            secret,
        ),
{
}

/// Law: the answer to signing in to an account agrees with the answer its
/// sign-up gave on every field but the token (whose issue time may differ),
/// and neither makes the member an administrator.
pub proof fn sign_in_answer_matches_sign_up_answer(
    req: SignupRequestView,
    hash: Seq<char>,
    secret: Seq<u8>,
    signed_up_at: i64,
    signed_in_at: i64,
)
    ensures
        ({
            let account = new_account(req, decimal_text(req.ic_no as int), hash);
            let first = session_for(account, token_for(account, signed_up_at, secret));
            let later = session_for(account, token_for(account, signed_in_at, secret));
            &&& first.user_id == later.user_id
            &&& first.name == later.name
            &&& first.designation == later.designation
            &&& first.ci == later.ci
            &&& !first.is_admin && !later.is_admin
        }),
{
}

} // verus!
