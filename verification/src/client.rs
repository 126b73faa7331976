//! The browser client's side of an authenticated request: the session it
//! needs, the request it builds and how it reads the server's answer.

use crate::calendar::CalendarDate;
use crate::model::{AttendanceEntry, LoginResponse, MealType};
use crate::text::{decimal_digits, unsigned_to_decimal};
use vstd::prelude::*;

verus! {

/// The browser storage key under which the signed-in session is kept.
pub const SESSION_KEY: &'static str = "enclave_user_session";

/// The HTTP methods the client sends.
#[derive(Clone, Copy, Debug, PartialEq, Eq, Structural)]
pub enum HttpMethod {
    Get,
    Post,
}

/// Reads a method name: `GET` or `POST`, anything else is refused.
pub fn http_method(method: &str) -> (r: Result<HttpMethod, String>)
    ensures
        method@ == "GET"@ ==> r == Ok::<HttpMethod, String>(HttpMethod::Get),
        method@ == "POST"@ ==> r == Ok::<HttpMethod, String>(HttpMethod::Post),
        method@ != "GET"@ && method@ != "POST"@ ==> (r matches Err(m) && m@
            == "Unsupported HTTP method"@),
{
    proof {
        reveal_strlit("GET");
        reveal_strlit("POST");
        assert("GET"@.len() == 3);
        assert("POST"@.len() == 4);
        assert("GET"@ != "POST"@);
    }
    let name = String::from_str(method);
    if name == String::from_str("GET") {
        Ok(HttpMethod::Get)
    } else if name == String::from_str("POST") {
        Ok(HttpMethod::Post)
    } else {
        Err(String::from_str("Unsupported HTTP method"))
    }
}

/// An authenticated request needs a stored session.
pub fn session_or_error(session: Option<LoginResponse>) -> (r: Result<LoginResponse, String>)
    ensures
        session matches Some(s) ==> (r matches Ok(t) && t@ == s@),
        session is None ==> (r matches Err(m) && m@ == "No session found. Please sign in."@),
{
    match session {
        Some(s) => Ok(s),
        None => Err(String::from_str("No session found. Please sign in.")),
    }
}

/// The `Authorization` header value for a session token.
pub fn bearer_value(token: &str) -> (v: String)
    ensures
        v@ == "Bearer "@ + token@,
{
    let mut v = String::from_str("Bearer ");
    v.append(token);
    v
}

/// How the client takes the server's answer.
#[derive(Clone, Copy, Debug, PartialEq, Eq, Structural)]
pub enum ReplyKind {
    /// 401: the session has expired; forget it and report.
    SessionExpired,
    /// Another status outside 200 to 299: report the status and body.
    ServerError,
    /// A success status: read the body.
    Accepted,
}

/// Classifies an answer by its status; `ok` tells whether the status is a
/// success (200 to 299).
pub fn classify_reply(status: u16, ok: bool) -> (k: ReplyKind)
    ensures
        status == 401 ==> k == ReplyKind::SessionExpired,
        status != 401 && !ok ==> k == ReplyKind::ServerError,
        status != 401 && ok ==> k == ReplyKind::Accepted,
{
    if status == 401 {
        ReplyKind::SessionExpired
    } else if !ok {
        ReplyKind::ServerError
    } else {
        ReplyKind::Accepted
    }
}

/// What the client reports when its session has expired.
pub fn session_expired_message() -> (m: String)
    ensures
        m@ == "Session expired. Please log in again."@,
{
    String::from_str("Session expired. Please log in again.")
}

/// What the client reports for a failed status: the status in decimal and the
/// body, or `Unknown error` when the body could not be read.
pub fn server_error_message(status: u16, body: Option<String>) -> (m: String)
    ensures
        m@ == "Server returned "@ + decimal_digits(status as nat) + ": "@ + match body {
            Some(b) => b@,
            None => "Unknown error"@,
        },
{
    let mut m = String::from_str("Server returned ");
    let code = unsigned_to_decimal(status as u64);
    m.append(code.as_str());
    m.append(": ");
    match body {
        Some(b) => m.append(b.as_str()),
        None => m.append("Unknown error"),
    }
    m
}

/// The stage of a request that failed with an error of the network layer.
#[derive(Clone, Copy, Debug, PartialEq, Eq, Structural)]
pub enum RequestStage {
    /// Encoding the body as JSON.
    Serialize,
    /// Sending the request.
    Send,
    /// Decoding the answer's JSON.
    Parse,
}

/// The prefix of the message for a failure at `stage`.
pub open spec fn stage_prefix(stage: RequestStage) -> Seq<char> {
    match stage {
        RequestStage::Serialize => "Serialization error: "@,
        RequestStage::Send => "Network connection error: "@,
        RequestStage::Parse => "Failed to parse response: "@,
    }
}

/// What the client reports for a failure at `stage` with the error text
/// `detail`.
pub fn failure_message(stage: RequestStage, detail: &str) -> (m: String)
    ensures
        m@ == stage_prefix(stage) + detail@,
{
    let mut m = match stage {
        RequestStage::Serialize => String::from_str("Serialization error: "),
        RequestStage::Send => String::from_str("Network connection error: "),
        RequestStage::Parse => String::from_str("Failed to parse response: "),
    };
    m.append(detail);
    m
}

/// The answer the meal board's button sends: yes for `meal` on `date`, by
/// the board's fixed member, with the remark `Test`.
pub fn board_answer(meal: MealType, date: CalendarDate) -> (e: AttendanceEntry)
    ensures
        e.id is None,
        e.user_id@ == "user123"@,
        e.meal == meal,
        e.date == date,
        e.response,
        e.remarks@ == "Test"@,
{
    AttendanceEntry {
        id: None,
        user_id: String::from_str("user123"),
        meal,
        date,
        response: true,
        remarks: String::from_str("Test"),
    }
}

} // verus!
