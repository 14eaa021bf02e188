//! Decoding of the provider's uniform response envelope, and the shared
//! success/error decision applied to every response.

use vstd::prelude::*;
use crate::error::Error;
use crate::query::s_to_string;

verus! {

/// Whether an HTTP status counts as success: 2xx, or 206 partial content.
pub open spec fn spec_status_ok(status: u16) -> bool {
    (200 <= status && status < 300) || status == 206
}

/// Exec mirror of `spec_status_ok`.
pub fn status_ok(status: u16) -> (r: bool)
    ensures
        r == spec_status_ok(status),
{
    (200 <= status && status < 300) || status == 206
}

pub uninterp spec fn envelope_of(body: Seq<char>) -> Option<(i32, Option<Seq<char>>)>;

/// Relies on `serde_json::from_str` and the accessors of
/// `serde_json::Value`: whether a body parses as a JSON object, and what
/// its `errno` and `errmsg` members hold, are functions of the text alone.
/// The envelope parses when the body is a JSON object whose `errno` member
/// is absent (then zero) or an integer fitting `i32`, and whose `errmsg`
/// member is absent or null (then none) or a string.
#[verifier::external_body]
fn parse_envelope(body: &str) -> (r: Option<(i32, Option<String>)>)
    ensures
        r is Some <==> envelope_of(body@) is Some,
        r matches Some(p) ==> {
            &&& envelope_of(body@) matches Some(q)
            &&& q.0 == p.0
            &&& (p.1 is Some <==> q.1 is Some)
            &&& (p.1 matches Some(m) ==> q.1 == Some(m@))
        },
{
    let v: serde_json::Value = serde_json::from_str(body).ok()?;
    let obj = match v { serde_json::Value::Object(m) => m, _ => return None };
    let errno: i32 = match obj.get("errno") {
        None => 0,
        Some(serde_json::Value::Number(n)) => i32::try_from(n.as_i64()?).ok()?,
        Some(_) => return None,
    };
    let errmsg: Option<String> = match obj.get("errmsg") {
        None | Some(serde_json::Value::Null) => None,
        Some(serde_json::Value::String(s)) => Some(s.clone()),
        Some(_) => return None,
    };
    Some((errno, errmsg))
}

/// Decides what a raw response means.
///
/// A non-success status is an application error carrying the status as its
/// code and the body verbatim as its message. With a success status, a
/// body whose envelope carries a non-zero code is an application error
/// with that code and the envelope's message (or a fixed text when it has
/// none); any other body is the payload, handed back for typed decoding.
pub fn classify_response(status: u16, body: String) -> (r: Result<String, Error>)
    ensures
        !spec_status_ok(status) ==> (r matches Err(e) && e matches Error::ApiError {
            errno,
            message,
        } && errno == status as i32 && message@ == body@),
        spec_status_ok(status) ==> (match envelope_of(body@) {
            Some(q) => {
                if q.0 != 0 {
                    r matches Err(e) && e matches Error::ApiError { errno, message } && errno
                        == q.0 && (match q.1 {
                        Some(m) => message@ == m,
                        None => message@ == "Unknown error"@,
                    })
                } else {
                    r matches Ok(p) && p@ == body@
                }
            },
            None => r matches Ok(p) && p@ == body@,
        }),
{
    if !status_ok(status) {
        return Err(Error::ApiError { errno: status as i32, message: body });
    }
    match parse_envelope(body.as_str()) {
        Some((errno, errmsg)) => {
            if errno != 0 {
                let message = match errmsg {
                    Some(m) => m,
                    None => s_to_string("Unknown error"),
                };
                Err(Error::ApiError { errno, message })
            } else {
                Ok(body)
            }
        },
        None => Ok(body),
    }
}

} // verus!
