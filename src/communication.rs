use vstd::prelude::*;
use crate::model::{LoginResult, Reason};

verus! {

#[verifier::external_type_specification]
#[verifier::external_body]
pub struct ExJsonError(serde_json::Error);

/// The JSON string literal that encodes `s` (quotes and escapes included).
pub uninterp spec fn json_string(s: Seq<char>) -> Seq<char>;

/// The text of member `key` of the JSON object written in `body`, where
/// `body` parses as JSON, is an object, and that member is a string.
pub uninterp spec fn json_text_member(body: Seq<char>, key: Seq<char>) -> Option<Seq<char>>;

/// Relies on `serde_json::to_string` on a `str`: it writes the string as one
/// JSON string literal into a `Vec`, which cannot fail.
#[verifier::external_body]
fn quote_json(s: &str) -> (r: Result<String, serde_json::Error>)
    ensures
        r is Ok,
        r->Ok_0@ == json_string(s@),
{
    serde_json::to_string(s)
}

/// Relies on `serde_json::from_str` into a `serde_json::Value`, then
/// `Value::get` with a string key and `Value::as_str`: the member's text,
/// or `None` where the body is not JSON, not an object, lacks the member or
/// holds something other than a string there.
#[verifier::external_body]
fn text_member(body: &str, key: &str) -> (r: Option<String>)
    ensures
        r is Some <==> json_text_member(body@, key@) is Some,
        r is Some ==> r->Some_0@ == json_text_member(body@, key@)->Some_0,
{
    let v: serde_json::Value = match serde_json::from_str(body) {
        Ok(v) => v,
        Err(_) => return None,
    };
    v.get(key).and_then(serde_json::Value::as_str).map(String::from)
}

/// The JSON body of a login request for `username` and `password`.
pub open spec fn login_body(username: Seq<char>, password: Seq<char>) -> Seq<char> {
    "{\"username\":"@ + json_string(username) + ",\"password\":"@ + json_string(password) + "}"@
}

/// Builds the JSON body that a login request carries.
pub fn login_request_body(username: &str, password: &str) -> (r: String)
    ensures
        r@ == login_body(username@, password@),
{
    let u = quote_json(username);
    let p = quote_json(password);
    let mut r = String::from_str("{\"username\":");
    match u {
        Ok(t) => r.append(t.as_str()),
        Err(_) => {},
    }
    r.append(",\"password\":");
    match p {
        Ok(t) => r.append(t.as_str()),
        Err(_) => {},
    }
    r.append("}");
    r
}

/// HTTP status of a successful login.
pub const STATUS_OK: u16 = 200;

/// HTTP status of an unauthenticated request.
pub const STATUS_UNAUTHORIZED: u16 = 401;

/// HTTP status of a refused request.
pub const STATUS_FORBIDDEN: u16 = 403;

/// What a login reply with `status` and `body` means for the session:
/// `Ok((session id, username))`, or why the login failed.
pub open spec fn login_reply(status: u16, body: Seq<char>) -> Result<
    (Seq<char>, Seq<char>),
    Reason,
> {
    if status == STATUS_OK {
        match (json_text_member(body, "sessionId"@), json_text_member(body, "username"@)) {
            (Some(id), Some(name)) => Ok((id, name)),
            _ => Err(Reason::Other),
        }
    } else if status == STATUS_UNAUTHORIZED || status == STATUS_FORBIDDEN {
        Err(Reason::InvalidCredentials)
    } else {
        Err(Reason::Other)
    }
}

/// Classifies the service's reply to a login request and, on success,
/// reads the session out of its body.
pub fn login_outcome(status: u16, body: &str) -> (r: Result<LoginResult, Reason>)
    ensures
        r is Ok <==> login_reply(status, body@) is Ok,
        r matches Ok(s) ==> ({
            &&& login_reply(status, body@) == Ok::<(Seq<char>, Seq<char>), Reason>(
                (s.session_id@, s.username@),
            )
            &&& s.roles@.len() == 0
        }),
        r matches Err(e) ==> login_reply(status, body@) == Err::<(Seq<char>, Seq<char>), Reason>(
            e,
        ),
{
    if status == STATUS_OK {
        let id = text_member(body, "sessionId");
        let name = text_member(body, "username");
        match (id, name) {
            (Some(session_id), Some(username)) => Ok(
                LoginResult { session_id, username, roles: Vec::new() },
            ),
            _ => Err(Reason::Other),
        }
    } else if status == STATUS_UNAUTHORIZED || status == STATUS_FORBIDDEN {
        Err(Reason::InvalidCredentials)
    } else {
        Err(Reason::Other)
    }
}

} // verus!
