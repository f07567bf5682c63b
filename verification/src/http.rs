//! Trusted wrappers around the HTTP client and the JSON reader.
//!
//! Each function makes one outside call chain and converts its outcome to
//! plain values; nothing else in the crate touches the network.  The
//! contracts state only what the outside sources show: `ureq` returns `Ok`
//! exactly for a status below 400, and `Error::Status` carries the status
//! of a response of 400 or above.

use vstd::prelude::*;

verus! {

/// Failure of one HTTP exchange.
#[derive(Debug)]
pub enum HttpFailure {
    /// The server answered with a status code of 400 or above.
    Status(u16),
    /// The request could not be made or the response not read; the payload
    /// describes the failure.
    Transport(String),
}

impl Clone for HttpFailure {
    /// A clone reports the very same failure.
    fn clone(&self) -> (r: Self)
        ensures
            r == *self,
    {
        match self {
            HttpFailure::Status(c) => HttpFailure::Status(*c),
            HttpFailure::Transport(m) => HttpFailure::Transport(m.clone()),
        }
    }
}

/// What one HTTP exchange handed back: the status, the value of the response
/// header the caller asked for, and the response body text.
#[derive(Debug)]
pub struct HttpResponseParts {
    pub status: u16,
    pub header: Option<String>,
    pub body: String,
}

/// Relies on ureq::put, Request::set and Request::send_string: one HTTP PUT
/// of `body` to `uri`, authorized with the given Authorization header value
/// and sent with a JSON content type.  ureq hands back Ok only for a status
/// below 400, and Error::Status exactly for a status of 400 or above.
#[verifier::external_body]
pub(crate) fn http_put_json(uri: &str, auth_value: &str, body: &str) -> (r: Result<
    u16,
    HttpFailure,
>)
    ensures
        r matches Ok(st) ==> st < 400,
        r matches Err(HttpFailure::Status(st)) ==> 400 <= st,
{
    match ureq::put(uri)
        .set("Authorization", auth_value)
        .set("Content-Type", "application/json")
        .send_string(body)
    {
        Ok(resp) => Ok(resp.status()),
        Err(ureq::Error::Status(code, _)) => Err(HttpFailure::Status(code)),
        Err(e) => Err(HttpFailure::Transport(e.to_string())),
    }
}

/// Relies on ureq::post, Request::set, Request::send_string,
/// Response::status, Response::header and Response::into_string: one HTTP
/// POST of `body` to `uri` with a JSON content type, handing back the
/// status, the value of the `capture_header` response header, and the
/// response body text.  ureq hands back Ok only for a status below 400, and
/// Error::Status exactly for a status of 400 or above.
#[verifier::external_body]
pub(crate) fn http_post_json(uri: &str, body: &str, capture_header: &str) -> (r: Result<
    HttpResponseParts,
    HttpFailure,
>)
    ensures
        r matches Ok(p) ==> p.status < 400,
        r matches Err(HttpFailure::Status(st)) ==> 400 <= st,
{
    match ureq::post(uri).set("Content-Type", "application/json").send_string(body) {
        Ok(resp) => {
            let status = resp.status();
            let header = resp.header(capture_header).map(str::to_string);
            match resp.into_string() {
                Ok(body) => Ok(HttpResponseParts { status, header, body }),
                Err(e) => Err(HttpFailure::Transport(e.to_string())),
            }
        },
        Err(ureq::Error::Status(code, _)) => Err(HttpFailure::Status(code)),
        Err(e) => Err(HttpFailure::Transport(e.to_string())),
    }
}

/// Relies on ureq::get, Request::set, Request::call, Response::status and
/// Response::into_string: one HTTP GET of `uri`, authorized with the given
/// Authorization header value, handing back the status and the response body
/// text.  ureq hands back Ok only for a status below 400, and Error::Status
/// exactly for a status of 400 or above.
#[verifier::external_body]
pub(crate) fn http_get_auth(uri: &str, auth_value: &str) -> (r: Result<(u16, String), HttpFailure>)
    ensures
        r matches Ok(p) ==> p.0 < 400,
        r matches Err(HttpFailure::Status(st)) ==> 400 <= st,
{
    match ureq::get(uri).set("Authorization", auth_value).call() {
        Ok(resp) => {
            let status = resp.status();
            match resp.into_string() {
                Ok(body) => Ok((status, body)),
                Err(e) => Err(HttpFailure::Transport(e.to_string())),
            }
        },
        Err(ureq::Error::Status(code, _)) => Err(HttpFailure::Status(code)),
        Err(e) => Err(HttpFailure::Transport(e.to_string())),
    }
}

/// The string value of the named top-level field of a JSON document, if the
/// document parses and the field holds a string: a function of the two
/// arguments alone.
pub uninterp spec fn spec_json_str_field(body: Seq<char>, field: Seq<char>) -> Option<Seq<char>>;

/// Relies on serde_json::from_str, Value::get and Value::as_str: the string
/// value of the named top-level field of the JSON document `body`, or None
/// when the document does not parse, the field is absent, or its value is
/// not a string.
#[verifier::external_body]
pub(crate) fn json_str_field(body: &str, field: &str) -> (r: Option<String>)
    ensures
        r matches Some(s) ==> spec_json_str_field(body@, field@) == Some(s@),
        r is None ==> spec_json_str_field(body@, field@) is None,
{
    match serde_json::from_str::<serde_json::Value>(body) {
        Ok(v) => v.get(field).and_then(|f| f.as_str()).map(str::to_string),
        Err(_) => None,
    }
}

} // verus!
