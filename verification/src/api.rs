//! Rules of the pass-through command layer: the uniform reply handling that
//! every per-endpoint command shares, and the validation of hand-built
//! debug-console requests.

use crate::errors::{ApiError, RustError};
use crate::json::{json_text_well_formed, well_formed};
use crate::text::{spec_dec, str_eq, u16_to_string};
use vstd::prelude::*;
use vstd::string::StringExecFns;

verus! {

/// Uniform reply shape handed to the user interface by commands that report
/// degraded outcomes in-band rather than as failures.
#[derive(Debug, Clone)]
pub struct ApiResponse {
    pub status: String,
    pub data: String,
}

impl ApiResponse {
    /// A successful reply carrying `data`.
    pub fn ok(data: String) -> (r: Self)
        ensures
            r.status@ == "ok"@,
            r.data@ == data@,
    {
        ApiResponse { status: String::from_str("ok"), data }
    }

    /// A degraded reply carrying `data` as its explanation.
    pub fn error(data: String) -> (r: Self)
        ensures
            r.status@ == "error"@,
            r.data@ == data@,
    {
        ApiResponse { status: String::from_str("error"), data }
    }
}

/// The shared pass-through rule: a success hands the body through
/// unchanged; any other status is reported as a transport failure carrying
/// the status observed.
pub fn raw_response(status: u16, body: String) -> (r: Result<String, ApiError>)
    ensures
        status == 200 ==> (r matches Ok(t) && t@ == body@),
        status != 200 ==> r == Err::<String, ApiError>(
            ApiError::TransportOrServiceError { status },
        ),
{
    if status == 200 {
        Ok(body)
    } else {
        Err(ApiError::TransportOrServiceError { status })
    }
}

/// The self-invite reply rule: a success answers plainly true; any other
/// status is a transport failure carrying the status observed.
pub fn invite_response(status: u16) -> (r: Result<bool, ApiError>)
    ensures
        status == 200 ==> r == Ok::<bool, ApiError>(true),
        status != 200 ==> r == Err::<bool, ApiError>(ApiError::TransportOrServiceError { status }),
{
    if status == 200 {
        Ok(true)
    } else {
        Err(ApiError::TransportOrServiceError { status })
    }
}

/// A hand-built request from the debug console.
#[derive(Debug, Clone)]
pub struct DebugApiRequest {
    pub method: String,
    pub endpoint: String,
    pub data: Option<String>,
}

/// The request methods the debug console accepts.
#[derive(Clone, Copy, Debug, PartialEq, Eq, Structural)]
pub enum HttpMethod {
    Get,
    Post,
    Put,
    Delete,
    Patch,
}

/// The method named by an (already uppercased) method text.
pub open spec fn spec_method_of(s: Seq<char>) -> Option<HttpMethod> {
    if s == "GET"@ {
        Some(HttpMethod::Get)
    } else if s == "POST"@ {
        Some(HttpMethod::Post)
    } else if s == "PUT"@ {
        Some(HttpMethod::Put)
    } else if s == "DELETE"@ {
        Some(HttpMethod::Delete)
    } else if s == "PATCH"@ {
        Some(HttpMethod::Patch)
    } else {
        None
    }
}

/// The five accepted method names differ pairwise.
proof fn lemma_method_names_distinct()
    ensures
        "GET"@ != "POST"@,
        "GET"@ != "PUT"@,
        "GET"@ != "DELETE"@,
        "GET"@ != "PATCH"@,
        "POST"@ != "PUT"@,
        "POST"@ != "DELETE"@,
        "POST"@ != "PATCH"@,
        "PUT"@ != "DELETE"@,
        "PUT"@ != "PATCH"@,
        "DELETE"@ != "PATCH"@,
{
    reveal_strlit("GET");
    reveal_strlit("POST");
    reveal_strlit("PUT");
    reveal_strlit("DELETE");
    reveal_strlit("PATCH");
    assert("GET"@[0] == 'G');
    assert("POST"@[0] == 'P');
    assert("PUT"@[1] == 'U');
    assert("POST"@[1] == 'O');
    assert("PATCH"@[1] == 'A');
    assert("DELETE"@[0] == 'D');
    assert("GET"@.len() == 3);
    assert("POST"@.len() == 4);
    assert("PUT"@.len() == 3);
    assert("DELETE"@.len() == 6);
    assert("PATCH"@.len() == 5);
}

/// Reads a method name, exactly the five accepted spellings.
pub fn http_method_from(s: &str) -> (r: Option<HttpMethod>)
    ensures
        r == spec_method_of(s@),
{
    proof {
        lemma_method_names_distinct();
    }
    if str_eq(s, "GET") {
        Some(HttpMethod::Get)
    } else if str_eq(s, "POST") {
        Some(HttpMethod::Post)
    } else if str_eq(s, "PUT") {
        Some(HttpMethod::Put)
    } else if str_eq(s, "DELETE") {
        Some(HttpMethod::Delete)
    } else if str_eq(s, "PATCH") {
        Some(HttpMethod::Patch)
    } else {
        None
    }
}

/// What `str::to_uppercase` returns, a function of the characters alone.
pub uninterp spec fn upper_of(s: Seq<char>) -> Seq<char>;

/// Relies on str::to_uppercase: the Unicode uppercase of the text, which
/// depends on the characters alone.
#[verifier::external_body]
pub(crate) fn to_upper(s: &str) -> (r: String)
    ensures
        r@ == upper_of(s@),
{
    s.to_uppercase()
}

/// A debug request whose method and payload passed validation.
#[derive(Debug, Clone)]
pub struct PreparedRequest {
    pub method: HttpMethod,
    pub endpoint: String,
    pub data: Option<String>,
}

/// Validates a debug-console request: the method name is read
/// case-insensitively against the five accepted methods, and an attached
/// payload must be well-formed JSON. The endpoint and payload pass through
/// unchanged.
pub fn prepare_debug_request(request: DebugApiRequest) -> (r: Result<PreparedRequest, RustError>)
    ensures
        ({
            let m = spec_method_of(upper_of(request.method@));
            &&& (m is None ==> (r matches Err(e) && e matches RustError::Unrecoverable { message }
                && message@ == "Unsupported HTTP method"@))
            &&& (m matches Some(method) ==> (match request.data {
                Some(d) => {
                    if json_text_well_formed(d@) {
                        (r matches Ok(p) && p.method == method && p.endpoint@ == request.endpoint@
                            && (p.data matches Some(pd) && pd@ == d@))
                    } else {
                        (r matches Err(e) && e matches RustError::Unrecoverable { message }
                            && message@ == "Invalid JSON data"@)
                    }
                },
                None => (r matches Ok(p) && p.method == method && p.endpoint@
                    == request.endpoint@ && p.data is None),
            }))
        }),
{
    let upper = to_upper(request.method.as_str());
    match http_method_from(upper.as_str()) {
        None => Err(RustError::unrecoverable(String::from_str("Unsupported HTTP method"))),
        Some(method) => match request.data {
            Some(d) => {
                if well_formed(d.as_str()) {
                    Ok(PreparedRequest { method, endpoint: request.endpoint, data: Some(d) })
                } else {
                    Err(RustError::unrecoverable(String::from_str("Invalid JSON data")))
                }
            },
            None => Ok(PreparedRequest { method, endpoint: request.endpoint, data: None }),
        },
    }
}

/// The debug-console reply rule: a success wraps the body as an `ok`
/// reply; any other status is reported inside an `error` reply carrying
/// the status digits, never as a failure.
pub fn debug_response(status: u16, body: String) -> (r: ApiResponse)
    ensures
        status == 200 ==> r.status@ == "ok"@ && r.data@ == body@,
        status != 200 ==> r.status@ == "error"@ && r.data@ == "Request failed with status: "@
            + spec_dec(status as int),
{
    if status == 200 {
        ApiResponse::ok(body)
    } else {
        let mut message = String::from_str("Request failed with status: ");
        let digits = u16_to_string(status);
        message.append(digits.as_str());
        ApiResponse::error(message)
    }
}

/// The license-file reply rule: content that was read wraps as `ok`; a
/// read failure wraps its message as an `error` reply behind a fixed
/// prefix, never as a failure.
pub fn license_response(content: Result<String, String>) -> (r: ApiResponse)
    ensures
        content matches Ok(c) ==> r.status@ == "ok"@ && r.data@ == c@,
        content matches Err(m) ==> r.status@ == "error"@ && r.data@
            == "Failed to read licenses file: "@ + m@,
{
    match content {
        Ok(c) => ApiResponse::ok(c),
        Err(m) => {
            let mut data = String::from_str("Failed to read licenses file: ");
            data.append(m.as_str());
            ApiResponse::error(data)
        },
    }
}

} // verus!
