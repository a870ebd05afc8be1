//! The two bridge operations the shell exposes to its UI surface: the fixed
//! backend address, and the health probe's verdict. The network round trip
//! itself is I/O and lives with the host; what came back is handed in here as
//! a `ProbeOutcome` and interpreted by verified code.

use vstd::prelude::*;
use crate::decimal::decimal_rep;
use crate::decimal::u16_to_decimal;

verus! {

/// The fixed base address of the local backend service.
pub open spec fn backend_url() -> Seq<char> {
    "http://127.0.0.1:8420"@
}

/// The address of the backend's health endpoint: the base address
/// followed by "/health".
pub open spec fn health_endpoint() -> Seq<char> {
    backend_url() + "/health"@
}

/// An HTTP status code that counts as success.
pub open spec fn is_success_status(code: u16) -> bool {
    200 <= code <= 299
}

/// The message reported when the backend answered with a success status.
pub open spec fn healthy_message() -> Seq<char> {
    "Backend is healthy"@
}

/// A code that can stand in an HTTP status line: exactly the three-digit
/// ones. `http::StatusCode::from_u16` accepts no others.
pub open spec fn is_http_status(code: u16) -> bool {
    100 <= code <= 999
}

/// What `http::StatusCode`'s rendering writes after the code's decimal
/// digits: a space and the canonical reason phrase (or a placeholder for a
/// code without one). Named here; pinned only by `render_http_status`.
pub uninterp spec fn reason_suffix(code: u16) -> Seq<char>;

/// How a status code is rendered in the failure message: for a code a status
/// line can carry, its decimal digits followed by its reason suffix; for any
/// other code, the digits alone.
pub open spec fn status_line(code: u16) -> Seq<char> {
    if is_http_status(code) {
        decimal_rep(code as nat) + reason_suffix(code)
    } else {
        decimal_rep(code as nat)
    }
}

/// The message reported when the backend answered with status `code`,
/// a non-success one: it embeds the code's rendered status line.
pub open spec fn status_error_message(code: u16) -> Seq<char> {
    "Backend returned status: "@ + status_line(code)
}

/// The message reported when the backend could not be reached at all:
/// it embeds the transport error's description.
pub open spec fn transport_error_message(detail: Seq<char>) -> Seq<char> {
    "Backend connection failed: "@ + detail
}

/// What one attempt to reach the backend's health endpoint came back with:
/// either an HTTP status code, or a transport-level failure (connection
/// refused, name resolution, timeout) with its description.
pub enum ProbeOutcome {
    Status(u16),
    TransportFailure(String),
}

/// Relies on `http::StatusCode`, as reqwest re-exports it: `from_u16`
/// accepts exactly the codes 100 through 999, and `Display` writes the
/// code's decimal digits, then a space and the canonical reason phrase
/// (a placeholder for a code without one). `reason_suffix` names that
/// space-and-phrase tail.
#[verifier::external_body]
fn render_http_status(code: u16) -> (r: String)
    requires
        is_http_status(code),
    ensures
        r@ == decimal_rep(code as nat) + reason_suffix(code),
{
    match reqwest::StatusCode::from_u16(code) {
        Ok(status) => format!("{}", status),
        Err(_) => String::new(),
    }
}

/// The fixed base URL of the backend, the same on every call.
pub fn get_backend_url() -> (url: String)
    ensures
        url@ == backend_url(),
{
    String::from_str("http://127.0.0.1:8420")
}

/// The URL the health probe queries.
pub fn get_health_url() -> (url: String)
    ensures
        url@ == health_endpoint(),
{
    let mut url = get_backend_url();
    url.append("/health");
    url
}

/// Turns the outcome of one health probe into the verdict reported to the
/// caller: success exactly on a 2xx status, with a fixed message; on any
/// other status an error naming that status; on a transport failure an
/// error carrying its description.
pub fn interpret_probe_outcome(outcome: ProbeOutcome) -> (r: Result<String, String>)
    ensures
        match outcome {
            ProbeOutcome::Status(code) => {
                &&& r is Ok <==> is_success_status(code)
                &&& (r matches Ok(m) ==> m@ == healthy_message())
                &&& (r matches Err(m) ==> m@ == status_error_message(code))
            },
            ProbeOutcome::TransportFailure(detail) => {
                &&& r is Err
                &&& (r matches Err(m) ==> m@ == transport_error_message(detail@))
            },
        },
{
    match outcome {
        ProbeOutcome::Status(code) => {
            if 200 <= code && code <= 299 {
                Ok(String::from_str("Backend is healthy"))
            } else {
                let mut m = String::from_str("Backend returned status: ");
                if 100 <= code && code <= 999 {
                    let line = render_http_status(code);
                    m.append(line.as_str());
                } else {
                    let digits = u16_to_decimal(code);
                    m.append(digits.as_str());
                }
                Err(m)
            }
        },
        ProbeOutcome::TransportFailure(detail) => {
            let mut m = String::from_str("Backend connection failed: ");
            m.append(detail.as_str());
            Err(m)
        },
    }
}

/// The backend address is one fixed constant: any two values that meet
/// `get_backend_url`'s contract are equal, so repeated calls agree.
pub proof fn lemma_backend_url_fixed(u1: Seq<char>, u2: Seq<char>)
    requires
        u1 == backend_url(),
        u2 == backend_url(),
    ensures
        u1 == u2,
{
}

/// A status error message embeds the status code: right after its fixed
/// prefix come exactly the code's decimal digits, and it is never empty.
pub proof fn lemma_status_error_message_embeds_code(code: u16)
    ensures
        status_error_message(code).len() > 0,
        status_error_message(code).subrange(
            "Backend returned status: "@.len() as int,
            "Backend returned status: "@.len() + decimal_rep(code as nat).len() as int,
        ) == decimal_rep(code as nat),
{
    reveal_strlit("Backend returned status: ");
    assert(status_error_message(code).subrange(
        "Backend returned status: "@.len() as int,
        "Backend returned status: "@.len() + decimal_rep(code as nat).len() as int,
    ) =~= decimal_rep(code as nat));
}

/// A transport error message embeds the transport error's description: past
/// its fixed prefix it is exactly that description, and the message is never
/// empty, whatever the description.
pub proof fn lemma_transport_error_message_embeds_detail(detail: Seq<char>)
    ensures
        transport_error_message(detail).len() > detail.len(),
        transport_error_message(detail).subrange(
            "Backend connection failed: "@.len() as int,
            transport_error_message(detail).len() as int,
        ) == detail,
{
    reveal_strlit("Backend connection failed: ");
    assert(transport_error_message(detail).subrange(
        "Backend connection failed: "@.len() as int,
        transport_error_message(detail).len() as int,
    ) =~= detail);
}

} // verus!
