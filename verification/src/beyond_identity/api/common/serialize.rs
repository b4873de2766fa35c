//! How the answer of a failed request is shown: its body as indented JSON where it is
//! JSON, otherwise the status and the body.
use vstd::prelude::*;
use vstd::string::*;
use crate::text::{decimal, u64_to_decimal};
use crate::weburl::opt_view;

verus! {

/// `http::StatusCode::canonical_reason` of the status `code`.
pub uninterp spec fn canonical_reason(code: u16) -> Option<Seq<char>>;

/// What `serde_json` makes of `text`: parsed as a JSON value and written back indented
/// (`to_string_pretty`); `None` where `text` is not JSON.
pub uninterp spec fn json_pretty(text: Seq<char>) -> Option<Seq<char>>;

/// `http::StatusCode::canonical_reason`: the reason phrase of a status code between 100
/// and 999 (which `StatusCode::from_u16` accepts), where the crate knows one.
#[verifier::external_body]
fn reason_phrase(code: u16) -> (r: Option<String>)
    requires
        100 <= code <= 999,
    ensures
        opt_view(r) == canonical_reason(code),
{
    match http::StatusCode::from_u16(code) {
        Ok(status) => status.canonical_reason().map(|s| s.to_string()),
        Err(_) => None,
    }
}

/// `serde_json::from_str::<serde_json::Value>` and `serde_json::to_string_pretty`: `text`
/// re-indented where it is JSON, `None` where it is not.
#[verifier::external_body]
fn pretty_json(text: &str) -> (r: Option<String>)
    ensures
        opt_view(r) == json_pretty(text@),
{
    match serde_json::from_str::<serde_json::Value>(text) {
        Ok(value) => serde_json::to_string_pretty(&value).ok(),
        Err(_) => None,
    }
}

/// How a status is shown (`StatusCode`'s `Display`): the code and its reason phrase, or
/// `<unknown status code>`.
pub open spec fn status_shown(code: u16) -> Seq<char> {
    decimal(code as nat) + " "@ + match canonical_reason(code) {
        Some(reason) => reason,
        None => "<unknown status code>"@,
    }
}

/// The status `code` as `StatusCode` shows it.
pub fn status_text(code: u16) -> (r: String)
    requires
        100 <= code <= 999,
    ensures
        r@ == status_shown(code),
{
    let mut s = u64_to_decimal(code as u64);
    s.append(" ");
    match reason_phrase(code) {
        Some(reason) => s.append(reason.as_str()),
        None => s.append("<unknown status code>"),
    }
    s
}

/// What is printed for a request answered with the status `code` and the body `body`:
/// the body indented where it is JSON, otherwise `Error (HTTP <status>): <body>`.
pub open spec fn request_error_shown(code: u16, body: Seq<char>) -> Seq<char> {
    match json_pretty(body) {
        Some(p) => p,
        None => "Error (HTTP "@ + status_shown(code) + "): "@ + body,
    }
}

/// What is printed for a request answered with the status `code` and the body `body`.
pub fn request_error_output(code: u16, body: &str) -> (r: String)
    requires
        100 <= code <= 999,
    ensures
        r@ == request_error_shown(code, body@),
{
    match pretty_json(body) {
        Some(p) => p,
        None => {
            let mut s = String::from_str("Error (HTTP ");
            let status = status_text(code);
            s.append(status.as_str());
            s.append("): ");
            s.append(body);
            s
        },
    }
}

} // verus!
