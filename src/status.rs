//! Status codes and their resolution from requested numbers.
use vstd::prelude::*;

verus! {

/// Success.
pub const OK: u16 = 200;

/// The fallback for a requested code that is not a status code.
pub const BAD_REQUEST: u16 = 400;

/// No route matched the request.
pub const NOT_FOUND: u16 = 404;

/// A simulated (or, for a poisoned counter, real) server fault.
pub const INTERNAL_SERVER_ERROR: u16 = 500;

/// A number is a status code when it has three decimal digits.
pub open spec fn is_status_code(code: u16) -> bool {
    100 <= code <= 999
}

/// The status that a requested code resolves to.
pub open spec fn resolved_status(code: u16) -> u16 {
    if is_status_code(code) {
        code
    } else {
        BAD_REQUEST
    }
}

/// Relies on http::StatusCode::from_u16, which accepts exactly 100..=999, and on
/// StatusCode::as_u16, which hands back the number it was made from.
#[verifier::external_body]
fn status_from_u16(code: u16) -> (r: Option<u16>)
    ensures
        r == (if is_status_code(code) {
            Some(code)
        } else {
            None::<u16>
        }),
{
    match axum::http::StatusCode::from_u16(code) {
        Ok(s) => Some(s.as_u16()),
        Err(_) => None,
    }
}

/// The status for a requested code: the code itself where it is a status
/// code, else `BAD_REQUEST`.
pub fn resolve_status(code: u16) -> (r: u16)
    ensures
        r == resolved_status(code),
        is_status_code(code) ==> r == code,
        !is_status_code(code) ==> r == BAD_REQUEST,
{
    match status_from_u16(code) {
        Some(s) => s,
        None => BAD_REQUEST,
    }
}

} // verus!
