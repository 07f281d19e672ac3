//! HTTP status codes and their reason phrases, as rocket knows them.

use vstd::prelude::*;

verus! {

/// The status codes for which rocket has a canonical reason phrase:
/// `rocket::http::Status::from_code` is `Some` exactly for these.
pub open spec fn is_known_status(code: u16) -> bool {
    ||| 100 <= code <= 102
    ||| 200 <= code <= 208
    ||| code == 226
    ||| 300 <= code <= 305
    ||| code == 307 || code == 308
    ||| 400 <= code <= 418
    ||| 421 <= code <= 424
    ||| code == 426 || code == 428 || code == 429 || code == 431 || code == 451
    ||| 500 <= code <= 508
    ||| code == 510 || code == 511
}

/// What `rocket::http::Status::new(code).reason()` gives.
pub uninterp spec fn status_reason(code: u16) -> Option<Seq<char>>;

/// `rocket::http::Status::new(code).reason()`, copied into a `String`.
/// Stated besides the name, from rocket's table of statuses: a phrase exists
/// exactly for the codes rocket lists, and the phrases of the codes this
/// service answers with are "OK", "Bad Request", "Unauthorized",
/// "Not Found", "Unprocessable Entity" and "Internal Server Error". The
/// phrases of the other codes are left to the name.
#[verifier::external_body]
pub(crate) fn reason_phrase(code: u16) -> (r: Option<String>)
    ensures
        r.deep_view() == status_reason(code),
        r is Some <==> is_known_status(code),
        code == 200 ==> r.deep_view() == Some("OK"@),
        code == 400 ==> r.deep_view() == Some("Bad Request"@),
        code == 401 ==> r.deep_view() == Some("Unauthorized"@),
        code == 404 ==> r.deep_view() == Some("Not Found"@),
        code == 422 ==> r.deep_view() == Some("Unprocessable Entity"@),
        code == 500 ==> r.deep_view() == Some("Internal Server Error"@),
{
    match rocket::http::Status::new(code).reason() {
        Some(t) => Some(t.to_string()),
        None => None,
    }
}

/// The reason phrase of a known status code: spelled out for the codes this
/// service answers with, rocket's phrase (the name) for the others.
pub open spec fn reason_of(code: u16) -> Seq<char> {
    if code == 200 {
        "OK"@
    } else if code == 400 {
        "Bad Request"@
    } else if code == 401 {
        "Unauthorized"@
    } else if code == 404 {
        "Not Found"@
    } else if code == 422 {
        "Unprocessable Entity"@
    } else if code == 500 {
        "Internal Server Error"@
    } else {
        status_reason(code)->Some_0
    }
}

/// The reason phrase of a status code that rocket knows:
/// `Status::from_code(code).unwrap().reason().unwrap()`.
pub fn known_reason(code: u16) -> (r: String)
    requires
        is_known_status(code),
    ensures
        r@ == reason_of(code),
{
    match reason_phrase(code) {
        Some(t) => t,
        None => String::new(),
    }
}

} // verus!
