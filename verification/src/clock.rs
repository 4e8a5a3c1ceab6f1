//! The current time and fresh identifiers, from outside the library.

use vstd::prelude::*;

verus! {

/// `chrono::Utc::now().to_rfc3339()`: the current UTC time in RFC 3339
/// form. It depends on the clock, so nothing is said of it.
#[verifier::external_body]
pub(crate) fn now_rfc3339() -> (r: String) {
    chrono::Utc::now().to_rfc3339()
}

/// `uuid::Uuid::new_v4()` in its hyphenated text form: a random
/// identifier, so nothing is said of it.
#[verifier::external_body]
pub(crate) fn new_request_id() -> (r: String) {
    uuid::Uuid::new_v4().to_string()
}

} // verus!
