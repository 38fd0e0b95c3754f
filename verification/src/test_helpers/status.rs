//! HTTP statuses as text.

use hyper::StatusCode;
use vstd::prelude::*;

use crate::text::decimal;

verus! {

/// Whether `code` can be a status: it has three digits.
pub open spec fn is_status(code: u16) -> bool {
    100 <= code < 1000
}

/// How `hyper::StatusCode` displays the status `code`.
pub uninterp spec fn status_text(code: u16) -> Seq<char>;

/// Calls `Display::fmt` of `hyper::StatusCode`, which shows the code in decimal, a space, and
/// the reason phrase that goes with the code. Which phrase that is, is left to a name.
#[verifier::external_body]
pub(crate) fn describe_status(code: u16) -> (s: String)
    requires
        is_status(code),
    ensures
        s@ == status_text(code),
        (decimal(code as nat) + " "@).is_prefix_of(s@),
{
    StatusCode::from_u16(code).unwrap().to_string()
}

} // verus!
