//! Classification of HTTP status codes.

use vstd::prelude::*;

verus! {

/// The status that means "no such resource".
pub const NOT_FOUND: u16 = 404;

/// Whether `code` lies in the success class, 200 to 299.
pub open spec fn is_success(code: u16) -> bool {
    200 <= code < 300
}

/// Tells whether `code` lies in the success class.
pub fn status_is_success(code: u16) -> (ok: bool)
    ensures
        ok == is_success(code),
{
    200 <= code && code < 300
}

} // verus!
