//! Textual rendering of native driver status codes.

use vstd::prelude::*;

verus! {

/// Returns the descriptive name of a native status code. Code 0 means
/// success; the named nonzero codes are the driver's exception classes, and
/// anything else is reported as unknown.
pub fn err_to_string(e: isize) -> (r: &'static str)
    ensures
        e == 0 ==> r@ == "None"@,
        e == 11 ==> r@ == "uhd::key_error"@,
        e == 20 ==> r@ == "uhd::not_implemented"@,
        e == 41 ==> r@ == "uhd::lookup_error"@,
        e == 43 ==> r@ == "uhd::value"@,
        e == 100 ==> r@ == "Unknown error at the C level"@,
        !(e == 0 || e == 11 || e == 20 || e == 41 || e == 43 || e == 100)
            ==> r@ == "Unknown error at the Rust level"@,
{
    match e {
        0 => "None",
        11 => "uhd::key_error",
        20 => "uhd::not_implemented",
        41 => "uhd::lookup_error",
        43 => "uhd::value",
        100 => "Unknown error at the C level",
        _ => "Unknown error at the Rust level",
    }
}

} // verus!
