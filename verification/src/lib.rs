//! A memory-safe, higher-level model of a software-defined-radio driver's
//! streaming data path: receive and transmit streamer state, metadata-driven
//! burst control, and the GPS-disciplined clock synchronization protocol.
//!
//! Every decision the data path makes — how a large transfer is split into
//! native calls, which metadata each chunk carries, which metadata error codes
//! are fatal, when the clock-lock poll gives up, and when a commanded value can
//! be skipped — is implemented and verified here over plain values. The raw
//! native driver calls themselves (blocking transfers, sensor reads, sleeps)
//! are performed by a thin unverified layer that feeds their outcomes back into
//! these functions.

use vstd::prelude::*;

pub mod error;
pub mod io;
pub mod job;
pub mod metadata;
pub mod rx_streamer;
pub mod sensors;
pub mod string_vector;
pub mod subdev_spec;
pub mod stream;
pub mod time;
pub mod timing;
pub mod tune;
pub mod tx_streamer;
pub mod usrp;

verus! {

/// Turns a native status code into a result: zero carries the value through,
/// any other code is the generic call failure.
pub fn check_err<T>(t: T, result: isize) -> (r: Result<T, &'static str>)
    ensures
        result == 0 ==> r == Ok::<T, &'static str>(t),
        result != 0 ==> (r matches Err(m) && m@ == "Failed return value check"@),
{
    match result {
        0 => Ok(t),
        _ => Err("Failed return value check"),
    }
}

} // verus!
