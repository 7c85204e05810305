//! Per-transfer metadata: the receive-side error code and timestamp, and the
//! transmit-side burst flags and scheduled time.

use vstd::prelude::*;

use crate::time::TimeSpec;

verus! {

/// The error classification the driver attaches to one received packet.
#[derive(Clone, Copy, Debug, PartialEq, Eq, Structural)]
pub enum RxMetadataErrorCode {
    /// No error code associated with this metadata.
    NoError,
    /// No packet received; the driver timed out.
    Timeout,
    /// A stream command was issued in the past.
    LateCommand,
    /// Expected another stream command.
    BrokenChain,
    /// Overflow or sequence error; recoverable under sustained streaming.
    Overflow,
    /// Multi-channel alignment failed.
    Alignment,
    /// The packet could not be parsed.
    BadPacket,
}

/// Timing and status of the most recent receive transfer.
#[derive(Clone, Copy, Debug, PartialEq, Eq, Structural)]
pub struct RxMetadata {
    pub error_code: RxMetadataErrorCode,
    pub time: TimeSpec,
}

impl RxMetadata {
    pub fn new() -> (r: Result<RxMetadata, &'static str>)
        ensures
            r == Ok::<RxMetadata, &'static str>(
                RxMetadata {
                    error_code: RxMetadataErrorCode::NoError,
                    time: TimeSpec { full_secs: 0i64, frac_ns: 0u32 },
                },
            ),
    {
        Ok(RxMetadata { error_code: RxMetadataErrorCode::NoError, time: TimeSpec::zero() })
    }

    pub fn error_code(&self) -> (r: Result<RxMetadataErrorCode, &'static str>)
        ensures
            r == Ok::<RxMetadataErrorCode, &'static str>(self.error_code),
    {
        Ok(self.error_code)
    }

    /// The time of the first sample of the transfer this metadata describes.
    pub fn time_spec(&self) -> (r: Result<TimeSpec, &'static str>)
        ensures
            r == Ok::<TimeSpec, &'static str>(self.time),
    {
        Ok(self.time)
    }
}

/// Burst framing and optional scheduled start time for one transmit call.
#[derive(Clone, Copy, Debug, PartialEq, Eq, Structural)]
pub struct TxMetadata {
    pub has_time_spec: bool,
    pub time: TimeSpec,
    pub start_of_burst: bool,
    pub end_of_burst: bool,
}

impl TxMetadata {
    pub fn new(
        time_spec: Option<TimeSpec>,
        start_of_burst: bool,
        end_of_burst: bool,
    ) -> (r: Result<TxMetadata, &'static str>)
        ensures
            r matches Ok(md) && {
                &&& md.has_time_spec == time_spec.is_some()
                &&& md.time == (if time_spec is Some {
                    time_spec->0
                } else {
                    TimeSpec { full_secs: 0i64, frac_ns: 0u32 }
                })
                &&& md.start_of_burst == start_of_burst
                &&& md.end_of_burst == end_of_burst
            },
    {
        let (has_time_spec, time) = match time_spec {
            Some(t) => (true, t),
            None => (false, TimeSpec::zero()),
        };
        Ok(TxMetadata { has_time_spec, time, start_of_burst, end_of_burst })
    }

    pub fn has_time_spec(&self) -> (r: Result<bool, &'static str>)
        ensures
            r == Ok::<bool, &'static str>(self.has_time_spec),
    {
        Ok(self.has_time_spec)
    }

    pub fn time_spec(&self) -> (r: Result<TimeSpec, &'static str>)
        ensures
            r == Ok::<TimeSpec, &'static str>(self.time),
    {
        Ok(self.time)
    }
}

} // verus!
