//! Stream commands and stream configuration values.

use vstd::prelude::*;

use crate::time::TimeSpec;

verus! {

/// How streaming is commanded on the device.
#[derive(Clone, Copy, Debug, PartialEq, Eq, Structural)]
pub enum StreamMode {
    StartContinuous,
    StopContinuous,
    NumSampsAndDone,
    NumSampsAndMore,
}

/// One streaming instruction. When `stream_now` is set the receiver ignores
/// `time_spec`.
#[derive(Clone, Copy, Debug, PartialEq, Eq, Structural)]
pub struct StreamCmd {
    pub stream_mode: StreamMode,
    pub num_samps: usize,
    pub stream_now: bool,
    pub time_spec: TimeSpec,
}

impl StreamCmd {
    pub fn start_continuous_now() -> (r: StreamCmd)
        ensures
            r == (StreamCmd {
                stream_mode: StreamMode::StartContinuous,
                num_samps: 0usize,
                stream_now: true,
                time_spec: TimeSpec { full_secs: 0i64, frac_ns: 0u32 },
            }),
    {
        StreamCmd {
            stream_mode: StreamMode::StartContinuous,
            num_samps: 0,
            stream_now: true,
            time_spec: TimeSpec::zero(),
        }
    }

    pub fn stop_continuous_now() -> (r: StreamCmd)
        ensures
            r == (StreamCmd {
                stream_mode: StreamMode::StopContinuous,
                num_samps: 0usize,
                stream_now: true,
                time_spec: TimeSpec { full_secs: 0i64, frac_ns: 0u32 },
            }),
    {
        StreamCmd {
            stream_mode: StreamMode::StopContinuous,
            num_samps: 0,
            stream_now: true,
            time_spec: TimeSpec::zero(),
        }
    }
}

/// A sample representation, in host memory or over the wire: 16-bit signed
/// integer pairs or 32-bit float pairs.
#[derive(Clone, Copy, Debug, PartialEq, Eq, Structural)]
pub enum SampleFormat {
    Sc16,
    Fc32,
}

/// The immutable configuration of one streaming session: host and wire sample
/// formats, free-form argument text, and the fixed channel list.
pub struct StreamArgs {
    pub cpu_format: SampleFormat,
    pub otw_format: SampleFormat,
    pub args: String,
    pub channels: Vec<usize>,
}

/// Whether a transmit streamer can be built over this host/wire format pair:
/// the wire carries 16-bit integer pairs, and the host side may use either
/// representation.
pub open spec fn spec_tx_formats_supported(cpu: SampleFormat, otw: SampleFormat) -> bool {
    otw == SampleFormat::Sc16 && (cpu == SampleFormat::Sc16 || cpu == SampleFormat::Fc32)
}

/// Whether a receive streamer can be built over this host/wire format pair:
/// both sides carry 16-bit integer pairs.
pub open spec fn spec_rx_formats_supported(cpu: SampleFormat, otw: SampleFormat) -> bool {
    otw == SampleFormat::Sc16 && cpu == SampleFormat::Sc16
}

pub fn tx_formats_supported(cpu: SampleFormat, otw: SampleFormat) -> (r: bool)
    ensures
        r == spec_tx_formats_supported(cpu, otw),
{
    matches!(otw, SampleFormat::Sc16) && (matches!(cpu, SampleFormat::Sc16) || matches!(
        cpu,
        SampleFormat::Fc32,
    ))
}

pub fn rx_formats_supported(cpu: SampleFormat, otw: SampleFormat) -> (r: bool)
    ensures
        r == spec_rx_formats_supported(cpu, otw),
{
    matches!(otw, SampleFormat::Sc16) && matches!(cpu, SampleFormat::Sc16)
}

} // verus!
