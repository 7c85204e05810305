//! The device facade: owns the commanded-value caches, validates streamer
//! configurations before anything native is allocated, and records the
//! time/clock source and scheduled-time commands that the synchronization
//! protocol issues.
//!
//! The cache is a pure performance policy with no correctness impact:
//! re-issuing an identical command to the native layer is always safe, only
//! slow. Each setter therefore answers one question — must the native call be
//! issued, or was this exact value already commanded? — and the answer is
//! proved against the cache's history.

use vstd::prelude::*;

use crate::stream::{SampleFormat, StreamArgs};
use crate::time::TimeSpec;
use crate::tx_streamer::TxStreamer;
use crate::rx_streamer::RxStreamer;

verus! {

/// One connected radio device: the caches of the last-commanded scalar values
/// and the last-commanded time/clock configuration.
pub struct USRP {
    /// The last sample rate commanded, in millihertz.
    pub last_commanded_rate: Option<u64>,
    /// The last gain commanded, in millidecibels.
    pub last_commanded_gain: Option<i64>,
    /// The last analog bandwidth commanded, in millihertz.
    pub last_commanded_bw: Option<u64>,
    /// The time source most recently commanded, per this session.
    pub time_source: Option<String>,
    /// The clock source most recently commanded, per this session.
    pub clock_source: Option<String>,
    /// The device time most recently scheduled onto a PPS edge.
    pub scheduled_pps_time: Option<TimeSpec>,
}

impl USRP {
    pub fn new() -> (r: USRP)
        ensures
            r.last_commanded_rate is None,
            r.last_commanded_gain is None,
            r.last_commanded_bw is None,
            r.time_source is None,
            r.clock_source is None,
            r.scheduled_pps_time is None,
    {
        USRP {
            last_commanded_rate: None,
            last_commanded_gain: None,
            last_commanded_bw: None,
            time_source: None,
            clock_source: None,
            scheduled_pps_time: None,
        }
    }

    /// Commands a receive sample rate: records it and says whether the native
    /// call must be issued — it must exactly when this rate is not the one
    /// already commanded.
    pub fn set_rx_rate(&mut self, rate_millihz: u64, chan: usize) -> (issue: bool)
        ensures
            issue == (old(self).last_commanded_rate != Some(rate_millihz)),
            *final(self) == (USRP { last_commanded_rate: Some(rate_millihz), ..*old(self) }),
    {
        let hit = match self.last_commanded_rate {
            Some(prev) => prev == rate_millihz,
            None => false,
        };
        self.last_commanded_rate = Some(rate_millihz);
        !hit
    }

    /// Commands a receive gain: records it and says whether the native call
    /// must be issued.
    pub fn set_rx_gain(&mut self, gain_millidb: i64, chan: usize, gain_name: &str) -> (issue: bool)
        ensures
            issue == (old(self).last_commanded_gain != Some(gain_millidb)),
            *final(self) == (USRP { last_commanded_gain: Some(gain_millidb), ..*old(self) }),
    {
        let hit = match self.last_commanded_gain {
            Some(prev) => prev == gain_millidb,
            None => false,
        };
        self.last_commanded_gain = Some(gain_millidb);
        !hit
    }

    /// Commands a receive bandwidth: records it and says whether the native
    /// call must be issued.
    pub fn set_rx_bandwidth(&mut self, bandwidth_millihz: u64, chan: usize) -> (issue: bool)
        ensures
            issue == (old(self).last_commanded_bw != Some(bandwidth_millihz)),
            *final(self) == (USRP { last_commanded_bw: Some(bandwidth_millihz), ..*old(self) }),
    {
        let hit = match self.last_commanded_bw {
            Some(prev) => prev == bandwidth_millihz,
            None => false,
        };
        self.last_commanded_bw = Some(bandwidth_millihz);
        !hit
    }

    /// Records the commanded time source.
    pub fn set_time_source(&mut self, time_source: &String, mboard: usize) -> (r: Result<
        (),
        &'static str,
    >)
        ensures
            r == Ok::<(), &'static str>(()),
            final(self).time_source matches Some(s) && s@ == time_source@,
            final(self).last_commanded_rate == old(self).last_commanded_rate,
            final(self).last_commanded_gain == old(self).last_commanded_gain,
            final(self).last_commanded_bw == old(self).last_commanded_bw,
            final(self).clock_source == old(self).clock_source,
            final(self).scheduled_pps_time == old(self).scheduled_pps_time,
    {
        self.time_source = Some(time_source.clone());
        Ok(())
    }

    /// Records the commanded clock source.
    pub fn set_clock_source(&mut self, clock_source: &String, mboard: usize) -> (r: Result<
        (),
        &'static str,
    >)
        ensures
            r == Ok::<(), &'static str>(()),
            final(self).clock_source matches Some(s) && s@ == clock_source@,
            final(self).last_commanded_rate == old(self).last_commanded_rate,
            final(self).last_commanded_gain == old(self).last_commanded_gain,
            final(self).last_commanded_bw == old(self).last_commanded_bw,
            final(self).time_source == old(self).time_source,
            final(self).scheduled_pps_time == old(self).scheduled_pps_time,
    {
        self.clock_source = Some(clock_source.clone());
        Ok(())
    }

    /// Records the device time scheduled to take effect on the next
    /// pulse-per-second edge — the only glitch-free moment to redefine the
    /// device's absolute clock value.
    pub fn set_time_next_pps(&mut self, time: TimeSpec, mboard: usize) -> (r: Result<
        (),
        &'static str,
    >)
        requires
            time.wf(),
        ensures
            r == Ok::<(), &'static str>(()),
            *final(self) == (USRP { scheduled_pps_time: Some(time), ..*old(self) }),
    {
        self.scheduled_pps_time = Some(time);
        Ok(())
    }

    /// Builds the configuration of a new receive streaming session. The
    /// session is fixed to one channel with 16-bit integer pairs on both the
    /// host and the wire.
    pub fn get_rx_stream(&self, args: String) -> (r: Result<(StreamArgs, RxStreamer), &'static str>)
        ensures
            r matches Ok(out) && {
                &&& out.0.cpu_format == SampleFormat::Sc16
                &&& out.0.otw_format == SampleFormat::Sc16
                &&& out.0.args@ == args@
                &&& out.0.channels@ == seq![0usize]
                &&& out.1 == (RxStreamer {
                timeout_millis: 1000u64,
                max_num_samps: 0usize,
                rx_metadata: crate::metadata::RxMetadata {
                    error_code: crate::metadata::RxMetadataErrorCode::NoError,
                    time: TimeSpec { full_secs: 0i64, frac_ns: 0u32 },
                },
                overflow_count: 0u64,
                    num_chans: 1usize,
                    streaming: false,
                })
            },
    {
        let mut channels: Vec<usize> = Vec::new();
        channels.push(0);
        let stream_args = StreamArgs {
            cpu_format: SampleFormat::Sc16,
            otw_format: SampleFormat::Sc16,
            args,
            channels,
        };
        let streamer = RxStreamer::new(1)?;
        proof {
            assert(stream_args.channels@ =~= seq![0usize]);
        }
        Ok((stream_args, streamer))
    }

    /// Builds the configuration of a new transmit streaming session over one
    /// channel, validating the requested host and wire formats against the
    /// supported set before anything native is allocated: an unsupported pair
    /// is a configuration error, raised while no handle exists to leak.
    pub fn get_tx_stream(&self, cpu_format: SampleFormat, otw_format: SampleFormat, args: String)
        -> (r: Result<(StreamArgs, TxStreamer), &'static str>)
        ensures
            !(otw_format == SampleFormat::Sc16) ==> (r matches Err(m) && m@
                == "Unsupported type for wire format"@),
            otw_format == SampleFormat::Sc16 && !(cpu_format == SampleFormat::Sc16 || cpu_format
                == SampleFormat::Fc32) ==> (r matches Err(m) && m@
                == "Unsupported type for CPU format"@),
            crate::stream::spec_tx_formats_supported(cpu_format, otw_format) ==> (r matches Ok(out)
                && {
                &&& out.0.cpu_format == cpu_format
                &&& out.0.otw_format == otw_format
                &&& out.0.args@ == args@
                &&& out.0.channels@ == seq![0usize]
                &&& out.1 == (TxStreamer {
                    timeout_millis: crate::tx_streamer::DEFAULT_TIMEOUT_MILLIS,
                    max_num_samps: 0usize,
                })
            }),
    {
        if !matches!(otw_format, SampleFormat::Sc16) {
            return Err("Unsupported type for wire format");
        }
        if !(matches!(cpu_format, SampleFormat::Sc16) || matches!(cpu_format, SampleFormat::Fc32)) {
            return Err("Unsupported type for CPU format");
        }
        let mut channels: Vec<usize> = Vec::new();
        channels.push(0);
        let stream_args = StreamArgs { cpu_format, otw_format, args, channels };
        let streamer = TxStreamer::new(1)?;
        proof {
            assert(stream_args.channels@ =~= seq![0usize]);
        }
        Ok((stream_args, streamer))
    }
}

} // verus!
