//! The capture-job abstraction: a declarative receive job that configures the
//! device and drives one bounded capture in the fixed order configure → start
//! → warm-up discard → capture → stop.
//!
//! Frequencies are in millihertz, gain in millidecibels and durations in
//! milliseconds, so that every decision here is over plain integers; the
//! unverified layer converts physical units and runs the plan.

use vstd::prelude::*;

use crate::usrp::USRP;

verus! {

/// One native configuration call a job asks for, in order. A call whose exact
/// value was already commanded is skipped by the cache and does not appear.
#[derive(Clone, Copy, Debug, PartialEq, Eq, Structural)]
pub enum ConfigAction {
    SetRate { rate_millihz: u64 },
    SetGain { gain_millidb: i64 },
    SetBandwidth { bandwidth_millihz: u64 },
    SetFrequency { target_freq_millihz: u64 },
}

/// One step of a capture run, in order.
#[derive(Clone, Copy, Debug, PartialEq, Eq, Structural)]
pub enum CaptureStep {
    Configure,
    StartStream,
    /// Read this many samples into a buffer; the warm-up read is discarded.
    ReadSamples { samples: usize },
    StopStream,
}

/// How many samples a rate held for a duration yields:
/// `rate · duration / 1000000` with millihertz and milliseconds cancelling to
/// whole samples, saturated at the machine's buffer-size limit.
pub open spec fn spec_sample_count(rate_millihz: nat, duration_ms: nat) -> nat {
    let samples = (rate_millihz * duration_ms) / 1000000;
    if samples > usize::MAX {
        usize::MAX as nat
    } else {
        samples
    }
}

/// Computes [`spec_sample_count`] for machine-width inputs.
pub fn sample_count(rate_millihz: u64, duration_ms: u64) -> (r: usize)
    ensures
        r == spec_sample_count(rate_millihz as nat, duration_ms as nat),
{
    proof {
        vstd::arithmetic::mul::lemma_mul_upper_bound(
            rate_millihz as int,
            u64::MAX as int,
            duration_ms as int,
            u64::MAX as int,
        );
    }
    let product: u128 = (rate_millihz as u128) * (duration_ms as u128);
    let samples: u128 = product / 1000000;
    if samples > (usize::MAX as u128) {
        usize::MAX
    } else {
        samples as usize
    }
}

/// The sequence of configuration calls a job issues: rate, gain, bandwidth —
/// each only when its exact value is not the one already commanded — and then
/// always the frequency tune.
pub open spec fn spec_configure_actions(u: USRP, job: SimpleRx) -> Seq<ConfigAction> {
    (if u.last_commanded_rate != Some(job.sample_rate_millihz) {
        seq![ConfigAction::SetRate { rate_millihz: job.sample_rate_millihz }]
    } else {
        Seq::empty()
    }) + (if u.last_commanded_gain != Some(job.gain_millidb) {
        seq![ConfigAction::SetGain { gain_millidb: job.gain_millidb }]
    } else {
        Seq::empty()
    }) + (if u.last_commanded_bw != Some(job.bandwidth_millihz) {
        seq![ConfigAction::SetBandwidth { bandwidth_millihz: job.bandwidth_millihz }]
    } else {
        Seq::empty()
    }) + seq![ConfigAction::SetFrequency { target_freq_millihz: job.center_freq_millihz }]
}

/// A declarative capture job: tune here, at this rate, bandwidth and gain,
/// discard a warm-up stretch, then keep this long a capture.
#[derive(Clone, Copy, Debug, PartialEq, Eq, Structural)]
pub struct SimpleRx {
    pub center_freq_millihz: u64,
    pub sample_rate_millihz: u64,
    pub bandwidth_millihz: u64,
    pub gain_millidb: i64,
    pub time_warmup_ms: u64,
    pub time_ms: u64,
}

impl SimpleRx {
    /// The job's sample rate, in millihertz.
    pub fn sample_rate_millihz(&self) -> (r: u64)
        ensures
            r == self.sample_rate_millihz,
    {
        self.sample_rate_millihz
    }

    /// Configures the device for this job — rate, gain, bandwidth, then the
    /// frequency tune, in that order — through the facade's caches, and
    /// returns exactly the native calls that must be issued.
    pub fn configure(&self, usrp: &mut USRP) -> (r: Vec<ConfigAction>)
        ensures
            r@ == spec_configure_actions(*old(usrp), *self),
            *final(usrp) == (USRP {
                last_commanded_rate: Some(self.sample_rate_millihz),
                last_commanded_gain: Some(self.gain_millidb),
                last_commanded_bw: Some(self.bandwidth_millihz),
                ..*old(usrp)
            }),
    {
        let mut actions: Vec<ConfigAction> = Vec::new();
        if usrp.set_rx_rate(self.sample_rate_millihz, 0) {
            actions.push(ConfigAction::SetRate { rate_millihz: self.sample_rate_millihz });
        }
        if usrp.set_rx_gain(self.gain_millidb, 0, "") {
            actions.push(ConfigAction::SetGain { gain_millidb: self.gain_millidb });
        }
        if usrp.set_rx_bandwidth(self.bandwidth_millihz, 0) {
            actions.push(ConfigAction::SetBandwidth { bandwidth_millihz: self.bandwidth_millihz });
        }
        actions.push(ConfigAction::SetFrequency { target_freq_millihz: self.center_freq_millihz });
        proof {
            assert(actions@ =~= spec_configure_actions(*old(usrp), *self));
        }
        actions
    }

    /// The steps of one capture run, in their required order: configure the
    /// device, start the stream, read and discard the warm-up stretch, read
    /// the capture itself, stop the stream.
    pub fn execute_plan(&self) -> (r: Vec<CaptureStep>)
        ensures
            r@ == seq![
                CaptureStep::Configure,
                CaptureStep::StartStream,
                CaptureStep::ReadSamples {
                    samples: spec_sample_count(
                        self.sample_rate_millihz as nat,
                        self.time_warmup_ms as nat,
                    ) as usize,
                },
                CaptureStep::ReadSamples {
                    samples: spec_sample_count(
                        self.sample_rate_millihz as nat,
                        self.time_ms as nat,
                    ) as usize,
                },
                CaptureStep::StopStream,
            ],
    {
        let warmup = sample_count(self.sample_rate_millihz, self.time_warmup_ms);
        let capture = sample_count(self.sample_rate_millihz, self.time_ms);
        let mut plan: Vec<CaptureStep> = Vec::new();
        plan.push(CaptureStep::Configure);
        plan.push(CaptureStep::StartStream);
        plan.push(CaptureStep::ReadSamples { samples: warmup });
        plan.push(CaptureStep::ReadSamples { samples: capture });
        plan.push(CaptureStep::StopStream);
        proof {
            assert(plan@ =~= seq![
                CaptureStep::Configure,
                CaptureStep::StartStream,
                CaptureStep::ReadSamples {
                    samples: spec_sample_count(
                        self.sample_rate_millihz as nat,
                        self.time_warmup_ms as nat,
                    ) as usize,
                },
                CaptureStep::ReadSamples {
                    samples: spec_sample_count(
                        self.sample_rate_millihz as nat,
                        self.time_ms as nat,
                    ) as usize,
                },
                CaptureStep::StopStream,
            ]);
        }
        plan
    }
}

} // verus!
