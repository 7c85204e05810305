//! Tune requests and results: the exchange used to command the RF and DSP
//! frequency stages and learn what was actually achieved.
//!
//! Frequencies are held in millihertz so that every field is a plain integer;
//! the unverified layer converts at the native boundary. Callers needing
//! phase-coherent retuning must inspect the actual values of the result, not
//! assume the target was met exactly.

use vstd::prelude::*;
use vstd::string::StringExecFns;

verus! {

/// How one frequency stage is tuned: left alone, chosen by the driver, or set
/// to the explicit value.
#[derive(Clone, Copy, Debug, PartialEq, Eq, Structural)]
pub enum TuneRequestPolicy {
    /// Do not touch this stage.
    NoPolicy,
    /// Let the driver choose the stage's frequency.
    Auto,
    /// Use the explicitly given stage frequency.
    Manual,
}

/// A frequency-tuning command: the overall target, one policy and explicit
/// frequency per stage — the explicit values are read only under the manual
/// policy — and free-form argument text.
pub struct TuneRequest {
    pub target_freq_millihz: u64,
    pub rf_freq_policy: TuneRequestPolicy,
    pub rf_freq_millihz: u64,
    pub dsp_freq_policy: TuneRequestPolicy,
    pub dsp_freq_millihz: u64,
    pub args: String,
}

/// What a tuning command achieved: the clipped and adjusted targets, and the
/// frequencies the RF and DSP stages actually reached.
#[derive(Clone, Copy, Debug, PartialEq, Eq, Structural)]
pub struct TuneResult {
    pub clipped_rf_freq_millihz: u64,
    pub target_rf_freq_millihz: u64,
    pub actual_rf_freq_millihz: u64,
    pub target_dsp_freq_millihz: u64,
    pub actual_dsp_freq_millihz: u64,
}

impl TuneRequest {
    /// The request that tunes both stages automatically to one target, with
    /// no argument text — the common retune command.
    pub fn auto(target_freq_millihz: u64) -> (r: TuneRequest)
        ensures
            r.target_freq_millihz == target_freq_millihz,
            r.rf_freq_policy == TuneRequestPolicy::Auto,
            r.rf_freq_millihz == 0,
            r.dsp_freq_policy == TuneRequestPolicy::Auto,
            r.dsp_freq_millihz == 0,
            r.args@ == Seq::<char>::empty(),
    {
        TuneRequest {
            target_freq_millihz,
            rf_freq_policy: TuneRequestPolicy::Auto,
            rf_freq_millihz: 0,
            dsp_freq_policy: TuneRequestPolicy::Auto,
            dsp_freq_millihz: 0,
            args: String::new(),
        }
    }
}

} // verus!
