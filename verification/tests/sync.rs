use usrp::job::{CaptureStep, ConfigAction, SimpleRx};
use usrp::time::TimeSpec;
use usrp::timing::{
    check_gps_prereqs, sync_to_gps, LockPoll, PollVerdict, SyncReport, MAX_LOCK_POLLS,
};
use usrp::tune::{TuneRequest, TuneRequestPolicy};
use usrp::usrp::USRP;

fn names(v: &[&str]) -> Vec<String> {
    v.iter().map(|s| s.to_string()).collect()
}

fn gps_sources() -> (Vec<String>, Vec<String>, Vec<String>) {
    (
        names(&["internal", "external", "gpsdo"]),
        names(&["internal", "gpsdo"]),
        names(&["ref_locked", "gps_locked", "gps_time"]),
    )
}

#[test]
fn prereqs_require_gpsdo_and_lock_sensors() {
    let (ts, cs, sn) = gps_sources();
    assert_eq!(Ok(()), check_gps_prereqs(&ts, &cs, &sn));

    let no_gpsdo = names(&["internal", "external"]);
    assert_eq!(
        Err("Synching to GPS requires a GPSDO"),
        check_gps_prereqs(&no_gpsdo, &cs, &sn)
    );
    assert_eq!(
        Err("Synching to GPS requires a GPSDO"),
        check_gps_prereqs(&ts, &no_gpsdo, &sn)
    );

    let missing_sensor = names(&["ref_locked", "gps_time"]);
    assert_eq!(
        Err("Sensors expected to include ref_locked and gps_locked"),
        check_gps_prereqs(&ts, &cs, &missing_sensor)
    );
}

#[test]
fn poll_step_verdicts() {
    let mut poll = LockPoll::new();
    assert_eq!(PollVerdict::SleepAndRetry, poll.poll_step(true, false));
    assert_eq!(PollVerdict::SleepAndRetry, poll.poll_step(false, true));
    assert_eq!(PollVerdict::Locked, poll.poll_step(true, true));
    assert_eq!(3, poll.polls);

    let mut exhausted = LockPoll::new();
    for i in 0..MAX_LOCK_POLLS {
        let verdict = exhausted.poll_step(false, false);
        if i + 1 == MAX_LOCK_POLLS {
            assert_eq!(PollVerdict::SleepAndProceed, verdict);
        } else {
            assert_eq!(PollVerdict::SleepAndRetry, verdict);
        }
    }
    assert_eq!(MAX_LOCK_POLLS, exhausted.polls);
}

#[test]
fn sync_locks_on_fifth_poll_with_four_sleeps() {
    let (ts, cs, sn) = gps_sources();
    let mut dev = USRP::new();
    // Both sensors come up on the fifth read.
    let lock_reads = vec![
        (false, false),
        (false, true),
        (true, false),
        (false, false),
        (true, true),
    ];
    let report = sync_to_gps(&mut dev, &ts, &cs, &sn, &lock_reads, 1000, 1001, TimeSpec::new(1001, 0))
        .unwrap();
    assert_eq!(
        SyncReport {
            polls: 5,
            sleeps: 4,
            locked: true,
            scheduled_time: TimeSpec::new(1001, 0),
        },
        report
    );
    assert_eq!(Some(String::from("gpsdo")), dev.time_source);
    assert_eq!(Some(String::from("gpsdo")), dev.clock_source);
    assert_eq!(Some(TimeSpec::new(1001, 0)), dev.scheduled_pps_time);
}

#[test]
fn sync_proceeds_when_lock_never_arrives() {
    let (ts, cs, sn) = gps_sources();
    let mut dev = USRP::new();
    let lock_reads = vec![(false, false); MAX_LOCK_POLLS as usize];
    let report = sync_to_gps(&mut dev, &ts, &cs, &sn, &lock_reads, 1000, 1001, TimeSpec::new(1001, 0))
        .unwrap();
    // The bound is exhausted without lock, yet the procedure carries on to
    // set the time: a deliberate, if questionable, best-effort choice.
    assert_eq!(MAX_LOCK_POLLS, report.polls);
    assert_eq!(MAX_LOCK_POLLS, report.sleeps);
    assert!(!report.locked);
    assert_eq!(Some(TimeSpec::new(1001, 0)), dev.scheduled_pps_time);
}

#[test]
fn sync_end_to_end_success_and_mismatch() {
    let (ts, cs, sn) = gps_sources();
    let lock_reads = vec![(true, true)];

    // The device reports gps_time = 1000, so 1001 is scheduled onto the next
    // PPS edge; afterwards both clocks read 1001: success.
    let mut dev = USRP::new();
    let report = sync_to_gps(&mut dev, &ts, &cs, &sn, &lock_reads, 1000, 1001, TimeSpec::new(1001, 0))
        .unwrap();
    assert_eq!(TimeSpec::new(1001, 0), report.scheduled_time);

    // The device's last-PPS time still reads 1000: the synchronization
    // mismatch error.
    let mut dev2 = USRP::new();
    assert_eq!(
        Err("USRP and UTC time expected to be synched but aren't"),
        sync_to_gps(&mut dev2, &ts, &cs, &sn, &lock_reads, 1000, 1001, TimeSpec::new(1000, 0))
    );
}

#[test]
fn sync_rejects_missing_gpsdo_before_commanding_anything() {
    let (_, cs, sn) = gps_sources();
    let mut dev = USRP::new();
    let r = sync_to_gps(
        &mut dev,
        &names(&["internal"]),
        &cs,
        &sn,
        &vec![(true, true)],
        1000,
        1001,
        TimeSpec::new(1001, 0),
    );
    assert_eq!(Err("Synching to GPS requires a GPSDO"), r);
    assert_eq!(None, dev.time_source);
    assert_eq!(None, dev.clock_source);
    assert_eq!(None, dev.scheduled_pps_time);
}

#[test]
fn job_configures_in_order_and_skips_cached_values() {
    let job = SimpleRx {
        center_freq_millihz: 915_000_000_000,
        sample_rate_millihz: 2_000_000_000,
        bandwidth_millihz: 1_000_000_000,
        gain_millidb: 30_000,
        time_warmup_ms: 500,
        time_ms: 2_000,
    };

    let mut dev = USRP::new();
    let first = job.configure(&mut dev);
    assert_eq!(
        vec![
            ConfigAction::SetRate { rate_millihz: 2_000_000_000 },
            ConfigAction::SetGain { gain_millidb: 30_000 },
            ConfigAction::SetBandwidth { bandwidth_millihz: 1_000_000_000 },
            ConfigAction::SetFrequency { target_freq_millihz: 915_000_000_000 },
        ],
        first
    );

    // Re-configuring with the same values: only the tune is re-issued.
    let second = job.configure(&mut dev);
    assert_eq!(
        vec![ConfigAction::SetFrequency { target_freq_millihz: 915_000_000_000 }],
        second
    );
}

#[test]
fn job_capture_plan_order_and_sample_counts() {
    let job = SimpleRx {
        center_freq_millihz: 915_000_000_000,
        sample_rate_millihz: 2_000_000_000, // 2 Msps
        bandwidth_millihz: 1_000_000_000,
        gain_millidb: 30_000,
        time_warmup_ms: 500,
        time_ms: 2_000,
    };
    let plan = job.execute_plan();
    assert_eq!(
        vec![
            CaptureStep::Configure,
            CaptureStep::StartStream,
            CaptureStep::ReadSamples { samples: 1_000_000 },
            CaptureStep::ReadSamples { samples: 4_000_000 },
            CaptureStep::StopStream,
        ],
        plan
    );
}

#[test]
fn sample_count_saturates_at_buffer_limit() {
    assert_eq!(
        usize::MAX,
        usrp::job::sample_count(u64::MAX, u64::MAX)
    );
    assert_eq!(0, usrp::job::sample_count(2_000_000_000, 0));
    assert_eq!(1_000, usrp::job::sample_count(1_000, 1_000_000));
}

#[test]
fn auto_tune_request_uses_auto_policies() {
    let req = TuneRequest::auto(915_000_000_000);
    assert_eq!(915_000_000_000, req.target_freq_millihz);
    assert_eq!(TuneRequestPolicy::Auto, req.rf_freq_policy);
    assert_eq!(TuneRequestPolicy::Auto, req.dsp_freq_policy);
    assert_eq!(0, req.rf_freq_millihz);
    assert_eq!(0, req.dsp_freq_millihz);
    assert_eq!("", req.args);
}
