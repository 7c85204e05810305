//! The GPS time synchronization protocol: align the device clock to UTC time
//! from a GPS-disciplined oscillator, and verify the alignment.
//!
//! The procedure is a fixed order of decisions around native sensor reads and
//! sleeps: check that a GPSDO and the lock sensors exist, command both sources
//! to it, poll the two lock sensors up to a bounded number of times — and
//! proceed even if the bound is exhausted without lock, a deliberate
//! best-effort choice, risky as it is — then schedule the device clock
//! to `gps_time + 1` on the next pulse-per-second edge, wait, and compare the
//! re-read GPS time against the device's time at the last edge. The sensor
//! values read by the native layer are passed in as plain values; the sleeps
//! happen outside.

use vstd::prelude::*;
use vstd::string::StringExecFns;

use crate::time::TimeSpec;
use crate::usrp::USRP;

verus! {

/// The poll bound of the lock wait: a policy constant, not a derived value.
pub const MAX_LOCK_POLLS: u32 = 30;

/// Whether one of the names equals the needle.
pub open spec fn contains_name(names: Seq<Seq<char>>, needle: Seq<char>) -> bool {
    exists|i: int| 0 <= i < names.len() && names[i] == needle
}

/// Whether one of the strings in `v` equals `needle`.
pub fn contains_string(v: &Vec<String>, needle: &String) -> (r: bool)
    ensures
        r == contains_name(v.deep_view(), needle@),
{
    let mut i: usize = 0;
    while i < v.len()
        invariant
            i <= v.len(),
            forall|j: int| 0 <= j < i ==> v.deep_view()[j] != needle@,
        decreases v.len() - i,
    {
        let entry = &v[i];
        if entry.eq(needle) {
            proof {
                assert(v.deep_view()[i as int] == needle@);
            }
            return true;
        }
        i = i + 1;
    }
    false
}

/// Whether both source lists offer the GPS-disciplined oscillator.
pub open spec fn gpsdo_available(time_sources: Seq<Seq<char>>, clock_sources: Seq<Seq<char>>) -> bool {
    contains_name(time_sources, "gpsdo"@) && contains_name(clock_sources, "gpsdo"@)
}

/// Whether the motherboard exposes both lock sensors the protocol polls.
pub open spec fn lock_sensors_available(sensor_names: Seq<Seq<char>>) -> bool {
    contains_name(sensor_names, "ref_locked"@) && contains_name(sensor_names, "gps_locked"@)
}

/// Checks the protocol's preconditions: a GPSDO must be offered as both a
/// time source and a clock source, and the motherboard's sensors must include
/// `ref_locked` and `gps_locked`. Both failures are configuration errors,
/// raised before anything is commanded.
pub fn check_gps_prereqs(
    time_sources: &Vec<String>,
    clock_sources: &Vec<String>,
    sensor_names: &Vec<String>,
) -> (r: Result<(), &'static str>)
    ensures
        !gpsdo_available(time_sources.deep_view(), clock_sources.deep_view()) ==> (r matches Err(m)
            && m@ == "Synching to GPS requires a GPSDO"@),
        gpsdo_available(time_sources.deep_view(), clock_sources.deep_view())
            && !lock_sensors_available(sensor_names.deep_view()) ==> (r matches Err(m) && m@
            == "Sensors expected to include ref_locked and gps_locked"@),
        gpsdo_available(time_sources.deep_view(), clock_sources.deep_view())
            && lock_sensors_available(sensor_names.deep_view()) ==> r == Ok::<(), &'static str>(()),
{
    let gpsdo = String::from_str("gpsdo");
    if !contains_string(time_sources, &gpsdo) || !contains_string(clock_sources, &gpsdo) {
        return Err("Synching to GPS requires a GPSDO");
    }
    let ref_locked = String::from_str("ref_locked");
    let gps_locked = String::from_str("gps_locked");
    if !contains_string(sensor_names, &ref_locked) || !contains_string(sensor_names, &gps_locked) {
        return Err("Sensors expected to include ref_locked and gps_locked");
    }
    Ok(())
}

/// How many sensor-read iterations the lock wait makes over these reads,
/// counted from `made` reads already done: it stops at the first read where
/// both sensors are locked, and gives up — without failing — after
/// [`MAX_LOCK_POLLS`] reads. A read past the end of the sequence counts as
/// unlocked.
pub open spec fn poll_count_from(reads: Seq<(bool, bool)>, made: nat) -> nat
    decreases MAX_LOCK_POLLS - made,
{
    if made >= MAX_LOCK_POLLS {
        MAX_LOCK_POLLS as nat
    } else if made < reads.len() && reads[made as int].0 && reads[made as int].1 {
        (made + 1) as nat
    } else {
        poll_count_from(reads, (made + 1) as nat)
    }
}

/// The number of sensor-read iterations of a whole lock wait.
pub open spec fn spec_poll_count(reads: Seq<(bool, bool)>) -> nat {
    poll_count_from(reads, 0)
}

/// Whether the lock wait ends with both sensors locked, counted from `made`
/// reads already done.
pub open spec fn poll_locked_from(reads: Seq<(bool, bool)>, made: nat) -> bool
    decreases MAX_LOCK_POLLS - made,
{
    if made >= MAX_LOCK_POLLS {
        false
    } else if made < reads.len() && reads[made as int].0 && reads[made as int].1 {
        true
    } else {
        poll_locked_from(reads, (made + 1) as nat)
    }
}

/// Whether a whole lock wait ends with both sensors locked.
pub open spec fn spec_poll_locked(reads: Seq<(bool, bool)>) -> bool {
    poll_locked_from(reads, 0)
}

proof fn lemma_poll_count_bounds(reads: Seq<(bool, bool)>, made: nat)
    requires
        made < MAX_LOCK_POLLS,
    ensures
        made + 1 <= poll_count_from(reads, made) <= MAX_LOCK_POLLS,
    decreases MAX_LOCK_POLLS - made,
{
    if made + 1 < MAX_LOCK_POLLS {
        lemma_poll_count_bounds(reads, (made + 1) as nat);
    } else {
        assert(poll_count_from(reads, (made + 1) as nat) == MAX_LOCK_POLLS as nat);
    }
}

proof fn lemma_poll_count_first_lock_from(reads: Seq<(bool, bool)>, made: nat, k: nat)
    requires
        made <= k < MAX_LOCK_POLLS,
        k < reads.len(),
        reads[k as int].0 && reads[k as int].1,
        forall|j: int| made <= j < k ==> !(reads[j].0 && reads[j].1),
    ensures
        poll_count_from(reads, made) == k + 1,
        poll_locked_from(reads, made),
    decreases k - made,
{
    if made < k {
        lemma_poll_count_first_lock_from(reads, (made + 1) as nat, k);
    }
}

/// The lock wait stops at the first read where both sensors are locked: when
/// that read is the `k`-th (counting from zero) and it comes before the
/// bound, exactly `k + 1` sensor-read iterations are made — so `k` sleeps —
/// and the wait ends locked.
pub proof fn lemma_poll_stops_at_first_lock(reads: Seq<(bool, bool)>, k: nat)
    requires
        k < MAX_LOCK_POLLS,
        k < reads.len(),
        reads[k as int].0 && reads[k as int].1,
        forall|j: int| 0 <= j < k ==> !(reads[j].0 && reads[j].1),
    ensures
        spec_poll_count(reads) == k + 1,
        spec_poll_locked(reads),
{
    lemma_poll_count_first_lock_from(reads, 0, k);
}

proof fn lemma_poll_exhausts_from(reads: Seq<(bool, bool)>, made: nat)
    requires
        forall|j: int| 0 <= j < reads.len() ==> !(reads[j].0 && reads[j].1),
    ensures
        poll_count_from(reads, made) == MAX_LOCK_POLLS,
        !poll_locked_from(reads, made),
    decreases MAX_LOCK_POLLS - made,
{
    if made < MAX_LOCK_POLLS {
        lemma_poll_exhausts_from(reads, (made + 1) as nat);
    }
}

/// When both sensors never lock, the wait makes all of its allowed reads and
/// ends unlocked — and gives up without failing: the protocol proceeds.
pub proof fn lemma_poll_gives_up_without_lock(reads: Seq<(bool, bool)>)
    requires
        forall|j: int| 0 <= j < reads.len() ==> !(reads[j].0 && reads[j].1),
    ensures
        spec_poll_count(reads) == MAX_LOCK_POLLS,
        !spec_poll_locked(reads),
{
    lemma_poll_exhausts_from(reads, 0);
}

/// The verdict of one lock-sensor read.
#[derive(Clone, Copy, Debug, PartialEq, Eq, Structural)]
pub enum PollVerdict {
    /// Both sensors are locked; the wait is over.
    Locked,
    /// Not locked yet: sleep one second and read again.
    SleepAndRetry,
    /// Not locked, and the poll bound is exhausted: sleep once more and
    /// proceed anyway.
    SleepAndProceed,
}

/// The bounded lock wait, one sensor read at a time. The native layer (or a
/// test) reads `ref_locked` and `gps_locked` and hands the pair to
/// [`LockPoll::poll_step`]; sleeping between reads is its business.
pub struct LockPoll {
    /// Sensor reads made so far.
    pub polls: u32,
}

impl LockPoll {
    pub fn new() -> (r: LockPoll)
        ensures
            r.polls == 0,
    {
        LockPoll { polls: 0 }
    }

    /// Judges one read of the two lock sensors: locked ends the wait; an
    /// unlocked read asks for a sleep and another try, or — on the last
    /// allowed read — for a sleep and giving up without failing.
    pub fn poll_step(&mut self, ref_locked: bool, gps_locked: bool) -> (verdict: PollVerdict)
        requires
            old(self).polls < MAX_LOCK_POLLS,
        ensures
            final(self).polls == old(self).polls + 1,
            verdict == (if ref_locked && gps_locked {
                PollVerdict::Locked
            } else if old(self).polls + 1 == MAX_LOCK_POLLS {
                PollVerdict::SleepAndProceed
            } else {
                PollVerdict::SleepAndRetry
            }),
    {
        self.polls = self.polls + 1;
        if ref_locked && gps_locked {
            PollVerdict::Locked
        } else if self.polls == MAX_LOCK_POLLS {
            PollVerdict::SleepAndProceed
        } else {
            PollVerdict::SleepAndRetry
        }
    }
}

/// What the synchronization procedure did: how many sensor-read iterations
/// the lock wait took, how many one-second sleeps it asked for, whether lock
/// was achieved, and the device time it scheduled onto the next PPS edge.
#[derive(Clone, Copy, Debug, PartialEq, Eq, Structural)]
pub struct SyncReport {
    pub polls: u32,
    pub sleeps: u32,
    pub locked: bool,
    pub scheduled_time: TimeSpec,
}

/// Runs the synchronization protocol's decisions over the values the native
/// layer read: the available sources and sensors, the successive lock-sensor
/// reads, the GPS time before scheduling, and the GPS time and device
/// last-PPS time re-read after the edge. Commands both sources to the GPSDO,
/// waits for lock — proceeding even when the bound is exhausted — schedules
/// `gps_time + 1` onto the next PPS edge, and succeeds exactly when the
/// re-read times agree on whole seconds.
pub fn sync_to_gps(
    usrp: &mut USRP,
    time_sources: &Vec<String>,
    clock_sources: &Vec<String>,
    sensor_names: &Vec<String>,
    lock_reads: &Vec<(bool, bool)>,
    gps_time_initial: i32,
    gps_time_recheck: i32,
    time_last_pps: TimeSpec,
) -> (r: Result<SyncReport, &'static str>)
    requires
        lock_reads@.len() >= spec_poll_count(lock_reads@),
    ensures
        !gpsdo_available(time_sources.deep_view(), clock_sources.deep_view()) ==> {
            &&& r matches Err(m) && m@ == "Synching to GPS requires a GPSDO"@
            &&& *final(usrp) == *old(usrp)
        },
        gpsdo_available(time_sources.deep_view(), clock_sources.deep_view())
            && !lock_sensors_available(sensor_names.deep_view()) ==> {
            &&& r matches Err(m) && m@ == "Sensors expected to include ref_locked and gps_locked"@
            &&& *final(usrp) == *old(usrp)
        },
        gpsdo_available(time_sources.deep_view(), clock_sources.deep_view())
            && lock_sensors_available(sensor_names.deep_view()) ==> {
            &&& final(usrp).time_source matches Some(s) && s@ == "gpsdo"@
            &&& final(usrp).clock_source matches Some(s) && s@ == "gpsdo"@
            &&& final(usrp).scheduled_pps_time == Some(
                TimeSpec { full_secs: (gps_time_initial + 1) as i64, frac_ns: 0u32 },
            )
            &&& final(usrp).last_commanded_rate == old(usrp).last_commanded_rate
            &&& final(usrp).last_commanded_gain == old(usrp).last_commanded_gain
            &&& final(usrp).last_commanded_bw == old(usrp).last_commanded_bw
            &&& if gps_time_recheck as i64 == time_last_pps.full_secs {
                r matches Ok(report) && report == (SyncReport {
                    polls: spec_poll_count(lock_reads@) as u32,
                    sleeps: (spec_poll_count(lock_reads@) - (if spec_poll_locked(lock_reads@) {
                        1int
                    } else {
                        0int
                    })) as u32,
                    locked: spec_poll_locked(lock_reads@),
                    scheduled_time: TimeSpec {
                        full_secs: (gps_time_initial + 1) as i64,
                        frac_ns: 0u32,
                    },
                })
            } else {
                r matches Err(m) && m@ == "USRP and UTC time expected to be synched but aren't"@
            }
        },
{
    check_gps_prereqs(time_sources, clock_sources, sensor_names)?;

    let gpsdo = String::from_str("gpsdo");
    usrp.set_time_source(&gpsdo, 0)?;
    usrp.set_clock_source(&gpsdo, 0)?;

    let mut poll = LockPoll::new();
    let mut locked = false;
    let mut done = false;
    while !done
        invariant
            poll.polls <= MAX_LOCK_POLLS,
            !done ==> poll.polls < MAX_LOCK_POLLS,
            !done ==> !locked,
            !done ==> poll_count_from(lock_reads@, poll.polls as nat) == spec_poll_count(
                lock_reads@,
            ),
            !done ==> poll_locked_from(lock_reads@, poll.polls as nat) == spec_poll_locked(
                lock_reads@,
            ),
            lock_reads@.len() >= spec_poll_count(lock_reads@),
            done ==> poll.polls == spec_poll_count(lock_reads@),
            done ==> locked == spec_poll_locked(lock_reads@),
            done ==> (locked ==> poll.polls >= 1),
        decreases MAX_LOCK_POLLS - poll.polls,
    {
        let ghost m = poll.polls as nat;
        proof {
            lemma_poll_count_bounds(lock_reads@, m);
        }
        let idx = poll.polls as usize;
        let (ref_locked, gps_locked) = lock_reads[idx];
        proof {
            if ref_locked && gps_locked {
                assert(poll_count_from(lock_reads@, m) == m + 1);
                assert(poll_locked_from(lock_reads@, m));
            } else {
                assert(poll_count_from(lock_reads@, m) == poll_count_from(
                    lock_reads@,
                    (m + 1) as nat,
                ));
                assert(poll_locked_from(lock_reads@, m) == poll_locked_from(
                    lock_reads@,
                    (m + 1) as nat,
                ));
                if m + 1 == MAX_LOCK_POLLS {
                    assert(poll_count_from(lock_reads@, (m + 1) as nat) == MAX_LOCK_POLLS as nat);
                    assert(!poll_locked_from(lock_reads@, (m + 1) as nat));
                }
            }
        }
        match poll.poll_step(ref_locked, gps_locked) {
            PollVerdict::Locked => {
                locked = true;
                done = true;
            },
            PollVerdict::SleepAndProceed => {
                done = true;
            },
            PollVerdict::SleepAndRetry => {},
        }
    }

    let scheduled = TimeSpec::new(gps_time_initial as i64 + 1, 0);
    usrp.set_time_next_pps(scheduled, 0)?;

    // The native layer sleeps two seconds here so the edge occurs and the
    // device applies the scheduled value; then it re-reads the sensors.
    if gps_time_recheck as i64 != time_last_pps.full_secs {
        return Err("USRP and UTC time expected to be synched but aren't");
    }

    let polls = poll.polls;
    let sleeps = if locked {
        polls - 1
    } else {
        polls
    };
    Ok(SyncReport { polls, sleeps, locked, scheduled_time: scheduled })
}

} // verus!
