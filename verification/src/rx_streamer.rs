//! The receive data path: chunked transfers into a caller buffer, metadata
//! classification, and the stop-before-release teardown order.
//!
//! The blocking native receive call is performed outside this module; each
//! call's observable outcome comes back as a [`RecvReply`]. A whole transfer is
//! then a fold over the sequence of replies, specified by [`recv_spec`] and
//! executed by [`RxStreamer::read_sc16`]. Properties of the transfer — the
//! buffer is filled exactly, the first sub-call's timestamp is the one
//! returned, a deadline stops the loop within one call — are proved over that
//! fold.

use vstd::prelude::*;

use crate::metadata::{RxMetadata, RxMetadataErrorCode};
use crate::stream::StreamCmd;
use crate::time::TimeSpec;

verus! {

/// What one native receive call reported: its status code, the number of
/// samples delivered, the metadata it wrote, and whether the caller's
/// wall-clock deadline had passed once the call returned.
#[derive(Clone, Copy, Debug, PartialEq, Eq, Structural)]
pub struct RecvReply {
    pub status: isize,
    pub items: usize,
    pub error_code: RxMetadataErrorCode,
    pub time: TimeSpec,
    pub deadline_elapsed: bool,
}

/// How a chunked receive ended.
pub enum RecvEnd {
    /// A native call reported a nonzero status; the whole operation aborts.
    Failed { calls: nat },
    /// A native call delivered more samples than were requested of it.
    Overrun { calls: nat },
    /// The buffer was filled, or the deadline elapsed after a successful call.
    Done { count: nat, first: Option<TimeSpec>, calls: nat },
    /// The replies ran out before the buffer was filled.
    Starved { count: nat, first: Option<TimeSpec>, calls: nat },
}

/// The chunked-receive fold. Starting from `filled` samples already received
/// (with `first` the timestamp captured so far and `calls` native calls made),
/// it consumes `replies` one native call at a time: a nonzero status aborts;
/// a successful call adds its samples, captures its timestamp when nothing had
/// been received yet, and — when `bounded` — ends the transfer early once the
/// deadline has elapsed. Each call may deliver at most the requested
/// `min(max, total - filled)` samples.
pub open spec fn recv_spec(
    total: nat,
    max: nat,
    bounded: bool,
    replies: Seq<RecvReply>,
    filled: nat,
    first: Option<TimeSpec>,
    calls: nat,
) -> RecvEnd
    decreases replies.len(),
{
    if filled >= total {
        RecvEnd::Done { count: filled, first, calls }
    } else if replies.len() == 0 {
        RecvEnd::Starved { count: filled, first, calls }
    } else {
        let reply = replies[0];
        if reply.status != 0 {
            RecvEnd::Failed { calls: calls + 1 }
        } else if reply.items > max || reply.items > total - filled {
            RecvEnd::Overrun { calls: calls + 1 }
        } else {
            let filled2 = (filled + reply.items) as nat;
            let first2 = if filled == 0 {
                Some(reply.time)
            } else {
                first
            };
            if bounded && reply.deadline_elapsed {
                RecvEnd::Done { count: filled2, first: first2, calls: calls + 1 }
            } else {
                recv_spec(total, max, bounded, replies.skip(1), filled2, first2, (calls + 1) as nat)
            }
        }
    }
}

/// The outcome of a whole chunked receive over `replies`.
pub open spec fn recv_outcome(total: nat, max: nat, bounded: bool, replies: Seq<RecvReply>) -> RecvEnd {
    recv_spec(total, max, bounded, replies, 0, None, calls_zero())
}

/// Zero native calls made yet.
pub open spec fn calls_zero() -> nat {
    0
}

/// The metadata recorded after the fold consumed `calls` replies: the last
/// consumed reply's error code and timestamp, or `prior` when none was
/// consumed.
pub open spec fn recorded_metadata(prior: RxMetadata, replies: Seq<RecvReply>, calls: nat) -> RxMetadata {
    if calls == 0 {
        prior
    } else {
        RxMetadata {
            error_code: replies[calls - 1].error_code,
            time: replies[calls - 1].time,
        }
    }
}

/// The number of native calls a finished fold made.
pub open spec fn recv_end_calls(end: RecvEnd) -> nat {
    match end {
        RecvEnd::Failed { calls } => calls,
        RecvEnd::Overrun { calls } => calls,
        RecvEnd::Done { count: _, first: _, calls } => calls,
        RecvEnd::Starved { count: _, first: _, calls } => calls,
    }
}

/// A receive streaming session over a fixed channel set. Holds no sample
/// buffer: callers pass their own buffers, and the unverified layer hands back
/// one [`RecvReply`] per native call.
#[derive(Clone, Copy, Debug, PartialEq, Eq, Structural)]
pub struct RxStreamer {
    /// Per-native-call timeout handed to the driver, in milliseconds.
    pub timeout_millis: u64,
    /// The driver's maximum samples deliverable per single native call,
    /// recorded after the streaming session is bound.
    pub max_num_samps: usize,
    /// The metadata written by the most recent native transfer call.
    pub rx_metadata: RxMetadata,
    /// How many tolerated overflows [`RxStreamer::rx_metadata_ok`] has seen.
    pub overflow_count: u64,
    /// The fixed number of channels this session was created over.
    pub num_chans: usize,
    /// Whether the last stream command left the hardware streaming.
    pub streaming: bool,
}

impl RxStreamer {
    pub fn new(num_chans: usize) -> (r: Result<RxStreamer, &'static str>)
        ensures
            r matches Ok(s) && s == (RxStreamer {
                timeout_millis: 1000u64,
                max_num_samps: 0usize,
                rx_metadata: RxMetadata {
                    error_code: RxMetadataErrorCode::NoError,
                    time: TimeSpec { full_secs: 0i64, frac_ns: 0u32 },
                },
                overflow_count: 0u64,
                num_chans,
                streaming: false,
            }),
    {
        let rx_metadata = RxMetadata::new()?;
        Ok(
            RxStreamer {
                timeout_millis: 1000,
                max_num_samps: 0,
                rx_metadata,
                overflow_count: 0,
                num_chans,
                streaming: false,
            },
        )
    }

    /// Records the driver's reported maximum samples per native call.
    pub fn record_max_num_samps(&mut self, max_num_samps: usize)
        ensures
            *final(self) == (RxStreamer { max_num_samps, ..*old(self) }),
    {
        self.max_num_samps = max_num_samps;
    }

    pub fn get_max_num_samps(&self) -> (r: usize)
        ensures
            r == self.max_num_samps,
    {
        self.max_num_samps
    }

    /// Notes a stream command: starting or running leaves the hardware
    /// streaming, an explicit stop leaves it idle.
    pub fn stream(&mut self, stream_cmd: &StreamCmd) -> (r: Result<(), &'static str>)
        ensures
            r == Ok::<(), &'static str>(()),
            *final(self) == (RxStreamer {
                streaming: !(stream_cmd.stream_mode is StopContinuous),
                ..*old(self)
            }),
    {
        self.streaming = !matches!(stream_cmd.stream_mode, crate::stream::StreamMode::StopContinuous);
        Ok(())
    }

    /// Classifies the last transfer's metadata error code. No code and
    /// overflow are tolerated — overflow is common under sustained streaming
    /// and recoverable, so it only increments a counter — while every other
    /// code is surfaced as a hard error.
    pub fn rx_metadata_ok(&mut self) -> (r: Result<(), &'static str>)
        requires
            old(self).overflow_count < u64::MAX,
        ensures
            r.is_ok() <==> (old(self).rx_metadata.error_code == RxMetadataErrorCode::NoError
                || old(self).rx_metadata.error_code == RxMetadataErrorCode::Overflow),
            r matches Err(m) ==> m@ == "RxMetadata error code other than None or Overflow"@,
            *final(self) == (RxStreamer {
                overflow_count: if old(self).rx_metadata.error_code == RxMetadataErrorCode::Overflow {
                    (old(self).overflow_count + 1) as u64
                } else {
                    old(self).overflow_count
                },
                ..*old(self)
            }),
    {
        match self.rx_metadata.error_code()? {
            RxMetadataErrorCode::NoError => Ok(()),
            RxMetadataErrorCode::Overflow => {
                self.overflow_count = self.overflow_count + 1;
                Ok(())
            },
            _ => Err("RxMetadata error code other than None or Overflow"),
        }
    }

    /// How many samples the next native call should request: the driver's
    /// per-call maximum, or what is still missing, whichever is smaller.
    pub fn next_request_size(&self, total: usize, filled: usize) -> (r: usize)
        requires
            filled < total,
        ensures
            r == if self.max_num_samps < total - filled {
                self.max_num_samps
            } else {
                (total - filled) as usize
            },
    {
        let remaining = total - filled;
        if self.max_num_samps < remaining {
            self.max_num_samps
        } else {
            remaining
        }
    }

    /// Fills a single-channel buffer of `total` samples by folding the
    /// outcomes of successive native receive calls, as [`recv_spec`] states:
    /// the count accumulates across calls, the timestamp of the first call is
    /// the one returned, any nonzero status aborts the whole operation, and —
    /// when `bounded` — the transfer ends early once a call finds the deadline
    /// elapsed. A short count on a bounded transfer is not an error.
    pub fn read_sc16(&mut self, total: usize, bounded: bool, replies: &Vec<RecvReply>) -> (r:
        Result<(usize, TimeSpec), &'static str>)
        ensures
            old(self).num_chans != 1 ==> {
                &&& r matches Err(m) && m@ == "RxStreamer::read_sc16 only works with one channel"@
                &&& *final(self) == *old(self)
            },
            old(self).num_chans == 1 ==> {
                let end = recv_outcome(total as nat, old(self).max_num_samps as nat, bounded, replies@);
                &&& *final(self) == (RxStreamer {
                    rx_metadata: recorded_metadata(old(self).rx_metadata, replies@, recv_end_calls(end)),
                    ..*old(self)
                })
                &&& match end {
                    RecvEnd::Failed { calls: _ } => r matches Err(m) && m@
                        == "Failed return value check"@,
                    RecvEnd::Overrun { calls: _ } => r matches Err(m) && m@
                        == "Native call returned more samples than requested"@,
                    RecvEnd::Done { count, first, calls: _ } => r matches Ok(out) && out.0 == count
                        && out.1 == first_or_zero(first),
                    RecvEnd::Starved { count: _, first: _, calls: _ } => r matches Err(m) && m@
                        == "Receive ended before the buffer was filled"@,
                }
            },
    {
        if self.num_chans != 1 {
            return Err("RxStreamer::read_sc16 only works with one channel");
        }

        let ghost goal = recv_outcome(total as nat, self.max_num_samps as nat, bounded, replies@);
        let max = self.max_num_samps;
        let mut filled: usize = 0;
        let mut first: Option<TimeSpec> = None;
        let mut i: usize = 0;

        proof {
            assert(replies@.skip(0) =~= replies@);
        }
        while filled < total
            invariant
                self.num_chans == 1,
                filled <= total,
                i <= replies.len(),
                max == old(self).max_num_samps,
                recv_spec(
                    total as nat,
                    max as nat,
                    bounded,
                    replies@.skip(i as int),
                    filled as nat,
                    first,
                    i as nat,
                ) == goal,
                goal == recv_outcome(total as nat, old(self).max_num_samps as nat, bounded, replies@),
                *self == (RxStreamer {
                    rx_metadata: recorded_metadata(old(self).rx_metadata, replies@, i as nat),
                    ..*old(self)
                }),
            decreases replies.len() - i,
        {
            if i == replies.len() {
                proof {
                    assert(replies@.skip(i as int).len() == 0);
                }
                return Err("Receive ended before the buffer was filled");
            }
            let reply = replies[i];
            proof {
                assert(replies@.skip(i as int)[0] == replies@[i as int]);
                assert(replies@.skip(i as int).skip(1) =~= replies@.skip(i as int + 1));
            }
            self.rx_metadata = RxMetadata { error_code: reply.error_code, time: reply.time };
            if reply.status != 0 {
                return Err("Failed return value check");
            }
            if reply.items > max || reply.items > total - filled {
                return Err("Native call returned more samples than requested");
            }
            let was_empty = filled == 0;
            filled = filled + reply.items;
            if was_empty {
                first = Some(reply.time);
            }
            i = i + 1;
            if bounded && reply.deadline_elapsed {
                return Ok((filled, first_or_zero_exec(&first)));
            }
        }
        Ok((filled, first_or_zero_exec(&first)))
    }

    /// The per-call request size of a multi-channel receive, and its input
    /// validation: the caller must pass exactly one buffer per configured
    /// channel — rejected before any native call — and every channel is asked
    /// for the largest buffer's length, since the native layer delivers all
    /// channels aligned.
    pub fn recv_one_multi_chan_request(&self, buff_lens: &Vec<usize>) -> (r: Result<
        usize,
        &'static str,
    >)
        ensures
            buff_lens@.len() != self.num_chans ==> (r matches Err(m) && m@
                == "Number of buffers needs to match the number of channels"@),
            buff_lens@.len() == self.num_chans ==> r == Ok::<usize, &'static str>(
                max_of(buff_lens@),
            ),
    {
        if buff_lens.len() != self.num_chans {
            return Err("Number of buffers needs to match the number of channels");
        }
        let mut best: usize = 0;
        let mut i: usize = 0;
        while i < buff_lens.len()
            invariant
                i <= buff_lens.len(),
                best == max_of(buff_lens@.take(i as int)),
            decreases buff_lens.len() - i,
        {
            proof {
                assert(buff_lens@.take(i as int + 1).drop_last() =~= buff_lens@.take(i as int));
                assert(buff_lens@.take(i as int + 1).last() == buff_lens@[i as int]);
            }
            if buff_lens[i] > best {
                best = buff_lens[i];
            }
            i = i + 1;
        }
        proof {
            assert(buff_lens@.take(buff_lens@.len() as int) =~= buff_lens@);
        }
        Ok(best)
    }

    /// Finishes one multi-channel native call: records its metadata and
    /// returns the delivered count with the transfer's timestamp, or a read
    /// failure on a nonzero status.
    pub fn recv_one_multi_chan_complete(&mut self, reply: &RecvReply) -> (r: Result<
        (usize, TimeSpec),
        &'static str,
    >)
        ensures
            *final(self) == (RxStreamer {
                rx_metadata: RxMetadata { error_code: reply.error_code, time: reply.time },
                ..*old(self)
            }),
            reply.status != 0 ==> (r matches Err(m) && m@ == "Failed return value check"@),
            reply.status == 0 ==> r == Ok::<(usize, TimeSpec), &'static str>(
                (reply.items, reply.time),
            ),
    {
        self.rx_metadata = RxMetadata { error_code: reply.error_code, time: reply.time };
        if reply.status != 0 {
            return Err("Failed return value check");
        }
        Ok((reply.items, reply.time))
    }

    /// The teardown order of a receive streamer: always command the hardware
    /// to stop streaming, then release the native handle — never the other way
    /// round, since hardware left streaming after release leaks device
    /// bandwidth into later sessions.
    pub fn teardown_plan() -> (r: Vec<TeardownStep>)
        ensures
            r@.len() == 2,
            r@[0] == (TeardownStep::IssueStreamCmd {
                cmd: StreamCmd {
                    stream_mode: crate::stream::StreamMode::StopContinuous,
                    num_samps: 0usize,
                    stream_now: true,
                    time_spec: TimeSpec { full_secs: 0i64, frac_ns: 0u32 },
                },
            }),
            r@[1] == TeardownStep::ReleaseHandle,
    {
        let mut plan: Vec<TeardownStep> = Vec::new();
        plan.push(TeardownStep::IssueStreamCmd { cmd: StreamCmd::stop_continuous_now() });
        plan.push(TeardownStep::ReleaseHandle);
        plan
    }
}

/// One step of a streamer's teardown.
#[derive(Clone, Copy, Debug, PartialEq, Eq, Structural)]
pub enum TeardownStep {
    IssueStreamCmd { cmd: StreamCmd },
    ReleaseHandle,
}

/// The captured first-sample timestamp, or the zero instant when no call
/// reported one.
pub open spec fn first_or_zero(first: Option<TimeSpec>) -> TimeSpec {
    match first {
        Some(t) => t,
        None => TimeSpec { full_secs: 0i64, frac_ns: 0u32 },
    }
}

fn first_or_zero_exec(first: &Option<TimeSpec>) -> (r: TimeSpec)
    ensures
        r == first_or_zero(*first),
{
    match first {
        Some(t) => *t,
        None => TimeSpec::zero(),
    }
}

proof fn lemma_recv_done_fills(
    total: nat,
    max: nat,
    replies: Seq<RecvReply>,
    filled: nat,
    first: Option<TimeSpec>,
    calls: nat,
)
    requires
        filled <= total,
    ensures
        match recv_spec(total, max, false, replies, filled, first, calls) {
            RecvEnd::Done { count, first: _, calls: _ } => count == total,
            _ => true,
        },
    decreases replies.len(),
{
    if filled >= total {
    } else if replies.len() == 0 {
    } else {
        let reply = replies[0];
        if reply.status == 0 && !(reply.items > max || reply.items > total - filled) {
            lemma_recv_done_fills(
                total,
                max,
                replies.skip(1),
                (filled + reply.items) as nat,
                if filled == 0 {
                    Some(reply.time)
                } else {
                    first
                },
                (calls + 1) as nat,
            );
        }
    }
}

/// Chunking is transparent to the caller: when no deadline bounds the
/// transfer, a receive that completes returns exactly the requested sample
/// count, however many native sub-calls the transfer took.
pub proof fn lemma_receive_chunking_transparent(total: nat, max: nat, replies: Seq<RecvReply>)
    ensures
        match recv_outcome(total, max, false, replies) {
            RecvEnd::Done { count, first: _, calls: _ } => count == total,
            _ => true,
        },
{
    lemma_recv_done_fills(total, max, replies, 0, None, calls_zero());
}

/// A transcript in which every native call succeeds without a deadline and
/// delivers exactly the samples requested of it: `min(max, remaining)` per
/// call until the buffer is full.
pub open spec fn exact_recv_transcript(total: nat, max: nat, replies: Seq<RecvReply>) -> bool
    decreases replies.len(),
{
    if total == 0 {
        true
    } else if replies.len() == 0 {
        false
    } else {
        let request = if max <= total {
            max
        } else {
            total
        };
        &&& replies[0].status == 0
        &&& !replies[0].deadline_elapsed
        &&& replies[0].items == request
        &&& exact_recv_transcript((total - request) as nat, max, replies.skip(1))
    }
}

proof fn lemma_recv_exact_gen(
    total: nat,
    max: nat,
    replies: Seq<RecvReply>,
    filled: nat,
    first: Option<TimeSpec>,
    calls: nat,
)
    requires
        max >= 1,
        filled <= total,
        exact_recv_transcript((total - filled) as nat, max, replies),
    ensures
        match recv_spec(total, max, false, replies, filled, first, calls) {
            RecvEnd::Done { count, first: _, calls: _ } => count == total,
            _ => false,
        },
    decreases total - filled,
{
    if filled >= total {
    } else {
        let reply = replies[0];
        lemma_recv_exact_gen(
            total,
            max,
            replies.skip(1),
            (filled + reply.items) as nat,
            if filled == 0 {
                Some(reply.time)
            } else {
                first
            },
            (calls + 1) as nat,
        );
    }
}

/// An unbounded receive whose native calls never error and deliver what is
/// requested of them always completes, returning exactly the requested
/// sample count.
pub proof fn lemma_receive_completes(total: nat, max: nat, replies: Seq<RecvReply>)
    requires
        max >= 1,
        exact_recv_transcript(total, max, replies),
    ensures
        match recv_outcome(total, max, false, replies) {
            RecvEnd::Done { count, first: _, calls: _ } => count == total,
            _ => false,
        },
{
    lemma_recv_exact_gen(total, max, replies, 0, None, calls_zero());
}

proof fn lemma_recv_first_preserved(
    total: nat,
    max: nat,
    bounded: bool,
    replies: Seq<RecvReply>,
    filled: nat,
    first: Option<TimeSpec>,
    calls: nat,
)
    requires
        1 <= filled,
    ensures
        match recv_spec(total, max, bounded, replies, filled, first, calls) {
            RecvEnd::Done { count: _, first: f, calls: _ } => f == first,
            RecvEnd::Starved { count: _, first: f, calls: _ } => f == first,
            _ => true,
        },
    decreases replies.len(),
{
    if filled >= total {
    } else if replies.len() == 0 {
    } else {
        let reply = replies[0];
        if reply.status == 0 && !(reply.items > max || reply.items > total - filled) && !(bounded
            && reply.deadline_elapsed) {
            lemma_recv_first_preserved(
                total,
                max,
                bounded,
                replies.skip(1),
                (filled + reply.items) as nat,
                first,
                (calls + 1) as nat,
            );
        }
    }
}

/// The timestamp a receive returns is the one reported by the first native
/// sub-call, even when several sub-calls were needed: once the first call has
/// delivered at least one sample, later timestamps are discarded.
pub proof fn lemma_receive_first_timestamp(
    total: nat,
    max: nat,
    bounded: bool,
    replies: Seq<RecvReply>,
)
    requires
        total > 0,
        replies.len() > 0,
        replies[0].status == 0,
        replies[0].items >= 1,
    ensures
        match recv_outcome(total, max, bounded, replies) {
            RecvEnd::Done { count: _, first: f, calls: _ } => f == Some(replies[0].time),
            RecvEnd::Starved { count: _, first: f, calls: _ } => f == Some(replies[0].time),
            _ => true,
        },
{
    let reply = replies[0];
    if !(reply.items > max || reply.items > total) {
        if !(bounded && reply.deadline_elapsed) {
            lemma_recv_first_preserved(
                total,
                max,
                bounded,
                replies.skip(1),
                reply.items as nat,
                Some(reply.time),
                1,
            );
        }
    }
}

proof fn lemma_recv_calls_after_elapsed(
    total: nat,
    max: nat,
    replies: Seq<RecvReply>,
    filled: nat,
    first: Option<TimeSpec>,
    calls: nat,
    k: nat,
)
    requires
        k < replies.len(),
        replies[k as int].deadline_elapsed,
    ensures
        recv_end_calls(recv_spec(total, max, true, replies, filled, first, calls)) <= calls + k + 1,
    decreases k,
{
    if filled >= total {
    } else {
        let reply = replies[0];
        if reply.status == 0 && !(reply.items > max || reply.items > total - filled) && !reply.deadline_elapsed {
            lemma_recv_calls_after_elapsed(
                total,
                max,
                replies.skip(1),
                (filled + reply.items) as nat,
                if filled == 0 {
                    Some(reply.time)
                } else {
                    first
                },
                (calls + 1) as nat,
                (k - 1) as nat,
            );
        }
    }
}

proof fn lemma_recv_count_bounded(
    total: nat,
    max: nat,
    bounded: bool,
    replies: Seq<RecvReply>,
    filled: nat,
    first: Option<TimeSpec>,
    calls: nat,
)
    requires
        filled <= total,
    ensures
        match recv_spec(total, max, bounded, replies, filled, first, calls) {
            RecvEnd::Done { count, first: _, calls: _ } => count <= total,
            RecvEnd::Starved { count, first: _, calls: _ } => count <= total,
            _ => true,
        },
    decreases replies.len(),
{
    if filled >= total {
    } else if replies.len() == 0 {
    } else {
        let reply = replies[0];
        if reply.status == 0 && !(reply.items > max || reply.items > total - filled) && !(bounded
            && reply.deadline_elapsed) {
            lemma_recv_count_bounded(
                total,
                max,
                bounded,
                replies.skip(1),
                (filled + reply.items) as nat,
                if filled == 0 {
                    Some(reply.time)
                } else {
                    first
                },
                (calls + 1) as nat,
            );
        }
    }
}

/// A bounded receive never runs past its deadline by more than one native
/// call: once reply `k` reports the deadline elapsed, no call after `k + 1`
/// is ever made, and the count returned never exceeds the requested total.
pub proof fn lemma_receive_deadline_bound(total: nat, max: nat, replies: Seq<RecvReply>, k: nat)
    requires
        k < replies.len(),
        replies[k as int].deadline_elapsed,
    ensures
        recv_end_calls(recv_outcome(total, max, true, replies)) <= k + 1,
        match recv_outcome(total, max, true, replies) {
            RecvEnd::Done { count, first: _, calls: _ } => count <= total,
            RecvEnd::Starved { count, first: _, calls: _ } => count <= total,
            _ => true,
        },
{
    lemma_recv_calls_after_elapsed(total, max, replies, 0, None, calls_zero(), k);
    lemma_recv_count_bounded(total, max, true, replies, 0, None, calls_zero());
}

/// The largest element of a sequence of lengths, zero when it is empty.
pub open spec fn max_of(lens: Seq<usize>) -> usize
    decreases lens.len(),
{
    if lens.len() == 0 {
        0usize
    } else {
        let rest = max_of(lens.drop_last());
        if lens.last() > rest {
            lens.last()
        } else {
            rest
        }
    }
}

} // verus!
