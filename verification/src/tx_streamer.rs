//! The transmit data path: splitting one logical burst into native calls, and
//! choosing the metadata each chunk carries.
//!
//! A burst spanning several native calls stays phase-coherent only because of
//! the metadata attached per call: the first chunk carries the start-of-burst
//! flag (and any scheduled time), middle chunks carry nothing special, and the
//! final chunk carries the end-of-burst flag. The driver infers burst
//! boundaries from these flags alone, never from buffer sizes. The blocking
//! native send is performed outside this module; each call's outcome comes
//! back as a [`SendReply`], and a whole send is the fold [`send_spec`] over
//! those replies.

use vstd::prelude::*;

use crate::metadata::TxMetadata;
use crate::time::TimeSpec;

verus! {

/// The default per-native-call timeout, in milliseconds.
pub const DEFAULT_TIMEOUT_MILLIS: u64 = 3000;

/// What one native send call reported: its status code and how many samples
/// it accepted.
#[derive(Clone, Copy, Debug, PartialEq, Eq, Structural)]
pub struct SendReply {
    pub status: isize,
    pub items: usize,
}

/// Where a chunk stands within one logical burst, which decides the metadata
/// attached to its native call.
#[derive(Clone, Copy, Debug, PartialEq, Eq, Structural)]
pub enum ChunkRole {
    /// The first native call of the burst.
    First,
    /// A call strictly between the first and the last.
    Middle,
    /// The call expected to finish the burst.
    Last,
}

/// How a chunked send ended.
pub enum SendEnd {
    /// A native call reported a nonzero status; the whole operation aborts.
    Failed { calls: nat },
    /// A native call accepted more samples than were requested of it.
    Overrun { calls: nat },
    /// Every sample of the buffer was handed to the driver.
    Sent { count: nat, calls: nat },
    /// The replies ran out before the buffer was fully sent.
    Starved { count: nat, calls: nat },
}

/// How many samples the next native call requests: the per-call maximum, or
/// what is left of the buffer, whichever is smaller.
pub open spec fn chunk_request(len: nat, max: nat, sent: nat) -> nat {
    if max <= len - sent {
        max
    } else {
        (len - sent) as nat
    }
}

/// The role of the chunk that starts at `sent` samples into a buffer of
/// `len`: the opening call, the closing call, or one in between. A buffer
/// that fits in one call gets the opening role only — no end-of-burst marker
/// is ever attached to it.
pub open spec fn chunk_role_spec(sent: nat, len: nat, max: nat) -> ChunkRole {
    if sent == 0 {
        ChunkRole::First
    } else if len - sent <= max {
        ChunkRole::Last
    } else {
        ChunkRole::Middle
    }
}

/// The chunked-send fold. Starting from `sent` samples already accepted after
/// `calls` native calls, it consumes `replies` one call at a time: a nonzero
/// status aborts the whole operation — there is no partial-success return —
/// and a successful call advances by however many samples it accepted, which
/// may be fewer than requested but never more.
pub open spec fn send_spec(
    len: nat,
    max: nat,
    replies: Seq<SendReply>,
    sent: nat,
    calls: nat,
) -> SendEnd
    decreases replies.len(),
{
    if sent >= len {
        SendEnd::Sent { count: sent, calls }
    } else if replies.len() == 0 {
        SendEnd::Starved { count: sent, calls }
    } else {
        let reply = replies[0];
        if reply.status != 0 {
            SendEnd::Failed { calls: (calls + 1) as nat }
        } else if reply.items > chunk_request(len, max, sent) {
            SendEnd::Overrun { calls: (calls + 1) as nat }
        } else {
            send_spec(len, max, replies.skip(1), (sent + reply.items) as nat, (calls + 1) as nat)
        }
    }
}

/// The outcome of a whole chunked send over `replies`.
pub open spec fn send_outcome(len: nat, max: nat, replies: Seq<SendReply>) -> SendEnd {
    send_spec(len, max, replies, 0, 0)
}

/// The samples accepted by the first `j` native calls of a transcript.
pub open spec fn sent_before(replies: Seq<SendReply>, j: nat) -> nat
    decreases j,
{
    if j == 0 {
        0
    } else {
        (sent_before(replies, (j - 1) as nat) + replies[j - 1].items) as nat
    }
}

/// The metadata a chunk carries, selected among the burst's three descriptors
/// by the chunk's role.
pub open spec fn burst_metadata(
    first_md: TxMetadata,
    middle_md: TxMetadata,
    last_md: TxMetadata,
    role: ChunkRole,
) -> TxMetadata {
    match role {
        ChunkRole::First => first_md,
        ChunkRole::Middle => middle_md,
        ChunkRole::Last => last_md,
    }
}

/// A transmit streaming session over a single channel.
#[derive(Clone, Copy, Debug, PartialEq, Eq, Structural)]
pub struct TxStreamer {
    /// Per-native-call timeout handed to the driver, in milliseconds.
    pub timeout_millis: u64,
    /// The driver's maximum samples acceptable per single native call,
    /// recorded after the streaming session is bound.
    pub max_num_samps: usize,
}

impl TxStreamer {
    pub fn new(num_channels: usize) -> (r: Result<TxStreamer, &'static str>)
        ensures
            num_channels != 1 ==> (r matches Err(m) && m@
                == "Multiple channels in one stream aren't supported right now"@),
            num_channels == 1 ==> (r matches Ok(s) && s == (TxStreamer {
                timeout_millis: DEFAULT_TIMEOUT_MILLIS,
                max_num_samps: 0usize,
            })),
    {
        if num_channels != 1 {
            return Err("Multiple channels in one stream aren't supported right now");
        }
        Ok(TxStreamer { timeout_millis: DEFAULT_TIMEOUT_MILLIS, max_num_samps: 0 })
    }

    /// Records the driver's reported maximum samples per native call.
    pub fn record_max_num_samps(&mut self, max_num_samps: usize)
        ensures
            *final(self) == (TxStreamer { max_num_samps, ..*old(self) }),
    {
        self.max_num_samps = max_num_samps;
    }

    pub fn get_max_num_samps(&self) -> (r: usize)
        ensures
            r == self.max_num_samps,
    {
        self.max_num_samps
    }

    /// How many samples the next native call should request of a buffer of
    /// `len` samples of which `sent` are already accepted.
    pub fn next_request_size(&self, len: usize, sent: usize) -> (r: usize)
        requires
            sent < len,
        ensures
            r == chunk_request(len as nat, self.max_num_samps as nat, sent as nat),
    {
        let remaining = len - sent;
        if self.max_num_samps <= remaining {
            self.max_num_samps
        } else {
            remaining
        }
    }

    /// The role of the next chunk of a buffer of `len` samples of which
    /// `sent` are already accepted.
    pub fn chunk_role(&self, len: usize, sent: usize) -> (r: ChunkRole)
        requires
            sent < len,
        ensures
            r == chunk_role_spec(sent as nat, len as nat, self.max_num_samps as nat),
    {
        if sent == 0 {
            ChunkRole::First
        } else if len - sent <= self.max_num_samps {
            ChunkRole::Last
        } else {
            ChunkRole::Middle
        }
    }

    /// Sends a buffer of `len` samples as a sequence of native calls, chunk by
    /// chunk, attaching to each call the descriptor its role selects: `md0`
    /// opens the burst, `md1` rides the middle calls, `md2` closes it. Returns
    /// the total count — always the whole buffer — together with the
    /// descriptor attached to each native call, or a hard error on any native
    /// failure.
    pub fn send_sc16(
        &self,
        len: usize,
        md0: &TxMetadata,
        md1: &TxMetadata,
        md2: &TxMetadata,
        replies: &Vec<SendReply>,
    ) -> (r: Result<(usize, Vec<TxMetadata>), &'static str>)
        ensures
            match send_outcome(len as nat, self.max_num_samps as nat, replies@) {
                SendEnd::Failed { calls: _ } => r matches Err(m) && m@
                    == "Failed return value check"@,
                SendEnd::Overrun { calls: _ } => r matches Err(m) && m@
                    == "Native call sent more samples than requested"@,
                SendEnd::Starved { count: _, calls: _ } => r matches Err(m) && m@
                    == "Send ended before the whole buffer was sent"@,
                SendEnd::Sent { count, calls } => r matches Ok(out) && {
                    &&& out.0 == count
                    &&& out.1@.len() == calls
                    &&& forall|j: int|
                        0 <= j < calls ==> out.1@[j] == burst_metadata(
                            *md0,
                            *md1,
                            *md2,
                            chunk_role_spec(
                                sent_before(replies@, j as nat),
                                len as nat,
                                self.max_num_samps as nat,
                            ),
                        )
                },
            },
    {
        let ghost goal = send_outcome(len as nat, self.max_num_samps as nat, replies@);
        let max = self.max_num_samps;
        let mut sent: usize = 0;
        let mut i: usize = 0;
        let mut attached: Vec<TxMetadata> = Vec::new();

        proof {
            assert(replies@.skip(0) =~= replies@);
        }
        while sent < len
            invariant
                sent <= len,
                i <= replies.len(),
                max == self.max_num_samps,
                sent as nat == sent_before(replies@, i as nat),
                attached@.len() == i,
                forall|j: int|
                    0 <= j < i ==> attached@[j] == burst_metadata(
                        *md0,
                        *md1,
                        *md2,
                        chunk_role_spec(sent_before(replies@, j as nat), len as nat, max as nat),
                    ),
                send_spec(len as nat, max as nat, replies@.skip(i as int), sent as nat, i as nat)
                    == goal,
                goal == send_outcome(len as nat, self.max_num_samps as nat, replies@),
            decreases replies.len() - i,
        {
            if i == replies.len() {
                proof {
                    assert(replies@.skip(i as int).len() == 0);
                }
                return Err("Send ended before the whole buffer was sent");
            }
            let reply = replies[i];
            proof {
                assert(replies@.skip(i as int)[0] == replies@[i as int]);
                assert(replies@.skip(i as int).skip(1) =~= replies@.skip(i as int + 1));
            }
            let num_samps = self.next_request_size(len, sent);
            let role = self.chunk_role(len, sent);
            let md = match role {
                ChunkRole::First => md0.clone(),
                ChunkRole::Middle => md1.clone(),
                ChunkRole::Last => md2.clone(),
            };
            attached.push(md);
            if reply.status != 0 {
                return Err("Failed return value check");
            }
            if reply.items > num_samps {
                return Err("Native call sent more samples than requested");
            }
            sent = sent + reply.items;
            i = i + 1;
        }
        Ok((sent, attached))
    }

    /// One-shot coherent burst: the opening call carries the start-of-burst
    /// flag and the optional scheduled time, the closing call carries the
    /// end-of-burst flag, and nothing more is expected to follow.
    pub fn single_coherent_pulse(
        &self,
        len: usize,
        time_spec: Option<TimeSpec>,
        replies: &Vec<SendReply>,
    ) -> (r: Result<(usize, Vec<TxMetadata>), &'static str>)
        ensures
            send_descriptors_match(
                r,
                send_outcome(len as nat, self.max_num_samps as nat, replies@),
                timed_burst_open(time_spec),
                plain_metadata(),
                burst_close(),
                len as nat,
                self.max_num_samps as nat,
                replies@,
            ),
    {
        let md0 = TxMetadata::new(time_spec, true, false)?;
        let md1 = TxMetadata::new(None, false, false)?;
        let md2 = TxMetadata::new(None, false, true)?;
        self.send_sc16(len, &md0, &md1, &md2, replies)
    }

    /// Opens a coherent burst that later submissions will continue: the
    /// opening call carries the start-of-burst flag and the optional scheduled
    /// time, and no call carries an end-of-burst flag yet.
    pub fn start_coherent(
        &self,
        len: usize,
        time_spec: Option<TimeSpec>,
        replies: &Vec<SendReply>,
    ) -> (r: Result<(usize, Vec<TxMetadata>), &'static str>)
        ensures
            send_descriptors_match(
                r,
                send_outcome(len as nat, self.max_num_samps as nat, replies@),
                timed_burst_open(time_spec),
                plain_metadata(),
                plain_metadata(),
                len as nat,
                self.max_num_samps as nat,
                replies@,
            ),
    {
        let md0 = TxMetadata::new(time_spec, true, false)?;
        let md1 = TxMetadata::new(None, false, false)?;
        self.send_sc16(len, &md0, &md1, &md1, replies)
    }

    /// Continues an open coherent burst: no call carries any burst flag.
    pub fn continue_coherent(&self, len: usize, replies: &Vec<SendReply>) -> (r: Result<
        (usize, Vec<TxMetadata>),
        &'static str,
    >)
        ensures
            send_descriptors_match(
                r,
                send_outcome(len as nat, self.max_num_samps as nat, replies@),
                plain_metadata(),
                plain_metadata(),
                plain_metadata(),
                len as nat,
                self.max_num_samps as nat,
                replies@,
            ),
    {
        let md = TxMetadata::new(None, false, false)?;
        self.send_sc16(len, &md, &md, &md, replies)
    }

    /// Closes an open coherent burst: only the final call carries the
    /// end-of-burst flag.
    pub fn complete_coherent(&self, len: usize, replies: &Vec<SendReply>) -> (r: Result<
        (usize, Vec<TxMetadata>),
        &'static str,
    >)
        ensures
            send_descriptors_match(
                r,
                send_outcome(len as nat, self.max_num_samps as nat, replies@),
                plain_metadata(),
                plain_metadata(),
                burst_close(),
                len as nat,
                self.max_num_samps as nat,
                replies@,
            ),
    {
        let md1 = TxMetadata::new(None, false, false)?;
        let md2 = TxMetadata::new(None, false, true)?;
        self.send_sc16(len, &md1, &md1, &md2, replies)
    }
}

/// A transcript in which every native call succeeds and accepts exactly the
/// samples requested of it: `min(max, remaining)` per call until the buffer
/// is exhausted.
pub open spec fn exact_send_transcript(len: nat, max: nat, replies: Seq<SendReply>) -> bool
    decreases replies.len(),
{
    if len == 0 {
        true
    } else if replies.len() == 0 {
        false
    } else {
        &&& replies[0].status == 0
        &&& replies[0].items == chunk_request(len, max, 0)
        &&& exact_send_transcript((len - chunk_request(len, max, 0)) as nat, max, replies.skip(1))
    }
}

/// How many full chunks a buffer of `len` samples takes at `max` samples per
/// call: the division `len / max`, rounded up.
pub open spec fn full_chunks(len: nat, max: nat) -> nat
    decreases len,
{
    if len == 0 || max == 0 {
        0
    } else if len <= max {
        1
    } else {
        (1 + full_chunks((len - max) as nat, max)) as nat
    }
}

proof fn lemma_full_chunks_is_ceil(len: nat, max: nat)
    requires
        max >= 1,
    ensures
        full_chunks(len, max) == (len + max - 1) as int / max as int,
    decreases len,
{
    if len == 0 {
        vstd::arithmetic::div_mod::lemma_basic_div((max - 1) as int, max as int);
    } else if len <= max {
        vstd::arithmetic::div_mod::lemma_div_plus_one((len - 1) as int, max as int);
        vstd::arithmetic::div_mod::lemma_basic_div((len - 1) as int, max as int);
    } else {
        lemma_full_chunks_is_ceil((len - max) as nat, max);
        vstd::arithmetic::div_mod::lemma_div_plus_one((len - 1) as int, max as int);
    }
}

proof fn lemma_sent_before_skip(replies: Seq<SendReply>, j: nat)
    requires
        1 <= j <= replies.len(),
    ensures
        sent_before(replies, j) == replies[0].items + sent_before(replies.skip(1), (j - 1) as nat),
    decreases j,
{
    if j == 1 {
        assert(sent_before(replies, 1) == sent_before(replies, 0) + replies[0].items);
        assert(sent_before(replies, 0) == 0);
        assert(sent_before(replies.skip(1), 0) == 0);
    } else {
        lemma_sent_before_skip(replies, (j - 1) as nat);
        assert(replies.skip(1)[j - 2] == replies[j - 1]);
        assert(sent_before(replies, j) == sent_before(replies, (j - 1) as nat) + replies[j
            - 1].items);
        assert(sent_before(replies.skip(1), (j - 1) as nat) == sent_before(
            replies.skip(1),
            (j - 2) as nat,
        ) + replies.skip(1)[j - 2].items);
    }
}

proof fn lemma_send_exact_gen(len: nat, max: nat, replies: Seq<SendReply>, sent0: nat, calls0: nat)
    requires
        max >= 1,
        sent0 <= len,
        exact_send_transcript((len - sent0) as nat, max, replies),
    ensures
        ({
            let chunks = full_chunks((len - sent0) as nat, max);
            &&& send_spec(len, max, replies, sent0, calls0) == (SendEnd::Sent {
                count: len,
                calls: (calls0 + chunks) as nat,
            })
            &&& chunks <= replies.len()
            &&& forall|j: nat|
                #![trigger sent_before(replies, j)]
                j < chunks ==> chunk_role_spec((sent0 + sent_before(replies, j)) as nat, len, max)
                    == (if sent0 == 0 && j == 0 {
                    ChunkRole::First
                } else if j == chunks - 1 {
                    ChunkRole::Last
                } else {
                    ChunkRole::Middle
                })
        }),
    decreases len - sent0,
{
    let remaining = (len - sent0) as nat;
    let chunks = full_chunks(remaining, max);
    if remaining == 0 {
    } else {
        let items = replies[0].items;
        assert(items == chunk_request(len, max, sent0));
        assert(items >= 1);
        lemma_send_exact_gen(len, max, replies.skip(1), (sent0 + items) as nat, (calls0 + 1) as nat);
        let sub_chunks = full_chunks((len - sent0 - items) as nat, max);
        assert(chunks == 1 + sub_chunks);
        assert forall|j: nat| #![trigger sent_before(replies, j)] j < chunks implies chunk_role_spec(
            (sent0 + sent_before(replies, j)) as nat,
            len,
            max,
        ) == (if sent0 == 0 && j == 0 {
            ChunkRole::First
        } else if j == chunks - 1 {
            ChunkRole::Last
        } else {
            ChunkRole::Middle
        }) by {
            if j == 0 {
                assert(sent_before(replies, 0) == 0);
            } else {
                lemma_sent_before_skip(replies, j);
                assert(sent_before(replies.skip(1), (j - 1) as nat) == sent_before(
                    replies,
                    j,
                ) - items);
            }
        }
    }
}

/// The splitting law of transmit: a transcript that delivers exactly what is
/// requested sends a buffer of `len` samples as `len / max` native calls
/// rounded up; the opening call carries the first descriptor, the closing
/// call the last one whenever there are at least two chunks, and every call
/// strictly between them the middle one.
pub proof fn lemma_send_chunk_split(len: nat, max: nat, replies: Seq<SendReply>)
    requires
        max >= 1,
        exact_send_transcript(len, max, replies),
    ensures
        full_chunks(len, max) == (len + max - 1) as int / max as int,
        send_outcome(len, max, replies) == (SendEnd::Sent {
            count: len,
            calls: full_chunks(len, max),
        }),
        forall|j: nat|
            #![trigger sent_before(replies, j)]
            j < full_chunks(len, max) ==> chunk_role_spec(sent_before(replies, j), len, max) == (
            if j == 0 {
                ChunkRole::First
            } else if j == full_chunks(len, max) - 1 {
                ChunkRole::Last
            } else {
                ChunkRole::Middle
            }),
{
    lemma_full_chunks_is_ceil(len, max);
    lemma_send_exact_gen(len, max, replies, 0, 0);
}

proof fn lemma_send_sent_whole(len: nat, max: nat, replies: Seq<SendReply>, sent: nat, calls: nat)
    requires
        sent <= len,
    ensures
        match send_spec(len, max, replies, sent, calls) {
            SendEnd::Sent { count, calls: _ } => count == len,
            _ => true,
        },
    decreases replies.len(),
{
    if sent >= len {
    } else if replies.len() == 0 {
    } else {
        let reply = replies[0];
        if reply.status == 0 && reply.items <= chunk_request(len, max, sent) {
            lemma_send_sent_whole(
                len,
                max,
                replies.skip(1),
                (sent + reply.items) as nat,
                (calls + 1) as nat,
            );
        }
    }
}

/// A send never invents partial success: whatever the native layer's chunk
/// sizes, a send that completes reports the whole buffer as transferred.
pub proof fn lemma_send_no_partial(len: nat, max: nat, replies: Seq<SendReply>)
    ensures
        match send_outcome(len, max, replies) {
            SendEnd::Sent { count, calls: _ } => count == len,
            _ => true,
        },
{
    lemma_send_sent_whole(len, max, replies, 0, 0);
}

/// How many complex samples a raw byte buffer holds: four bytes each — two
/// 16-bit components — and any other length is a malformed write.
pub fn write_sample_count(num_bytes: usize) -> (r: Result<usize, &'static str>)
    ensures
        num_bytes % 4 == 0 ==> r == Ok::<usize, &'static str>((num_bytes / 4) as usize),
        num_bytes % 4 != 0 ==> (r matches Err(m) && m@ == "Wrong sized input for write()"@),
{
    if num_bytes % 4 == 0 {
        Ok(num_bytes / 4)
    } else {
        Err("Wrong sized input for write()")
    }
}

/// A descriptor carrying no burst flags and no time.
pub open spec fn plain_metadata() -> TxMetadata {
    TxMetadata {
        has_time_spec: false,
        time: TimeSpec { full_secs: 0i64, frac_ns: 0u32 },
        start_of_burst: false,
        end_of_burst: false,
    }
}

/// The descriptor that opens a burst: start-of-burst, plus the scheduled time
/// when one is given.
pub open spec fn timed_burst_open(time_spec: Option<TimeSpec>) -> TxMetadata {
    TxMetadata {
        has_time_spec: time_spec is Some,
        time: match time_spec {
            Some(t) => t,
            None => TimeSpec { full_secs: 0i64, frac_ns: 0u32 },
        },
        start_of_burst: true,
        end_of_burst: false,
    }
}

/// The descriptor that closes a burst: end-of-burst only.
pub open spec fn burst_close() -> TxMetadata {
    TxMetadata {
        has_time_spec: false,
        time: TimeSpec { full_secs: 0i64, frac_ns: 0u32 },
        start_of_burst: false,
        end_of_burst: true,
    }
}

/// What a burst operation's result must look like: on success the whole
/// buffer was sent and each native call carried the descriptor its chunk role
/// selects among the burst's three; any native failure surfaces as a hard
/// error.
pub open spec fn send_descriptors_match(
    r: Result<(usize, Vec<TxMetadata>), &'static str>,
    end: SendEnd,
    first_md: TxMetadata,
    middle_md: TxMetadata,
    last_md: TxMetadata,
    len: nat,
    max: nat,
    replies: Seq<SendReply>,
) -> bool {
    match end {
        SendEnd::Failed { calls: _ } => r matches Err(m) && m@ == "Failed return value check"@,
        SendEnd::Overrun { calls: _ } => r matches Err(m) && m@
            == "Native call sent more samples than requested"@,
        SendEnd::Starved { count: _, calls: _ } => r matches Err(m) && m@
            == "Send ended before the whole buffer was sent"@,
        SendEnd::Sent { count, calls } => r matches Ok(out) && {
            &&& out.0 == count
            &&& out.1@.len() == calls
            &&& forall|j: int|
                0 <= j < calls ==> out.1@[j] == burst_metadata(
                    first_md,
                    middle_md,
                    last_md,
                    chunk_role_spec(sent_before(replies, j as nat), len, max),
                )
        },
    }
}

} // verus!
