use vstd::prelude::*;

use crate::text::{decimal, format_round_trip, push_decimal, round_trip_text};

verus! {

/// Size of the payload carried by each echo request, in bytes.
pub const PAYLOAD_LEN: usize = 56;

/// Time-to-live reported for a reply that carries none.
pub const TTL_WHEN_ABSENT: u8 = 255;

/// Sequence numbers on the wire are 16 bits wide; the session's counter is
/// carried modulo this.
pub const SEQUENCE_MODULUS: u64 = 65536;

/// What the transport is asked to send on one tick.
pub struct EchoRequest {
    pub sequence: u16,
    pub payload_len: usize,
    pub timeout_ms: u64,
}

/// What came back from one echo attempt.
pub enum EchoResult {
    /// An echo reply of the expected family (IPv4).
    Reply { size: usize, sequence: u16, ttl: Option<u8>, rtt_nanos: u64 },
    /// A packet of another family, or one that is no echo reply.
    Unmatched,
    /// Timeout or transport failure, with its description.
    Failed { cause: String },
}

/// The classification of one echo attempt.
pub enum ProbeOutcome {
    Success { size: usize, sequence: u16, ttl: u8, rtt_nanos: u64 },
    Failure { cause: String },
}

/// The coarse state tag of a status update.
#[derive(Clone, Copy, Debug, PartialEq, Eq, Structural)]
pub enum StatusState {
    Okay,
    Error,
}

/// What the status sink receives for one target on one tick.
pub struct StatusUpdate {
    pub state: StatusState,
    pub message: String,
    /// How many more probes have completed.
    pub increment: u64,
}

impl View for StatusUpdate {
    type V = (StatusState, Seq<char>, u64);

    open spec fn view(&self) -> (StatusState, Seq<char>, u64) {
        (self.state, self.message@, self.increment)
    }
}

/// The view of an update that may be absent.
pub open spec fn update_view(u: Option<StatusUpdate>) -> Option<(StatusState, Seq<char>, u64)> {
    match u {
        Some(x) => Some(x@),
        None => None,
    }
}

impl StatusState {
    /// The tag as the sink shows it: `ok` or `error`.
    pub fn tag(&self) -> (r: &'static str)
        ensures
            r@ == (if *self is Okay {
                "ok"@
            } else {
                "error"@
            }),
    {
        match self {
            StatusState::Okay => "ok",
            StatusState::Error => "error",
        }
    }
}

/// The message of a successful probe, with `time` the text of its round trip:
/// `<size> bytes icmp_seq=<seq> ttl=<ttl> time=<time>`.
pub open spec fn success_text(size: nat, sequence: nat, ttl: nat, time: Seq<char>) -> Seq<char> {
    decimal(size) + " bytes icmp_seq="@ + decimal(sequence) + " ttl="@ + decimal(ttl) + " time="@
        + time
}

/// Writes the message of a successful probe from its fields and the text of its
/// round-trip time.
pub fn success_message(size: usize, sequence: u16, ttl: u8, time: &str) -> (r: String)
    ensures
        r@ == success_text(size as nat, sequence as nat, ttl as nat, time@),
{
    let mut s = String::new();
    push_decimal(&mut s, size as u64);
    s.append(" bytes icmp_seq=");
    push_decimal(&mut s, sequence as u64);
    s.append(" ttl=");
    push_decimal(&mut s, ttl as u64);
    s.append(" time=");
    s.append(time);
    assert(s@ =~= success_text(size as nat, sequence as nat, ttl as nat, time@));
    s
}

/// The classification of an echo result: a reply of the expected family is a
/// success (its missing time-to-live taken as the largest one), a failure is a
/// failure with its cause, and an unmatched packet is no outcome.
pub open spec fn classification(r: EchoResult) -> Option<ProbeOutcome> {
    match r {
        EchoResult::Reply { size, sequence, ttl, rtt_nanos } => Some(
            ProbeOutcome::Success {
                size,
                sequence,
                ttl: match ttl {
                    Some(t) => t,
                    None => TTL_WHEN_ABSENT,
                },
                rtt_nanos,
            },
        ),
        EchoResult::Unmatched => None,
        EchoResult::Failed { cause } => Some(ProbeOutcome::Failure { cause }),
    }
}

/// Classifies what came back from one echo attempt.
pub fn classify(r: EchoResult) -> (o: Option<ProbeOutcome>)
    ensures
        o == classification(r),
{
    match r {
        EchoResult::Reply { size, sequence, ttl, rtt_nanos } => {
            let ttl = match ttl {
                Some(t) => t,
                None => TTL_WHEN_ABSENT,
            };
            Some(ProbeOutcome::Success { size, sequence, ttl, rtt_nanos })
        },
        EchoResult::Unmatched => None,
        EchoResult::Failed { cause } => Some(ProbeOutcome::Failure { cause }),
    }
}

/// The status update an outcome becomes.
pub open spec fn update_of(o: ProbeOutcome) -> (StatusState, Seq<char>, u64) {
    match o {
        ProbeOutcome::Success { size, sequence, ttl, rtt_nanos } => (
            StatusState::Okay,
            success_text(size as nat, sequence as nat, ttl as nat, round_trip_text(rtt_nanos)),
            1,
        ),
        ProbeOutcome::Failure { cause } => (StatusState::Error, cause@, 1),
    }
}

/// The status update that one echo result gives, if any.
pub open spec fn update_for(r: EchoResult) -> Option<(StatusState, Seq<char>, u64)> {
    match classification(r) {
        Some(o) => Some(update_of(o)),
        None => None,
    }
}

/// Turns an outcome into the update handed to the status sink.
pub fn status_update(o: ProbeOutcome) -> (u: StatusUpdate)
    ensures
        u@ == update_of(o),
{
    match o {
        ProbeOutcome::Success { size, sequence, ttl, rtt_nanos } => {
            let time = format_round_trip(rtt_nanos);
            let message = success_message(size, sequence, ttl, time.as_str());
            StatusUpdate { state: StatusState::Okay, message, increment: 1 }
        },
        ProbeOutcome::Failure { cause } => StatusUpdate {
            state: StatusState::Error,
            message: cause,
            increment: 1,
        },
    }
}

/// The state of one target's probe loop: the tick counter (the next sequence
/// number), the per-probe timeout, and how many ticks gave an update and how many
/// were ignored.
pub struct SessionModel {
    pub next_seq: nat,
    pub timeout_ms: nat,
    pub emitted: nat,
    pub ignored: nat,
}

/// A fresh session with the given timeout.
pub open spec fn fresh(timeout_ms: nat) -> SessionModel {
    SessionModel { next_seq: 0, timeout_ms, emitted: 0, ignored: 0 }
}

/// The session after one tick whose echo attempt gave `r`: the counter advances
/// whatever came back.
pub open spec fn after_result(s: SessionModel, r: EchoResult) -> SessionModel {
    SessionModel {
        next_seq: s.next_seq + 1,
        timeout_ms: s.timeout_ms,
        emitted: if r is Unmatched {
            s.emitted
        } else {
            s.emitted + 1
        },
        ignored: if r is Unmatched {
            s.ignored + 1
        } else {
            s.ignored
        },
    }
}

/// The session after one tick for each result of `rs`, in order.
pub open spec fn run(s: SessionModel, rs: Seq<EchoResult>) -> SessionModel
    decreases rs.len(),
{
    if rs.len() == 0 {
        s
    } else {
        after_result(run(s, rs.drop_last()), rs.last())
    }
}

/// The counter value each tick of `rs` sends its request with, in tick order.
pub open spec fn sequences_requested(s: SessionModel, rs: Seq<EchoResult>) -> Seq<nat>
    decreases rs.len(),
{
    if rs.len() == 0 {
        Seq::empty()
    } else {
        sequences_requested(s, rs.drop_last()).push(run(s, rs.drop_last()).next_seq)
    }
}

/// The status updates the ticks of `rs` emit, in emission order.
pub open spec fn updates_emitted(rs: Seq<EchoResult>) -> Seq<(StatusState, Seq<char>, u64)>
    decreases rs.len(),
{
    if rs.len() == 0 {
        Seq::empty()
    } else {
        match update_for(rs.last()) {
            Some(u) => updates_emitted(rs.drop_last()).push(u),
            None => updates_emitted(rs.drop_last()),
        }
    }
}

/// After any number of ticks from a fresh session, the requests carried the
/// sequence numbers 0, 1, ..., N-1 in order, whatever the probes gave back.
pub proof fn lemma_sequence_numbers(timeout_ms: nat, rs: Seq<EchoResult>)
    ensures
        sequences_requested(fresh(timeout_ms), rs) == Seq::new(rs.len(), |i: int| i as nat),
        run(fresh(timeout_ms), rs).next_seq == rs.len(),
        run(fresh(timeout_ms), rs).timeout_ms == timeout_ms,
    decreases rs.len(),
{
    if rs.len() > 0 {
        lemma_sequence_numbers(timeout_ms, rs.drop_last());
        assert(sequences_requested(fresh(timeout_ms), rs) =~= Seq::new(rs.len(), |i: int| i as nat));
    }
}

/// Every tick gives exactly one update, ok for a matching reply and error for a
/// failure, except an unmatched reply, which gives none; over any run the ticks
/// are all counted, as emitted or as ignored.
pub proof fn lemma_outcome_completeness(s: SessionModel, rs: Seq<EchoResult>, r: EchoResult)
    ensures
        (update_for(r) is Some) == !(r is Unmatched),
        update_for(r) is Some ==> ((update_for(r).unwrap().0 is Okay) == (r is Reply)),
        update_for(r) is Some ==> update_for(r).unwrap().2 == 1,
        run(s, rs).emitted == s.emitted + updates_emitted(rs).len(),
        run(s, rs).emitted + run(s, rs).ignored == s.emitted + s.ignored + rs.len(),
    decreases rs.len(),
{
    if rs.len() > 0 {
        lemma_outcome_completeness(s, rs.drop_last(), r);
    }
}

/// The sessions of all targets after the events of `sched`, each event being a
/// target's index and what its echo attempt gave.
pub open spec fn fleet_run(ss: Seq<SessionModel>, sched: Seq<(int, EchoResult)>) -> Seq<
    SessionModel,
>
    decreases sched.len(),
{
    if sched.len() == 0 {
        ss
    } else {
        let prev = fleet_run(ss, sched.drop_last());
        let j = sched.last().0;
        if 0 <= j < prev.len() {
            prev.update(j, after_result(prev[j], sched.last().1))
        } else {
            prev
        }
    }
}

/// The results of target `j`'s echo attempts within `sched`, in order.
pub open spec fn results_for(sched: Seq<(int, EchoResult)>, j: int) -> Seq<EchoResult>
    decreases sched.len(),
{
    if sched.len() == 0 {
        Seq::empty()
    } else if sched.last().0 == j {
        results_for(sched.drop_last(), j).push(sched.last().1)
    } else {
        results_for(sched.drop_last(), j)
    }
}

/// The status updates emitted for target `j` over the events of `sched`, in
/// emission order.
pub open spec fn fleet_updates_for(sched: Seq<(int, EchoResult)>, j: int) -> Seq<
    (StatusState, Seq<char>, u64),
>
    decreases sched.len(),
{
    if sched.len() == 0 {
        Seq::empty()
    } else {
        let rest = fleet_updates_for(sched.drop_last(), j);
        if sched.last().0 == j {
            match update_for(sched.last().1) {
                Some(u) => rest.push(u),
                None => rest,
            }
        } else {
            rest
        }
    }
}

/// However the events of all targets interleave, and whatever the other targets'
/// probes give or however long they take, each target ends in the state, and has
/// emitted the updates, that its own events alone give.
pub proof fn lemma_targets_independent(
    ss: Seq<SessionModel>,
    sched: Seq<(int, EchoResult)>,
    j: int,
)
    requires
        0 <= j < ss.len(),
    ensures
        fleet_run(ss, sched).len() == ss.len(),
        fleet_run(ss, sched)[j] == run(ss[j], results_for(sched, j)),
        fleet_updates_for(sched, j) == updates_emitted(results_for(sched, j)),
    decreases sched.len(),
{
    if sched.len() > 0 {
        let rest = sched.drop_last();
        lemma_targets_independent(ss, rest, j);
        if sched.last().0 == j {
            let own = results_for(rest, j).push(sched.last().1);
            assert(own.drop_last() =~= results_for(rest, j));
        }
    }
}

/// One target's probe loop state, owned by that loop alone.
pub struct ProbeSession {
    next_seq: u64,
    timeout_ms: u64,
    emitted: u64,
    ignored: u64,
}

impl View for ProbeSession {
    type V = SessionModel;

    closed spec fn view(&self) -> SessionModel {
        SessionModel {
            next_seq: self.next_seq as nat,
            timeout_ms: self.timeout_ms as nat,
            emitted: self.emitted as nat,
            ignored: self.ignored as nat,
        }
    }
}

impl ProbeSession {
    /// Every tick so far either gave an update or was ignored.
    pub open spec fn wf(&self) -> bool {
        self@.emitted + self@.ignored == self@.next_seq
    }

    /// A session that has not ticked yet.
    pub fn new(timeout_ms: u64) -> (s: ProbeSession)
        ensures
            s@ == fresh(timeout_ms as nat),
            s.wf(),
    {
        ProbeSession { next_seq: 0, timeout_ms, emitted: 0, ignored: 0 }
    }

    /// How many ticks have been recorded, which is also the next sequence number.
    pub fn ticks(&self) -> (r: u64)
        ensures
            r as nat == self@.next_seq,
    {
        self.next_seq
    }

    /// How many ticks gave a status update.
    pub fn emitted(&self) -> (r: u64)
        ensures
            r as nat == self@.emitted,
    {
        self.emitted
    }

    /// How many ticks were ignored because the reply did not match.
    pub fn ignored(&self) -> (r: u64)
        ensures
            r as nat == self@.ignored,
    {
        self.ignored
    }

    /// The echo request for the current tick.
    pub fn request(&self) -> (r: EchoRequest)
        ensures
            r.sequence as nat == self@.next_seq % (SEQUENCE_MODULUS as nat),
            r.payload_len == PAYLOAD_LEN,
            r.timeout_ms as nat == self@.timeout_ms,
    {
        EchoRequest {
            sequence: (self.next_seq % SEQUENCE_MODULUS) as u16,
            payload_len: PAYLOAD_LEN,
            timeout_ms: self.timeout_ms,
        }
    }

    /// Records what the current tick's echo attempt gave, advances to the next
    /// tick, and returns the status update to emit, if any.
    pub fn record(&mut self, r: EchoResult) -> (u: Option<StatusUpdate>)
        requires
            old(self).wf(),
            old(self)@.next_seq < u64::MAX,
        ensures
            final(self).wf(),
            final(self)@ == after_result(old(self)@, r),
            update_view(u) == update_for(r),
    {
        let u = match classify(r) {
            Some(o) => {
                self.emitted = self.emitted + 1;
                Some(status_update(o))
            },
            None => {
                self.ignored = self.ignored + 1;
                None
            },
        };
        self.next_seq = self.next_seq + 1;
        u
    }
}

} // verus!
