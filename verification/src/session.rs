//! The watcher session: the decisions the worker thread takes, from startup
//! handshake through the bounded-wait loop, as verified functions over plain
//! values.
//!
//! The worker's outside work — opening the kernel handle, registering the
//! watch, blocking on readiness, sending to the caller — happens in the
//! unverified shell; the shell reports each result here and performs the
//! action these functions decide. `run_session` replays a whole session over
//! synthetic inputs, with every delivery reaching the caller, and produces
//! the exact message trace the caller would observe.

use vstd::prelude::*;

use crate::codec::spec_decode;
use crate::codec::decode_mask;
use crate::events::EventKind;
use crate::events::EventModel;
use crate::events::FilesystemEvent;
use crate::events::RawEvent;

verus! {

/// The single message a session sends over the startup handshake: success,
/// or the first fatal startup error.
#[derive(Clone, Copy, Debug, PartialEq, Eq, Structural)]
pub enum StartupOutcome {
    /// The kernel handle was opened and the watch registered; the wait loop
    /// is about to run.
    Started,
    /// Opening the kernel change-notification handle failed.
    InitFailed,
    /// Registering the watch on the requested path failed.
    WatchRegistrationFailed,
    /// The session failed in some other way before it could report.
    RuntimeError,
}

/// What one bounded wait on the kernel handle produced.
#[derive(Clone, Debug, PartialEq, Eq)]
pub enum PollResult {
    /// A batch of pending kernel events was read, in kernel-reported order.
    Batch(Vec<RawEvent>),
    /// The bounded wait elapsed with no events.
    TimedOut,
    /// The read would block; try again.
    WouldBlock,
    /// An unrecoverable read error; the session is finished.
    Fatal,
}

/// What the wait loop does next after one poll.
#[derive(Clone, Debug, PartialEq, Eq)]
pub enum LoopDecision {
    /// Deliver these translated events to the caller, in order, then poll
    /// again.
    Deliver(Vec<FilesystemEvent>),
    /// Nothing to deliver; poll again.
    Retry,
    /// Leave the loop: the session is finished.
    Exit,
}

/// One entry in the caller-observable trace of a session.
#[derive(Clone, Debug, PartialEq, Eq)]
pub enum SessionMessage {
    /// The startup handshake message.
    Signal(StartupOutcome),
    /// One asynchronous event delivery.
    Delivery(FilesystemEvent),
}

/// The model of a trace entry.
pub ghost enum MessageModel {
    Signal(StartupOutcome),
    Delivery(EventModel),
}

impl View for SessionMessage {
    type V = MessageModel;

    open spec fn view(&self) -> MessageModel {
        match self {
            SessionMessage::Signal(o) => MessageModel::Signal(*o),
            SessionMessage::Delivery(e) => MessageModel::Delivery(e@),
        }
    }
}

/// The models of a sequence of trace entries.
pub open spec fn models_of(msgs: Seq<SessionMessage>) -> Seq<MessageModel> {
    msgs.map_values(|m: SessionMessage| m@)
}

/// A sequence of event models wrapped as deliveries.
pub open spec fn deliveries_of(events: Seq<EventModel>) -> Seq<MessageModel> {
    events.map_values(|e: EventModel| MessageModel::Delivery(e))
}

/// The outcome the session reports over the handshake, given whether the
/// kernel handle opened and whether the watch registered. The second step is
/// attempted only when the first succeeded.
pub open spec fn spec_startup_outcome(init_ok: bool, add_ok: bool) -> StartupOutcome {
    if !init_ok {
        StartupOutcome::InitFailed
    } else if !add_ok {
        StartupOutcome::WatchRegistrationFailed
    } else {
        StartupOutcome::Started
    }
}

/// The translation of one raw kernel event: the filename carried over
/// unchanged, the reported mask decoded into kinds.
pub open spec fn spec_translate(r: RawEvent) -> EventModel {
    EventModel { filename: r.filename@, kinds: spec_decode(r.mask) }
}

/// The translations of one kernel batch, in kernel-reported order.
pub open spec fn spec_batch_events(batch: Seq<RawEvent>) -> Seq<EventModel> {
    batch.map_values(|r: RawEvent| spec_translate(r))
}

/// The events a session delivers for a sequence of poll results: each batch
/// contributes its translations in order; timeouts and would-block reads
/// contribute nothing; the first fatal read ends the session, and nothing
/// after it is delivered.
pub open spec fn spec_loop_events(polls: Seq<PollResult>) -> Seq<EventModel>
    decreases polls.len(),
{
    if polls.len() == 0 {
        Seq::<EventModel>::empty()
    } else {
        match polls[0] {
            PollResult::Batch(b) => spec_batch_events(b@) + spec_loop_events(polls.skip(1)),
            PollResult::TimedOut => spec_loop_events(polls.skip(1)),
            PollResult::WouldBlock => spec_loop_events(polls.skip(1)),
            PollResult::Fatal => Seq::<EventModel>::empty(),
        }
    }
}

/// The full caller-observable trace of a session: exactly one startup
/// signal, followed — only when the signal is `Started` — by the loop's
/// deliveries.
pub open spec fn spec_session_trace(init_ok: bool, add_ok: bool, polls: Seq<PollResult>) -> Seq<
    MessageModel,
> {
    let outcome = spec_startup_outcome(init_ok, add_ok);
    if outcome is Started {
        seq![MessageModel::Signal(outcome)] + deliveries_of(spec_loop_events(polls))
    } else {
        seq![MessageModel::Signal(outcome)]
    }
}

/// Translate one raw kernel event for delivery.
pub fn translate_event(raw: &RawEvent) -> (e: FilesystemEvent)
    ensures
        e@ == spec_translate(*raw),
        e.wf(),
{
    FilesystemEvent { filename: raw.filename.clone(), kinds: decode_mask(raw.mask) }
}

/// Translate a whole kernel batch, preserving kernel-reported order.
pub fn translate_batch(batch: &Vec<RawEvent>) -> (evs: Vec<FilesystemEvent>)
    ensures
        evs@.map_values(|e: FilesystemEvent| e@) == spec_batch_events(batch@),
        forall|i: int| 0 <= i < evs@.len() ==> #[trigger] evs@[i].wf(),
{
    let mut evs: Vec<FilesystemEvent> = Vec::new();
    let mut j: usize = 0;
    while j < batch.len()
        invariant
            j <= batch.len(),
            evs@.len() == j,
            forall|i: int| 0 <= i < j ==> #[trigger] evs@[i]@ == spec_translate(batch@[i]),
            forall|i: int| 0 <= i < evs@.len() ==> #[trigger] evs@[i].wf(),
        decreases batch.len() - j,
    {
        let e = translate_event(&batch[j]);
        evs.push(e);
        j = j + 1;
    }
    proof {
        assert(evs@.map_values(|e: FilesystemEvent| e@) =~= spec_batch_events(batch@));
    }
    evs
}

/// Decide what the wait loop does next: exit when the running flag has been
/// cleared or the read failed fatally; retry on a timeout or a would-block
/// read; otherwise deliver the batch's translations in kernel order.
pub fn loop_step(running: bool, poll: PollResult) -> (d: LoopDecision)
    ensures
        d is Exit <==> (!running || poll is Fatal),
        d is Retry <==> (running && (poll is TimedOut || poll is WouldBlock)),
        running ==> (poll matches PollResult::Batch(b) ==> (d matches LoopDecision::Deliver(evs)
            && evs@.map_values(|e: FilesystemEvent| e@) == spec_batch_events(b@))),
{
    if !running {
        LoopDecision::Exit
    } else {
        match poll {
            PollResult::Batch(b) => LoopDecision::Deliver(translate_batch(&b)),
            PollResult::TimedOut => LoopDecision::Retry,
            PollResult::WouldBlock => LoopDecision::Retry,
            PollResult::Fatal => LoopDecision::Exit,
        }
    }
}

/// The running flag after one delivery attempt: delivery failure (the
/// caller is unreachable) clears the flag, converging on the same terminal
/// state as an explicit stop.
pub fn running_after_delivery(running: bool, send_ok: bool) -> (r: bool)
    ensures
        r == (running && send_ok),
{
    running && send_ok
}

/// No poll in the sequence is a fatal read.
pub open spec fn no_fatal(polls: Seq<PollResult>) -> bool {
    forall|i: int| 0 <= i < polls.len() ==> !(#[trigger] polls[i] is Fatal)
}

/// The loop's events for a concatenation of polls split at a fatal-free
/// prefix: the prefix's events, then the rest's.
proof fn lemma_loop_events_concat(a: Seq<PollResult>, b: Seq<PollResult>)
    requires
        no_fatal(a),
    ensures
        spec_loop_events(a + b) == spec_loop_events(a) + spec_loop_events(b),
    decreases a.len(),
{
    if a.len() == 0 {
        assert(a + b =~= b);
        assert(spec_loop_events(a) + spec_loop_events(b) =~= spec_loop_events(b));
    } else {
        assert((a + b)[0] == a[0]);
        assert((a + b).skip(1) =~= a.skip(1) + b);
        assert(no_fatal(a.skip(1)));
        lemma_loop_events_concat(a.skip(1), b);
        assert(!(a[0] is Fatal));
        match a[0] {
            PollResult::Batch(v) => {
                assert(spec_loop_events(a + b) =~= spec_loop_events(a) + spec_loop_events(b));
            },
            PollResult::TimedOut => {},
            PollResult::WouldBlock => {},
            PollResult::Fatal => {},
        }
    }
}

/// The loop's events for a single batch: exactly its translations.
proof fn lemma_loop_events_single_batch(b: Vec<RawEvent>)
    ensures
        spec_loop_events(seq![PollResult::Batch(b)]) == spec_batch_events(b@),
{
    let polls = seq![PollResult::Batch(b)];
    assert(polls.skip(1).len() == 0);
    assert(spec_loop_events(polls.skip(1)) =~= Seq::<EventModel>::empty());
    assert(spec_loop_events(polls) =~= spec_batch_events(b@));
}

/// The loop's events for a single no-event poll: none.
proof fn lemma_loop_events_single_quiet(p: PollResult)
    requires
        p is TimedOut || p is WouldBlock,
    ensures
        spec_loop_events(seq![p]) == Seq::<EventModel>::empty(),
{
    let polls = seq![p];
    assert(polls.skip(1).len() == 0);
    assert(spec_loop_events(polls.skip(1)) =~= Seq::<EventModel>::empty());
    assert(spec_loop_events(polls) =~= Seq::<EventModel>::empty());
}

/// Translate a kernel batch and append its events to the trace as
/// deliveries, in kernel-reported order.
fn append_deliveries(trace: &mut Vec<SessionMessage>, batch: &Vec<RawEvent>)
    ensures
        models_of(final(trace)@) == models_of(old(trace)@) + deliveries_of(
            spec_batch_events(batch@),
        ),
{
    let ghost n = trace@.len();
    let mut j: usize = 0;
    while j < batch.len()
        invariant
            j <= batch.len(),
            trace@.len() == n + j,
            forall|i: int| 0 <= i < n ==> #[trigger] trace@[i] == old(trace)@[i],
            forall|i: int|
                0 <= i < j ==> #[trigger] trace@[n + i]@ == MessageModel::Delivery(
                    spec_translate(batch@[i]),
                ),
        decreases batch.len() - j,
    {
        let e = translate_event(&batch[j]);
        trace.push(SessionMessage::Delivery(e));
        j = j + 1;
    }
    proof {
        let m = models_of(trace@);
        let r = models_of(old(trace)@) + deliveries_of(spec_batch_events(batch@));
        assert forall|i: int| 0 <= i < m.len() implies m[i] == r[i] by {
            if i < n {
                assert(trace@[i] == old(trace)@[i]);
            } else {
                assert(trace@[n + (i - n)]@ == MessageModel::Delivery(
                    spec_translate(batch@[i - n]),
                ));
                assert(deliveries_of(spec_batch_events(batch@))[i - n]
                    == MessageModel::Delivery(spec_batch_events(batch@)[i - n]));
            }
        }
        assert(m =~= r);
    }
}

/// Replay one whole session over synthetic inputs, with every delivery
/// reaching the caller, and return the exact caller-observable trace: the
/// startup signal the session sends for the given handle-open and
/// watch-registration results, followed — only on `Started` — by one
/// delivery per kernel event, in kernel-reported order, up to the first
/// fatal read.
pub fn run_session(init_ok: bool, add_ok: bool, polls: &Vec<PollResult>) -> (trace: Vec<
    SessionMessage,
>)
    ensures
        models_of(trace@) == spec_session_trace(init_ok, add_ok, polls@),
{
    let mut trace: Vec<SessionMessage> = Vec::new();
    if !init_ok {
        trace.push(SessionMessage::Signal(StartupOutcome::InitFailed));
        proof {
            assert(models_of(trace@) =~= spec_session_trace(init_ok, add_ok, polls@));
        }
        return trace;
    }
    if !add_ok {
        trace.push(SessionMessage::Signal(StartupOutcome::WatchRegistrationFailed));
        proof {
            assert(models_of(trace@) =~= spec_session_trace(init_ok, add_ok, polls@));
        }
        return trace;
    }
    trace.push(SessionMessage::Signal(StartupOutcome::Started));
    let ghost head = seq![MessageModel::Signal(StartupOutcome::Started)];
    let mut i: usize = 0;
    let mut fatal = false;
    while i < polls.len() && !fatal
        invariant
            init_ok,
            add_ok,
            i <= polls.len(),
            !fatal ==> no_fatal(polls@.take(i as int)),
            !fatal ==> models_of(trace@) == head + deliveries_of(
                spec_loop_events(polls@.take(i as int)),
            ),
            fatal ==> models_of(trace@) == head + deliveries_of(spec_loop_events(polls@)),
        decreases polls.len() - i,
    {
        proof {
            assert(polls@.take(i + 1) =~= polls@.take(i as int) + seq![polls@[i as int]]);
        }
        match &polls[i] {
            PollResult::Batch(b) => {
                proof {
                    lemma_loop_events_concat(polls@.take(i as int), seq![polls@[i as int]]);
                    lemma_loop_events_single_batch(*b);
                }
                append_deliveries(&mut trace, b);
                proof {
                    assert(models_of(trace@) =~= head + deliveries_of(
                        spec_loop_events(polls@.take(i + 1)),
                    ));
                }
            },
            PollResult::TimedOut => {
                proof {
                    lemma_loop_events_concat(polls@.take(i as int), seq![polls@[i as int]]);
                    lemma_loop_events_single_quiet(polls@[i as int]);
                    assert(models_of(trace@) =~= head + deliveries_of(
                        spec_loop_events(polls@.take(i + 1)),
                    ));
                }
            },
            PollResult::WouldBlock => {
                proof {
                    lemma_loop_events_concat(polls@.take(i as int), seq![polls@[i as int]]);
                    lemma_loop_events_single_quiet(polls@[i as int]);
                    assert(models_of(trace@) =~= head + deliveries_of(
                        spec_loop_events(polls@.take(i + 1)),
                    ));
                }
            },
            PollResult::Fatal => {
                fatal = true;
                proof {
                    assert(polls@ =~= polls@.take(i as int) + polls@.skip(i as int));
                    lemma_loop_events_concat(polls@.take(i as int), polls@.skip(i as int));
                    assert(polls@.skip(i as int)[0] is Fatal);
                    assert(spec_loop_events(polls@.skip(i as int)) =~= Seq::<
                        EventModel,
                    >::empty());
                    assert(spec_loop_events(polls@) =~= spec_loop_events(
                        polls@.take(i as int),
                    ));
                }
            },
        }
        i = i + 1;
    }
    proof {
        if !fatal {
            assert(polls@.take(polls@.len() as int) =~= polls@);
        }
        assert(models_of(trace@) == spec_session_trace(init_ok, add_ok, polls@));
    }
    trace
}

/// Handshake exactly-once: every session trace begins with exactly one
/// startup signal; every other entry is an event delivery, and there are no
/// deliveries at all unless that signal is `Started`.
pub proof fn lemma_handshake_exactly_once(init_ok: bool, add_ok: bool, polls: Seq<PollResult>)
    ensures
        spec_session_trace(init_ok, add_ok, polls).len() >= 1,
        spec_session_trace(init_ok, add_ok, polls)[0] == MessageModel::Signal(
            spec_startup_outcome(init_ok, add_ok),
        ),
        forall|j: int|
            0 < j < spec_session_trace(init_ok, add_ok, polls).len() ==> #[trigger] spec_session_trace(init_ok, add_ok, polls)[j] is Delivery,
        !(spec_startup_outcome(init_ok, add_ok) is Started) ==> spec_session_trace(
            init_ok,
            add_ok,
            polls,
        ).len() == 1,
{
    let trace = spec_session_trace(init_ok, add_ok, polls);
    let outcome = spec_startup_outcome(init_ok, add_ok);
    if outcome is Started {
        let tail = deliveries_of(spec_loop_events(polls));
        assert forall|j: int| 0 < j < trace.len() implies #[trigger] trace[j] is Delivery by {
            assert(trace[j] == tail[j - 1]);
        }
    }
}

/// Order preservation: for a batch of synthetic kernel events delivered to
/// one session, the caller observes one delivery per event, in the same
/// relative order, each the translation of its event.
pub proof fn lemma_order_preservation(b: Vec<RawEvent>)
    ensures
        spec_session_trace(true, true, seq![PollResult::Batch(b)]).len() == 1 + b@.len(),
        forall|i: int|
            0 <= i < b@.len() ==> #[trigger] spec_session_trace(
                true,
                true,
                seq![PollResult::Batch(b)],
            )[1 + i] == MessageModel::Delivery(spec_translate(b@[i])),
{
    lemma_loop_events_single_batch(b);
    let trace = spec_session_trace(true, true, seq![PollResult::Batch(b)]);
    let tail = deliveries_of(spec_batch_events(b@));
    assert forall|i: int| 0 <= i < b@.len() implies #[trigger] trace[1 + i]
        == MessageModel::Delivery(spec_translate(b@[i])) by {
        assert(trace[1 + i] == tail[i]);
        assert(tail[i] == MessageModel::Delivery(spec_batch_events(b@)[i]));
    }
}

} // verus!
