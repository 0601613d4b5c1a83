use vstd::prelude::*;

use crate::logs::LogMsg;

verus! {

/// The kind of an I/O error, as far as the routes tell kinds apart.
#[derive(PartialEq, Eq, Structural, Clone, Copy, Debug)]
pub enum IoErrorKind {
    BrokenPipe,
    ConnectionReset,
    Other,
}

/// An operating-system error number, as far as the routes tell them apart.
#[derive(PartialEq, Eq, Structural, Clone, Copy, Debug)]
pub enum ErrnoKind {
    /// `EPIPE`: the other end of the pipe or socket is closed.
    Epipe,
    /// `ECONNRESET`: the peer reset the connection.
    Econnreset,
    Other,
}

/// One error in the chain of sources below a WebSocket error.
#[derive(PartialEq, Eq, Structural, Clone, Copy, Debug)]
pub enum ErrorCause {
    /// A `std::io::Error` of this kind.
    Io(IoErrorKind),
    /// An operating-system error number.
    Errno(ErrnoKind),
    /// Any other error.
    Other,
}

/// Whether the first error number in `chain` says that the peer went away.
pub open spec fn first_errno_is_disconnect(chain: Seq<ErrorCause>) -> bool
    decreases chain.len(),
{
    if chain.len() == 0 {
        false
    } else {
        match chain[0] {
            ErrorCause::Errno(e) => e == ErrnoKind::Epipe || e == ErrnoKind::Econnreset,
            _ => first_errno_is_disconnect(chain.drop_first()),
        }
    }
}

/// Whether a WebSocket error whose sources are `chain` (nearest first) is a client that
/// went away: when the nearest source is an I/O error, whether its kind is a broken pipe or
/// a reset connection; otherwise whether the first error number along the chain is `EPIPE`
/// or `ECONNRESET`.
pub open spec fn spec_is_expected_disconnection(chain: Seq<ErrorCause>) -> bool {
    if chain.len() > 0 && chain[0] is Io {
        chain[0] == ErrorCause::Io(IoErrorKind::BrokenPipe) || chain[0] == ErrorCause::Io(
            IoErrorKind::ConnectionReset,
        )
    } else {
        first_errno_is_disconnect(chain)
    }
}

/// Whether a WebSocket error with the sources `chain` (nearest first) is an expected client
/// disconnection (see `spec_is_expected_disconnection`).
pub fn is_expected_disconnection(chain: &Vec<ErrorCause>) -> (r: bool)
    ensures
        r == spec_is_expected_disconnection(chain@),
{
    if chain.len() > 0 {
        if let ErrorCause::Io(kind) = chain[0] {
            return kind == IoErrorKind::BrokenPipe || kind == IoErrorKind::ConnectionReset;
        }
    }
    let mut i: usize = 0;
    assert(chain@.skip(0) == chain@);
    while i < chain.len()
        invariant
            0 <= i <= chain.len(),
            !(chain@.len() > 0 && chain@[0] is Io),
            first_errno_is_disconnect(chain@) == first_errno_is_disconnect(chain@.skip(i as int)),
        decreases chain.len() - i,
    {
        assert(chain@.skip(i as int).drop_first() == chain@.skip(i + 1));
        assert(chain@.skip(i as int)[0] == chain@[i as int]);
        if let ErrorCause::Errno(e) = chain[i] {
            return e == ErrnoKind::Epipe || e == ErrnoKind::Econnreset;
        }
        i = i + 1;
    }
    false
}

/// The query of the stream of a session's execution processes.
pub struct SessionExecutionProcessQuery {
    /// The session, as the 128 bits of its UUID.
    pub session_id: u128,
    /// Whether to include soft-deleted (dropped) processes; absent means no.
    pub show_soft_deleted: Option<bool>,
}

impl SessionExecutionProcessQuery {
    /// Whether the stream includes soft-deleted processes.
    pub fn include_soft_deleted(&self) -> (b: bool)
        ensures
            b == (self.show_soft_deleted == Some(true)),
    {
        match self.show_soft_deleted {
            Some(b) => b,
            None => false,
        }
    }
}

/// What the raw-log WebSocket sends for one log message.
pub enum RawLogPayload {
    /// A patch that adds this standard-output chunk at `index`.
    StdoutPatch { index: usize, content: String },
    /// A patch that adds this standard-error chunk at `index`.
    StderrPatch { index: usize, content: String },
    /// The end of the execution.
    Finished,
}

/// Numbers the chunks of a raw log stream for the raw-log WebSocket.
pub struct RawLogIndexer {
    counter: usize,
}

impl RawLogIndexer {
    /// The index that the next chunk gets.
    pub closed spec fn next_index(self) -> usize {
        self.counter
    }

    /// An indexer whose first chunk gets index 0.
    pub fn new() -> (r: Self)
        ensures
            r.next_index() == 0,
    {
        RawLogIndexer { counter: 0 }
    }

    /// The payload for `msg`, a message of a raw log stream (standard output, standard
    /// error, or the end): each chunk, of either stream, gets the next index, counting up
    /// and wrapping around at the top of `usize` as an atomic counter does; the end gets
    /// none.
    pub fn to_payload(&mut self, msg: LogMsg) -> (p: RawLogPayload)
        requires
            msg is Stdout || msg is Stderr || msg is Finished,
        ensures
            match msg {
                LogMsg::Stdout(c) => p matches RawLogPayload::StdoutPatch { index, content }
                    && index == old(self).next_index() && content == c,
                LogMsg::Stderr(c) => p matches RawLogPayload::StderrPatch { index, content }
                    && index == old(self).next_index() && content == c,
                _ => p is Finished,
            },
            msg is Finished ==> final(self).next_index() == old(self).next_index(),
            !(msg is Finished) ==> final(self).next_index() == (if old(self).next_index()
                == usize::MAX {
                0
            } else {
                (old(self).next_index() + 1) as usize
            }),
    {
        match msg {
            LogMsg::Stdout(content) => {
                let index = self.take_index();
                RawLogPayload::StdoutPatch { index, content }
            },
            LogMsg::Stderr(content) => {
                let index = self.take_index();
                RawLogPayload::StderrPatch { index, content }
            },
            _ => RawLogPayload::Finished,
        }
    }

    fn take_index(&mut self) -> (i: usize)
        ensures
            i == old(self).next_index(),
            final(self).next_index() == (if i == usize::MAX {
                0
            } else {
                (i + 1) as usize
            }),
    {
        let i = self.counter;
        self.counter = if i == usize::MAX {
            0
        } else {
            i + 1
        };
        i
    }
}

/// Where a WebSocket forwarding loop stands.
#[derive(PartialEq, Eq, Structural, Clone, Copy, Debug)]
pub enum WsPhase {
    /// Waiting for the next item of the stream.
    Waiting,
    /// Sending an item to the client.
    Sending,
    /// Done.
    Done,
}

/// How a WebSocket forwarding loop ended.
#[derive(PartialEq, Eq, Structural, Clone, Copy, Debug)]
pub enum WsOutcome {
    /// The stream ended.
    Completed,
    /// Sending failed because the client went away.
    ClientDisconnected,
    /// Sending failed for another reason.
    SendFailed,
    /// The stream reported an error.
    StreamFailed,
}

/// What came of the loop's last action.
pub enum WsEvent {
    /// The stream gave an item.
    ItemReady,
    /// The stream gave an error.
    StreamFailed,
    /// The stream ended.
    StreamEnded,
    /// The item was sent.
    Sent,
    /// Sending the item failed with an error whose sources are these (nearest first).
    SendFailed(Vec<ErrorCause>),
}

/// What the loop asks its driver to do next.
pub enum WsAction {
    /// Send the item to the client.
    Send,
    /// Wait for the next item of the stream.
    Next,
    /// Stop: the loop has ended so.
    Finish(WsOutcome),
}

/// The decisions of the loop that forwards a stream of log messages to a WebSocket client:
/// each item is sent; the loop stops at the end of the stream, at a stream error, or at
/// the first failed send, whatever the failure.
pub struct WsForwarder {
    phase: WsPhase,
    message_count: u64,
    outcome: Option<WsOutcome>,
}

/// Whether the loop, in `phase`, waits for `event`.
pub open spec fn ws_expects(phase: WsPhase, event: WsEvent) -> bool {
    match phase {
        WsPhase::Waiting => event is ItemReady || event is StreamFailed || event is StreamEnded,
        WsPhase::Sending => event is Sent || event is SendFailed,
        WsPhase::Done => false,
    }
}

/// One step of the forwarding loop from a state with `count` items so far, on an awaited
/// `event`: the next phase, count and outcome, and the next action. An item is sent (and
/// counted, the count stopping at `u64::MAX`); a sent item asks for the next one; the end
/// of the stream, a stream error or a failed send ends the loop, a send failure counting
/// as the client going away when its error chain says so.
pub open spec fn ws_transition(count: u64, event: WsEvent) -> (WsPhase, u64, Option<WsOutcome>, WsAction) {
    match event {
        WsEvent::ItemReady => (
            WsPhase::Sending,
            if count == u64::MAX {
                u64::MAX
            } else {
                (count + 1) as u64
            },
            None,
            WsAction::Send,
        ),
        WsEvent::Sent => (WsPhase::Waiting, count, None, WsAction::Next),
        WsEvent::StreamEnded => (
            WsPhase::Done,
            count,
            Some(WsOutcome::Completed),
            WsAction::Finish(WsOutcome::Completed),
        ),
        WsEvent::StreamFailed => (
            WsPhase::Done,
            count,
            Some(WsOutcome::StreamFailed),
            WsAction::Finish(WsOutcome::StreamFailed),
        ),
        WsEvent::SendFailed(chain) => {
            let outcome = if spec_is_expected_disconnection(chain@) {
                WsOutcome::ClientDisconnected
            } else {
                WsOutcome::SendFailed
            };
            (WsPhase::Done, count, Some(outcome), WsAction::Finish(outcome))
        },
    }
}

/// A run of the forwarding loop from its start over `events`, taking each event that it
/// awaits and passing over the others: its final phase, count and outcome, and the actions
/// it asked for, in order.
pub open spec fn ws_run(events: Seq<WsEvent>) -> (WsPhase, u64, Option<WsOutcome>, Seq<WsAction>)
    decreases events.len(),
{
    if events.len() == 0 {
        (WsPhase::Waiting, 0, None, Seq::empty())
    } else {
        let (phase, count, outcome, actions) = ws_run(events.drop_last());
        let e = events.last();
        if ws_expects(phase, e) {
            let (p, c, o, a) = ws_transition(count, e);
            (p, c, o, actions.push(a))
        } else {
            (phase, count, outcome, actions)
        }
    }
}

/// How many of `actions` are sends.
pub open spec fn sends(actions: Seq<WsAction>) -> nat
    decreases actions.len(),
{
    if actions.len() == 0 {
        0
    } else {
        sends(actions.drop_last()) + if actions.last() is Send {
            1nat
        } else {
            0nat
        }
    }
}

impl WsForwarder {
    pub closed spec fn phase(self) -> WsPhase {
        self.phase
    }

    /// How many items the stream has given (stopping at `u64::MAX`).
    pub closed spec fn count(self) -> u64 {
        self.message_count
    }

    /// How the loop ended, once it has.
    pub closed spec fn ended(self) -> Option<WsOutcome> {
        if self.phase == WsPhase::Done {
            self.outcome
        } else {
            None
        }
    }

    /// A loop waiting for the first item.
    pub fn new() -> (r: Self)
        ensures
            r.phase() == WsPhase::Waiting,
            r.count() == 0,
            r.ended() is None,
    {
        WsForwarder { phase: WsPhase::Waiting, message_count: 0, outcome: None }
    }

    /// How many items the stream has given.
    pub fn message_count(&self) -> (n: u64)
        ensures
            n == self.count(),
    {
        self.message_count
    }

    /// Whether the loop ended on an error or a disconnection rather than at the end of
    /// the stream.
    pub fn stream_ended_by_failure(&self) -> (b: bool)
        ensures
            b == (self.ended() is Some && self.ended() != Some(WsOutcome::Completed)),
    {
        if self.phase != WsPhase::Done {
            return false;
        }
        match self.outcome {
            Some(WsOutcome::Completed) => false,
            Some(_) => true,
            None => false,
        }
    }

    /// Whether the loop waits for `event`.
    pub fn accepts(&self, event: &WsEvent) -> (b: bool)
        ensures
            b == ws_expects(self.phase(), *event),
    {
        match self.phase {
            WsPhase::Waiting => match event {
                WsEvent::ItemReady | WsEvent::StreamFailed | WsEvent::StreamEnded => true,
                _ => false,
            },
            WsPhase::Sending => match event {
                WsEvent::Sent | WsEvent::SendFailed(_) => true,
                _ => false,
            },
            WsPhase::Done => false,
        }
    }

    /// Takes what came of the last action and gives the next one.
    pub fn step(&mut self, event: WsEvent) -> (action: WsAction)
        requires
            ws_expects(old(self).phase(), event),
        ensures
            (final(self).phase(), final(self).count(), final(self).ended(), action)
                == ws_transition(old(self).count(), event),
    {
        match event {
            WsEvent::ItemReady => {
                self.phase = WsPhase::Sending;
                if self.message_count < u64::MAX {
                    self.message_count = self.message_count + 1;
                }
                WsAction::Send
            },
            WsEvent::Sent => {
                self.phase = WsPhase::Waiting;
                WsAction::Next
            },
            WsEvent::StreamEnded => self.finish(WsOutcome::Completed),
            WsEvent::StreamFailed => self.finish(WsOutcome::StreamFailed),
            WsEvent::SendFailed(chain) => {
                if is_expected_disconnection(&chain) {
                    self.finish(WsOutcome::ClientDisconnected)
                } else {
                    self.finish(WsOutcome::SendFailed)
                }
            },
        }
    }

    fn finish(&mut self, outcome: WsOutcome) -> (action: WsAction)
        ensures
            action == WsAction::Finish(outcome),
            final(self).phase() == WsPhase::Done,
            final(self).count() == old(self).count(),
            final(self).ended() == Some(outcome),
    {
        self.phase = WsPhase::Done;
        self.outcome = Some(outcome);
        WsAction::Finish(outcome)
    }
}


/// A forwarding loop that has ended waits for nothing: no event moves it again.
pub proof fn lemma_ws_done_is_final(event: WsEvent)
    ensures
        !ws_expects(WsPhase::Done, event),
{
}


/// The loop sends each item exactly once: the count of a run is the number of sends it asked
/// for, and a run never sends before an item is ready.
pub proof fn lemma_ws_run_sends_each_item(events: Seq<WsEvent>)
    requires
        events.len() < u64::MAX,
    ensures
        ws_run(events).1 as nat == sends(ws_run(events).3),
        ws_run(events).1 <= events.len(),
        ws_run(events).0 == WsPhase::Sending ==> ws_run(events).3.len() > 0
            && ws_run(events).3.last() is Send,
    decreases events.len(),
{
    if events.len() > 0 {
        lemma_ws_run_sends_each_item(events.drop_last());
        let (phase, count, outcome, actions) = ws_run(events.drop_last());
        let (p, c, o, a) = ws_transition(count, events.last());
        assert(actions.push(a).drop_last() == actions);
        assert(actions.push(a).last() == a);
    }
}


/// Whether `chain[i]` is an error number that says the peer went away, with no error
/// number before it.
pub open spec fn first_errno_at(chain: Seq<ErrorCause>, i: int) -> bool {
    &&& 0 <= i < chain.len()
    &&& (chain[i] == ErrorCause::Errno(ErrnoKind::Epipe) || chain[i] == ErrorCause::Errno(
        ErrnoKind::Econnreset,
    ))
    &&& forall|j: int| 0 <= j < i ==> !(#[trigger] chain[j] is Errno)
}

/// The first error number along a chain is `EPIPE` or `ECONNRESET` exactly when some link
/// is one of those with no error number before it.
pub proof fn lemma_first_errno_position(chain: Seq<ErrorCause>)
    ensures
        first_errno_is_disconnect(chain) <==> exists|i: int| first_errno_at(chain, i),
    decreases chain.len(),
{
    if chain.len() > 0 {
        let rest = chain.drop_first();
        lemma_first_errno_position(rest);
        if chain[0] is Errno {
            if exists|i: int| first_errno_at(chain, i) {
                let i = choose|i: int| first_errno_at(chain, i);
                if i > 0 {
                    assert(!(chain[0] is Errno));
                }
            }
            if first_errno_is_disconnect(chain) {
                assert(first_errno_at(chain, 0));
            }
        } else {
            if exists|i: int| first_errno_at(rest, i) {
                let i = choose|i: int| first_errno_at(rest, i);
                assert forall|j: int| 0 <= j < i + 1 implies !(#[trigger] chain[j] is Errno) by {
                    if j > 0 {
                        assert(chain[j] == rest[j - 1]);
                    }
                }
                assert(first_errno_at(chain, i + 1));
            }
            if exists|i: int| first_errno_at(chain, i) {
                let i = choose|i: int| first_errno_at(chain, i);
                assert(i > 0);
                assert forall|j: int| 0 <= j < i - 1 implies !(#[trigger] rest[j] is Errno) by {
                    assert(rest[j] == chain[j + 1]);
                }
                assert(first_errno_at(rest, i - 1));
            }
        }
    }
}

/// A failed send ends the loop, and it counts as the client going away exactly when the
/// error chain says so: the nearest source is an I/O error of kind broken pipe or
/// connection reset, or, when the nearest source is not an I/O error, the first error
/// number along the chain is `EPIPE` or `ECONNRESET`. Otherwise it is a send failure. The
/// count does not change.
pub proof fn lemma_send_failure_outcome(count: u64, chain: Vec<ErrorCause>)
    ensures
        ({
            let c = chain@;
            let expected = (c.len() > 0 && (c[0] == ErrorCause::Io(IoErrorKind::BrokenPipe) || c[0]
                == ErrorCause::Io(IoErrorKind::ConnectionReset))) || (!(c.len() > 0 && c[0] is Io)
                && exists|i: int| first_errno_at(c, i));
            let (phase, n, ended, action) = ws_transition(count, WsEvent::SendFailed(chain));
            &&& phase == WsPhase::Done
            &&& n == count
            &&& expected ==> action == WsAction::Finish(WsOutcome::ClientDisconnected)
                && ended == Some(WsOutcome::ClientDisconnected)
            &&& !expected ==> action == WsAction::Finish(WsOutcome::SendFailed) && ended == Some(
                WsOutcome::SendFailed,
            )
        }),
{
    lemma_first_errno_position(chain@);
}

} // verus!
