//! One simulated client's interaction with the server, as a state machine.
//!
//! A session's life is: a jittered start delay, connect, send the
//! authentication message, receive two introduction messages, send one
//! completion signal, then drain further server messages until the peer
//! closes the stream. The machine decides; the surrounding binary performs
//! each requested action (connect, send, receive) and feeds the outcome
//! back as the next event.

use vstd::prelude::*;

verus! {

/// Why a session ended without finishing its drain phase.
#[derive(Clone, Copy, Debug, PartialEq, Eq, Structural)]
pub enum Failure {
    /// The connection could not be established.
    Connect,
    /// The authentication message could not be sent.
    AuthSend,
    /// The stream closed or errored before both introduction messages arrived.
    Handshake,
    /// The completion signal could not be delivered (its receiver is gone).
    Signal,
    /// The driver handed the machine an event its phase does not expect.
    UnexpectedEvent,
}

/// Where a session stands in its life cycle.
#[derive(Clone, Copy, Debug, PartialEq, Eq, Structural)]
pub enum Phase {
    /// Waiting out the jittered start delay.
    Delaying,
    /// A connection attempt is in flight.
    Connecting,
    /// Connected; the authentication message is being sent.
    Authenticating,
    /// Authenticated; waiting for the first introduction message.
    AwaitingFirstIntro,
    /// One introduction message in; waiting for the second.
    AwaitingSecondIntro,
    /// Both introduction messages in; the completion signal is being sent.
    Signaling,
    /// Introduced; passively consuming further server messages.
    Draining,
    /// The drain phase ended: the peer closed the stream or it errored.
    Finished,
    /// The session ended early.
    Failed(Failure),
}

/// The outcome of the action a session last requested.
#[derive(Clone, Copy, Debug, PartialEq, Eq, Structural)]
pub enum Event {
    /// The jittered start delay has elapsed.
    DelayElapsed,
    /// The connection attempt succeeded.
    ConnectSucceeded,
    /// The connection attempt failed.
    ConnectFailed,
    /// The outbound message was sent.
    SendSucceeded,
    /// The outbound message could not be sent.
    SendFailed,
    /// A server message arrived; its contents are discarded.
    MessageReceived,
    /// The peer closed the stream.
    StreamClosed,
    /// The stream errored.
    StreamFailed,
    /// The completion signal reached the coordinator's channel.
    SignalDelivered,
    /// The completion signal could not be delivered.
    SignalRejected,
}

/// What the driver must do next on the session's behalf.
#[derive(Clone, Copy, Debug, PartialEq, Eq, Structural)]
pub enum Action {
    /// Open the message-stream connection to the target.
    Connect,
    /// Send the authentication message (and nothing else, ever).
    SendAuth,
    /// Receive one message from the stream.
    Receive,
    /// Send this session's identifier on the completion channel.
    SendSignal,
    /// The session is over; perform nothing further for it.
    Stop,
}

/// The transition relation of a session: from a phase and the event that
/// ended it, to the next phase and the next requested action.
pub open spec fn spec_step(p: Phase, e: Event) -> (Phase, Action) {
    match (p, e) {
        (Phase::Delaying, Event::DelayElapsed) => (Phase::Connecting, Action::Connect),
        (Phase::Connecting, Event::ConnectSucceeded) => (Phase::Authenticating, Action::SendAuth),
        (Phase::Connecting, Event::ConnectFailed) => (Phase::Failed(Failure::Connect), Action::Stop),
        (Phase::Authenticating, Event::SendSucceeded) => (
            Phase::AwaitingFirstIntro,
            Action::Receive,
        ),
        (Phase::Authenticating, Event::SendFailed) => (
            Phase::Failed(Failure::AuthSend),
            Action::Stop,
        ),
        (Phase::AwaitingFirstIntro, Event::MessageReceived) => (
            Phase::AwaitingSecondIntro,
            Action::Receive,
        ),
        (Phase::AwaitingFirstIntro, Event::StreamClosed) => (
            Phase::Failed(Failure::Handshake),
            Action::Stop,
        ),
        (Phase::AwaitingFirstIntro, Event::StreamFailed) => (
            Phase::Failed(Failure::Handshake),
            Action::Stop,
        ),
        (Phase::AwaitingSecondIntro, Event::MessageReceived) => (
            Phase::Signaling,
            Action::SendSignal,
        ),
        (Phase::AwaitingSecondIntro, Event::StreamClosed) => (
            Phase::Failed(Failure::Handshake),
            Action::Stop,
        ),
        (Phase::AwaitingSecondIntro, Event::StreamFailed) => (
            Phase::Failed(Failure::Handshake),
            Action::Stop,
        ),
        (Phase::Signaling, Event::SignalDelivered) => (Phase::Draining, Action::Receive),
        (Phase::Signaling, Event::SignalRejected) => (Phase::Failed(Failure::Signal), Action::Stop),
        (Phase::Draining, Event::MessageReceived) => (Phase::Draining, Action::Receive),
        (Phase::Draining, Event::StreamClosed) => (Phase::Finished, Action::Stop),
        (Phase::Draining, Event::StreamFailed) => (Phase::Finished, Action::Stop),
        (Phase::Finished, _) => (Phase::Finished, Action::Stop),
        (Phase::Failed(f), _) => (Phase::Failed(f), Action::Stop),
        (_, _) => (Phase::Failed(Failure::UnexpectedEvent), Action::Stop),
    }
}

/// One simulated client session: its identifier and its current phase.
pub struct Session {
    /// The session's identifier, unique among the sessions of one run.
    pub id: usize,
    /// Where the session stands.
    pub phase: Phase,
}

impl Session {
    /// A fresh session, about to wait out its jittered start delay.
    pub fn new(id: usize) -> (s: Session)
        ensures
            s.id == id,
            s.phase == Phase::Delaying,
    {
        Session { id, phase: Phase::Delaying }
    }

    /// Advance the session by one event, returning the action the driver
    /// must perform next. The step is exactly the transition relation
    /// `spec_step`; the identifier never changes.
    pub fn step(&mut self, e: Event) -> (a: Action)
        ensures
            final(self).id == old(self).id,
            final(self).phase == spec_step(old(self).phase, e).0,
            a == spec_step(old(self).phase, e).1,
    {
        let (next, a) = match (self.phase, e) {
            (Phase::Delaying, Event::DelayElapsed) => (Phase::Connecting, Action::Connect),
            (Phase::Connecting, Event::ConnectSucceeded) => (
                Phase::Authenticating,
                Action::SendAuth,
            ),
            (Phase::Connecting, Event::ConnectFailed) => (
                Phase::Failed(Failure::Connect),
                Action::Stop,
            ),
            (Phase::Authenticating, Event::SendSucceeded) => (
                Phase::AwaitingFirstIntro,
                Action::Receive,
            ),
            (Phase::Authenticating, Event::SendFailed) => (
                Phase::Failed(Failure::AuthSend),
                Action::Stop,
            ),
            (Phase::AwaitingFirstIntro, Event::MessageReceived) => (
                Phase::AwaitingSecondIntro,
                Action::Receive,
            ),
            (Phase::AwaitingFirstIntro, Event::StreamClosed) => (
                Phase::Failed(Failure::Handshake),
                Action::Stop,
            ),
            (Phase::AwaitingFirstIntro, Event::StreamFailed) => (
                Phase::Failed(Failure::Handshake),
                Action::Stop,
            ),
            (Phase::AwaitingSecondIntro, Event::MessageReceived) => (
                Phase::Signaling,
                Action::SendSignal,
            ),
            (Phase::AwaitingSecondIntro, Event::StreamClosed) => (
                Phase::Failed(Failure::Handshake),
                Action::Stop,
            ),
            (Phase::AwaitingSecondIntro, Event::StreamFailed) => (
                Phase::Failed(Failure::Handshake),
                Action::Stop,
            ),
            (Phase::Signaling, Event::SignalDelivered) => (Phase::Draining, Action::Receive),
            (Phase::Signaling, Event::SignalRejected) => (
                Phase::Failed(Failure::Signal),
                Action::Stop,
            ),
            (Phase::Draining, Event::MessageReceived) => (Phase::Draining, Action::Receive),
            (Phase::Draining, Event::StreamClosed) => (Phase::Finished, Action::Stop),
            (Phase::Draining, Event::StreamFailed) => (Phase::Finished, Action::Stop),
            (Phase::Finished, _) => (Phase::Finished, Action::Stop),
            (Phase::Failed(f), _) => (Phase::Failed(f), Action::Stop),
            (_, _) => (Phase::Failed(Failure::UnexpectedEvent), Action::Stop),
        };
        self.phase = next;
        a
    }
}

/// The phases in which a session's completion signal is still ahead of it.
/// Once the signal has been requested (or the session has ended), this is
/// false and stays false.
pub open spec fn before_signal(p: Phase) -> bool {
    match p {
        Phase::Delaying => true,
        Phase::Connecting => true,
        Phase::Authenticating => true,
        Phase::AwaitingFirstIntro => true,
        Phase::AwaitingSecondIntro => true,
        _ => false,
    }
}

/// The phase a session reaches after a course of events.
pub open spec fn run_phase(p: Phase, evs: Seq<Event>) -> Phase
    decreases evs.len(),
{
    if evs.len() == 0 {
        p
    } else {
        run_phase(spec_step(p, evs[0]).0, evs.subrange(1, evs.len() as int))
    }
}

/// How many completion signals a session starting at phase `p` requests
/// over a course of events.
pub open spec fn signal_count(p: Phase, evs: Seq<Event>) -> nat
    decreases evs.len(),
{
    if evs.len() == 0 {
        0
    } else {
        (if spec_step(p, evs[0]).1 is SendSignal {
            1nat
        } else {
            0nat
        }) + signal_count(spec_step(p, evs[0]).0, evs.subrange(1, evs.len() as int))
    }
}

/// How many outbound sends of any kind (the authentication message or the
/// completion signal) a session starting at phase `p` requests over a
/// course of events.
pub open spec fn outbound_count(p: Phase, evs: Seq<Event>) -> nat
    decreases evs.len(),
{
    if evs.len() == 0 {
        0
    } else {
        (if spec_step(p, evs[0]).1 is SendAuth || spec_step(p, evs[0]).1 is SendSignal {
            1nat
        } else {
            0nat
        }) + outbound_count(spec_step(p, evs[0]).0, evs.subrange(1, evs.len() as int))
    }
}

/// How many sends of the authentication message a session starting at
/// phase `p` requests over a course of events.
pub open spec fn auth_count(p: Phase, evs: Seq<Event>) -> nat
    decreases evs.len(),
{
    if evs.len() == 0 {
        0
    } else {
        (if spec_step(p, evs[0]).1 is SendAuth {
            1nat
        } else {
            0nat
        }) + auth_count(spec_step(p, evs[0]).0, evs.subrange(1, evs.len() as int))
    }
}

/// Whether a session starting at phase `p` completes its handshake over a
/// course of events: some step receives the second introduction message.
pub open spec fn completes_handshake(p: Phase, evs: Seq<Event>) -> bool
    decreases evs.len(),
{
    if evs.len() == 0 {
        false
    } else {
        (p is AwaitingSecondIntro && evs[0] is MessageReceived) || completes_handshake(
            spec_step(p, evs[0]).0,
            evs.subrange(1, evs.len() as int),
        )
    }
}

/// Runs compose: driving a session through one course of events and then
/// another is the same as driving it through their concatenation, both for
/// the phase reached and for the signals requested. A driver that steps a
/// session incrementally therefore answers to the same laws as a whole run.
pub proof fn lemma_run_compose(p: Phase, evs1: Seq<Event>, evs2: Seq<Event>)
    ensures
        run_phase(p, evs1 + evs2) == run_phase(run_phase(p, evs1), evs2),
        signal_count(p, evs1 + evs2) == signal_count(p, evs1) + signal_count(
            run_phase(p, evs1),
            evs2,
        ),
    decreases evs1.len(),
{
    if evs1.len() == 0 {
        assert(evs1 + evs2 =~= evs2);
    } else {
        let rest = evs1.subrange(1, evs1.len() as int);
        assert((evs1 + evs2).subrange(1, (evs1 + evs2).len() as int) =~= rest + evs2);
        lemma_run_compose(spec_step(p, evs1[0]).0, rest, evs2);
    }
}

/// Facts about a single transition, by case analysis: the completion signal
/// is requested exactly on receiving the second introduction message, the
/// authentication message exactly on a successful connect, and once the
/// signal is no longer ahead of a session it never is again.
proof fn lemma_step_cases(p: Phase, e: Event)
    ensures
        spec_step(p, e).1 is SendSignal <==> (p is AwaitingSecondIntro && e is MessageReceived),
        spec_step(p, e).1 is SendAuth <==> (p is Connecting && e is ConnectSucceeded),
        !before_signal(p) ==> !before_signal(spec_step(p, e).0),
        (p is AwaitingSecondIntro && e is MessageReceived) ==> !before_signal(spec_step(p, e).0),
{
}

/// Once a session is past the point of signalling (the signal was already
/// requested, or the session ended early), no later step requests any
/// outbound traffic, no later step requests a completion signal, and the
/// handshake never completes.
pub proof fn lemma_no_outbound_past_signal(p: Phase, evs: Seq<Event>)
    requires
        !before_signal(p),
    ensures
        outbound_count(p, evs) == 0,
        signal_count(p, evs) == 0,
        !completes_handshake(p, evs),
    decreases evs.len(),
{
    if evs.len() > 0 {
        lemma_step_cases(p, evs[0]);
        lemma_no_outbound_past_signal(spec_step(p, evs[0]).0, evs.subrange(1, evs.len() as int));
    }
}

/// A session requests exactly one completion signal when its handshake
/// completes, and none otherwise.
pub proof fn lemma_signal_iff_handshake(p: Phase, evs: Seq<Event>)
    requires
        before_signal(p),
    ensures
        signal_count(p, evs) == (if completes_handshake(p, evs) {
            1nat
        } else {
            0nat
        }),
    decreases evs.len(),
{
    if evs.len() > 0 {
        let next = spec_step(p, evs[0]).0;
        let rest = evs.subrange(1, evs.len() as int);
        lemma_step_cases(p, evs[0]);
        if p is AwaitingSecondIntro && evs[0] is MessageReceived {
            lemma_no_outbound_past_signal(next, rest);
        } else if before_signal(next) {
            lemma_signal_iff_handshake(next, rest);
        } else {
            lemma_no_outbound_past_signal(next, rest);
        }
    }
}

/// The phases in which a session's authentication send is still ahead of
/// it. Once the send has been requested (or the session has ended), this is
/// false and stays false.
pub open spec fn before_auth(p: Phase) -> bool {
    match p {
        Phase::Delaying => true,
        Phase::Connecting => true,
        _ => false,
    }
}

/// Facts about a single transition for the authentication send: it is
/// requested exactly on a successful connect, and once it is no longer
/// ahead of a session it never is again.
proof fn lemma_step_auth_cases(p: Phase, e: Event)
    ensures
        spec_step(p, e).1 is SendAuth <==> (p is Connecting && e is ConnectSucceeded),
        !before_auth(p) ==> !before_auth(spec_step(p, e).0),
        (p is Connecting && e is ConnectSucceeded) ==> !before_auth(spec_step(p, e).0),
{
}

/// Once a session's authentication send is behind it, no later step
/// requests one again.
proof fn lemma_no_auth_past(p: Phase, evs: Seq<Event>)
    requires
        !before_auth(p),
    ensures
        auth_count(p, evs) == 0,
    decreases evs.len(),
{
    if evs.len() > 0 {
        lemma_step_auth_cases(p, evs[0]);
        lemma_no_auth_past(spec_step(p, evs[0]).0, evs.subrange(1, evs.len() as int));
    }
}

/// No session ever sends more than one text message: the authentication
/// message goes out at most once over any course of events.
pub proof fn lemma_single_auth(evs: Seq<Event>)
    ensures
        auth_count(Phase::Delaying, evs) <= 1,
{
    lemma_auth_at_most_one(Phase::Delaying, evs);
}

/// From any phase, the authentication send is requested at most once.
proof fn lemma_auth_at_most_one(p: Phase, evs: Seq<Event>)
    ensures
        auth_count(p, evs) <= 1,
    decreases evs.len(),
{
    if evs.len() > 0 {
        let next = spec_step(p, evs[0]).0;
        let rest = evs.subrange(1, evs.len() as int);
        lemma_step_auth_cases(p, evs[0]);
        if p is Connecting && evs[0] is ConnectSucceeded {
            lemma_no_auth_past(next, rest);
        } else {
            lemma_auth_at_most_one(next, rest);
        }
    }
}

/// No session ever sends more than one completion signal, over any course
/// of events, however long its drain phase runs.
pub proof fn lemma_single_signal(evs: Seq<Event>)
    ensures
        signal_count(Phase::Delaying, evs) <= 1,
{
    lemma_signal_iff_handshake(Phase::Delaying, evs);
}

/// A session that never completes its handshake (it failed during connect,
/// authentication or the introduction exchange) sends no completion signal
/// at all: the coordinator never hears from it.
pub proof fn lemma_failed_session_silent(evs: Seq<Event>)
    requires
        !completes_handshake(Phase::Delaying, evs),
    ensures
        signal_count(Phase::Delaying, evs) == 0,
{
    lemma_signal_iff_handshake(Phase::Delaying, evs);
}

/// Messages received during the drain phase produce no outbound traffic:
/// from the drain phase on, a session requests no send of any kind and no
/// further completion signal, whatever arrives.
pub proof fn lemma_drain_silence(evs: Seq<Event>)
    ensures
        outbound_count(Phase::Draining, evs) == 0,
        signal_count(Phase::Draining, evs) == 0,
{
    lemma_no_outbound_past_signal(Phase::Draining, evs);
}

/// Relies on `rand::random`: a pseudo-random value of the requested type;
/// nothing is promised of which value comes back.
pub assume_specification<T>[ rand::random::<T> ]() -> (r: T)
    where
        rand::distributions::Standard: rand::distributions::Distribution<T>,
;

/// A pseudo-random jittered start delay, uniformly below ten time units,
/// drawn independently by each session before it connects.
pub fn jitter_millis() -> (r: u64)
    ensures
        r < 10,
{
    let raw: u64 = rand::random::<u64>();
    raw % 10
}

} // verus!
