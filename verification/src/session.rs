//! The two flows of a connection session.
//!
//! A session relays between one client transport and one topic. Its inbound
//! flow turns the client's text frames into envelopes and publishes them; its
//! outbound flow writes to the client what the other members of the topic
//! published. Each flow is a small state machine. The caller owns the waits
//! (the transport, the subscription, the two signals between the flows), feeds
//! every wake-up to the flow as an event and carries out what the flow
//! answers.
//!
//! A session is subscribed to its own topic, so the channel hands it its own
//! envelopes too. The outbound flow discards them: the echo is suppressed by
//! the session, not by the registry.

use crate::broker::{get_id, Broker, BrokerMessage, IdSource, Routable, Subscription};
use crate::channel::{send, Polled};
use crate::ident::{decimal, id_text};
use tokio::sync::broadcast::Sender;
use vstd::prelude::*;

verus! {

/// The code of the close notification that reports an internal failure.
pub const INTERNAL_ERROR_CODE: u16 = 1011;

/// Why the inbound flow stopped, as it tells the outbound flow. It is sent
/// at most once per session.
#[derive(Clone, Copy, Debug, PartialEq, Eq, Structural)]
pub enum LifecycleEvent {
    /// The peer closed, the stream ended, or a read failed.
    ClosedByClient,
    /// The relay could not publish any more.
    ClosedByServer,
}

/// The states of the inbound flow.
#[derive(Clone, Copy, Debug, PartialEq, Eq, Structural)]
pub enum InboundState {
    Reading,
    Done,
}

/// The states of the outbound flow.
#[derive(Clone, Copy, Debug, PartialEq, Eq, Structural)]
pub enum OutboundState {
    Relaying,
    Done,
}

/// What ended a wait of the inbound flow.
#[derive(Debug, PartialEq, Eq)]
pub enum InboundEvent {
    /// A text frame with its payload.
    Text(String),
    /// An explicit close frame.
    Close,
    /// A frame of any other kind.
    Other,
    /// The transport failed to read.
    ReadError,
    /// The stream ended without a close frame.
    EndOfStream,
    /// The outbound flow cancelled this flow.
    Cancelled,
}

/// What ended a wait of the outbound flow.
#[derive(Debug, PartialEq, Eq)]
pub enum OutboundEvent {
    /// The next envelope of the topic.
    Envelope(BrokerMessage),
    /// The subscription skipped this many envelopes.
    Lagged(u64),
    /// The topic's channel has no publisher left.
    Closed,
    /// The inbound flow stopped and said why.
    Lifecycle(LifecycleEvent),
    /// The inbound flow is gone without having said why.
    LifecycleLost,
    /// The write that the previous answer asked for failed.
    WriteFailed,
}

/// What the outbound flow asks of its caller after an event.
#[derive(Debug, PartialEq, Eq)]
pub struct OutboundAction {
    /// A payload to write to the client as a text frame.
    pub write: Option<String>,
    /// Whether to send the error close notification, without waiting for it.
    pub error_close: bool,
    /// Whether to cancel the inbound flow.
    pub cancel_inbound: bool,
}

/// A close notification for the client.
#[derive(Debug, PartialEq, Eq)]
pub struct CloseNotice {
    pub code: u16,
    pub reason: &'static str,
}

/// The close notification that reports an internal failure of the relay.
pub fn error_close_notice() -> (notice: CloseNotice)
    ensures
        notice.code == 1011,
        notice.reason@ == "internal server error"@,
{
    CloseNotice { code: INTERNAL_ERROR_CODE, reason: "internal server error" }
}

/// Whether `message` is the envelope that the session `own` publishes for
/// the text `payload`.
pub open spec fn is_envelope_of(message: BrokerMessage, own: Seq<char>, payload: Seq<char>) -> bool {
    message.connection_id@ == own && message.payload@ == payload
}

/// The inbound flow's rule: the state after `event` and the lifecycle event
/// to send, where `published` tells whether the publish of a text frame
/// succeeded. A stopped flow stays stopped and sends nothing.
pub open spec fn inbound_next(state: InboundState, event: InboundEvent, published: bool) -> (
    InboundState,
    Option<LifecycleEvent>,
) {
    match state {
        InboundState::Done => (InboundState::Done, None),
        InboundState::Reading => match event {
            InboundEvent::Text(_) => if published {
                (InboundState::Reading, None)
            } else {
                (InboundState::Done, Some(LifecycleEvent::ClosedByServer))
            },
            InboundEvent::Close | InboundEvent::ReadError | InboundEvent::EndOfStream => (
                InboundState::Done,
                Some(LifecycleEvent::ClosedByClient),
            ),
            InboundEvent::Other => (InboundState::Reading, None),
            InboundEvent::Cancelled => (InboundState::Done, None),
        },
    }
}

/// The answer that asks for nothing.
pub open spec fn no_action() -> OutboundAction {
    OutboundAction { write: None, error_close: false, cancel_inbound: false }
}

/// The outbound flow's rule for the session `own`: the state after `event`
/// and what to ask of the caller. A stopped flow stays stopped and asks for
/// nothing.
pub open spec fn outbound_next(own: Seq<char>, state: OutboundState, event: OutboundEvent) -> (
    OutboundState,
    OutboundAction,
) {
    match state {
        OutboundState::Done => (OutboundState::Done, no_action()),
        OutboundState::Relaying => match event {
            OutboundEvent::Envelope(message) => if message.connection_id@ == own {
                (OutboundState::Relaying, no_action())
            } else {
                (
                    OutboundState::Relaying,
                    OutboundAction {
                        write: Some(message.payload),
                        error_close: false,
                        cancel_inbound: false,
                    },
                )
            },
            OutboundEvent::Lagged(_) => (OutboundState::Relaying, no_action()),
            OutboundEvent::Closed => (
                OutboundState::Done,
                OutboundAction { write: None, error_close: true, cancel_inbound: true },
            ),
            OutboundEvent::Lifecycle(LifecycleEvent::ClosedByClient) => (
                OutboundState::Done,
                no_action(),
            ),
            OutboundEvent::Lifecycle(LifecycleEvent::ClosedByServer)
            | OutboundEvent::LifecycleLost => (
                OutboundState::Done,
                OutboundAction { write: None, error_close: true, cancel_inbound: false },
            ),
            OutboundEvent::WriteFailed => (
                OutboundState::Done,
                OutboundAction { write: None, error_close: false, cancel_inbound: true },
            ),
        },
    }
}

/// Applies the inbound rule to an event whose publish, if it was a text
/// frame, has already succeeded or failed.
pub fn inbound_transition(state: InboundState, event: &InboundEvent, published: bool) -> (next: (
    InboundState,
    Option<LifecycleEvent>,
))
    ensures
        next == inbound_next(state, *event, published),
{
    match state {
        InboundState::Done => (InboundState::Done, None),
        InboundState::Reading => match event {
            InboundEvent::Text(_) => {
                if published {
                    (InboundState::Reading, None)
                } else {
                    (InboundState::Done, Some(LifecycleEvent::ClosedByServer))
                }
            },
            InboundEvent::Close => (InboundState::Done, Some(LifecycleEvent::ClosedByClient)),
            InboundEvent::ReadError => (InboundState::Done, Some(LifecycleEvent::ClosedByClient)),
            InboundEvent::EndOfStream => (InboundState::Done, Some(LifecycleEvent::ClosedByClient)),
            InboundEvent::Other => (InboundState::Reading, None),
            InboundEvent::Cancelled => (InboundState::Done, None),
        },
    }
}

/// The inbound flow of one session: client to topic.
pub struct Inbound {
    connection_id: String,
    publisher: Sender<BrokerMessage>,
    state: InboundState,
}

impl Inbound {
    /// The session's connection identifier.
    pub closed spec fn id(&self) -> Seq<char> {
        self.connection_id@
    }

    /// The publish handle of the session's topic.
    pub closed spec fn publisher(&self) -> Sender<BrokerMessage> {
        self.publisher
    }

    /// The state of the flow, as contracts see it.
    pub closed spec fn current(&self) -> InboundState {
        self.state
    }

    /// The state of the flow.
    pub fn state(&self) -> (state: InboundState)
        ensures
            state == self.current(),
    {
        self.state
    }

    /// The session's connection identifier.
    pub fn connection_id(&self) -> (id: &String)
        ensures
            id@ == self.id(),
    {
        &self.connection_id
    }

    /// Wraps a payload in an envelope tagged with this session's identifier.
    pub fn envelope(&self, payload: String) -> (message: BrokerMessage)
        ensures
            is_envelope_of(message, self.id(), payload@),
            message.payload == payload,
    {
        BrokerMessage { connection_id: self.connection_id.clone(), payload }
    }

    /// The envelope that is due to the topic for `event`: this session's
    /// envelope of a text frame's payload while the flow is reading, and
    /// nothing for any other event or once the flow has stopped.
    pub fn outgoing(&self, event: &InboundEvent) -> (message: Option<BrokerMessage>)
        ensures
            message is Some <==> self.current() == InboundState::Reading && event is Text,
            message matches Some(envelope) ==> is_envelope_of(
                envelope,
                self.id(),
                event->Text_0@,
            ),
    {
        match self.state {
            InboundState::Reading => match event {
                InboundEvent::Text(payload) => Some(self.envelope(payload.clone())),
                _ => None,
            },
            InboundState::Done => None,
        }
    }

    /// Takes one event of the inbound flow: publishes the envelope that is
    /// due for it, if any, and applies the rule. Whether the channel took a
    /// text frame's envelope decides between the two outcomes that the rule
    /// has for a text frame; every other event has one outcome. Returns the
    /// lifecycle event to send to the outbound flow, if the flow stopped
    /// with one.
    pub fn step(&mut self, event: InboundEvent) -> (emitted: Option<LifecycleEvent>)
        ensures
            final(self).id() == old(self).id(),
            final(self).publisher() == old(self).publisher(),
            (final(self).current(), emitted) == inbound_next(old(self).current(), event, true) || (
            final(self).current(), emitted) == inbound_next(old(self).current(), event, false),
            !(event is Text) ==> (final(self).current(), emitted) == inbound_next(
                old(self).current(),
                event,
                true,
            ),
    {
        let published = match self.outgoing(&event) {
            Some(message) => send(&self.publisher, message).is_ok(),
            None => true,
        };
        let (state, emitted) = inbound_transition(self.state, &event, published);
        self.state = state;
        emitted
    }
}

/// The outbound flow of one session: topic to client.
pub struct Outbound {
    connection_id: String,
    state: OutboundState,
}

impl Outbound {
    /// The session's connection identifier.
    pub closed spec fn id(&self) -> Seq<char> {
        self.connection_id@
    }

    /// The state of the flow, as contracts see it.
    pub closed spec fn current(&self) -> OutboundState {
        self.state
    }

    /// The state of the flow.
    pub fn state(&self) -> (state: OutboundState)
        ensures
            state == self.current(),
    {
        self.state
    }

    /// The session's connection identifier.
    pub fn connection_id(&self) -> (id: &String)
        ensures
            id@ == self.id(),
    {
        &self.connection_id
    }

    /// Takes one event of the outbound flow and answers what to do: write an
    /// envelope's payload unless the envelope is this session's own, skip
    /// over a lag, and on every ending say which of the error close and the
    /// cancellation of the inbound flow is due.
    pub fn step(&mut self, event: OutboundEvent) -> (action: OutboundAction)
        ensures
            final(self).id() == old(self).id(),
            (final(self).current(), action) == outbound_next(
                old(self).id(),
                old(self).current(),
                event,
            ),
    {
        let idle = OutboundAction { write: None, error_close: false, cancel_inbound: false };
        match self.state {
            OutboundState::Done => idle,
            OutboundState::Relaying => match event {
                OutboundEvent::Envelope(message) => {
                    if *message.key() == self.connection_id {
                        idle
                    } else {
                        OutboundAction {
                            write: Some(message.payload),
                            error_close: false,
                            cancel_inbound: false,
                        }
                    }
                },
                OutboundEvent::Lagged(_) => idle,
                OutboundEvent::Closed => {
                    self.state = OutboundState::Done;
                    OutboundAction { write: None, error_close: true, cancel_inbound: true }
                },
                OutboundEvent::Lifecycle(LifecycleEvent::ClosedByClient) => {
                    self.state = OutboundState::Done;
                    idle
                },
                OutboundEvent::Lifecycle(LifecycleEvent::ClosedByServer) => {
                    self.state = OutboundState::Done;
                    OutboundAction { write: None, error_close: true, cancel_inbound: false }
                },
                OutboundEvent::LifecycleLost => {
                    self.state = OutboundState::Done;
                    OutboundAction { write: None, error_close: true, cancel_inbound: false }
                },
                OutboundEvent::WriteFailed => {
                    self.state = OutboundState::Done;
                    OutboundAction { write: None, error_close: false, cancel_inbound: true }
                },
            },
        }
    }
}

/// The event that a look at the subscription amounts to, if any: an empty
/// channel is no event.
pub fn event_of(polled: Polled<BrokerMessage>) -> (event: Option<OutboundEvent>)
    ensures
        event == match polled {
            Polled::Message(message) => Some(OutboundEvent::Envelope(message)),
            Polled::Empty => None,
            Polled::Lagged(missed) => Some(OutboundEvent::Lagged(missed)),
            Polled::Closed => Some(OutboundEvent::Closed),
        },
{
    match polled {
        Polled::Message(message) => Some(OutboundEvent::Envelope(message)),
        Polled::Empty => None,
        Polled::Lagged(missed) => Some(OutboundEvent::Lagged(missed)),
        Polled::Closed => Some(OutboundEvent::Closed),
    }
}

/// One connection's session: its two flows and its subscription.
pub struct Session {
    pub inbound: Inbound,
    pub outbound: Outbound,
    pub subscription: Subscription<BrokerMessage>,
}

impl Session {
    /// Sets a session up on `topic_id`: takes the next connection identifier,
    /// joins the topic, and starts both flows under that identifier, written
    /// in decimal.
    pub fn open(ids: &mut IdSource, broker: &mut Broker<BrokerMessage>, topic_id: String) -> (session:
        Session)
        ensures
            session.inbound.id() == decimal(old(ids).upcoming() as nat),
            session.outbound.id() == session.inbound.id(),
            session.inbound.current() == InboundState::Reading,
            session.outbound.current() == OutboundState::Relaying,
            session.subscription.topic_id() == topic_id@,
            final(ids).upcoming() == crate::broker::following(old(ids).upcoming()),
            final(broker)@ == crate::broker::registered(
                old(broker)@,
                topic_id@,
                session.inbound.publisher(),
            ),
            final(broker)@.contains_key(topic_id@),
            final(broker)@[topic_id@] == session.inbound.publisher(),
            final(broker).depth() == old(broker).depth(),
    {
        let id = get_id(ids);
        let (publisher, subscription) = broker.register(topic_id);
        let connection_id = id_text(id);
        Session {
            inbound: Inbound {
                connection_id: connection_id.clone(),
                publisher,
                state: InboundState::Reading,
            },
            outbound: Outbound { connection_id, state: OutboundState::Relaying },
            subscription,
        }
    }
}

/// What an inbound flow that starts in `state` sends to the outbound flow
/// over a run of events, each with the outcome of its publish.
pub open spec fn inbound_emissions(state: InboundState, run: Seq<(InboundEvent, bool)>) -> Seq<
    LifecycleEvent,
>
    decreases run.len(),
{
    if run.len() == 0 {
        Seq::empty()
    } else {
        let (next, emitted) = inbound_next(state, run[0].0, run[0].1);
        let later = inbound_emissions(next, run.skip(1));
        match emitted {
            Some(event) => seq![event] + later,
            None => later,
        }
    }
}

/// The state of an inbound flow that starts in `state`, after a run.
pub open spec fn inbound_after(state: InboundState, run: Seq<(InboundEvent, bool)>) -> InboundState
    decreases run.len(),
{
    if run.len() == 0 {
        state
    } else {
        inbound_after(inbound_next(state, run[0].0, run[0].1).0, run.skip(1))
    }
}

/// How often an outbound flow that starts in `state` asks for the
/// cancellation of the inbound flow over a run of events.
pub open spec fn outbound_cancellations(
    own: Seq<char>,
    state: OutboundState,
    run: Seq<OutboundEvent>,
) -> nat
    decreases run.len(),
{
    if run.len() == 0 {
        0
    } else {
        let (next, action) = outbound_next(own, state, run[0]);
        let later = outbound_cancellations(own, next, run.skip(1));
        if action.cancel_inbound {
            later + 1
        } else {
            later
        }
    }
}

/// How often an outbound flow that starts in `state` asks for the error
/// close notification over a run of events.
pub open spec fn outbound_error_closes(
    own: Seq<char>,
    state: OutboundState,
    run: Seq<OutboundEvent>,
) -> nat
    decreases run.len(),
{
    if run.len() == 0 {
        0
    } else {
        let (next, action) = outbound_next(own, state, run[0]);
        let later = outbound_error_closes(own, next, run.skip(1));
        if action.error_close {
            later + 1
        } else {
            later
        }
    }
}

/// An envelope is written to exactly the clients that did not send it: the
/// session that published a text discards its own envelope, and every
/// session with another identifier is asked to write that text, and nothing
/// else.
pub proof fn law_delivery_skips_the_origin(
    origin: Seq<char>,
    other: Seq<char>,
    message: BrokerMessage,
    payload: Seq<char>,
)
    requires
        is_envelope_of(message, origin, payload),
        other != origin,
    ensures
        outbound_next(origin, OutboundState::Relaying, OutboundEvent::Envelope(message)) == (
            OutboundState::Relaying,
            no_action(),
        ),
        outbound_next(other, OutboundState::Relaying, OutboundEvent::Envelope(message)).0
            == OutboundState::Relaying,
        outbound_next(
            other,
            OutboundState::Relaying,
            OutboundEvent::Envelope(message),
        ).1.write matches Some(written) && written@ == payload,
        !outbound_next(other, OutboundState::Relaying, OutboundEvent::Envelope(message)).1.error_close,
        !outbound_next(
            other,
            OutboundState::Relaying,
            OutboundEvent::Envelope(message),
        ).1.cancel_inbound,
{
}

/// Whatever the event, a write is asked for only while relaying, only for an
/// envelope, and only for one that came from another session.
pub proof fn law_writes_are_foreign_envelopes(
    own: Seq<char>,
    state: OutboundState,
    event: OutboundEvent,
)
    ensures
        outbound_next(own, state, event).1.write is Some <==> state == OutboundState::Relaying
            && event is Envelope && event->Envelope_0.connection_id@ != own,
        outbound_next(own, state, event).1.write is Some ==> outbound_next(
            own,
            state,
            event,
        ).1.write == Some(event->Envelope_0.payload),
{
}

/// A closure that the peer starts ends both flows: a close frame, the end of
/// the stream and a failed read each stop the inbound flow with
/// `ClosedByClient`, and on that event the outbound flow stops without
/// writing, notifying or cancelling.
pub proof fn law_peer_closure_ends_both_flows(own: Seq<char>, event: InboundEvent, published: bool)
    requires
        event is Close || event is EndOfStream || event is ReadError,
    ensures
        inbound_next(InboundState::Reading, event, published) == (
            InboundState::Done,
            Some(LifecycleEvent::ClosedByClient),
        ),
        outbound_next(
            own,
            OutboundState::Relaying,
            OutboundEvent::Lifecycle(LifecycleEvent::ClosedByClient),
        ) == (OutboundState::Done, no_action()),
{
}

/// The inbound flow never stops silently on its own account: when it stops
/// it sends a lifecycle event on which the outbound flow stops too, unless
/// it stopped because the outbound flow had cancelled it.
pub proof fn law_inbound_stop_reaches_outbound(
    own: Seq<char>,
    event: InboundEvent,
    published: bool,
    relaying: OutboundState,
)
    requires
        inbound_next(InboundState::Reading, event, published).0 == InboundState::Done,
    ensures
        match inbound_next(InboundState::Reading, event, published).1 {
            Some(said) => outbound_next(own, relaying, OutboundEvent::Lifecycle(said)).0
                == OutboundState::Done,
            None => event is Cancelled,
        },
{
}

/// The outbound flow never leaves the inbound flow running: when it stops it
/// asks for the cancellation, on which the inbound flow stops, unless it
/// stopped because the inbound flow had stopped first.
pub proof fn law_outbound_stop_reaches_inbound(
    own: Seq<char>,
    event: OutboundEvent,
    reading: InboundState,
    published: bool,
)
    requires
        outbound_next(own, OutboundState::Relaying, event).0 == OutboundState::Done,
    ensures
        outbound_next(own, OutboundState::Relaying, event).1.cancel_inbound || event is Lifecycle
            || event is LifecycleLost,
        inbound_next(reading, InboundEvent::Cancelled, published).0 == InboundState::Done,
{
}

/// A stopped inbound flow sends nothing more and stays stopped.
pub proof fn lemma_inbound_done_is_silent(run: Seq<(InboundEvent, bool)>)
    ensures
        inbound_emissions(InboundState::Done, run) == Seq::<LifecycleEvent>::empty(),
        inbound_after(InboundState::Done, run) == InboundState::Done,
    decreases run.len(),
{
    if run.len() > 0 {
        lemma_inbound_done_is_silent(run.skip(1));
    }
}

/// Over any run of events the inbound flow sends at most one lifecycle
/// event, and it has stopped once it has sent one.
pub proof fn law_lifecycle_is_sent_at_most_once(state: InboundState, run: Seq<(InboundEvent, bool)>)
    ensures
        inbound_emissions(state, run).len() <= 1,
        inbound_emissions(state, run).len() == 1 ==> inbound_after(state, run)
            == InboundState::Done,
    decreases run.len(),
{
    if run.len() > 0 {
        let (next, emitted) = inbound_next(state, run[0].0, run[0].1);
        if next == InboundState::Done {
            lemma_inbound_done_is_silent(run.skip(1));
        } else {
            law_lifecycle_is_sent_at_most_once(next, run.skip(1));
        }
    }
}

/// A stopped outbound flow asks for nothing more.
pub proof fn lemma_outbound_done_is_silent(own: Seq<char>, run: Seq<OutboundEvent>)
    ensures
        outbound_cancellations(own, OutboundState::Done, run) == 0,
        outbound_error_closes(own, OutboundState::Done, run) == 0,
    decreases run.len(),
{
    if run.len() > 0 {
        lemma_outbound_done_is_silent(own, run.skip(1));
    }
}

/// Over any run of events the outbound flow asks at most once for the
/// cancellation of the inbound flow and at most once for the error close.
pub proof fn law_outbound_signals_at_most_once(
    own: Seq<char>,
    state: OutboundState,
    run: Seq<OutboundEvent>,
)
    ensures
        outbound_cancellations(own, state, run) <= 1,
        outbound_error_closes(own, state, run) <= 1,
    decreases run.len(),
{
    if run.len() > 0 {
        let (next, action) = outbound_next(own, state, run[0]);
        if next == OutboundState::Done {
            lemma_outbound_done_is_silent(own, run.skip(1));
        } else {
            law_outbound_signals_at_most_once(own, next, run.skip(1));
        }
    }
}


} // verus!
