use vstd::prelude::*;

use crate::message::{message_of_wire, WebSocketMessage, WireMessage};
use crate::decimal::decimal;
use crate::types::{Error, Id};

verus! {

/// What reading the next message from a connection's socket gave.
#[derive(Debug)]
pub enum ReadEvent {
    /// A message arrived.
    Received(WireMessage),
    /// Reading failed; the text describes the failure.
    Failed(String),
    /// The stream ended.
    Ended,
}

/// What the handler of a connection is told.
#[derive(Debug)]
pub enum HandlerEvent {
    /// The outcome of reading from the socket.
    Read(ReadEvent),
    /// The outcome of publishing a message to the connection's subscribers.
    Published(Result<(), Error>),
    /// The outcome of removing the connection from the registry.
    Removed(Result<(), Error>),
}

/// What the handler of a connection asks to be done next.
#[derive(Debug)]
pub enum HandlerAction {
    /// Read the next message from the socket.
    ReadNext,
    /// Publish this message to the connection's subscribers.
    Publish(WebSocketMessage),
    /// Remove the connection from the registry.
    RemoveConnection,
    /// Stop handling the connection, with this outcome.
    Finish(Result<(), Error>),
}

/// Where the handler of a connection stands.
#[derive(Debug, Clone, Copy, PartialEq, Eq)]
pub enum Phase {
    /// Waiting for the next read.
    Reading,
    /// Publishing a message that was read.
    Publishing,
    /// Publishing the report of a failed read.
    PublishingFailure,
    /// Removing the connection.
    Removing,
    /// Done.
    Finished,
}

/// Whether `event` is what a handler in `phase` waits for.
pub open spec fn expects(phase: Phase, event: HandlerEvent) -> bool {
    match phase {
        Phase::Reading => event is Read,
        Phase::Publishing => event is Published,
        Phase::PublishingFailure => event is Published,
        Phase::Removing => event is Removed,
        Phase::Finished => false,
    }
}

/// The phase a handler in `phase` moves to on `event`.
pub open spec fn next_phase(phase: Phase, event: HandlerEvent) -> Phase {
    match (phase, event) {
        (Phase::Reading, HandlerEvent::Read(ReadEvent::Received(_))) => Phase::Publishing,
        (Phase::Reading, HandlerEvent::Read(ReadEvent::Failed(_))) => Phase::PublishingFailure,
        (Phase::Reading, HandlerEvent::Read(ReadEvent::Ended)) => Phase::Removing,
        (Phase::Publishing, HandlerEvent::Published(Ok(_))) => Phase::Reading,
        (Phase::PublishingFailure, HandlerEvent::Published(Ok(_))) => Phase::Removing,
        (_, HandlerEvent::Published(Err(_))) => Phase::Finished,
        (_, HandlerEvent::Removed(_)) => Phase::Finished,
        (p, _) => p,
    }
}

/// The report that listeners of connection `id` get when reading failed
/// with `reason`.
pub open spec fn read_failure_report(id: Id, reason: String) -> Seq<char> {
    Error::ConnectionClosed(id, reason).message()->0
}

/// Whether `action` is what the handler of connection `id` in `phase` asks
/// for on `event`.
pub open spec fn action_on(id: Id, phase: Phase, event: HandlerEvent, action: HandlerAction) -> bool {
    match (phase, event) {
        (Phase::Reading, HandlerEvent::Read(ReadEvent::Received(w))) => action
            == HandlerAction::Publish(message_of_wire(w)),
        (Phase::Reading, HandlerEvent::Read(ReadEvent::Failed(reason))) => action matches HandlerAction::Publish(
            WebSocketMessage::Error(text),
        ) && text@ == read_failure_report(id, reason),
        (Phase::Reading, HandlerEvent::Read(ReadEvent::Ended)) => action is RemoveConnection,
        (Phase::Publishing, HandlerEvent::Published(Ok(_))) => action is ReadNext,
        (Phase::PublishingFailure, HandlerEvent::Published(Ok(_))) => action is RemoveConnection,
        (_, HandlerEvent::Published(Err(e))) => action == HandlerAction::Finish(Err(e)),
        (_, HandlerEvent::Removed(r)) => action == HandlerAction::Finish(r),
        _ => false,
    }
}

/// The reading side of one accepted connection: forwards what the socket
/// yields to the connection's subscribers, reports a failed read to them,
/// and removes the connection when the stream ends or fails.
pub struct ConnectionHandler {
    id: Id,
    phase: Phase,
}

impl ConnectionHandler {
    /// The connection handled.
    pub closed spec fn id(&self) -> Id {
        self.id
    }

    /// Where the handler stands.
    pub closed spec fn phase(&self) -> Phase {
        self.phase
    }

    /// A handler for connection `id`, waiting for the first read.
    pub fn new(id: Id) -> (h: Self)
        ensures
            h.id() == id,
            h.phase() is Reading,
    {
        ConnectionHandler { id, phase: Phase::Reading }
    }

    /// Where the handler stands.
    pub fn current_phase(&self) -> (p: Phase)
        ensures
            p == self.phase(),
    {
        self.phase
    }

    /// Whether the handler is done.
    pub fn is_finished(&self) -> (b: bool)
        ensures
            b == self.phase() is Finished,
    {
        match self.phase {
            Phase::Finished => true,
            _ => false,
        }
    }

    /// Takes in what happened and says what to do next. A socket never
    /// yields a raw frame.
    pub fn step(&mut self, event: HandlerEvent) -> (action: HandlerAction)
        requires
            expects(old(self).phase(), event),
            event matches HandlerEvent::Read(ReadEvent::Received(w)) ==> !(w is Frame),
        ensures
            final(self).id() == old(self).id(),
            final(self).phase() == next_phase(old(self).phase(), event),
            action_on(old(self).id(), old(self).phase(), event, action),
            event matches HandlerEvent::Read(ReadEvent::Received(_)) ==> final(self).phase() is Publishing,
            event matches HandlerEvent::Read(ReadEvent::Received(WireMessage::Text(t))) ==> action
                == HandlerAction::Publish(WebSocketMessage::Text(t)),
            event matches HandlerEvent::Read(ReadEvent::Received(WireMessage::Binary(b))) ==> action
                == HandlerAction::Publish(WebSocketMessage::Binary(b)),
            event matches HandlerEvent::Read(ReadEvent::Received(WireMessage::Ping(b))) ==> action
                == HandlerAction::Publish(WebSocketMessage::Ping(b)),
            event matches HandlerEvent::Read(ReadEvent::Received(WireMessage::Pong(b))) ==> action
                == HandlerAction::Publish(WebSocketMessage::Pong(b)),
            event matches HandlerEvent::Read(ReadEvent::Received(WireMessage::Close(f))) ==> action
                == HandlerAction::Publish(WebSocketMessage::Close(f)),
            event matches HandlerEvent::Read(ReadEvent::Failed(_)) ==> {
                &&& final(self).phase() is PublishingFailure
                &&& action matches HandlerAction::Publish(WebSocketMessage::Error(text))
                &&& text@ == "connection channel closed for the given id: "@ + decimal(
                    old(self).id() as nat,
                )
            },
            event matches HandlerEvent::Read(ReadEvent::Ended) ==> final(self).phase() is Removing
                && action is RemoveConnection,
            event matches HandlerEvent::Published(Ok(_)) && old(self).phase() is Publishing
                ==> final(self).phase() is Reading && action is ReadNext,
            event matches HandlerEvent::Published(Ok(_)) && old(self).phase() is PublishingFailure
                ==> final(self).phase() is Removing && action is RemoveConnection,
            event matches HandlerEvent::Published(Err(e)) ==> final(self).phase() is Finished
                && action == HandlerAction::Finish(Err(e)),
            event matches HandlerEvent::Removed(r) ==> final(self).phase() is Finished && action
                == HandlerAction::Finish(r),
    {
        match event {
            HandlerEvent::Read(ReadEvent::Received(w)) => {
                self.phase = Phase::Publishing;
                HandlerAction::Publish(WebSocketMessage::from_wire(w))
            },
            HandlerEvent::Read(ReadEvent::Failed(reason)) => {
                self.phase = Phase::PublishingFailure;
                let report = Error::ConnectionClosed(self.id, reason);
                HandlerAction::Publish(WebSocketMessage::from_error(&report))
            },
            HandlerEvent::Read(ReadEvent::Ended) => {
                self.phase = Phase::Removing;
                HandlerAction::RemoveConnection
            },
            HandlerEvent::Published(Ok(())) => {
                match self.phase {
                    Phase::Publishing => {
                        self.phase = Phase::Reading;
                        HandlerAction::ReadNext
                    },
                    _ => {
                        self.phase = Phase::Removing;
                        HandlerAction::RemoveConnection
                    },
                }
            },
            HandlerEvent::Published(Err(e)) => {
                self.phase = Phase::Finished;
                HandlerAction::Finish(Err(e))
            },
            HandlerEvent::Removed(r) => {
                self.phase = Phase::Finished;
                HandlerAction::Finish(r)
            },
        }
    }
}

/// What a running server waits for.
#[derive(Debug, Clone, Copy, PartialEq, Eq)]
pub enum ServerEvent {
    /// A client connected.
    Accepted,
    /// The server's stop signal arrived.
    KillRequested,
}

/// What a running server does next.
#[derive(Debug, Clone, Copy, PartialEq, Eq)]
pub enum ServerAction {
    /// Hand the new connection to its handler and keep serving.
    HandleConnection,
    /// Forget the server and stop serving.
    RemoveServerAndStop,
}

/// The decision of a running server: a new connection is handled and the
/// server keeps serving; its stop signal makes it forget itself and stop.
pub fn server_step(event: ServerEvent) -> (a: ServerAction)
    ensures
        (event is KillRequested) == (a is RemoveServerAndStop),
        (event is Accepted) == (a is HandleConnection),
{
    match event {
        ServerEvent::Accepted => ServerAction::HandleConnection,
        ServerEvent::KillRequested => ServerAction::RemoveServerAndStop,
    }
}

/// Whether a handler in `phase` has stopped reading for good.
pub open spec fn winding_down(phase: Phase) -> bool {
    phase is PublishingFailure || phase is Removing || phase is Finished
}

/// After a failed read or the end of the stream, a handler never reads again.
pub proof fn lemma_no_read_after_close(id: Id, phase: Phase, event: HandlerEvent, action: HandlerAction)
    requires
        winding_down(phase),
        expects(phase, event),
        action_on(id, phase, event, action),
    ensures
        winding_down(next_phase(phase, event)),
        !(action is ReadNext),
{
}

/// A handler finishes only after removing its connection, or when
/// publishing to the subscribers failed.
pub proof fn lemma_finish_after_removal(phase: Phase, event: HandlerEvent)
    requires
        expects(phase, event),
        next_phase(phase, event) is Finished,
    ensures
        phase is Removing || event matches HandlerEvent::Published(Err(_)),
{
}

/// A handler reads again only once the previous message was published.
pub proof fn lemma_read_after_publish(phase: Phase, event: HandlerEvent)
    requires
        expects(phase, event),
        next_phase(phase, event) is Reading,
    ensures
        phase is Publishing && event matches HandlerEvent::Published(Ok(_)),
{
}

/// Every message read from the socket, of any kind but a raw frame, is
/// published to the connection's subscribers as the message of the same
/// kind with the same contents, and the handler then waits for that
/// publication; a close frame is forwarded like any other message.
pub proof fn lemma_read_message_published(id: Id, w: WireMessage, action: HandlerAction)
    requires
        !(w is Frame),
        action_on(id, Phase::Reading, HandlerEvent::Read(ReadEvent::Received(w)), action),
    ensures
        next_phase(Phase::Reading, HandlerEvent::Read(ReadEvent::Received(w))) is Publishing,
        w matches WireMessage::Text(t) ==> action == HandlerAction::Publish(WebSocketMessage::Text(t)),
        w matches WireMessage::Binary(b) ==> action == HandlerAction::Publish(
            WebSocketMessage::Binary(b),
        ),
        w matches WireMessage::Ping(b) ==> action == HandlerAction::Publish(WebSocketMessage::Ping(b)),
        w matches WireMessage::Pong(b) ==> action == HandlerAction::Publish(WebSocketMessage::Pong(b)),
        w matches WireMessage::Close(f) ==> action == HandlerAction::Publish(
            WebSocketMessage::Close(f),
        ),
{
}

} // verus!
