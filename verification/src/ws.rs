//! The widget's WebSocket protocol: the messages, finishing a spin, and the
//! decisions of a connection, one event at a time.

use vstd::prelude::*;

use crate::ids::QueueEntryId;
use crate::queue::{position_of, InMemoryQueueRepository, QueueEntry, QueueStatus};
use crate::web::widget_token_matches;

verus! {

/// What the widget sends.
#[derive(Debug)]
pub enum ClientMessage {
    Auth { token: String },
    Complete { entry_id: QueueEntryId },
}

/// What the server answers.
#[derive(Debug)]
pub enum ServerMessage {
    AuthOk,
    AuthErr,
    CompleteOk { entry_id: QueueEntryId },
    CompleteErr { entry_id: QueueEntryId, error: String },
}

/// What answering the widget message `msg` does, over the queue entries
/// `before` and `after`: a token is checked against the access key and the
/// queue left alone; a completion marks the spinning entry completed (only
/// that entry changes, at its place) and says so, or leaves the queue
/// alone and reports why it could not.
pub open spec fn message_outcome(
    access_key: Seq<char>,
    before: Seq<QueueEntry>,
    after: Seq<QueueEntry>,
    msg: ClientMessage,
    r: ServerMessage,
) -> bool {
    match msg {
        ClientMessage::Auth { token } => {
            &&& after == before
            &&& if token@ == access_key {
                r is AuthOk
            } else {
                r is AuthErr
            }
        },
        ClientMessage::Complete { entry_id } => match position_of(before, entry_id) {
            None => {
                &&& after == before
                &&& r matches ServerMessage::CompleteErr { entry_id: id, error }
                &&& id == entry_id
                &&& error@ == "queue entry not found"@
            },
            Some(i) => if before[i].status != QueueStatus::Spinning {
                &&& after == before
                &&& r matches ServerMessage::CompleteErr { entry_id: id, error }
                &&& id == entry_id
                &&& error@ == "entry is not in spinning state"@
            } else {
                &&& r == ServerMessage::CompleteOk { entry_id }
                &&& i < after.len()
                &&& after == before.update(
                    i,
                    QueueEntry {
                        status: QueueStatus::Completed,
                        updated_at: after[i].updated_at,
                        ..before[i]
                    },
                )
            },
        },
    }
}

/// The answer to a widget message: a token is checked against the access
/// key; a completion finishes the spin, or reports why it could not.
pub fn handle_message(
    access_key: &str,
    queue: &mut InMemoryQueueRepository,
    msg: ClientMessage,
) -> (r: ServerMessage)
    ensures
        message_outcome(access_key@, old(queue).entries(), final(queue).entries(), msg, r),
        msg is Auth ==> *final(queue) == *old(queue),
        final(queue).next_id() == old(queue).next_id(),
        old(queue).wf() ==> final(queue).wf(),
{
    match msg {
        ClientMessage::Auth { token } => {
            if widget_token_matches(token.as_str(), access_key) {
                ServerMessage::AuthOk
            } else {
                ServerMessage::AuthErr
            }
        },
        ClientMessage::Complete { entry_id } => {
            proof {
                crate::queue::lemma_position_of_first(queue.entries(), entry_id);
            }
            match queue.complete(entry_id) {
                Ok(_) => ServerMessage::CompleteOk { entry_id },
                Err(e) => {
                    let error = e.message();
                    ServerMessage::CompleteErr { entry_id, error }
                },
            }
        },
    }
}

/// Where a connection stands: waiting for its first message, streaming
/// spin events after a successful authentication, or closed.
#[derive(Debug, Clone, Copy, PartialEq, Eq, Structural)]
pub enum WsPhase {
    Handshake,
    Streaming,
    Closed,
}

/// What happened on a connection.
#[derive(Debug)]
pub enum WsInput {
    /// A text frame from the widget, parsed (`None` when it is no message).
    Client(Option<ClientMessage>),
    /// The widget closed the connection, or it failed.
    ClientGone,
    /// Sending to the widget failed.
    SendFailed,
    /// A spin event to pass on, already as JSON.
    Broadcast(String),
    /// Spin events were skipped because the connection fell behind.
    Lagged(u64),
    /// No more spin events will come.
    BroadcastClosed,
}

/// What to do on a connection.
#[derive(Debug)]
pub enum WsOutput {
    /// Send the answer to the widget.
    Reply(ServerMessage),
    /// Send the answer, then close.
    ReplyAndClose(ServerMessage),
    /// Pass a spin event on.
    Forward(String),
    /// Close the connection.
    Close,
    /// Nothing to do.
    Nothing,
}

/// The phase after `input` in `phase`, given the answer a widget message
/// got (when there was one).
pub open spec fn next_phase(phase: WsPhase, input: WsInput, reply: Option<ServerMessage>) -> WsPhase {
    match phase {
        WsPhase::Closed => WsPhase::Closed,
        WsPhase::Handshake => match input {
            WsInput::Client(Some(_)) => if reply matches Some(ServerMessage::AuthOk) {
                WsPhase::Streaming
            } else {
                WsPhase::Closed
            },
            WsInput::Broadcast(_) | WsInput::Lagged(_) => WsPhase::Handshake,
            _ => WsPhase::Closed,
        },
        WsPhase::Streaming => match input {
            WsInput::Client(_) | WsInput::Broadcast(_) | WsInput::Lagged(_) => WsPhase::Streaming,
            _ => WsPhase::Closed,
        },
    }
}

/// The answer an output sends to the widget, if it sends one.
pub open spec fn reply_of(out: WsOutput) -> Option<ServerMessage> {
    match out {
        WsOutput::Reply(m) => Some(m),
        WsOutput::ReplyAndClose(m) => Some(m),
        _ => None,
    }
}

/// One widget connection.
pub struct WsConnection {
    phase: WsPhase,
}

impl WsConnection {
    pub closed spec fn phase_spec(&self) -> WsPhase {
        self.phase
    }

    pub fn new() -> (r: Self)
        ensures
            r.phase_spec() == WsPhase::Handshake,
    {
        WsConnection { phase: WsPhase::Handshake }
    }

    pub fn phase(&self) -> (r: WsPhase)
        ensures
            r == self.phase_spec(),
    {
        self.phase
    }

    /// Decides what `input` leads to. The first widget message must
    /// authenticate: an unreadable one closes the connection, and any
    /// answer but a successful authentication is sent and then the
    /// connection closes. Once streaming, spin events are passed on and
    /// widget messages answered; unreadable ones are ignored. A closed
    /// connection stays closed.
    pub fn step(
        &mut self,
        access_key: &str,
        queue: &mut InMemoryQueueRepository,
        input: WsInput,
    ) -> (r: WsOutput)
        ensures
            final(self).phase_spec() == next_phase(old(self).phase_spec(), input, reply_of(r)),
            old(self).phase_spec() is Closed ==> r is Close && *final(queue) == *old(queue),
            old(self).phase_spec() is Handshake ==> match input {
                WsInput::Client(Some(_)) => (r matches WsOutput::Reply(m) && m is AuthOk)
                    || (r matches WsOutput::ReplyAndClose(m) && !(m is AuthOk)),
                WsInput::Broadcast(_) | WsInput::Lagged(_) => r is Nothing,
                _ => r is Close,
            },
            old(self).phase_spec() is Streaming ==> match input {
                WsInput::Client(Some(_)) => r is Reply,
                WsInput::Client(None) | WsInput::Lagged(_) => r is Nothing,
                WsInput::Broadcast(j) => r matches WsOutput::Forward(f) && f == j,
                _ => r is Close,
            },
            old(self).phase_spec() is Streaming ==> (final(self).phase_spec() is Streaming <==> !(
            input is ClientGone || input is SendFailed || input is BroadcastClosed)),
            old(self).phase_spec() is Streaming ==> (final(self).phase_spec() is Closed <==> (
            input is ClientGone || input is SendFailed || input is BroadcastClosed)),
            old(self).phase_spec() is Closed ==> final(self).phase_spec() is Closed,
            !(old(self).phase_spec() is Closed) ==> match input {
                WsInput::Client(Some(m)) => reply_of(r) matches Some(rep) && message_outcome(
                    access_key@,
                    old(queue).entries(),
                    final(queue).entries(),
                    m,
                    rep,
                ),
                _ => true,
            },
            !(input is Client) ==> *final(queue) == *old(queue),
            input matches WsInput::Client(None) ==> *final(queue) == *old(queue),
            old(queue).wf() ==> final(queue).wf(),
    {
        match self.phase {
            WsPhase::Closed => WsOutput::Close,
            WsPhase::Handshake => match input {
                WsInput::Client(Some(msg)) => {
                    let reply = handle_message(access_key, queue, msg);
                    match reply {
                        ServerMessage::AuthOk => {
                            self.phase = WsPhase::Streaming;
                            WsOutput::Reply(reply)
                        },
                        _ => {
                            self.phase = WsPhase::Closed;
                            WsOutput::ReplyAndClose(reply)
                        },
                    }
                },
                WsInput::Broadcast(_) | WsInput::Lagged(_) => WsOutput::Nothing,
                _ => {
                    self.phase = WsPhase::Closed;
                    WsOutput::Close
                },
            },
            WsPhase::Streaming => match input {
                WsInput::Client(Some(msg)) => WsOutput::Reply(handle_message(access_key, queue, msg)),
                WsInput::Client(None) => WsOutput::Nothing,
                WsInput::Lagged(_) => WsOutput::Nothing,
                WsInput::Broadcast(json) => WsOutput::Forward(json),
                _ => {
                    self.phase = WsPhase::Closed;
                    WsOutput::Close
                },
            },
        }
    }
}

/// Nothing reaches the widget before it authenticates: in the handshake,
/// no input leads to a spin event being passed on, and only a successful
/// authentication opens the stream.
pub proof fn lemma_stream_needs_auth(input: WsInput, reply: Option<ServerMessage>)
    requires
        next_phase(WsPhase::Handshake, input, reply) is Streaming,
    ensures
        reply matches Some(ServerMessage::AuthOk),
        input is Client,
{
}

/// An authenticated connection keeps streaming: answering a widget message
/// (readable or not), passing a spin event on or skipping lagged events
/// leaves it streaming, whatever the answer was. Only the widget going
/// away, a failed send or the end of the spin events close it.
pub proof fn lemma_streaming_stays_open(input: WsInput, reply: Option<ServerMessage>)
    ensures
        next_phase(WsPhase::Streaming, input, reply) is Streaming <==> !(input is ClientGone
            || input is SendFailed || input is BroadcastClosed),
        next_phase(WsPhase::Streaming, input, reply) is Closed <==> (input is ClientGone
            || input is SendFailed || input is BroadcastClosed),
        next_phase(WsPhase::Streaming, input, reply) !is Handshake,
{
}

/// A closed connection stays closed, whatever happens on it.
pub proof fn lemma_closed_stays_closed(input: WsInput, reply: Option<ServerMessage>)
    ensures
        next_phase(WsPhase::Closed, input, reply) is Closed,
{
}

} // verus!
