//! The notification multiplexer: the connection state of the two pull-based
//! transports, the policy that connects a faulted transport again, and the
//! channel that all three transports deliver into.
//!
//! The multiplexer decides; the caller acts. Each thing that happens to a
//! transport is handed in as a [`LinkEvent`], and the answer is the
//! [`LinkAction`] to perform. No event of a transport touches the other
//! transport's state or the channel.

use vstd::prelude::*;
use crate::api::paid_invoice_stream::RETRY_DELAY_MS;
use crate::channel::{ChannelState, NotificationChannel, Rejected, CHANNEL_CAPACITY};
use crate::json::opt_text;
use crate::text::texts;

verus! {

/// The connection state of a pull-based transport.
#[derive(Clone, Copy, Debug, PartialEq, Eq, Structural)]
pub enum ConnectionState {
    /// Not subscribed, or cancelled.
    Disconnected,
    /// A connection attempt is under way.
    Connecting,
    /// Connected and reading.
    Streaming,
    /// The connection attempt or the stream failed; waiting to try again.
    Faulted,
}

/// A transport that the multiplexer connects and reads by itself.
#[derive(Clone, Copy, Debug, PartialEq, Eq, Structural)]
pub enum PullTransport {
    /// The server-sent-event stream.
    Sse,
    /// The WebSocket.
    WebSocket,
}

/// The kinds of failure in the pipeline.
#[derive(Clone, Copy, Debug, PartialEq, Eq, Structural)]
pub enum PipelineError {
    /// The first request or the handshake failed, or did not finish in time.
    ConnectFailed,
    /// A read failed, or the stream ended, after a successful connect.
    StreamRead,
    /// A frame did not have the shape of a payment notification.
    Malformed,
    /// The consumer's side of the channel is gone.
    ChannelClosed,
}

/// What is done about a failure.
#[derive(Clone, Copy, Debug, PartialEq, Eq, Structural)]
pub enum Handling {
    /// Drop the frame and go on; the application never hears of it.
    Absorb,
    /// Connect again after the retry delay.
    Reconnect,
    /// End the producing task.
    Exit,
}

/// What happened to a transport.
#[derive(Clone, Copy, Debug, PartialEq, Eq, Structural)]
pub enum LinkEvent {
    /// The application subscribed to the transport.
    Subscribe,
    /// The connection attempt succeeded.
    Connected,
    /// Something failed.
    Failure(PipelineError),
    /// The retry delay has passed.
    RetryElapsed,
    /// The application cancelled the subscription.
    Cancel,
}

/// What the caller does for a transport.
#[derive(Clone, Copy, Debug, PartialEq, Eq, Structural)]
pub enum LinkAction {
    /// Nothing.
    Idle,
    /// Start a connection attempt.
    Connect,
    /// Start reading.
    Read,
    /// Wait for the given number of milliseconds, then report
    /// [`LinkEvent::RetryElapsed`].
    RetryAfter(u64),
    /// Close the connection and stop the supervising loop.
    Close,
}

/// How each kind of failure is handled: a malformed frame is absorbed, a
/// failed connect or read leads to a new connection, and a closed channel
/// ends the task.
pub open spec fn handling_of(error: PipelineError) -> Handling {
    match error {
        PipelineError::Malformed => Handling::Absorb,
        PipelineError::ConnectFailed | PipelineError::StreamRead => Handling::Reconnect,
        PipelineError::ChannelClosed => Handling::Exit,
    }
}

/// Whether a connection is open or being opened.
pub open spec fn is_live(state: ConnectionState) -> bool {
    state == ConnectionState::Connecting || state == ConnectionState::Streaming
}

/// The transition of one transport: the state after `event`, and the action
/// to perform.
///
/// A subscription connects a disconnected transport. A successful attempt
/// starts the stream. A failed connect or read faults a live transport, which
/// is connected again once the retry delay has passed, any number of times.
/// A closed channel or a cancellation disconnects. An event that does not
/// apply to the state changes nothing.
pub open spec fn transition(state: ConnectionState, event: LinkEvent) -> (
    ConnectionState,
    LinkAction,
) {
    match event {
        LinkEvent::Subscribe => if state == ConnectionState::Disconnected {
            (ConnectionState::Connecting, LinkAction::Connect)
        } else {
            (state, LinkAction::Idle)
        },
        LinkEvent::Connected => if state == ConnectionState::Connecting {
            (ConnectionState::Streaming, LinkAction::Read)
        } else {
            (state, LinkAction::Idle)
        },
        LinkEvent::Failure(error) => match handling_of(error) {
            Handling::Absorb => (state, LinkAction::Idle),
            Handling::Reconnect => if is_live(state) {
                (ConnectionState::Faulted, LinkAction::RetryAfter(RETRY_DELAY_MS))
            } else {
                (state, LinkAction::Idle)
            },
            Handling::Exit => if state == ConnectionState::Disconnected {
                (state, LinkAction::Idle)
            } else {
                (ConnectionState::Disconnected, LinkAction::Close)
            },
        },
        LinkEvent::RetryElapsed => if state == ConnectionState::Faulted {
            (ConnectionState::Connecting, LinkAction::Connect)
        } else {
            (state, LinkAction::Idle)
        },
        LinkEvent::Cancel => if state == ConnectionState::Disconnected {
            (state, LinkAction::Idle)
        } else {
            (ConnectionState::Disconnected, LinkAction::Close)
        },
    }
}

/// Says how a failure is handled.
pub fn handling(error: PipelineError) -> (r: Handling)
    ensures
        r == handling_of(error),
{
    match error {
        PipelineError::Malformed => Handling::Absorb,
        PipelineError::ConnectFailed => Handling::Reconnect,
        PipelineError::StreamRead => Handling::Reconnect,
        PipelineError::ChannelClosed => Handling::Exit,
    }
}

impl ConnectionState {
    /// Applies one event to the state and says what to do.
    pub fn on_event(self, event: LinkEvent) -> (r: (ConnectionState, LinkAction))
        ensures
            r == transition(self, event),
    {
        let unchanged = (self, LinkAction::Idle);
        match event {
            LinkEvent::Subscribe => match self {
                ConnectionState::Disconnected => (ConnectionState::Connecting, LinkAction::Connect),
                _ => unchanged,
            },
            LinkEvent::Connected => match self {
                ConnectionState::Connecting => (ConnectionState::Streaming, LinkAction::Read),
                _ => unchanged,
            },
            LinkEvent::Failure(error) => match handling(error) {
                Handling::Absorb => unchanged,
                Handling::Reconnect => match self {
                    ConnectionState::Connecting | ConnectionState::Streaming => (
                        ConnectionState::Faulted,
                        LinkAction::RetryAfter(RETRY_DELAY_MS),
                    ),
                    _ => unchanged,
                },
                Handling::Exit => match self {
                    ConnectionState::Disconnected => unchanged,
                    _ => (ConnectionState::Disconnected, LinkAction::Close),
                },
            },
            LinkEvent::RetryElapsed => match self {
                ConnectionState::Faulted => (ConnectionState::Connecting, LinkAction::Connect),
                _ => unchanged,
            },
            LinkEvent::Cancel => match self {
                ConnectionState::Disconnected => unchanged,
                _ => (ConnectionState::Disconnected, LinkAction::Close),
            },
        }
    }

    /// Whether the transport is down: faulted and waiting to be connected
    /// again.
    pub fn is_down(self) -> (r: bool)
        ensures
            r == (self == ConnectionState::Faulted),
    {
        match self {
            ConnectionState::Faulted => true,
            _ => false,
        }
    }
}

/// What a multiplexer holds: the state of each pull-based transport, and the
/// channel.
pub ghost struct MultiplexerState {
    pub sse: ConnectionState,
    pub websocket: ConnectionState,
    pub channel: ChannelState,
}

impl MultiplexerState {
    /// The state of one transport.
    pub open spec fn link(self, transport: PullTransport) -> ConnectionState {
        match transport {
            PullTransport::Sse => self.sse,
            PullTransport::WebSocket => self.websocket,
        }
    }

    /// The multiplexer after `event` on `transport`: that transport's state
    /// moves by [`transition`]; the other transport and the channel stay as
    /// they are.
    pub open spec fn after_event(self, transport: PullTransport, event: LinkEvent) -> MultiplexerState {
        match transport {
            PullTransport::Sse => MultiplexerState {
                sse: transition(self.sse, event).0,
                ..self
            },
            PullTransport::WebSocket => MultiplexerState {
                websocket: transition(self.websocket, event).0,
                ..self
            },
        }
    }

    /// The multiplexer after a hash was offered to its channel.
    pub open spec fn after_deliver(self, hash: Seq<char>) -> MultiplexerState {
        MultiplexerState { channel: self.channel.after_send(hash), ..self }
    }

    /// The multiplexer after the consumer has received from its channel.
    pub open spec fn after_take(self) -> MultiplexerState {
        MultiplexerState { channel: self.channel.after_recv(), ..self }
    }
}

/// The owner of the channel and of the transports' connection states.
#[derive(Debug)]
pub struct Multiplexer {
    sse: ConnectionState,
    websocket: ConnectionState,
    channel: NotificationChannel,
}

impl View for Multiplexer {
    type V = MultiplexerState;

    closed spec fn view(&self) -> MultiplexerState {
        MultiplexerState { sse: self.sse, websocket: self.websocket, channel: self.channel@ }
    }
}

impl Multiplexer {
    /// The multiplexer's invariant: its channel is valid.
    pub open spec fn wf(&self) -> bool {
        self@.channel.valid()
    }

    /// A multiplexer with both transports disconnected and an empty channel
    /// of [`CHANNEL_CAPACITY`] slots.
    pub fn new() -> (r: Multiplexer)
        ensures
            r.wf(),
            r@ == (MultiplexerState {
                sse: ConnectionState::Disconnected,
                websocket: ConnectionState::Disconnected,
                channel: ChannelState {
                    queue: Seq::empty(),
                    capacity: CHANNEL_CAPACITY as nat,
                    closed: false,
                },
            }),
    {
        Multiplexer {
            sse: ConnectionState::Disconnected,
            websocket: ConnectionState::Disconnected,
            channel: NotificationChannel::new(),
        }
    }

    /// The connection state of a transport.
    pub fn state(&self, transport: PullTransport) -> (r: ConnectionState)
        ensures
            r == self@.link(transport),
    {
        match transport {
            PullTransport::Sse => self.sse,
            PullTransport::WebSocket => self.websocket,
        }
    }

    /// Whether a transport is currently down.
    pub fn is_down(&self, transport: PullTransport) -> (r: bool)
        ensures
            r == (self@.link(transport) == ConnectionState::Faulted),
    {
        self.state(transport).is_down()
    }

    /// The number of hashes waiting in the channel.
    pub fn queued(&self) -> (r: usize)
        ensures
            r == self@.channel.queue.len(),
    {
        self.channel.len()
    }

    /// Whether the channel has been closed.
    pub fn is_closed(&self) -> (r: bool)
        ensures
            r == self@.channel.closed,
    {
        self.channel.is_closed()
    }

    /// Hands in what happened to a transport and returns what to do.
    pub fn handle(&mut self, transport: PullTransport, event: LinkEvent) -> (action: LinkAction)
        ensures
            final(self)@ == old(self)@.after_event(transport, event),
            action == transition(old(self)@.link(transport), event).1,
    {
        match transport {
            PullTransport::Sse => {
                let (next, action) = self.sse.on_event(event);
                self.sse = next;
                action
            },
            PullTransport::WebSocket => {
                let (next, action) = self.websocket.on_event(event);
                self.websocket = next;
                action
            },
        }
    }

    /// Offers a decoded hash to the channel, from any transport. Every hash
    /// offered is queued, a repeated one too, unless the channel is full or
    /// closed; then it comes back with the reason.
    pub fn deliver(&mut self, hash: String) -> (r: Result<(), Rejected>)
        requires
            old(self).wf(),
        ensures
            final(self).wf(),
            final(self)@ == old(self)@.after_deliver(hash@),
            match r {
                Ok(_) => old(self)@.channel.send_outcome() is None,
                Err(rejected) => old(self)@.channel.send_outcome() == Some(rejected.reason)
                    && rejected.hash == hash,
            },
    {
        self.channel.try_send(hash)
    }

    /// Offers the hashes that one read of a transport produced, in the order
    /// of their frames. Those that the channel has no room for come back, in
    /// order: the producer waits for the consumer and offers them again
    /// before it reads on, so that nothing is dropped or reordered.
    pub fn deliver_all(&mut self, hashes: Vec<String>) -> (rest: Vec<String>)
        requires
            old(self).wf(),
        ensures
            final(self).wf(),
            final(self)@ == (MultiplexerState {
                channel: ChannelState {
                    queue: old(self)@.channel.queue + texts(hashes@).take(
                        old(self)@.channel.room_for(hashes@.len()) as int,
                    ),
                    ..old(self)@.channel
                },
                ..old(self)@
            }),
            texts(rest@) == texts(hashes@).skip(
                old(self)@.channel.room_for(hashes@.len()) as int,
            ),
    {
        self.channel.send_all(hashes)
    }

    /// Takes the oldest hash out of the channel for the application.
    pub fn take(&mut self) -> (r: Option<String>)
        requires
            old(self).wf(),
        ensures
            final(self).wf(),
            final(self)@ == old(self)@.after_take(),
            opt_text(r) == old(self)@.channel.front(),
    {
        self.channel.recv()
    }

    /// Closes the channel when the consumer goes away. What is queued stays
    /// queued, and the transports' states are unchanged.
    pub fn close_channel(&mut self)
        ensures
            final(self)@ == (MultiplexerState {
                channel: ChannelState { closed: true, ..old(self)@.channel },
                ..old(self)@
            }),
    {
        self.channel.close();
    }
}

/// A stream that fails is connected again, and nothing already in the channel
/// is lost on the way.
///
/// A read failure on a streaming transport faults it and asks for the retry
/// delay; when the delay has passed the transport is connecting again. The
/// channel and the other transport are the same before and after.
pub proof fn law_failed_stream_reconnects(state: MultiplexerState, transport: PullTransport)
    requires
        state.link(transport) == ConnectionState::Streaming,
    ensures
        ({
            let failure = LinkEvent::Failure(PipelineError::StreamRead);
            let faulted = state.after_event(transport, failure);
            let retried = faulted.after_event(transport, LinkEvent::RetryElapsed);
            &&& transition(state.link(transport), failure).1 == LinkAction::RetryAfter(
                RETRY_DELAY_MS,
            )
            &&& faulted.link(transport) == ConnectionState::Faulted
            &&& faulted.channel == state.channel
            &&& transition(faulted.link(transport), LinkEvent::RetryElapsed).1
                == LinkAction::Connect
            &&& retried.link(transport) == ConnectionState::Connecting
            &&& retried.channel == state.channel
        }),
{
}

/// No event of one transport changes the channel or the other transport.
pub proof fn law_events_are_local(
    state: MultiplexerState,
    transport: PullTransport,
    other: PullTransport,
    event: LinkEvent,
)
    requires
        other != transport,
    ensures
        state.after_event(transport, event).channel == state.channel,
        state.after_event(transport, event).link(other) == state.link(other),
{
}

/// A cancelled transport stays disconnected: neither a late failure nor a
/// late retry timer connects it again. Only a new subscription does.
pub proof fn law_cancel_is_final(state: ConnectionState, late: LinkEvent)
    requires
        late != LinkEvent::Subscribe,
    ensures
        transition(state, LinkEvent::Cancel).0 == ConnectionState::Disconnected,
        transition(ConnectionState::Disconnected, late) == (
            ConnectionState::Disconnected,
            LinkAction::Idle,
        ),
{
}

/// A transport that cannot be reached is tried again without end: from the
/// faulted state, a retry followed by another failure is the faulted state
/// again.
pub proof fn law_retry_is_unbounded(error: PipelineError)
    requires
        handling_of(error) == Handling::Reconnect,
    ensures
        ({
            let connecting = transition(ConnectionState::Faulted, LinkEvent::RetryElapsed).0;
            transition(connecting, LinkEvent::Failure(error)).0 == ConnectionState::Faulted
        }),
{
}

} // verus!
