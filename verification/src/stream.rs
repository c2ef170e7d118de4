//! The life of one event stream: subscribed, streaming, and closing.
//!
//! A stream is driven one step at a time. Each step looks at the shutdown
//! signal and at what the bus has for the stream's subscriber, moves the
//! stream to its next state and says what the connection must do.

use vstd::prelude::*;
use crate::bus::{Bus, BusClosed, BusView, Received, ReceivedView};

verus! {

/// Where a stream stands.
#[derive(Debug, Clone, Copy, PartialEq, Eq, Structural)]
pub enum StreamState {
    /// Subscribed to the bus; nothing delivered yet.
    Subscribed,
    /// At least one message has been delivered.
    Streaming,
    /// The stream has ended. This state is never left.
    Closing,
}

/// What a stream is woken by, as a mathematical value.
pub enum SignalView {
    /// The outcome of trying to receive from the bus.
    Received(ReceivedView),
    /// The process is shutting down.
    Shutdown,
}

/// What a stream is woken by.
#[derive(Debug, PartialEq, Eq)]
pub enum Signal {
    /// The outcome of trying to receive from the bus.
    Received(Received),
    /// The process is shutting down.
    Shutdown,
}

impl View for Signal {
    type V = SignalView;

    open spec fn view(&self) -> SignalView {
        match self {
            Signal::Received(received) => SignalView::Received(received@),
            Signal::Shutdown => SignalView::Shutdown,
        }
    }
}

/// What the connection must do after a step, as a mathematical value.
pub enum ActionView {
    /// Send one event with this payload, then step again.
    Emit(Seq<char>),
    /// Send nothing and step again at once.
    Retry,
    /// Send nothing and step again when something was published or the
    /// process shuts down.
    Wait,
    /// Close the connection cleanly.
    Close,
}

/// What the connection must do after a step.
#[derive(Debug, PartialEq, Eq)]
pub enum Action {
    /// Send one event with this payload, then step again.
    Emit(String),
    /// Send nothing and step again at once.
    Retry,
    /// Send nothing and step again when something was published or the
    /// process shuts down.
    Wait,
    /// Close the connection cleanly.
    Close,
}

impl View for Action {
    type V = ActionView;

    open spec fn view(&self) -> ActionView {
        match self {
            Action::Emit(payload) => ActionView::Emit(payload@),
            Action::Retry => ActionView::Retry,
            Action::Wait => ActionView::Wait,
            Action::Close => ActionView::Close,
        }
    }
}

/// The state machine of a stream. A closed stream stays closed and sends
/// nothing. Otherwise shutdown and the end of the bus close the stream, a
/// message is sent on as its JSON payload, a skipped gap is passed over in
/// silence, and an empty bus means waiting.
pub open spec fn step(state: StreamState, signal: SignalView) -> (StreamState, ActionView) {
    if state == StreamState::Closing {
        (StreamState::Closing, ActionView::Close)
    } else {
        match signal {
            SignalView::Shutdown => (StreamState::Closing, ActionView::Close),
            SignalView::Received(ReceivedView::Closed) => (StreamState::Closing, ActionView::Close),
            SignalView::Received(ReceivedView::Message(message)) => (
                StreamState::Streaming,
                ActionView::Emit(message.json()),
            ),
            SignalView::Received(ReceivedView::Lagged) => (state, ActionView::Retry),
            SignalView::Received(ReceivedView::Empty) => (state, ActionView::Wait),
        }
    }
}

/// Takes one step of the state machine.
pub fn transition(state: StreamState, signal: Signal) -> (next: (StreamState, Action))
    ensures
        (next.0, next.1@) == step(state, signal@),
{
    match state {
        StreamState::Closing => (StreamState::Closing, Action::Close),
        _ => match signal {
            Signal::Shutdown => (StreamState::Closing, Action::Close),
            Signal::Received(Received::Closed) => (StreamState::Closing, Action::Close),
            Signal::Received(Received::Message(message)) => (
                StreamState::Streaming,
                Action::Emit(message.to_json()),
            ),
            Signal::Received(Received::Lagged) => (state, Action::Retry),
            Signal::Received(Received::Empty) => (state, Action::Wait),
        },
    }
}

/// One event stream: a subscriber of the bus and the state of its connection.
#[derive(Debug, PartialEq, Eq)]
pub struct Stream {
    /// The handle of this stream's subscriber.
    pub receiver: usize,
    /// Where the stream stands.
    pub state: StreamState,
}

impl Stream {
    /// Opens a stream by subscribing to the bus. The stream sees only what is
    /// published from now on. A closed bus opens no stream.
    pub fn open(queue: &mut Bus) -> (opened: Result<Stream, BusClosed>)
        ensures
            final(queue)@.wf(),
            old(queue)@.closed ==> opened is Err && final(queue)@ == old(queue)@,
            !old(queue)@.closed ==> opened is Ok && opened->Ok_0.state == StreamState::Subscribed
                && old(queue)@.is_next_id(opened->Ok_0.receiver as nat) && final(queue)@ == old(
                queue,
            )@.subscribe(opened->Ok_0.receiver as nat),
    {
        match queue.subscribe() {
            Ok(receiver) => Ok(Stream { receiver, state: StreamState::Subscribed }),
            Err(closed) => Err(closed),
        }
    }

    /// What wakes this stream now: shutdown if it was signalled, whatever is
    /// pending on the bus or not, and else the outcome of receiving.
    pub open spec fn signal(self, queue: BusView, end: bool) -> SignalView {
        if end {
            SignalView::Shutdown
        } else {
            SignalView::Received(queue.outcome(self.receiver as nat))
        }
    }

    /// The bus after this stream took a step: a closed stream leaves the bus
    /// alone, a stream that closes gives up its subscription, and a stream
    /// that goes on has tried to receive.
    pub open spec fn bus_after(self, queue: BusView, end: bool) -> BusView {
        if self.state == StreamState::Closing {
            queue
        } else if end {
            queue.unsubscribe(self.receiver as nat)
        } else if queue.outcome(self.receiver as nat) == ReceivedView::Closed {
            queue.unsubscribe(self.receiver as nat)
        } else {
            queue.after_receive(self.receiver as nat)
        }
    }
}

} // verus!
