//! A minimal real-time chat relay: short messages are submitted one at a time
//! and fanned out to every subscriber of a bounded broadcast bus.

use vstd::prelude::*;

pub mod bus;
pub mod json;
pub mod laws;
pub mod message;
pub mod stream;

use crate::bus::{Bus, BusView};
use crate::message::{FieldError, Message, MessageView};
use crate::stream::{step, transition, Action, Signal, Stream, StreamState};

verus! {

/// How many messages the relay's bus retains for subscribers that are slow.
pub const CAPACITY: usize = 1024;

/// Sets the relay up: an open bus that retains `CAPACITY` messages, with
/// nothing published and nobody subscribed.
pub fn rocket() -> (queue: Bus)
    ensures
        queue@ == BusView::new(CAPACITY as nat),
        queue@.wf(),
{
    Bus::new(CAPACITY)
}

/// The bus after a submission: a form within the limits is published, any
/// other leaves the bus as it was.
pub open spec fn submit(queue: BusView, form: MessageView) -> BusView {
    if form.valid() {
        queue.publish(form)
    } else {
        queue
    }
}

/// Handles one submission. A form whose fields are within their limits is
/// published to the bus, and no delivery is acknowledged: the verdict is the
/// same with or without subscribers. Any other form is turned away and never
/// reaches the bus.
pub fn post(form: Message, queue: &mut Bus) -> (verdict: Result<(), FieldError>)
    ensures
        verdict == form@.check(),
        final(queue)@ == submit(old(queue)@, form@),
        final(queue)@.wf(),
{
    match form.validate() {
        Ok(()) => {
            queue.publish(form);
            Ok(())
        },
        Err(error) => {
            proof {
                queue.view_wf();
            }
            Err(error)
        },
    }
}

/// Takes one step of an event stream. `end` tells whether shutdown has been
/// signalled; it ends the stream whatever is pending on the bus.
pub fn events(stream: &mut Stream, queue: &mut Bus, end: bool) -> (action: Action)
    ensures
        (final(stream).state, action@) == step(
            old(stream).state,
            old(stream).signal(old(queue)@, end),
        ),
        final(stream).receiver == old(stream).receiver,
        final(queue)@ == old(stream).bus_after(old(queue)@, end),
        final(queue)@.wf(),
{
    if stream.state == StreamState::Closing {
        proof {
            queue.view_wf();
        }
        return Action::Close;
    }
    let signal = if end {
        Signal::Shutdown
    } else {
        Signal::Received(queue.receive(stream.receiver))
    };
    let (state, action) = transition(stream.state, signal);
    if state == StreamState::Closing {
        queue.unsubscribe(stream.receiver);
    }
    stream.state = state;
    action
}

} // verus!
